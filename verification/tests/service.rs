use fhe_server::ops::OpKind;
use fhe_server::service::{
    div64_service, mul64_service, sub_service, Div64Request, Mul64Request, OpRequest64, OpRequest8,
    Phase, SubRequest,
};

#[test]
fn sub_request_walks_the_whole_session() {
    let mut session = OpRequest8::begin(OpKind::Sub, 5, 10);
    assert_eq!(session.phase, Phase::Started);
    session.context_activated();
    assert_eq!(session.phase, Phase::ContextReady);
    session.operands_encrypted();
    assert_eq!(session.phase, Phase::Encrypted);
    session.operator_applied();
    assert_eq!(session.phase, Phase::Computed);
    // a collaborator meeting its round-trip contract decrypts 251 here
    let result = session.finish(251);
    assert_eq!(result, 251);
}

#[test]
fn session_keeps_its_operands() {
    let mut session = OpRequest64::begin(OpKind::Mul, 1_000_000_000_000, 5);
    session.context_activated();
    session.operands_encrypted();
    session.operator_applied();
    assert_eq!(session.kind, OpKind::Mul);
    assert_eq!(session.a, 1_000_000_000_000);
    assert_eq!(session.b, 5);
    assert_eq!(session.finish(5_000_000_000_000), 5_000_000_000_000);
}

#[test]
fn sub_service_hands_the_decrypted_value_back() {
    let req = SubRequest { a: 5, b: 10 };
    let resp = sub_service(&req, 251);
    assert_eq!(resp.result, 251);
}

#[test]
fn mul64_service_hands_the_decrypted_value_back() {
    let req = Mul64Request { a: 1_000_000_000_000, b: 5 };
    let resp = mul64_service(&req, 5_000_000_000_000);
    assert_eq!(resp.result, 5_000_000_000_000);
}

#[test]
fn div64_service_hands_the_decrypted_value_back() {
    // divisor 0: the documented quotient is the all-ones value
    let req = Div64Request { a: 100, b: 0 };
    let resp = div64_service(&req, u64::MAX);
    assert_eq!(resp.result, u64::MAX);
}
