use vstd::prelude::*;
use crate::ops::OpKind;
use crate::ops::op_result_u8;
use crate::ops::op_result_u64;

verus! {

/// Request body of the 8-bit subtraction endpoint.
pub struct SubRequest {
    pub a: u8,
    pub b: u8,
}

/// Response body of the 8-bit subtraction endpoint.
pub struct SubResponse {
    pub result: u8,
}

/// Request body of the 64-bit multiplication endpoint.
pub struct Mul64Request {
    pub a: u64,
    pub b: u64,
}

/// Response body of the 64-bit multiplication endpoint.
pub struct Mul64Response {
    pub result: u64,
}

/// Request body of the 64-bit division endpoint.
pub struct Div64Request {
    pub a: u64,
    pub b: u64,
}

/// Response body of the 64-bit division endpoint.
pub struct Div64Response {
    pub result: u64,
}

/// How far one request's homomorphic work has come on the worker that is
/// executing it.
#[derive(Clone, Copy, PartialEq, Eq, Structural, Debug)]
pub enum Phase {
    /// The evaluation context is not installed for this request yet.
    Started,
    /// The server key was (re-)activated on the executing worker.
    ContextReady,
    /// Both operands were encrypted under the bundle's client key.
    Encrypted,
    /// The homomorphic operator ran on the two ciphertexts.
    Computed,
}

/// One in-flight request at the 8-bit width. The collaborator performs the
/// cryptographic steps; this typestate pins their order per request. Its
/// `requires` chain makes the evaluation-context discipline static: the
/// operator step is reachable only after the activation step of the same
/// request, never on the strength of an activation that some other request
/// performed on some other worker — a continuation that resumes elsewhere
/// must re-activate there before it computes.
pub struct OpRequest8 {
    pub kind: OpKind,
    pub a: u8,
    pub b: u8,
    pub phase: Phase,
}

impl OpRequest8 {
    /// The plaintext the request must decrypt to when the collaborator
    /// meets its round-trip contract.
    pub open spec fn expected(self) -> u8 {
        op_result_u8(self.kind, self.a, self.b)
    }

    /// Open the session for one request.
    pub fn begin(kind: OpKind, a: u8, b: u8) -> (s: Self)
        ensures
            s.kind == kind,
            s.a == a,
            s.b == b,
            s.phase == Phase::Started,
    {
        OpRequest8 { kind, a, b, phase: Phase::Started }
    }

    /// Record that the server key was installed on the worker about to do
    /// this request's homomorphic work.
    pub fn context_activated(&mut self)
        requires
            old(self).phase == Phase::Started,
        ensures
            final(self).phase == Phase::ContextReady,
            final(self).kind == old(self).kind,
            final(self).a == old(self).a,
            final(self).b == old(self).b,
    {
        self.phase = Phase::ContextReady;
    }

    /// Record that both operands were encrypted, independently, under the
    /// client key.
    pub fn operands_encrypted(&mut self)
        requires
            old(self).phase == Phase::ContextReady,
        ensures
            final(self).phase == Phase::Encrypted,
            final(self).kind == old(self).kind,
            final(self).a == old(self).a,
            final(self).b == old(self).b,
    {
        self.phase = Phase::Encrypted;
    }

    /// Record that the homomorphic operator of `kind` ran on the two
    /// ciphertexts.
    pub fn operator_applied(&mut self)
        requires
            old(self).phase == Phase::Encrypted,
        ensures
            final(self).phase == Phase::Computed,
            final(self).kind == old(self).kind,
            final(self).a == old(self).a,
            final(self).b == old(self).b,
    {
        self.phase = Phase::Computed;
    }

    /// Close the request with the collaborator's decrypted result, which
    /// the service hands back unaltered.
    pub fn finish(self, decrypted: u8) -> (r: u8)
        requires
            self.phase == Phase::Computed,
        ensures
            r == decrypted,
            decrypted == self.expected() ==> r == self.expected(),
    {
        decrypted
    }
}

/// One in-flight request at the 64-bit width; the discipline is that of
/// `OpRequest8`.
pub struct OpRequest64 {
    pub kind: OpKind,
    pub a: u64,
    pub b: u64,
    pub phase: Phase,
}

impl OpRequest64 {
    /// The plaintext the request must decrypt to when the collaborator
    /// meets its round-trip contract.
    pub open spec fn expected(self) -> u64 {
        op_result_u64(self.kind, self.a, self.b)
    }

    /// Open the session for one request.
    pub fn begin(kind: OpKind, a: u64, b: u64) -> (s: Self)
        ensures
            s.kind == kind,
            s.a == a,
            s.b == b,
            s.phase == Phase::Started,
    {
        OpRequest64 { kind, a, b, phase: Phase::Started }
    }

    /// Record that the server key was installed on the worker about to do
    /// this request's homomorphic work.
    pub fn context_activated(&mut self)
        requires
            old(self).phase == Phase::Started,
        ensures
            final(self).phase == Phase::ContextReady,
            final(self).kind == old(self).kind,
            final(self).a == old(self).a,
            final(self).b == old(self).b,
    {
        self.phase = Phase::ContextReady;
    }

    /// Record that both operands were encrypted, independently, under the
    /// client key.
    pub fn operands_encrypted(&mut self)
        requires
            old(self).phase == Phase::ContextReady,
        ensures
            final(self).phase == Phase::Encrypted,
            final(self).kind == old(self).kind,
            final(self).a == old(self).a,
            final(self).b == old(self).b,
    {
        self.phase = Phase::Encrypted;
    }

    /// Record that the homomorphic operator of `kind` ran on the two
    /// ciphertexts.
    pub fn operator_applied(&mut self)
        requires
            old(self).phase == Phase::Encrypted,
        ensures
            final(self).phase == Phase::Computed,
            final(self).kind == old(self).kind,
            final(self).a == old(self).a,
            final(self).b == old(self).b,
    {
        self.phase = Phase::Computed;
    }

    /// Close the request with the collaborator's decrypted result, which
    /// the service hands back unaltered.
    pub fn finish(self, decrypted: u64) -> (r: u64)
        requires
            self.phase == Phase::Computed,
        ensures
            r == decrypted,
            decrypted == self.expected() ==> r == self.expected(),
    {
        decrypted
    }
}

/// The computable core of the 8-bit subtraction handler: wrap the
/// decrypted result of the request's session into the response body,
/// unaltered.
pub fn sub_service(req: &SubRequest, decrypted: u8) -> (r: SubResponse)
    ensures
        r.result == decrypted,
        decrypted == op_result_u8(OpKind::Sub, req.a, req.b) ==> r.result == op_result_u8(
            OpKind::Sub,
            req.a,
            req.b,
        ),
{
    SubResponse { result: decrypted }
}

/// The computable core of the 64-bit multiplication handler.
pub fn mul64_service(req: &Mul64Request, decrypted: u64) -> (r: Mul64Response)
    ensures
        r.result == decrypted,
        decrypted == op_result_u64(OpKind::Mul, req.a, req.b) ==> r.result == op_result_u64(
            OpKind::Mul,
            req.a,
            req.b,
        ),
{
    Mul64Response { result: decrypted }
}

/// The computable core of the 64-bit division handler.
pub fn div64_service(req: &Div64Request, decrypted: u64) -> (r: Div64Response)
    ensures
        r.result == decrypted,
        decrypted == op_result_u64(OpKind::Div, req.a, req.b) ==> r.result == op_result_u64(
            OpKind::Div,
            req.a,
            req.b,
        ),
{
    Div64Response { result: decrypted }
}

/// The result a request stands for depends on its operation kind and its
/// operands alone: two requests with equal inputs expect equal results,
/// whichever workers execute them, in whatever order, and on whichever
/// side of a process restart — the bundle's keys never enter the value.
pub proof fn lemma_expected_deterministic_u8(r1: OpRequest8, r2: OpRequest8)
    requires
        r1.kind == r2.kind,
        r1.a == r2.a,
        r1.b == r2.b,
    ensures
        r1.expected() == r2.expected(),
{
}

/// The 64-bit counterpart of `lemma_expected_deterministic_u8`.
pub proof fn lemma_expected_deterministic_u64(r1: OpRequest64, r2: OpRequest64)
    requires
        r1.kind == r2.kind,
        r1.a == r2.a,
        r1.b == r2.b,
    ensures
        r1.expected() == r2.expected(),
{
}

} // verus!
