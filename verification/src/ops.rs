use vstd::prelude::*;

verus! {

/// The four arithmetic operations the service offers.
#[derive(Clone, Copy, PartialEq, Eq, Structural, Debug)]
pub enum OpKind {
    Add,
    Sub,
    Mul,
    Div,
}

/// The plaintext meaning of one operation on 8-bit operands: add, sub and
/// mul wrap modulo 256; div is integer division, and a divisor of 0 yields
/// 255 (all bits set), the documented quotient of the homomorphic divide.
pub open spec fn op_result_u8(kind: OpKind, a: u8, b: u8) -> u8 {
    match kind {
        OpKind::Add => ((a + b) % 256) as u8,
        OpKind::Sub => ((a - b) % 256) as u8,
        OpKind::Mul => ((a * b) % 256) as u8,
        OpKind::Div => if b == 0 { 255u8 } else { (a as int / b as int) as u8 },
    }
}

/// The plaintext meaning of one operation on 64-bit operands: add, sub and
/// mul wrap modulo 2^64; div is integer division, and a divisor of 0 yields
/// u64::MAX (all bits set), the documented quotient of the homomorphic
/// divide.
pub open spec fn op_result_u64(kind: OpKind, a: u64, b: u64) -> u64 {
    match kind {
        OpKind::Add => ((a + b) % 0x1_0000_0000_0000_0000) as u64,
        OpKind::Sub => ((a - b) % 0x1_0000_0000_0000_0000) as u64,
        OpKind::Mul => ((a * b) % 0x1_0000_0000_0000_0000) as u64,
        OpKind::Div => if b == 0 { 0xFFFF_FFFF_FFFF_FFFFu64 } else { (a as int / b as int) as u64 },
    }
}

/// Plaintext reference evaluator for 8-bit operands: the value every
/// request at this width must come back with.
pub fn eval_u8(kind: OpKind, a: u8, b: u8) -> (r: u8)
    ensures
        r == op_result_u8(kind, a, b),
{
    match kind {
        OpKind::Add => {
            let s: u16 = a as u16 + b as u16;
            (s % 256) as u8
        }
        OpKind::Sub => {
            let s: u16 = a as u16 + 256 - b as u16;
            proof {
                assert((a as u16 + 256 - b as u16) % 256 == (a - b) % 256) by {
                    if a >= b {
                        assert(s == (a - b) + 256);
                    }
                };
            }
            (s % 256) as u8
        }
        OpKind::Mul => {
            proof {
                assert(a * b <= 255 * 255) by (nonlinear_arith)
                    requires a <= 255 && b <= 255;
            }
            let p: u32 = a as u32 * b as u32;
            (p % 256) as u8
        }
        OpKind::Div => {
            if b == 0 {
                255
            } else {
                a / b
            }
        }
    }
}

/// Plaintext reference evaluator for 64-bit operands.
pub fn eval_u64(kind: OpKind, a: u64, b: u64) -> (r: u64)
    ensures
        r == op_result_u64(kind, a, b),
{
    match kind {
        OpKind::Add => {
            let s: u128 = a as u128 + b as u128;
            (s % 0x1_0000_0000_0000_0000) as u64
        }
        OpKind::Sub => {
            let s: u128 = a as u128 + 0x1_0000_0000_0000_0000 - b as u128;
            proof {
                assert(
                    (a as u128 + 0x1_0000_0000_0000_0000 - b as u128) % 0x1_0000_0000_0000_0000
                        == (a - b) % 0x1_0000_0000_0000_0000
                ) by {
                    if a >= b {
                        assert(s == (a - b) + 0x1_0000_0000_0000_0000);
                    }
                };
            }
            (s % 0x1_0000_0000_0000_0000) as u64
        }
        OpKind::Mul => {
            proof {
                assert(a * b <= 0xFFFF_FFFF_FFFF_FFFF * 0xFFFF_FFFF_FFFF_FFFF) by (nonlinear_arith)
                    requires a <= 0xFFFF_FFFF_FFFF_FFFF && b <= 0xFFFF_FFFF_FFFF_FFFF;
            }
            let p: u128 = a as u128 * b as u128;
            (p % 0x1_0000_0000_0000_0000) as u64
        }
        OpKind::Div => {
            if b == 0 {
                0xFFFF_FFFF_FFFF_FFFF
            } else {
                a / b
            }
        }
    }
}

} // verus!
