use vstd::prelude::*;
use super::operation::BinOperator;
use super::register::{RegisterClass, RegisterName};

verus! {

/// The arithmetic that the machine does not perform itself on the lanes of
/// the classes `F` and `G`.
#[derive(Debug, PartialEq, Eq, Structural, Clone, Copy)]
pub enum FloatOperator {
    Add,
    Subtract,
    Multiply,
    Divide,
}

/// One IEEE-754 operation that is left to the host of the machine: the
/// operator, the bit patterns of the two operands, and the register that
/// receives the result. The class of `dst` (`F` or `G`) gives the precision.
#[derive(Debug, PartialEq, Eq, Structural, Clone, Copy)]
pub struct FloatRequest {
    pub op: FloatOperator,
    pub lhs: u64,
    pub rhs: u64,
    pub dst: RegisterName,
}

/// The operator of a request that stands for one of the four arithmetic
/// operators.
pub open spec fn float_operator(op: BinOperator) -> FloatOperator {
    match op {
        BinOperator::Subtract => FloatOperator::Subtract,
        BinOperator::Multiply => FloatOperator::Multiply,
        BinOperator::Divide => FloatOperator::Divide,
        _ => FloatOperator::Add,
    }
}

/// The bit pattern of the number one in a class of IEEE-754 numbers.
pub open spec fn float_one(class: RegisterClass) -> u64 {
    if class == RegisterClass::F {
        0x3f80_0000
    } else {
        0x3ff0_0000_0000_0000
    }
}

/// The bit pattern of positive infinity: all exponent bits set, no fraction bit.
pub open spec fn float_infinity(class: RegisterClass) -> int {
    if class == RegisterClass::F {
        0x7f80_0000
    } else {
        0x7ff0_0000_0000_0000
    }
}

/// The value of the lowest bit that is not part of the magnitude: the sign bit.
pub open spec fn float_sign_bit(class: RegisterClass) -> int {
    if class == RegisterClass::F {
        0x8000_0000
    } else {
        0x8000_0000_0000_0000
    }
}

/// A bit pattern without its sign bit.
pub open spec fn float_magnitude(class: RegisterClass, bits: u64) -> int {
    bits as int % float_sign_bit(class)
}

/// Whether a bit pattern is not a number: its exponent bits are all set and
/// some fraction bit is set.
pub open spec fn float_is_nan(class: RegisterClass, bits: u64) -> bool {
    float_magnitude(class, bits) > float_infinity(class)
}

/// An integer that orders the bit patterns of numbers as IEEE-754 orders the
/// numbers themselves: the magnitude, negative where the sign bit is set.
/// Both zeros have rank zero.
pub open spec fn float_rank(class: RegisterClass, bits: u64) -> int {
    if bits as int >= float_sign_bit(class) {
        -float_magnitude(class, bits)
    } else {
        float_magnitude(class, bits)
    }
}

/// The IEEE-754 comparison of two bit patterns: whenever one of them is not
/// a number, only "not equal" holds.
pub open spec fn float_compare(op: BinOperator, class: RegisterClass, x: u64, y: u64) -> bool {
    let ordered = !float_is_nan(class, x) && !float_is_nan(class, y);
    let p = float_rank(class, x);
    let q = float_rank(class, y);
    match op {
        BinOperator::Equals => ordered && p == q,
        BinOperator::NotEquals => !(ordered && p == q),
        BinOperator::LessThan => ordered && p < q,
        BinOperator::GreaterThan => ordered && p > q,
        BinOperator::LessThanEqualTo => ordered && p <= q,
        BinOperator::GreaterThanEqualTo => ordered && p >= q,
        _ => false,
    }
}

/// Whether a bit pattern is not a number; it is read as one of 32 bits for
/// class `F` and as one of 64 bits for every other class.
pub fn is_nan(class: RegisterClass, bits: u64) -> (r: bool)
    ensures
        r == float_is_nan(class, bits),
{
    match class {
        RegisterClass::F => bits % 0x8000_0000 > 0x7f80_0000,
        _ => bits % 0x8000_0000_0000_0000 > 0x7ff0_0000_0000_0000,
    }
}

/// The rank of a bit pattern.
pub fn rank(class: RegisterClass, bits: u64) -> (r: i64)
    ensures
        r == float_rank(class, bits),
{
    match class {
        RegisterClass::F => {
            let magnitude: i64 = (bits % 0x8000_0000) as i64;
            if bits >= 0x8000_0000 {
                -magnitude
            } else {
                magnitude
            }
        },
        _ => {
            let magnitude: i64 = (bits % 0x8000_0000_0000_0000) as i64;
            if bits >= 0x8000_0000_0000_0000 {
                -magnitude
            } else {
                magnitude
            }
        },
    }
}

/// Compares two bit patterns as the numbers they stand for.
pub fn compare_floats(op: BinOperator, class: RegisterClass, x: u64, y: u64) -> (r: bool)
    ensures
        r == float_compare(op, class, x, y),
{
    let ordered = !is_nan(class, x) && !is_nan(class, y);
    let p = rank(class, x);
    let q = rank(class, y);
    match op {
        BinOperator::Equals => ordered && p == q,
        BinOperator::NotEquals => !(ordered && p == q),
        BinOperator::LessThan => ordered && p < q,
        BinOperator::GreaterThan => ordered && p > q,
        BinOperator::LessThanEqualTo => ordered && p <= q,
        BinOperator::GreaterThanEqualTo => ordered && p >= q,
        _ => false,
    }
}

} // verus!
