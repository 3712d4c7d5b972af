use vstd::prelude::*;
use super::float::{compare_floats, float_compare};
use super::operation::{BinOperator, UnOperator};
use super::register::RegisterClass;
use crate::error::RuntimeError;

verus! {

/// The combinations of an operator with two source classes and a destination
/// class that the machine defines. The sources always share one class.
/// A comparison takes any class and writes into class `I`; every other
/// operator writes into the class it reads: the integer classes take all of
/// them, `F` and `G` the four arithmetic ones, `I` the three bitwise ones.
pub open spec fn permits_binary(
    op: BinOperator,
    src1: RegisterClass,
    src2: RegisterClass,
    dst: RegisterClass,
) -> bool {
    src1 == src2 && if op.is_comparison() {
        dst == RegisterClass::I
    } else {
        dst == src1 && (src1.is_integer() || (src1.is_float() && op.is_field_arithmetic()) || (src1
            == RegisterClass::I && op.is_bitwise()))
    }
}

/// The combinations of a unary operator with a source and a destination class
/// that the machine defines: source and destination share one class, `not`
/// takes the integer classes and `I`, increment and decrement take the
/// integer classes, `F` and `G`.
pub open spec fn permits_unary(op: UnOperator, src: RegisterClass, dst: RegisterClass) -> bool {
    src == dst && if op == UnOperator::Not {
        src.is_integer() || src == RegisterClass::I
    } else {
        src.is_integer() || src.is_float()
    }
}

/// The result of an operator that is not a comparison on two lanes of an
/// integer class, or of a bitwise operator on two lanes of class `I`.
/// Sums, differences, products and left shifts wrap around at the width of
/// the class, and a shift distance counts modulo that width.
pub open spec fn integer_binary(op: BinOperator, class: RegisterClass, x: u64, y: u64) -> u64 {
    let m = class.modulus();
    match op {
        BinOperator::Add => ((x + y) % m) as u64,
        BinOperator::Subtract => ((x - y) % m) as u64,
        BinOperator::Multiply => ((x * y) % m) as u64,
        BinOperator::Divide => x / y,
        BinOperator::Modulus => x % y,
        BinOperator::LeftShift => ((x << (y % class.bits())) as int % m) as u64,
        BinOperator::RightShift => x >> (y % class.bits()),
        BinOperator::And => x & y,
        BinOperator::Or => x | y,
        BinOperator::Xor => x ^ y,
        _ => 0,
    }
}

/// The result of a unary operator on a lane of an integer class, or of `not`
/// on a lane of class `I`. `not` inverts every bit of the lane; increment and
/// decrement wrap around at the width of the class.
pub open spec fn integer_unary(op: UnOperator, class: RegisterClass, x: u64) -> u64 {
    let m = class.modulus();
    match op {
        UnOperator::Not => if class == RegisterClass::I {
            (1 - x) as u64
        } else {
            (m - 1 - x) as u64
        },
        UnOperator::Increment => ((x + 1) % m) as u64,
        UnOperator::Decrement => ((x - 1) % m) as u64,
    }
}

/// The truth value of a comparison of two lanes of one class. Lanes of the
/// integer classes and of `I` compare as unsigned numbers (false before
/// true), lanes of `F` and `G` as the IEEE-754 numbers they hold.
pub open spec fn compare(op: BinOperator, class: RegisterClass, x: u64, y: u64) -> bool {
    if class.is_float() {
        float_compare(op, class, x, y)
    } else {
        match op {
            BinOperator::Equals => x == y,
            BinOperator::NotEquals => x != y,
            BinOperator::LessThan => x < y,
            BinOperator::GreaterThan => x > y,
            BinOperator::LessThanEqualTo => x <= y,
            BinOperator::GreaterThanEqualTo => x >= y,
            _ => false,
        }
    }
}

/// Decides whether the machine defines a binary operator on three classes.
pub fn binary_permitted(
    op: BinOperator,
    src1: RegisterClass,
    src2: RegisterClass,
    dst: RegisterClass,
) -> (r: bool)
    ensures
        r == permits_binary(op, src1, src2, dst),
{
    if src1 != src2 {
        false
    } else if op.comparison() {
        dst == RegisterClass::I
    } else {
        dst == src1 && (src1.integer() || (src1.float() && op.field_arithmetic()) || (src1
            == RegisterClass::I && op.bitwise()))
    }
}

/// Decides whether the machine defines a unary operator on two classes.
pub fn unary_permitted(op: UnOperator, src: RegisterClass, dst: RegisterClass) -> (r: bool)
    ensures
        r == permits_unary(op, src, dst),
{
    if src != dst {
        false
    } else if op == UnOperator::Not {
        src.integer() || src == RegisterClass::I
    } else {
        src.integer() || src.float()
    }
}

/// Reduces a number to the width of a class.
fn wrap(class: RegisterClass, value: u128) -> (r: u64)
    ensures
        r == value as int % class.modulus(),
{
    match class {
        RegisterClass::A | RegisterClass::I => (value % 0x100) as u64,
        RegisterClass::B => (value % 0x1_0000) as u64,
        RegisterClass::C | RegisterClass::F => (value % 0x1_0000_0000) as u64,
        RegisterClass::D | RegisterClass::G => (value % 0x1_0000_0000_0000_0000) as u64,
    }
}

/// The number of bit patterns of a class.
fn modulus(class: RegisterClass) -> (r: u128)
    ensures
        r == class.modulus(),
{
    match class {
        RegisterClass::A | RegisterClass::I => 0x100,
        RegisterClass::B => 0x1_0000,
        RegisterClass::C | RegisterClass::F => 0x1_0000_0000,
        RegisterClass::D | RegisterClass::G => 0x1_0000_0000_0000_0000,
    }
}

/// The width of a class in bits.
fn bits(class: RegisterClass) -> (r: u64)
    ensures
        r == class.bits(),
        r == 8 || r == 16 || r == 32 || r == 64,
{
    match class {
        RegisterClass::A | RegisterClass::I => 8,
        RegisterClass::B => 16,
        RegisterClass::C | RegisterClass::F => 32,
        RegisterClass::D | RegisterClass::G => 64,
    }
}

/// Applies an operator that is not a comparison to two lanes of an integer
/// class or of class `I`. Division and remainder by zero are refused.
pub(crate) fn operate_binary(op: BinOperator, class: RegisterClass, x: u64, y: u64) -> (r: Result<
    u64,
    RuntimeError,
>)
    requires
        !op.is_comparison(),
        x < class.modulus(),
        y < class.modulus(),
    ensures
        r == if (op == BinOperator::Divide || op == BinOperator::Modulus) && y == 0 {
            Err::<u64, RuntimeError>(RuntimeError::DivisionByZero)
        } else {
            Ok(integer_binary(op, class, x, y))
        },
{
    let m = modulus(class);
    match op {
        BinOperator::Add => Ok(wrap(class, x as u128 + y as u128)),
        BinOperator::Subtract => Ok(wrap(class, x as u128 + m - y as u128)),
        BinOperator::Multiply => {
            assert(x * y <= 0xffff_ffff_ffff_ffff * 0xffff_ffff_ffff_ffff) by (nonlinear_arith)
                requires
                    x <= 0xffff_ffff_ffff_ffff,
                    y <= 0xffff_ffff_ffff_ffff,
            ;
            Ok(wrap(class, x as u128 * y as u128))
        },
        BinOperator::Divide => {
            if y == 0 {
                Err(RuntimeError::DivisionByZero)
            } else {
                Ok(x / y)
            }
        },
        BinOperator::Modulus => {
            if y == 0 {
                Err(RuntimeError::DivisionByZero)
            } else {
                Ok(x % y)
            }
        },
        BinOperator::LeftShift => {
            let distance = y % bits(class);
            Ok(wrap(class, (x << distance) as u128))
        },
        BinOperator::RightShift => {
            let distance = y % bits(class);
            Ok(x >> distance)
        },
        BinOperator::And => Ok(x & y),
        BinOperator::Or => Ok(x | y),
        BinOperator::Xor => Ok(x ^ y),
        _ => Ok(0),
    }
}

/// Applies a unary operator to a lane of an integer class, or `not` to a lane
/// of class `I`.
pub(crate) fn operate_unary(op: UnOperator, class: RegisterClass, x: u64) -> (r: u64)
    requires
        x < class.modulus(),
        class == RegisterClass::I ==> x <= 1,
    ensures
        r == integer_unary(op, class, x),
{
    let m = modulus(class);
    match op {
        UnOperator::Not => {
            if class == RegisterClass::I {
                1 - x
            } else {
                (m - 1 - x as u128) as u64
            }
        },
        UnOperator::Increment => wrap(class, x as u128 + 1),
        UnOperator::Decrement => wrap(class, x as u128 + m - 1),
    }
}

/// Compares two lanes of one class.
pub fn compare_lanes(op: BinOperator, class: RegisterClass, x: u64, y: u64) -> (r: bool)
    ensures
        r == compare(op, class, x, y),
{
    if class.float() {
        compare_floats(op, class, x, y)
    } else {
        match op {
            BinOperator::Equals => x == y,
            BinOperator::NotEquals => x != y,
            BinOperator::LessThan => x < y,
            BinOperator::GreaterThan => x > y,
            BinOperator::LessThanEqualTo => x <= y,
            BinOperator::GreaterThanEqualTo => x >= y,
            _ => false,
        }
    }
}

} // verus!
