use vstd::prelude::*;

verus! {

/// The operators that take two source registers.
#[derive(Debug, PartialEq, Eq, Structural, Clone, Copy)]
pub enum BinOperator {
    Add,
    Subtract,
    Multiply,
    Divide,
    Modulus,
    LeftShift,
    RightShift,
    And,
    Or,
    Xor,
    Equals,
    NotEquals,
    LessThan,
    GreaterThan,
    LessThanEqualTo,
    GreaterThanEqualTo,
}

/// The operators that take one source register.
#[derive(Debug, PartialEq, Eq, Structural, Clone, Copy)]
pub enum UnOperator {
    Not,
    Increment,
    Decrement,
}

impl BinOperator {
    /// The six relational operators; their result is a truth value.
    pub open spec fn is_comparison(self) -> bool {
        self == BinOperator::Equals || self == BinOperator::NotEquals || self
            == BinOperator::LessThan || self == BinOperator::GreaterThan || self
            == BinOperator::LessThanEqualTo || self == BinOperator::GreaterThanEqualTo
    }

    /// The four operators that are also defined on the two real-number classes.
    pub open spec fn is_field_arithmetic(self) -> bool {
        self == BinOperator::Add || self == BinOperator::Subtract || self == BinOperator::Multiply
            || self == BinOperator::Divide
    }

    /// The three bitwise operators, which the truth-value class shares with the integer ones.
    pub open spec fn is_bitwise(self) -> bool {
        self == BinOperator::And || self == BinOperator::Or || self == BinOperator::Xor
    }

    /// Whether the operator is relational.
    pub fn comparison(&self) -> (r: bool)
        ensures
            r == self.is_comparison(),
    {
        match self {
            BinOperator::Equals
            | BinOperator::NotEquals
            | BinOperator::LessThan
            | BinOperator::GreaterThan
            | BinOperator::LessThanEqualTo
            | BinOperator::GreaterThanEqualTo => true,
            _ => false,
        }
    }

    /// Whether the operator is one of add, subtract, multiply and divide.
    pub fn field_arithmetic(&self) -> (r: bool)
        ensures
            r == self.is_field_arithmetic(),
    {
        match self {
            BinOperator::Add
            | BinOperator::Subtract
            | BinOperator::Multiply
            | BinOperator::Divide => true,
            _ => false,
        }
    }

    /// Whether the operator is one of and, or and xor.
    pub fn bitwise(&self) -> (r: bool)
        ensures
            r == self.is_bitwise(),
    {
        match self {
            BinOperator::And | BinOperator::Or | BinOperator::Xor => true,
            _ => false,
        }
    }
}

} // verus!
