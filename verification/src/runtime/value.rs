use vstd::prelude::*;
use crate::lexer::literal::Literal;
use crate::lexer::token::{Token, TokenView};

verus! {

/// What an instruction can take a value from: a literal of the program text,
/// or a variable.
#[derive(Debug, PartialEq, Eq, Clone)]
pub enum Value {
    RValue(Literal),
    LValue(String),
}

/// The mathematical content of a `Value`.
pub enum ValueView {
    RValue(Literal),
    LValue(Seq<char>),
}

impl View for Value {
    type V = ValueView;

    open spec fn view(&self) -> ValueView {
        match self {
            Value::RValue(literal) => ValueView::RValue(*literal),
            Value::LValue(name) => ValueView::LValue(name@),
        }
    }
}

/// The value that a token stands for: an identifier names a variable, a
/// literal is itself; no other token is a value.
pub open spec fn value_of(token: TokenView) -> Option<ValueView> {
    match token {
        TokenView::Identifier(name) => Some(ValueView::LValue(name)),
        TokenView::Literal(literal) => Some(ValueView::RValue(literal)),
        _ => None,
    }
}

impl Value {
    /// Reads a value from a token.
    pub fn try_from(value: Token) -> (r: Result<Value, ()>)
        ensures
            match r {
                Ok(v) => value_of(value@) == Some(v@),
                Err(_) => value_of(value@) is None,
            },
    {
        match value {
            Token::Identifier(name) => Ok(Value::LValue(name)),
            Token::Literal(literal) => Ok(Value::RValue(literal)),
            _ => Err(()),
        }
    }
}

} // verus!
