use vstd::prelude::*;
use crate::errors::{TokenizeError, TokenizeErrorView};
use crate::text::{chars_of, spells};

verus! {

/// The operators of the structured language.
#[derive(Debug, PartialEq, Eq, Structural, Clone, Copy)]
pub enum Operators {
    Add,
    Sub,
    Mul,
    Div,
    Mod,
    Assign,
    AddAssign,
    SubAssign,
    MulAssign,
    DivAssign,
    ModAssign,
    And,
    Or,
    Not,
    BitAnd,
    BitOr,
    BitXor,
    Equals,
    NotEquals,
    LessThan,
    LessThanEquals,
    GreaterThan,
    GreaterThanEquals,
    Dot,
    End,
    Arrow,
    Comma,
}

/// The operator that a word spells, if it spells one.
pub open spec fn operator_of(word: Seq<char>) -> Option<Operators> {
    if word == "+"@ {
        Some(Operators::Add)
    } else if word == "-"@ {
        Some(Operators::Sub)
    } else if word == "*"@ {
        Some(Operators::Mul)
    } else if word == "/"@ {
        Some(Operators::Div)
    } else if word == "%"@ {
        Some(Operators::Mod)
    } else if word == "="@ {
        Some(Operators::Assign)
    } else if word == "+="@ {
        Some(Operators::AddAssign)
    } else if word == "-="@ {
        Some(Operators::SubAssign)
    } else if word == "*="@ {
        Some(Operators::MulAssign)
    } else if word == "/="@ {
        Some(Operators::DivAssign)
    } else if word == "%="@ {
        Some(Operators::ModAssign)
    } else if word == "&"@ {
        Some(Operators::BitAnd)
    } else if word == "|"@ {
        Some(Operators::BitOr)
    } else if word == "^"@ {
        Some(Operators::BitXor)
    } else if word == "&&"@ {
        Some(Operators::And)
    } else if word == "||"@ {
        Some(Operators::Or)
    } else if word == "!"@ {
        Some(Operators::Not)
    } else if word == "<"@ {
        Some(Operators::LessThan)
    } else if word == ">"@ {
        Some(Operators::GreaterThan)
    } else if word == "=="@ {
        Some(Operators::Equals)
    } else if word == "<="@ {
        Some(Operators::LessThanEquals)
    } else if word == ">="@ {
        Some(Operators::GreaterThanEquals)
    } else if word == "!="@ {
        Some(Operators::NotEquals)
    } else if word == "."@ {
        Some(Operators::Dot)
    } else if word == ";"@ {
        Some(Operators::End)
    } else if word == "->"@ {
        Some(Operators::Arrow)
    } else if word == ","@ {
        Some(Operators::Comma)
    } else {
        None
    }
}

impl Operators {
    /// The operator that the characters spell, if they spell one.
    pub fn lookup(word: &Vec<char>) -> (r: Option<Operators>)
        ensures
            r == operator_of(word@),
    {
        if spells(word, "+") {
            Some(Operators::Add)
        } else if spells(word, "-") {
            Some(Operators::Sub)
        } else if spells(word, "*") {
            Some(Operators::Mul)
        } else if spells(word, "/") {
            Some(Operators::Div)
        } else if spells(word, "%") {
            Some(Operators::Mod)
        } else if spells(word, "=") {
            Some(Operators::Assign)
        } else if spells(word, "+=") {
            Some(Operators::AddAssign)
        } else if spells(word, "-=") {
            Some(Operators::SubAssign)
        } else if spells(word, "*=") {
            Some(Operators::MulAssign)
        } else if spells(word, "/=") {
            Some(Operators::DivAssign)
        } else if spells(word, "%=") {
            Some(Operators::ModAssign)
        } else if spells(word, "&") {
            Some(Operators::BitAnd)
        } else if spells(word, "|") {
            Some(Operators::BitOr)
        } else if spells(word, "^") {
            Some(Operators::BitXor)
        } else if spells(word, "&&") {
            Some(Operators::And)
        } else if spells(word, "||") {
            Some(Operators::Or)
        } else if spells(word, "!") {
            Some(Operators::Not)
        } else if spells(word, "<") {
            Some(Operators::LessThan)
        } else if spells(word, ">") {
            Some(Operators::GreaterThan)
        } else if spells(word, "==") {
            Some(Operators::Equals)
        } else if spells(word, "<=") {
            Some(Operators::LessThanEquals)
        } else if spells(word, ">=") {
            Some(Operators::GreaterThanEquals)
        } else if spells(word, "!=") {
            Some(Operators::NotEquals)
        } else if spells(word, ".") {
            Some(Operators::Dot)
        } else if spells(word, ";") {
            Some(Operators::End)
        } else if spells(word, "->") {
            Some(Operators::Arrow)
        } else if spells(word, ",") {
            Some(Operators::Comma)
        } else {
            None
        }
    }

    /// Reads an operator. A word that spells none is an invalid token.
    pub fn try_from(value: &str) -> (r: Result<Operators, TokenizeError>)
        ensures
            match r {
                Ok(found) => operator_of(value@) == Some(found),
                Err(e) => operator_of(value@) is None && e@ == TokenizeErrorView::InvalidToken(
                    value@,
                ),
            },
    {
        let word = chars_of(value);
        match Operators::lookup(&word) {
            Some(found) => Ok(found),
            None => Err(TokenizeError::InvalidToken(value.to_owned())),
        }
    }
}

} // verus!
