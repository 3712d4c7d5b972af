use vstd::prelude::*;
use crate::errors::{TokenizeError, TokenizeErrorView};
use crate::text::{chars_of, spells};

verus! {

/// The reserved words of the structured language.
#[derive(Debug, PartialEq, Eq, Structural, Clone, Copy)]
pub enum Keywords {
    Fn,
    While,
    For,
    If,
    Else,
    Return,
    Break,
    Continue,
    True,
    False,
    Const,
    I8,
    I16,
    I32,
    I64,
    I128,
    U8,
    U16,
    U32,
    U64,
    U128,
    Character,
    Boolean,
}

/// The keyword that a word spells, if it spells one.
pub open spec fn keyword_of(word: Seq<char>) -> Option<Keywords> {
    if word == "fn"@ {
        Some(Keywords::Fn)
    } else if word == "while"@ {
        Some(Keywords::While)
    } else if word == "for"@ {
        Some(Keywords::For)
    } else if word == "if"@ {
        Some(Keywords::If)
    } else if word == "else"@ {
        Some(Keywords::Else)
    } else if word == "return"@ {
        Some(Keywords::Return)
    } else if word == "break"@ {
        Some(Keywords::Break)
    } else if word == "continue"@ {
        Some(Keywords::Continue)
    } else if word == "true"@ {
        Some(Keywords::True)
    } else if word == "false"@ {
        Some(Keywords::False)
    } else if word == "const"@ {
        Some(Keywords::Const)
    } else if word == "i8"@ {
        Some(Keywords::I8)
    } else if word == "i16"@ {
        Some(Keywords::I16)
    } else if word == "i32"@ {
        Some(Keywords::I32)
    } else if word == "i64"@ {
        Some(Keywords::I64)
    } else if word == "i128"@ {
        Some(Keywords::I128)
    } else if word == "u8"@ {
        Some(Keywords::U8)
    } else if word == "u16"@ {
        Some(Keywords::U16)
    } else if word == "u32"@ {
        Some(Keywords::U32)
    } else if word == "u64"@ {
        Some(Keywords::U64)
    } else if word == "u128"@ {
        Some(Keywords::U128)
    } else if word == "char"@ {
        Some(Keywords::Character)
    } else if word == "bool"@ {
        Some(Keywords::Boolean)
    } else {
        None
    }
}

impl Keywords {
    /// The keyword that the characters spell, if they spell one.
    pub fn lookup(word: &Vec<char>) -> (r: Option<Keywords>)
        ensures
            r == keyword_of(word@),
    {
        if spells(word, "fn") {
            Some(Keywords::Fn)
        } else if spells(word, "while") {
            Some(Keywords::While)
        } else if spells(word, "for") {
            Some(Keywords::For)
        } else if spells(word, "if") {
            Some(Keywords::If)
        } else if spells(word, "else") {
            Some(Keywords::Else)
        } else if spells(word, "return") {
            Some(Keywords::Return)
        } else if spells(word, "break") {
            Some(Keywords::Break)
        } else if spells(word, "continue") {
            Some(Keywords::Continue)
        } else if spells(word, "true") {
            Some(Keywords::True)
        } else if spells(word, "false") {
            Some(Keywords::False)
        } else if spells(word, "const") {
            Some(Keywords::Const)
        } else if spells(word, "i8") {
            Some(Keywords::I8)
        } else if spells(word, "i16") {
            Some(Keywords::I16)
        } else if spells(word, "i32") {
            Some(Keywords::I32)
        } else if spells(word, "i64") {
            Some(Keywords::I64)
        } else if spells(word, "i128") {
            Some(Keywords::I128)
        } else if spells(word, "u8") {
            Some(Keywords::U8)
        } else if spells(word, "u16") {
            Some(Keywords::U16)
        } else if spells(word, "u32") {
            Some(Keywords::U32)
        } else if spells(word, "u64") {
            Some(Keywords::U64)
        } else if spells(word, "u128") {
            Some(Keywords::U128)
        } else if spells(word, "char") {
            Some(Keywords::Character)
        } else if spells(word, "bool") {
            Some(Keywords::Boolean)
        } else {
            None
        }
    }

    /// Reads a keyword. A word that spells none is an invalid keyword.
    pub fn try_from(value: &str) -> (r: Result<Keywords, TokenizeError>)
        ensures
            match r {
                Ok(found) => keyword_of(value@) == Some(found),
                Err(e) => keyword_of(value@) is None && e@ == TokenizeErrorView::InvalidKeyword(
                    value@,
                ),
            },
    {
        let word = chars_of(value);
        match Keywords::lookup(&word) {
            Some(found) => Ok(found),
            None => Err(TokenizeError::InvalidKeyword(value.to_owned())),
        }
    }

    /// The keywords that can begin a declaration: `const` and the names of
    /// the types.
    pub open spec fn declares(self) -> bool {
        match self {
            Keywords::Const
            | Keywords::I8
            | Keywords::I16
            | Keywords::I32
            | Keywords::I64
            | Keywords::I128
            | Keywords::U8
            | Keywords::U16
            | Keywords::U32
            | Keywords::U64
            | Keywords::U128
            | Keywords::Character
            | Keywords::Boolean => true,
            _ => false,
        }
    }

    /// Whether the keyword is `const` or the name of a type.
    pub fn is_keyword(&self) -> (r: bool)
        ensures
            r == self.declares(),
    {
        match self {
            Keywords::Const => true,
            Keywords::I8 => true,
            Keywords::I16 => true,
            Keywords::I32 => true,
            Keywords::I64 => true,
            Keywords::I128 => true,
            Keywords::U8 => true,
            Keywords::U16 => true,
            Keywords::U32 => true,
            Keywords::U64 => true,
            Keywords::U128 => true,
            Keywords::Character => true,
            Keywords::Boolean => true,
            _ => false,
        }
    }
}

} // verus!
