use vstd::prelude::*;
use crate::errors::{TokenizeError, TokenizeErrorView};
use crate::text::{chars_of, spells};

verus! {

/// The brackets of the structured language.
#[derive(Debug, PartialEq, Eq, Structural, Clone, Copy)]
pub enum Brackets {
    OpenParen,
    CloseParen,
    OpenSquare,
    CloseSquare,
    OpenCurly,
    CloseCurly,
}

/// The bracket that a word spells, if it spells one.
pub open spec fn bracket_of(word: Seq<char>) -> Option<Brackets> {
    if word == "("@ {
        Some(Brackets::OpenParen)
    } else if word == ")"@ {
        Some(Brackets::CloseParen)
    } else if word == "["@ {
        Some(Brackets::OpenSquare)
    } else if word == "]"@ {
        Some(Brackets::CloseSquare)
    } else if word == "{"@ {
        Some(Brackets::OpenCurly)
    } else if word == "}"@ {
        Some(Brackets::CloseCurly)
    } else {
        None
    }
}

impl Brackets {
    /// The bracket that the characters spell, if they spell one.
    pub fn lookup(word: &Vec<char>) -> (r: Option<Brackets>)
        ensures
            r == bracket_of(word@),
    {
        if spells(word, "(") {
            Some(Brackets::OpenParen)
        } else if spells(word, ")") {
            Some(Brackets::CloseParen)
        } else if spells(word, "[") {
            Some(Brackets::OpenSquare)
        } else if spells(word, "]") {
            Some(Brackets::CloseSquare)
        } else if spells(word, "{") {
            Some(Brackets::OpenCurly)
        } else if spells(word, "}") {
            Some(Brackets::CloseCurly)
        } else {
            None
        }
    }

    /// Reads a bracket. A word that spells none is an invalid token.
    pub fn try_from(value: &str) -> (r: Result<Brackets, TokenizeError>)
        ensures
            match r {
                Ok(found) => bracket_of(value@) == Some(found),
                Err(e) => bracket_of(value@) is None && e@ == TokenizeErrorView::InvalidToken(
                    value@,
                ),
            },
    {
        let word = chars_of(value);
        match Brackets::lookup(&word) {
            Some(found) => Ok(found),
            None => Err(TokenizeError::InvalidToken(value.to_owned())),
        }
    }
}

} // verus!
