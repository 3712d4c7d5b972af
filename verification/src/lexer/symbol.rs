use vstd::prelude::*;
use crate::error::{ErrorView, JAPLError};
use crate::text::{chars_of, spells};

verus! {

/// The punctuation of the language.
#[derive(Debug, PartialEq, Eq, Structural, Clone, Copy)]
pub enum Symbol {
    Colon,
    Semicolon,
    Dot,
    Comma,
    RoundOpen,
    RoundClose,
    SquareOpen,
    SquareClose,
    CurlyOpen,
    CurlyClose,
}

/// The symbol that a word spells, if it spells one.
pub open spec fn symbol_of(word: Seq<char>) -> Option<Symbol> {
    if word == ":"@ {
        Some(Symbol::Colon)
    } else if word == ";"@ {
        Some(Symbol::Semicolon)
    } else if word == "."@ {
        Some(Symbol::Dot)
    } else if word == ","@ {
        Some(Symbol::Comma)
    } else if word == "("@ {
        Some(Symbol::RoundOpen)
    } else if word == ")"@ {
        Some(Symbol::RoundClose)
    } else if word == "["@ {
        Some(Symbol::SquareOpen)
    } else if word == "]"@ {
        Some(Symbol::SquareClose)
    } else if word == "{"@ {
        Some(Symbol::CurlyOpen)
    } else if word == "}"@ {
        Some(Symbol::CurlyClose)
    } else {
        None
    }
}

impl Symbol {
    /// The symbol that the characters spell, if they spell one.
    pub fn lookup(word: &Vec<char>) -> (r: Option<Symbol>)
        ensures
            r == symbol_of(word@),
    {
        if spells(word, ":") {
            Some(Symbol::Colon)
        } else if spells(word, ";") {
            Some(Symbol::Semicolon)
        } else if spells(word, ".") {
            Some(Symbol::Dot)
        } else if spells(word, ",") {
            Some(Symbol::Comma)
        } else if spells(word, "(") {
            Some(Symbol::RoundOpen)
        } else if spells(word, ")") {
            Some(Symbol::RoundClose)
        } else if spells(word, "[") {
            Some(Symbol::SquareOpen)
        } else if spells(word, "]") {
            Some(Symbol::SquareClose)
        } else if spells(word, "{") {
            Some(Symbol::CurlyOpen)
        } else if spells(word, "}") {
            Some(Symbol::CurlyClose)
        } else {
            None
        }
    }

    /// Reads a symbol. A word that spells none is an invalid identifier.
    pub fn try_from(value: &str) -> (r: Result<Symbol, JAPLError>)
        ensures
            match r {
                Ok(symbol) => symbol_of(value@) == Some(symbol),
                Err(e) => symbol_of(value@) is None && e@ == ErrorView::InvalidIdentifier(value@),
            },
    {
        let word = chars_of(value);
        match Symbol::lookup(&word) {
            Some(symbol) => Ok(symbol),
            None => Err(JAPLError::InvalidIdentifier(value.to_owned())),
        }
    }
}

} // verus!
