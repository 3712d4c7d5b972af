use vstd::prelude::*;
use super::keyword::{keyword_of, Keyword};
use super::literal::{is_digit, literal_of, FloatBits, Literal};
use super::symbol::{symbol_of, Symbol};
use crate::error::{ErrorView, JAPLError};
use crate::text::{chars_of, text_of};

verus! {

/// A word of the program text, classified.
#[derive(Debug, PartialEq, Eq, Clone)]
pub enum Token {
    Keyword(Keyword),
    Symbol(Symbol),
    Identifier(String),
    Literal(Literal),
}

/// The mathematical content of a `Token`.
pub enum TokenView {
    Keyword(Keyword),
    Symbol(Symbol),
    Identifier(Seq<char>),
    Literal(Literal),
}

impl View for Token {
    type V = TokenView;

    open spec fn view(&self) -> TokenView {
        match self {
            Token::Keyword(keyword) => TokenView::Keyword(*keyword),
            Token::Symbol(symbol) => TokenView::Symbol(*symbol),
            Token::Identifier(name) => TokenView::Identifier(name@),
            Token::Literal(literal) => TokenView::Literal(*literal),
        }
    }
}

/// The contents of a list of tokens.
pub open spec fn token_views(tokens: Seq<Token>) -> Seq<TokenView> {
    tokens.map_values(|token: Token| token@)
}

/// Whether a character is an unaccented Latin letter.
pub open spec fn is_letter(c: char) -> bool {
    ('a' <= c <= 'z') || ('A' <= c <= 'Z')
}

/// Whether a word is an identifier: a letter or an underscore, followed by
/// letters, digits and underscores.
pub open spec fn is_identifier(word: Seq<char>) -> bool {
    &&& word.len() > 0
    &&& is_letter(word[0]) || word[0] == '_'
    &&& forall|k: int|
        0 < k < word.len() ==> is_letter(#[trigger] word[k]) || is_digit(word[k]) || word[k] == '_'
}

/// The token that a word is. `float` is what the word denotes as a 64-bit
/// IEEE-754 number, if it denotes one. A word is tried as a keyword, as a
/// symbol, as a literal and as an identifier, in this order.
pub open spec fn token_of(word: Seq<char>, float: Option<FloatBits>) -> Result<
    TokenView,
    ErrorView,
> {
    if keyword_of(word) is Some {
        Ok(TokenView::Keyword(keyword_of(word).unwrap()))
    } else if symbol_of(word) is Some {
        Ok(TokenView::Symbol(symbol_of(word).unwrap()))
    } else {
        match literal_of(word, float) {
            Ok(literal) => Ok(TokenView::Literal(literal)),
            Err(ErrorView::Unsupported(reason)) => Err(ErrorView::Unsupported(reason)),
            Err(_) => if is_identifier(word) {
                Ok(TokenView::Identifier(word))
            } else {
                Err(ErrorView::InvalidIdentifier(word))
            },
        }
    }
}

/// Whether the characters form an identifier.
pub fn identifier_chars(word: &Vec<char>) -> (r: bool)
    ensures
        r == is_identifier(word@),
{
    if word.len() == 0 {
        return false;
    }
    let first = word[0];
    if !(('a' <= first && first <= 'z') || ('A' <= first && first <= 'Z') || first == '_') {
        return false;
    }
    let mut k: usize = 1;
    while k < word.len()
        invariant
            1 <= k <= word.len(),
            forall|j: int|
                0 < j < k ==> is_letter(#[trigger] word@[j]) || is_digit(word@[j]) || word@[j]
                    == '_',
        decreases word.len() - k,
    {
        let c = word[k];
        if !(('a' <= c && c <= 'z') || ('A' <= c && c <= 'Z') || ('0' <= c && c <= '9') || c
            == '_') {
            return false;
        }
        k += 1;
    }
    true
}

/// Whether a word is an identifier.
pub fn valid_identifier(value: &str) -> (r: bool)
    ensures
        r == is_identifier(value@),
{
    let word = chars_of(value);
    identifier_chars(&word)
}

/// The content of a token that may be missing.
pub open spec fn optional_view(token: Option<Token>) -> Option<TokenView> {
    match token {
        Some(token) => Some(token@),
        None => None,
    }
}

impl Token {
    /// A second token with the same content.
    pub fn duplicate(&self) -> (r: Token)
        ensures
            r@ == self@,
    {
        match self {
            Token::Keyword(keyword) => Token::Keyword(*keyword),
            Token::Symbol(symbol) => Token::Symbol(*symbol),
            Token::Identifier(name) => Token::Identifier(name.clone()),
            Token::Literal(literal) => Token::Literal(*literal),
        }
    }

    /// The token that the characters form.
    pub fn classify(word: &Vec<char>, float: Option<FloatBits>) -> (r: Result<Token, JAPLError>)
        ensures
            match r {
                Ok(token) => token_of(word@, float) == Ok::<TokenView, ErrorView>(token@),
                Err(e) => token_of(word@, float) == Err::<TokenView, ErrorView>(e@),
            },
    {
        if let Some(keyword) = Keyword::lookup(word) {
            return Ok(Token::Keyword(keyword));
        }
        if let Some(symbol) = Symbol::lookup(word) {
            return Ok(Token::Symbol(symbol));
        }
        match Literal::read(word, float) {
            Ok(literal) => Ok(Token::Literal(literal)),
            Err(JAPLError::Unsupported(reason)) => Err(JAPLError::Unsupported(reason)),
            Err(_) => {
                if identifier_chars(word) {
                    Ok(Token::Identifier(text_of(word)))
                } else {
                    Err(JAPLError::InvalidIdentifier(text_of(word)))
                }
            },
        }
    }

    /// Reads a token from a word of the program text. `float` is what the
    /// word denotes as a 64-bit IEEE-754 number, if it denotes one.
    pub fn try_from(value: &str, float: Option<FloatBits>) -> (r: Result<Token, JAPLError>)
        ensures
            match r {
                Ok(token) => token_of(value@, float) == Ok::<TokenView, ErrorView>(token@),
                Err(e) => token_of(value@, float) == Err::<TokenView, ErrorView>(e@),
            },
    {
        let word = chars_of(value);
        Token::classify(&word, float)
    }
}

} // verus!
