use vstd::prelude::*;
use vstd::string::StringExecFns;

verus! {

/// What can go wrong while a text of the structured language is cut into
/// tokens. Each error carries the word it is about.
#[derive(Debug, PartialEq, Eq, Clone)]
pub enum TokenizeError {
    InvalidToken(String),
    InvalidLiteral(String),
    InvalidKeyword(String),
}

/// The mathematical content of a `TokenizeError`.
pub enum TokenizeErrorView {
    InvalidToken(Seq<char>),
    InvalidLiteral(Seq<char>),
    InvalidKeyword(Seq<char>),
}

impl View for TokenizeError {
    type V = TokenizeErrorView;

    open spec fn view(&self) -> TokenizeErrorView {
        match self {
            TokenizeError::InvalidToken(text) => TokenizeErrorView::InvalidToken(text@),
            TokenizeError::InvalidLiteral(text) => TokenizeErrorView::InvalidLiteral(text@),
            TokenizeError::InvalidKeyword(text) => TokenizeErrorView::InvalidKeyword(text@),
        }
    }
}

impl TokenizeErrorView {
    /// The line that describes the error to a reader.
    pub open spec fn message(self) -> Seq<char> {
        match self {
            TokenizeErrorView::InvalidToken(text) => "Invalid token: "@ + text,
            TokenizeErrorView::InvalidLiteral(text) => "Invalid literal: "@ + text,
            TokenizeErrorView::InvalidKeyword(text) => "Invalid keyword: "@ + text,
        }
    }
}

impl TokenizeError {
    /// The line that describes the error to a reader.
    pub fn message(&self) -> (r: String)
        ensures
            r@ == self@.message(),
    {
        match self {
            TokenizeError::InvalidToken(text) => String::from_str("Invalid token: ").concat(
                text.as_str(),
            ),
            TokenizeError::InvalidLiteral(text) => String::from_str("Invalid literal: ").concat(
                text.as_str(),
            ),
            TokenizeError::InvalidKeyword(text) => String::from_str("Invalid keyword: ").concat(
                text.as_str(),
            ),
        }
    }
}

} // verus!
