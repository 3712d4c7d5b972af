use vstd::prelude::*;
use crate::errors::{TokenizeError, TokenizeErrorView};
use crate::lexer::literal::{parse_signed, signed_of, FloatBits};
use crate::text::{chars_of, text_of};

verus! {

/// A value written out in a text of the structured language.
#[derive(Debug, PartialEq, Eq, Clone)]
pub enum LiteralKind {
    Integer(i64),
    Float(FloatBits),
    Character(char),
    String(String),
}

/// The mathematical content of a `LiteralKind`.
pub enum LiteralKindView {
    Integer(i64),
    Float(FloatBits),
    Character(char),
    String(Seq<char>),
}

impl View for LiteralKind {
    type V = LiteralKindView;

    open spec fn view(&self) -> LiteralKindView {
        match self {
            LiteralKind::Integer(value) => LiteralKindView::Integer(*value),
            LiteralKind::Float(bits) => LiteralKindView::Float(*bits),
            LiteralKind::Character(c) => LiteralKindView::Character(*c),
            LiteralKind::String(text) => LiteralKindView::String(text@),
        }
    }
}

/// The character that an escape letter stands for.
pub open spec fn escaped(letter: char) -> Option<char> {
    if letter == 'n' {
        Some('\n')
    } else if letter == 't' {
        Some('\t')
    } else if letter == 'r' {
        Some('\r')
    } else if letter == '0' {
        Some('\0')
    } else {
        None
    }
}

/// Whether a character takes a single byte of text.
pub open spec fn is_single_byte(c: char) -> bool {
    (c as u32) < 0x80
}

/// The literal that a word denotes. `float` is what the word denotes as a
/// 64-bit IEEE-754 number, if it denotes one.
///
/// A signed integer of 64 bits is an integer; any other number is a float.
/// A single-byte character between two apostrophes is that character, and
/// a backslash with an escape letter between two apostrophes is the
/// character the letter stands for; an unknown escape letter is an invalid
/// literal of its own. At least one character between two quotation marks
/// is a string. Every other word is an invalid literal.
pub open spec fn literal_kind_of(word: Seq<char>, float: Option<FloatBits>) -> Result<
    LiteralKindView,
    TokenizeErrorView,
> {
    if signed_of(word) is Some {
        Ok(LiteralKindView::Integer(signed_of(word).unwrap()))
    } else if float is Some {
        Ok(LiteralKindView::Float(float.unwrap()))
    } else if word.len() == 3 && word[0] == '\'' && word[2] == '\'' && is_single_byte(word[1]) {
        Ok(LiteralKindView::Character(word[1]))
    } else if word.len() == 4 && word[0] == '\'' && word[1] == '\\' && word[3] == '\''
        && is_single_byte(word[2]) {
        match escaped(word[2]) {
            Some(c) => Ok(LiteralKindView::Character(c)),
            None => Err(TokenizeErrorView::InvalidLiteral(seq!['\\', word[2]])),
        }
    } else if word.len() >= 3 && word[0] == '"' && word.last() == '"' {
        Ok(LiteralKindView::String(word.subrange(1, word.len() - 1)))
    } else {
        Err(TokenizeErrorView::InvalidLiteral(word))
    }
}

/// Reads the character that an escape letter stands for. An unknown letter
/// is an invalid literal: the backslash and the letter.
pub fn as_escaped(escape_char: char) -> (r: Result<char, TokenizeError>)
    ensures
        match r {
            Ok(c) => escaped(escape_char) == Some(c),
            Err(e) => escaped(escape_char) is None && e@ == TokenizeErrorView::InvalidLiteral(
                seq!['\\', escape_char],
            ),
        },
{
    match escape_char {
        'n' => Ok('\n'),
        't' => Ok('\t'),
        'r' => Ok('\r'),
        '0' => Ok('\0'),
        error_chr => {
            let mut invalid_token: Vec<char> = Vec::new();
            invalid_token.push('\\');
            invalid_token.push(error_chr);
            assert(invalid_token@ =~= seq!['\\', escape_char]);
            Err(TokenizeError::InvalidLiteral(text_of(&invalid_token)))
        },
    }
}

impl LiteralKind {
    /// A second literal with the same content.
    pub fn duplicate(&self) -> (r: LiteralKind)
        ensures
            r@ == self@,
    {
        match self {
            LiteralKind::Integer(value) => LiteralKind::Integer(*value),
            LiteralKind::Float(bits) => LiteralKind::Float(*bits),
            LiteralKind::Character(c) => LiteralKind::Character(*c),
            LiteralKind::String(text) => LiteralKind::String(text.clone()),
        }
    }

    /// The literal that the characters denote.
    pub fn read(word: &Vec<char>, float: Option<FloatBits>) -> (r: Result<
        LiteralKind,
        TokenizeError,
    >)
        ensures
            match r {
                Ok(literal) => literal_kind_of(word@, float) == Ok::<
                    LiteralKindView,
                    TokenizeErrorView,
                >(literal@),
                Err(e) => literal_kind_of(word@, float) == Err::<
                    LiteralKindView,
                    TokenizeErrorView,
                >(e@),
            },
    {
        if let Some(value) = parse_signed(word) {
            return Ok(LiteralKind::Integer(value));
        }
        if let Some(bits) = float {
            return Ok(LiteralKind::Float(bits));
        }
        let n = word.len();
        if n == 3 && word[0] == '\'' && word[2] == '\'' && (word[1] as u32) < 0x80 {
            return Ok(LiteralKind::Character(word[1]));
        }
        if n == 4 && word[0] == '\'' && word[1] == '\\' && word[3] == '\'' && (word[2] as u32)
            < 0x80 {
            return match as_escaped(word[2]) {
                Ok(c) => Ok(LiteralKind::Character(c)),
                Err(e) => Err(e),
            };
        }
        if n >= 3 && word[0] == '"' && word[n - 1] == '"' {
            let mut content: Vec<char> = Vec::new();
            let mut k: usize = 1;
            while k < n - 1
                invariant
                    1 <= k <= n - 1,
                    n == word.len(),
                    content@ == word@.subrange(1, k as int),
                decreases n - k,
            {
                content.push(word[k]);
                k += 1;
                assert(content@ =~= word@.subrange(1, k as int));
            }
            return Ok(LiteralKind::String(text_of(&content)));
        }
        Err(TokenizeError::InvalidLiteral(text_of(word)))
    }

    /// Reads a literal from a word of the text. `float` is what the word
    /// denotes as a 64-bit IEEE-754 number, if it denotes one.
    pub fn try_from(value: &str, float: Option<FloatBits>) -> (r: Result<LiteralKind, TokenizeError>)
        ensures
            match r {
                Ok(literal) => literal_kind_of(value@, float) == Ok::<
                    LiteralKindView,
                    TokenizeErrorView,
                >(literal@),
                Err(e) => literal_kind_of(value@, float) == Err::<
                    LiteralKindView,
                    TokenizeErrorView,
                >(e@),
            },
    {
        let word = chars_of(value);
        LiteralKind::read(&word, float)
    }
}

} // verus!
