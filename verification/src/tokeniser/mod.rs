use vstd::prelude::*;

pub mod brackets;
pub mod keywords;
pub mod literal_kind;
pub mod operators;

pub use brackets::Brackets;
pub use keywords::Keywords;
pub use literal_kind::LiteralKind;
pub use operators::Operators;

use crate::errors::{TokenizeError, TokenizeErrorView};
use crate::lexer::is_whitespace;
use crate::lexer::literal::FloatBits;
use crate::lexer::token::{identifier_chars, is_identifier};
use crate::lexer::whitespace;
use crate::text::{chars_of, spells, text_of};
use brackets::bracket_of;
use keywords::keyword_of;
use literal_kind::{literal_kind_of, LiteralKindView};
use operators::operator_of;

verus! {

/// A word of a text of the structured language, classified.
#[derive(Debug, PartialEq, Eq, Clone)]
pub enum Token {
    Literal(LiteralKind),
    Identifier(String),
    Keyword(Keywords),
    Operator(Operators),
    Bracket(Brackets),
}

/// The mathematical content of a `Token`.
pub enum TokenView {
    Literal(LiteralKindView),
    Identifier(Seq<char>),
    Keyword(Keywords),
    Operator(Operators),
    Bracket(Brackets),
}

impl View for Token {
    type V = TokenView;

    open spec fn view(&self) -> TokenView {
        match self {
            Token::Literal(literal) => TokenView::Literal(literal@),
            Token::Identifier(name) => TokenView::Identifier(name@),
            Token::Keyword(keyword) => TokenView::Keyword(*keyword),
            Token::Operator(operator) => TokenView::Operator(*operator),
            Token::Bracket(bracket) => TokenView::Bracket(*bracket),
        }
    }
}

/// The contents of a list of tokens.
pub open spec fn token_views(tokens: Seq<Token>) -> Seq<TokenView> {
    tokens.map_values(|token: Token| token@)
}

/// The token that a word is. `float` is what the word denotes as a 64-bit
/// IEEE-754 number, if it denotes one. A word is tried as a literal, as a
/// keyword, as an operator, as a bracket and as an identifier, in this
/// order; a word that is none of them is an invalid token.
pub open spec fn token_of(word: Seq<char>, float: Option<FloatBits>) -> Result<
    TokenView,
    TokenizeErrorView,
> {
    if literal_kind_of(word, float) is Ok {
        Ok(TokenView::Literal(literal_kind_of(word, float)->Ok_0))
    } else if keyword_of(word) is Some {
        Ok(TokenView::Keyword(keyword_of(word)->Some_0))
    } else if operator_of(word) is Some {
        Ok(TokenView::Operator(operator_of(word)->Some_0))
    } else if bracket_of(word) is Some {
        Ok(TokenView::Bracket(bracket_of(word)->Some_0))
    } else if is_identifier(word) {
        Ok(TokenView::Identifier(word))
    } else {
        Err(TokenizeErrorView::InvalidToken(word))
    }
}

/// Whether a word is an identifier: a letter or an underscore, followed by
/// letters, digits and underscores.
pub fn valid_identifier(token: &str) -> (r: bool)
    ensures
        r == is_identifier(token@),
{
    let word = chars_of(token);
    identifier_chars(&word)
}

impl Token {
    /// A second token with the same content.
    pub fn duplicate(&self) -> (r: Token)
        ensures
            r@ == self@,
    {
        match self {
            Token::Literal(literal) => Token::Literal(literal.duplicate()),
            Token::Identifier(name) => Token::Identifier(name.clone()),
            Token::Keyword(keyword) => Token::Keyword(*keyword),
            Token::Operator(operator) => Token::Operator(*operator),
            Token::Bracket(bracket) => Token::Bracket(*bracket),
        }
    }

    /// The token that the characters form.
    pub fn classify(word: &Vec<char>, float: Option<FloatBits>) -> (r: Result<Token, TokenizeError>)
        ensures
            match r {
                Ok(token) => token_of(word@, float) == Ok::<TokenView, TokenizeErrorView>(token@),
                Err(e) => token_of(word@, float) == Err::<TokenView, TokenizeErrorView>(e@),
            },
    {
        if let Ok(literal) = LiteralKind::read(word, float) {
            return Ok(Token::Literal(literal));
        }
        if let Some(keyword) = Keywords::lookup(word) {
            return Ok(Token::Keyword(keyword));
        }
        if let Some(operator) = Operators::lookup(word) {
            return Ok(Token::Operator(operator));
        }
        if let Some(bracket) = Brackets::lookup(word) {
            return Ok(Token::Bracket(bracket));
        }
        if identifier_chars(word) {
            return Ok(Token::Identifier(text_of(word)));
        }
        Err(TokenizeError::InvalidToken(text_of(word)))
    }

    /// Reads a token from a word of the text. `float` is what the word
    /// denotes as a 64-bit IEEE-754 number, if it denotes one.
    pub fn try_from(value: &str, float: Option<FloatBits>) -> (r: Result<Token, TokenizeError>)
        ensures
            match r {
                Ok(token) => token_of(value@, float) == Ok::<TokenView, TokenizeErrorView>(token@),
                Err(e) => token_of(value@, float) == Err::<TokenView, TokenizeErrorView>(e@),
            },
    {
        let word = chars_of(value);
        Token::classify(&word, float)
    }
}

/// A scanner that cuts a text of the structured language into tokens, one
/// character at a time. White space separates words, except between
/// quotation marks and between apostrophes; without white space a word ends
/// where one more character would no longer leave a token.
///
/// Whether a word denotes an IEEE-754 number, and which, is for the caller
/// to say: every step takes what the words it may have to classify denote.
pub struct Tokeniser {
    tokens: Vec<Token>,
    buffer: Vec<char>,
    in_str: bool,
    in_char: bool,
}

/// The mathematical content of a `Tokeniser`: the tokens found so far, the
/// characters of the word that is not finished, and whether the scanner
/// stands between quotation marks or between apostrophes.
pub struct TokeniserView {
    pub tokens: Seq<TokenView>,
    pub buffer: Seq<char>,
    pub in_str: bool,
    pub in_char: bool,
}

impl TokeniserView {
    /// The state with a minus sign alone in the buffer taken as an operator
    /// at once, where the token before it is an operator.
    pub open spec fn minus_taken(self) -> TokeniserView {
        if self.buffer == seq!['-'] && self.tokens.len() > 0 && self.tokens.last() is Operator {
            TokeniserView {
                tokens: self.tokens.push(TokenView::Operator(Operators::Sub)),
                buffer: Seq::empty(),
                ..self
            }
        } else {
            self
        }
    }

    /// The state after one more character. `pending_float` is what the
    /// buffer denotes as a number, `extended_float` what the buffer with the
    /// character added to it denotes.
    ///
    /// White space outside quotation marks and apostrophes turns the buffer
    /// into a token where it is one, and is dropped. A quotation mark
    /// outside apostrophes, and an apostrophe outside quotation marks, opens
    /// or closes its pair. Any other character joins the buffer where that
    /// leaves a token, or where the scanner stands inside a pair and the
    /// buffer was no token. Otherwise the buffer must be a token, and the
    /// character begins the next word.
    pub open spec fn fed(
        self,
        c: char,
        pending_float: Option<FloatBits>,
        extended_float: Option<FloatBits>,
    ) -> Result<TokeniserView, TokenizeErrorView> {
        if is_whitespace(c) && !(self.in_str || self.in_char) {
            match token_of(self.buffer, pending_float) {
                Ok(token) => Ok(
                    TokeniserView { tokens: self.tokens.push(token), buffer: Seq::empty(), ..self },
                ),
                Err(_) => Ok(self),
            }
        } else {
            let already = self.buffer.len() > 0 && token_of(self.buffer, pending_float) is Ok
                && self.buffer != seq!['\''] && self.buffer != seq!['"'];
            let in_str = if c == '"' && !self.in_char {
                !self.in_str
            } else {
                self.in_str
            };
            let in_char = if c == '\'' && !in_str {
                !self.in_char
            } else {
                self.in_char
            };
            if token_of(self.buffer.push(c), extended_float) is Ok {
                Ok(
                    TokeniserView {
                        tokens: self.tokens,
                        buffer: self.buffer.push(c),
                        in_str,
                        in_char,
                    }.minus_taken(),
                )
            } else if (in_str || in_char) && !already {
                Ok(
                    TokeniserView {
                        tokens: self.tokens,
                        buffer: self.buffer.push(c),
                        in_str,
                        in_char,
                    },
                )
            } else {
                match token_of(self.buffer, pending_float) {
                    Ok(token) => Ok(
                        TokeniserView {
                            tokens: self.tokens.push(token),
                            buffer: seq![c],
                            in_str,
                            in_char,
                        }.minus_taken(),
                    ),
                    Err(e) => Err(e),
                }
            }
        }
    }

    /// The tokens of the text once it has ended: what is left in the buffer
    /// must be a token.
    pub open spec fn finished(self, pending_float: Option<FloatBits>) -> Result<
        Seq<TokenView>,
        TokenizeErrorView,
    > {
        if self.buffer.len() == 0 {
            Ok(self.tokens)
        } else {
            match token_of(self.buffer, pending_float) {
                Ok(token) => Ok(self.tokens.push(token)),
                Err(e) => Err(e),
            }
        }
    }
}

impl View for Tokeniser {
    type V = TokeniserView;

    closed spec fn view(&self) -> TokeniserView {
        TokeniserView {
            tokens: token_views(self.tokens@),
            buffer: self.buffer@,
            in_str: self.in_str,
            in_char: self.in_char,
        }
    }
}

impl Tokeniser {
    /// A scanner at the beginning of a text.
    pub fn new() -> (r: Tokeniser)
        ensures
            r@ == (TokeniserView {
                tokens: Seq::empty(),
                buffer: Seq::empty(),
                in_str: false,
                in_char: false,
            }),
    {
        let r = Tokeniser { tokens: Vec::new(), buffer: Vec::new(), in_str: false, in_char: false };
        assert(token_views(r.tokens@) =~= Seq::empty());
        r
    }

    /// The word that is not finished.
    pub fn pending(&self) -> (r: String)
        ensures
            r@ == self@.buffer,
    {
        text_of(&self.buffer)
    }

    /// Takes a minus sign that stands alone in the buffer as an operator,
    /// where the token before it is an operator.
    fn take_minus(&mut self)
        ensures
            final(self)@ == old(self)@.minus_taken(),
    {
        let count = self.tokens.len();
        if spells(&self.buffer, "-") && count > 0 {
            proof {
                reveal_strlit("-");
                assert("-"@ =~= seq!['-']);
            }
            let after_operator = match &self.tokens[count - 1] {
                Token::Operator(_) => true,
                _ => false,
            };
            if after_operator {
                self.buffer.clear();
                self.tokens.push(Token::Operator(Operators::Sub));
                assert(token_views(self.tokens@) =~= token_views(old(self).tokens@).push(
                    TokenView::Operator(Operators::Sub),
                ));
                assert(self.buffer@ =~= Seq::empty());
                return ;
            }
        } else {
            proof {
                reveal_strlit("-");
                assert("-"@ =~= seq!['-']);
            }
        }
    }

    /// Takes the next character of the text. `pending_float` is what the
    /// unfinished word denotes as a 64-bit IEEE-754 number, and
    /// `extended_float` what that word followed by `c` denotes, each `None`
    /// where the word denotes no such number. After an error nothing has
    /// changed.
    pub fn feed(
        &mut self,
        c: char,
        pending_float: Option<FloatBits>,
        extended_float: Option<FloatBits>,
    ) -> (r: Result<(), TokenizeError>)
        ensures
            match r {
                Ok(_) => old(self)@.fed(c, pending_float, extended_float) == Ok::<
                    TokeniserView,
                    TokenizeErrorView,
                >(final(self)@),
                Err(e) => old(self)@.fed(c, pending_float, extended_float) == Err::<
                    TokeniserView,
                    TokenizeErrorView,
                >(e@) && *final(self) == *old(self),
            },
    {
        let pending = Token::classify(&self.buffer, pending_float);
        if whitespace(c) && !(self.in_str || self.in_char) {
            if let Ok(token) = pending {
                self.tokens.push(token);
                self.buffer.clear();
                assert(token_views(self.tokens@) =~= token_views(old(self).tokens@).push(token@));
                assert(self.buffer@ =~= Seq::empty());
            }
            return Ok(());
        }
        proof {
            reveal_strlit("'");
            reveal_strlit("\"");
            assert("'"@ =~= seq!['\'']);
            assert("\""@ =~= seq!['"']);
        }
        let already = self.buffer.len() > 0 && pending.is_ok() && !spells(&self.buffer, "'")
            && !spells(&self.buffer, "\"");
        let in_str = if c == '"' && !self.in_char {
            !self.in_str
        } else {
            self.in_str
        };
        let in_char = if c == '\'' && !in_str {
            !self.in_char
        } else {
            self.in_char
        };
        let mut extended = self.buffer.clone();
        extended.push(c);
        assert(extended@ =~= self.buffer@.push(c));
        if Token::classify(&extended, extended_float).is_ok() {
            self.buffer.push(c);
            self.in_str = in_str;
            self.in_char = in_char;
            self.take_minus();
            return Ok(());
        }
        if (in_str || in_char) && !already {
            self.buffer.push(c);
            self.in_str = in_str;
            self.in_char = in_char;
            return Ok(());
        }
        match pending {
            Ok(token) => {
                self.tokens.push(token);
                self.buffer.clear();
                self.buffer.push(c);
                self.in_str = in_str;
                self.in_char = in_char;
                assert(token_views(self.tokens@) =~= token_views(old(self).tokens@).push(token@));
                assert(self.buffer@ =~= seq![c]);
                self.take_minus();
                Ok(())
            },
            Err(e) => Err(e),
        }
    }

    /// Ends the text and hands out its tokens. `pending_float` is what the
    /// unfinished word denotes as a 64-bit IEEE-754 number, if it denotes
    /// one.
    pub fn finish(self, pending_float: Option<FloatBits>) -> (r: Result<Vec<Token>, TokenizeError>)
        ensures
            match r {
                Ok(tokens) => self@.finished(pending_float) == Ok::<
                    Seq<TokenView>,
                    TokenizeErrorView,
                >(token_views(tokens@)),
                Err(e) => self@.finished(pending_float) == Err::<Seq<TokenView>, TokenizeErrorView>(
                    e@,
                ),
            },
    {
        let mut scanner = self;
        if scanner.buffer.len() == 0 {
            return Ok(scanner.tokens);
        }
        match Token::classify(&scanner.buffer, pending_float) {
            Ok(token) => {
                scanner.tokens.push(token);
                assert(token_views(scanner.tokens@) =~= token_views(self.tokens@).push(token@));
                Ok(scanner.tokens)
            },
            Err(e) => Err(e),
        }
    }
}

} // verus!
