use vstd::prelude::*;

pub mod keyword;
pub mod literal;
pub mod symbol;
pub mod token;

pub use keyword::Keyword;
pub use literal::{FloatBits, Literal};
pub use symbol::Symbol;
pub use token::{valid_identifier, Token, TokenView};

use crate::error::{ErrorView, JAPLError};
use crate::text::text_of;
use token::{token_of, token_views};

verus! {

/// Whether a character separates words: the characters that Unicode lists as
/// white space.
pub open spec fn is_whitespace(c: char) -> bool {
    let n = c as u32;
    (0x09 <= n <= 0x0d) || n == 0x20 || n == 0x85 || n == 0xa0 || n == 0x1680 || (0x2000 <= n
        <= 0x200a) || n == 0x2028 || n == 0x2029 || n == 0x202f || n == 0x205f || n == 0x3000
}

/// Decides whether a character separates words.
pub fn whitespace(c: char) -> (r: bool)
    ensures
        r == is_whitespace(c),
{
    let n = c as u32;
    (0x09 <= n && n <= 0x0d) || n == 0x20 || n == 0x85 || n == 0xa0 || n == 0x1680 || (0x2000 <= n
        && n <= 0x200a) || n == 0x2028 || n == 0x2029 || n == 0x202f || n == 0x205f || n == 0x3000
}

/// A scanner that cuts a program text into tokens, one character at a time.
/// It takes the longest word that is a token: a character is added to the
/// pending word as long as the word stays a token, and otherwise ends it.
///
/// Whether a word denotes an IEEE-754 number, and which, is for the caller
/// to say: every step takes what the words it may have to classify denote.
pub struct Lexer {
    tokens: Vec<Token>,
    pending: Vec<char>,
}

/// The mathematical content of a `Lexer`: the tokens found so far, and the
/// characters of the word that is not finished.
pub struct LexerView {
    pub tokens: Seq<TokenView>,
    pub pending: Seq<char>,
}

impl LexerView {
    /// The state after the pending word has been closed: it has become a
    /// token. `float` is what the pending word denotes as a number.
    pub open spec fn closed(self, float: Option<FloatBits>) -> Result<LexerView, ErrorView> {
        match token_of(self.pending, float) {
            Ok(token) => Ok(LexerView { tokens: self.tokens.push(token), pending: Seq::empty() }),
            Err(e) => Err(e),
        }
    }

    /// The state after one more character. `pending_float` is what the
    /// pending word denotes as a number, `extended_float` what the pending
    /// word with the character added to it denotes.
    ///
    /// White space closes the pending word, if there is one. Any other
    /// character is added to the pending word where that leaves a token, or
    /// where the word was empty and the character is a single byte of text.
    /// Otherwise it closes the pending word and begins the next one.
    pub open spec fn fed(
        self,
        c: char,
        pending_float: Option<FloatBits>,
        extended_float: Option<FloatBits>,
    ) -> Result<LexerView, ErrorView> {
        if is_whitespace(c) {
            if self.pending.len() == 0 {
                Ok(self)
            } else {
                self.closed(pending_float)
            }
        } else if token_of(self.pending.push(c), extended_float) is Ok || (self.pending.len() == 0
            && (c as u32) < 0x80) {
            Ok(LexerView { tokens: self.tokens, pending: self.pending.push(c) })
        } else {
            match self.closed(pending_float) {
                Ok(next) => Ok(LexerView { tokens: next.tokens, pending: seq![c] }),
                Err(e) => Err(e),
            }
        }
    }

    /// The tokens of the text once it has ended: the pending word, if there
    /// is one, is closed.
    pub open spec fn finished(self, pending_float: Option<FloatBits>) -> Result<
        Seq<TokenView>,
        ErrorView,
    > {
        if self.pending.len() == 0 {
            Ok(self.tokens)
        } else {
            match self.closed(pending_float) {
                Ok(next) => Ok(next.tokens),
                Err(e) => Err(e),
            }
        }
    }
}

impl View for Lexer {
    type V = LexerView;

    closed spec fn view(&self) -> LexerView {
        LexerView { tokens: token_views(self.tokens@), pending: self.pending@ }
    }
}

impl Lexer {
    /// A scanner at the beginning of a text.
    pub fn new() -> (r: Lexer)
        ensures
            r@ == (LexerView { tokens: Seq::empty(), pending: Seq::empty() }),
    {
        let r = Lexer { tokens: Vec::new(), pending: Vec::new() };
        assert(token_views(r.tokens@) =~= Seq::empty());
        r
    }

    /// The word that is not finished.
    pub fn pending(&self) -> (r: String)
        ensures
            r@ == self@.pending,
    {
        text_of(&self.pending)
    }

    /// The number of tokens found so far.
    pub fn len(&self) -> (r: usize)
        ensures
            r == self@.tokens.len(),
    {
        self.tokens.len()
    }

    /// Closes the pending word.
    fn close(&mut self, float: Option<FloatBits>) -> (r: Result<(), JAPLError>)
        ensures
            match r {
                Ok(_) => old(self)@.closed(float) == Ok::<LexerView, ErrorView>(final(self)@),
                Err(e) => old(self)@.closed(float) == Err::<LexerView, ErrorView>(e@)
                    && *final(self) == *old(self),
            },
    {
        match Token::classify(&self.pending, float) {
            Ok(token) => {
                self.tokens.push(token);
                self.pending.clear();
                assert(token_views(self.tokens@) =~= token_views(old(self).tokens@).push(token@));
                assert(self.pending@ =~= Seq::empty());
                Ok(())
            },
            Err(e) => Err(e),
        }
    }

    /// Takes the next character of the text. `pending_float` is what the
    /// pending word denotes as a 64-bit IEEE-754 number, and `extended_float`
    /// what the pending word followed by `c` denotes, each `None` where the
    /// word denotes no such number. After an error nothing has changed.
    pub fn feed(
        &mut self,
        c: char,
        pending_float: Option<FloatBits>,
        extended_float: Option<FloatBits>,
    ) -> (r: Result<(), JAPLError>)
        ensures
            match r {
                Ok(_) => old(self)@.fed(c, pending_float, extended_float) == Ok::<
                    LexerView,
                    ErrorView,
                >(final(self)@),
                Err(e) => old(self)@.fed(c, pending_float, extended_float) == Err::<
                    LexerView,
                    ErrorView,
                >(e@) && *final(self) == *old(self),
            },
    {
        if whitespace(c) {
            if self.pending.len() == 0 {
                return Ok(());
            }
            return self.close(pending_float);
        }
        let mut extended = self.pending.clone();
        extended.push(c);
        assert(extended@ =~= self.pending@.push(c));
        let fits = Token::classify(&extended, extended_float).is_ok();
        if fits || (self.pending.len() == 0 && (c as u32) < 0x80) {
            self.pending.push(c);
            return Ok(());
        }
        match self.close(pending_float) {
            Ok(_) => {
                self.pending.push(c);
                assert(self.pending@ =~= seq![c]);
                Ok(())
            },
            Err(e) => Err(e),
        }
    }

    /// Ends the text and hands out its tokens. `pending_float` is what the
    /// pending word denotes as a 64-bit IEEE-754 number, if it denotes one.
    pub fn finish(self, pending_float: Option<FloatBits>) -> (r: Result<Vec<Token>, JAPLError>)
        ensures
            match r {
                Ok(tokens) => self@.finished(pending_float) == Ok::<Seq<TokenView>, ErrorView>(
                    token_views(tokens@),
                ),
                Err(e) => self@.finished(pending_float) == Err::<Seq<TokenView>, ErrorView>(e@),
            },
    {
        let mut lexer = self;
        if lexer.pending.len() == 0 {
            return Ok(lexer.tokens);
        }
        match lexer.close(pending_float) {
            Ok(_) => Ok(lexer.tokens),
            Err(e) => Err(e),
        }
    }
}

} // verus!
