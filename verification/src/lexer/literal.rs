use vstd::prelude::*;
use vstd::string::StringExecFns;
use crate::bytes::{decode, encode, lemma_decode_encode, place, to_bytes, ByteOrder};
use crate::error::{ErrorView, JAPLError};
use crate::text::{chars_of, spells};

verus! {

/// An IEEE-754 number, held as the bit pattern of its 64-bit form together
/// with the bit pattern of the same number narrowed to 32 bits.
#[derive(Debug, PartialEq, Eq, Structural, Clone, Copy)]
pub struct FloatBits {
    pub double: u64,
    pub single: u32,
}

/// A value written out in the program text.
#[derive(Debug, PartialEq, Eq, Structural, Clone, Copy)]
pub enum Literal {
    Boolean(bool),
    Float(FloatBits),
    Integer(u64),
}

/// Whether a character is one of the ten decimal digits.
pub open spec fn is_digit(c: char) -> bool {
    '0' <= c <= '9'
}

/// Whether a word is made of decimal digits, at least one.
pub open spec fn is_digits(word: Seq<char>) -> bool {
    word.len() > 0 && forall|k: int| 0 <= k < word.len() ==> is_digit(#[trigger] word[k])
}

/// The number that a word of decimal digits denotes.
pub open spec fn decimal(word: Seq<char>) -> nat
    decreases word.len(),
{
    if word.len() == 0 {
        0
    } else {
        10 * decimal(word.drop_last()) + (word.last() as nat - '0' as nat) as nat
    }
}

/// A word without its sign, if it begins with one.
pub open spec fn unsigned_part(word: Seq<char>) -> Seq<char> {
    if word.len() > 0 && (word[0] == '+' || word[0] == '-') {
        word.drop_first()
    } else {
        word
    }
}

/// The number that a word denotes as an unsigned 64-bit integer: an optional
/// plus sign and decimal digits, with a value of at most 64 bits.
pub open spec fn unsigned_of(word: Seq<char>) -> Option<u64> {
    let digits = unsigned_part(word);
    if !(word.len() > 0 && word[0] == '-') && is_digits(digits) && decimal(digits) <= u64::MAX {
        Some(decimal(digits) as u64)
    } else {
        None
    }
}

/// The number that a word denotes as a signed 64-bit integer: an optional
/// sign and decimal digits, with a value from -2^63 to 2^63 - 1.
pub open spec fn signed_of(word: Seq<char>) -> Option<i64> {
    let digits = unsigned_part(word);
    if !is_digits(digits) {
        None
    } else if word[0] == '-' {
        if decimal(digits) <= 0x8000_0000_0000_0000 {
            Some((-decimal(digits)) as i64)
        } else {
            None
        }
    } else if decimal(digits) <= i64::MAX {
        Some(decimal(digits) as i64)
    } else {
        None
    }
}

/// The unsigned number with the same 64 bits as a signed one in two's
/// complement: a negative number counts up from 2^64.
pub open spec fn bit_pattern(value: i64) -> u64 {
    if value >= 0 {
        value as u64
    } else {
        (value + 0x1_0000_0000_0000_0000) as u64
    }
}

/// Whether a word begins and ends with the given quotation mark.
pub open spec fn is_quoted(word: Seq<char>, mark: char) -> bool {
    word.len() > 0 && word[0] == mark && word.last() == mark
}

/// The literal that a word denotes. `float` is what the word denotes as a
/// 64-bit IEEE-754 number, if it denotes one. An integer is read first as an
/// unsigned and then as a signed number, then come numbers that are no
/// integers, then the two truth values. Quoted characters and quoted strings
/// are not supported; every other word is an invalid identifier.
pub open spec fn literal_of(word: Seq<char>, float: Option<FloatBits>) -> Result<
    Literal,
    ErrorView,
> {
    if unsigned_of(word) is Some {
        Ok(Literal::Integer(unsigned_of(word).unwrap()))
    } else if signed_of(word) is Some {
        Ok(Literal::Integer(bit_pattern(signed_of(word).unwrap())))
    } else if float is Some {
        Ok(Literal::Float(float.unwrap()))
    } else if word == "true"@ {
        Ok(Literal::Boolean(true))
    } else if word == "false"@ {
        Ok(Literal::Boolean(false))
    } else if is_quoted(word, '\'') {
        Err(ErrorView::Unsupported("Characters not supported yet"@))
    } else if is_quoted(word, '"') {
        Err(ErrorView::Unsupported("Strings not supported yet"@))
    } else {
        Err(ErrorView::InvalidIdentifier(word))
    }
}

/// A number grows with every digit appended to it.
proof fn lemma_decimal_prefix(word: Seq<char>, count: int)
    requires
        0 <= count <= word.len(),
    ensures
        decimal(word.take(count)) <= decimal(word),
    decreases word.len(),
{
    if count < word.len() {
        assert(word.drop_last().take(count) =~= word.take(count));
        lemma_decimal_prefix(word.drop_last(), count);
    } else {
        assert(word.take(count) =~= word);
    }
}

/// Reads the decimal digits of `word` from `start` on. The result is `None`
/// where there is no digit, where a character is no digit, and where the
/// number does not fit into 64 bits.
fn parse_digits(word: &Vec<char>, start: usize) -> (r: Option<u64>)
    requires
        start <= word.len(),
    ensures
        r == if is_digits(word@.skip(start as int)) && decimal(word@.skip(start as int))
            <= u64::MAX {
            Some(decimal(word@.skip(start as int)) as u64)
        } else {
            None
        },
{
    let ghost digits = word@.skip(start as int);
    if start == word.len() {
        return None;
    }
    let mut value: u64 = 0;
    let mut k: usize = start;
    while k < word.len()
        invariant
            start <= k <= word.len(),
            digits == word@.skip(start as int),
            forall|j: int| 0 <= j < k - start ==> is_digit(#[trigger] digits[j]),
            value == decimal(digits.take(k - start)),
        decreases word.len() - k,
    {
        let c = word[k];
        assert(c == digits[k - start]);
        if c < '0' || c > '9' {
            return None;
        }
        let digit = (c as u32 - '0' as u32) as u64;
        proof {
            assert(digits.take(k + 1 - start).drop_last() =~= digits.take(k - start));
            lemma_decimal_prefix(digits, k + 1 - start);
        }
        if value > (u64::MAX - digit) / 10 {
            return None;
        }
        value = value * 10 + digit;
        k += 1;
    }
    assert(digits.take(k - start) =~= digits);
    Some(value)
}

/// Reads an unsigned 64-bit integer: an optional plus sign and decimal digits.
pub fn parse_unsigned(word: &Vec<char>) -> (r: Option<u64>)
    ensures
        r == unsigned_of(word@),
{
    if word.len() > 0 && word[0] == '-' {
        return None;
    }
    let start: usize = if word.len() > 0 && word[0] == '+' {
        1
    } else {
        0
    };
    assert(word@.skip(start as int) =~= unsigned_part(word@));
    parse_digits(word, start)
}

/// Reads a signed 64-bit integer: an optional sign and decimal digits.
pub fn parse_signed(word: &Vec<char>) -> (r: Option<i64>)
    ensures
        r == signed_of(word@),
{
    let negative = word.len() > 0 && word[0] == '-';
    let start: usize = if word.len() > 0 && (word[0] == '+' || word[0] == '-') {
        1
    } else {
        0
    };
    assert(word@.skip(start as int) =~= unsigned_part(word@));
    match parse_digits(word, start) {
        None => None,
        Some(magnitude) => {
            if negative {
                if magnitude < 0x8000_0000_0000_0000 {
                    Some(-(magnitude as i64))
                } else if magnitude == 0x8000_0000_0000_0000 {
                    Some(i64::MIN)
                } else {
                    None
                }
            } else if magnitude <= 0x7fff_ffff_ffff_ffff {
                Some(magnitude as i64)
            } else {
                None
            }
        },
    }
}

/// Takes the 64 bits of a signed number in two's complement as an unsigned
/// number.
pub fn reinterpret(value: i64) -> (r: u64)
    ensures
        r == bit_pattern(value),
{
    if value >= 0 {
        value as u64
    } else {
        u64::MAX - ((-(value + 1)) as u64)
    }
}

impl Literal {
    /// The bytes that stand for the literal in a place of `size` bytes. A
    /// truth value is one byte, one or zero. A number that is no integer is
    /// the four bytes of its 32-bit form where `size` is four, and the eight
    /// bytes of its 64-bit form otherwise. An integer is its lowest one, two
    /// or four bytes where `size` is that, and all its eight bytes otherwise.
    pub open spec fn bytes(self, size: nat, order: ByteOrder) -> Seq<u8> {
        match self {
            Literal::Boolean(truth) => seq![
                if truth {
                    1u8
                } else {
                    0u8
                },
            ],
            Literal::Float(bits) => if size == 4 {
                encode(bits.single as u64, 4, order)
            } else {
                encode(bits.double, 8, order)
            },
            Literal::Integer(value) => if size == 1 || size == 2 || size == 4 {
                encode(value, size, order)
            } else {
                encode(value, 8, order)
            },
        }
    }

    /// Encodes the literal for a place of `size` bytes.
    pub fn as_bytes(&self, size: usize, order: ByteOrder) -> (r: Vec<u8>)
        ensures
            r@ == self.bytes(size as nat, order),
    {
        match self {
            Literal::Boolean(truth) => {
                let mut out: Vec<u8> = Vec::new();
                out.push(if *truth {
                    1
                } else {
                    0
                });
                assert(out@ =~= self.bytes(size as nat, order));
                out
            },
            Literal::Float(bits) => {
                if size == 4 {
                    to_bytes(bits.single as u64, 4, order)
                } else {
                    to_bytes(bits.double, 8, order)
                }
            },
            Literal::Integer(value) => {
                if size == 1 || size == 2 || size == 4 {
                    to_bytes(*value, size, order)
                } else {
                    to_bytes(*value, 8, order)
                }
            },
        }
    }

    /// The literal that the characters denote.
    pub fn read(word: &Vec<char>, float: Option<FloatBits>) -> (r: Result<Literal, JAPLError>)
        ensures
            match r {
                Ok(literal) => literal_of(word@, float) == Ok::<Literal, ErrorView>(literal),
                Err(e) => literal_of(word@, float) == Err::<Literal, ErrorView>(e@),
            },
    {
        if let Some(value) = parse_unsigned(word) {
            return Ok(Literal::Integer(value));
        }
        if let Some(value) = parse_signed(word) {
            return Ok(Literal::Integer(reinterpret(value)));
        }
        if let Some(bits) = float {
            return Ok(Literal::Float(bits));
        }
        if spells(word, "true") {
            return Ok(Literal::Boolean(true));
        }
        if spells(word, "false") {
            return Ok(Literal::Boolean(false));
        }
        let n = word.len();
        if n > 0 && word[0] == '\'' && word[n - 1] == '\'' {
            return Err(JAPLError::Unsupported(String::from_str("Characters not supported yet")));
        }
        if n > 0 && word[0] == '"' && word[n - 1] == '"' {
            return Err(JAPLError::Unsupported(String::from_str("Strings not supported yet")));
        }
        Err(JAPLError::InvalidIdentifier(crate::text::text_of(word)))
    }

    /// Reads a literal from a word of the program text. `float` is what the
    /// word denotes as a 64-bit IEEE-754 number, if it denotes one.
    pub fn try_from(value: &str, float: Option<FloatBits>) -> (r: Result<Literal, JAPLError>)
        ensures
            match r {
                Ok(literal) => literal_of(value@, float) == Ok::<Literal, ErrorView>(literal),
                Err(e) => literal_of(value@, float) == Err::<Literal, ErrorView>(e@),
            },
    {
        let word = chars_of(value);
        Literal::read(&word, float)
    }
}

/// Round trip. A literal encoded for a place of one, two, four or eight
/// bytes and read back in the same byte order gives: for an integer, the
/// integer modulo 256 to the power of the size, which is the integer itself
/// where it fits; for a truth value, one or zero; for a number that is no
/// integer, the bit pattern of its 32-bit form where the size is four and
/// that of its 64-bit form where the size is eight.
pub proof fn lemma_literal_round_trip(literal: Literal, size: nat, order: ByteOrder)
    requires
        size == 1 || size == 2 || size == 4 || size == 8,
    ensures
        match literal {
            Literal::Integer(value) => {
                &&& literal.bytes(size, order).len() == size
                &&& decode(literal.bytes(size, order), order) == value as int % place(size as int)
                &&& value < place(size as int) ==> decode(literal.bytes(size, order), order)
                    == value
            },
            Literal::Boolean(truth) => {
                &&& literal.bytes(size, order).len() == 1
                &&& decode(literal.bytes(size, order), order) == if truth {
                    1int
                } else {
                    0int
                }
            },
            Literal::Float(bits) => {
                &&& size == 4 ==> literal.bytes(size, order).len() == 4 && decode(
                    literal.bytes(size, order),
                    order,
                ) == bits.single
                &&& size == 8 ==> literal.bytes(size, order).len() == 8 && decode(
                    literal.bytes(size, order),
                    order,
                ) == bits.double
            },
        },
{
    match literal {
        Literal::Integer(value) => {
            lemma_decode_encode(value, size, order);
        },
        Literal::Boolean(truth) => {
            let bytes = literal.bytes(size, order);
            reveal_with_fuel(crate::bytes::decode_prefix, 2);
            assert(bytes.len() == 1);
        },
        Literal::Float(bits) => {
            lemma_decode_encode(bits.single as u64, 4, order);
            lemma_decode_encode(bits.double, 8, order);
        },
    }
}

} // verus!
