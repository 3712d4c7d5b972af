use vstd::prelude::*;

verus! {

/// The order in which the bytes of a number stand in memory.
#[derive(Debug, PartialEq, Eq, Structural, Clone, Copy)]
pub enum ByteOrder {
    /// The lowest byte first.
    Little,
    /// The highest byte first.
    Big,
}

/// `u16::to_ne_bytes`: the two bytes of a number in the order in which this
/// machine keeps them, which is one of the two orders.
#[verifier::external_body]
fn native_bytes(value: u16) -> (r: [u8; 2])
    ensures
        r@ == encode(value as u64, 2, ByteOrder::Little) || r@ == encode(
            value as u64,
            2,
            ByteOrder::Big,
        ),
{
    value.to_ne_bytes()
}

impl ByteOrder {
    /// The order in which this machine keeps the bytes of a number.
    pub fn native() -> ByteOrder {
        let probe = native_bytes(1);
        ByteOrder::shown_by(&probe)
    }

    /// The order that two bytes show which hold the number one: whichever
    /// order the number was written in, that order is the result.
    pub fn shown_by(probe: &[u8; 2]) -> (r: ByteOrder)
        ensures
            r == order_shown(probe@),
            forall|order: ByteOrder| probe@ == encode(1, 2, order) ==> r == order,
    {
        assert forall|order: ByteOrder| probe@ == encode(1, 2, order) implies order_shown(probe@)
            == order by {
            assert(encode(1, 2, order)[0] == byte_at(1, position_of(2, order, 0)));
        }
        if probe[0] == 1 {
            ByteOrder::Little
        } else {
            ByteOrder::Big
        }
    }
}

/// The order that two bytes show which hold the number one: the lowest byte
/// of that number is one and its other byte is zero, so the bytes are in
/// little-endian order exactly when the first of them is one.
pub open spec fn order_shown(probe: Seq<u8>) -> ByteOrder {
    if probe[0] == 1 {
        ByteOrder::Little
    } else {
        ByteOrder::Big
    }
}

/// The weight of the byte with the given position in a number: 256 to the
/// power of the position, for the positions 0 to 8.
pub open spec fn place(position: int) -> int {
    if position == 0 {
        1
    } else if position == 1 {
        0x100
    } else if position == 2 {
        0x1_0000
    } else if position == 3 {
        0x100_0000
    } else if position == 4 {
        0x1_0000_0000
    } else if position == 5 {
        0x100_0000_0000
    } else if position == 6 {
        0x1_0000_0000_0000
    } else if position == 7 {
        0x100_0000_0000_0000
    } else {
        0x1_0000_0000_0000_0000
    }
}

/// The byte of a number at a position; position 0 is the lowest byte.
pub open spec fn byte_at(value: u64, position: int) -> u8 {
    ((value as int / place(position)) % 256) as u8
}

/// The position in the number of the byte that stands at `index` among
/// `width` bytes.
pub open spec fn position_of(width: int, order: ByteOrder, index: int) -> int {
    match order {
        ByteOrder::Little => index,
        ByteOrder::Big => width - 1 - index,
    }
}

/// The lowest `width` bytes of a number in the given order; higher bytes of
/// the number are left out.
pub open spec fn encode(value: u64, width: nat, order: ByteOrder) -> Seq<u8> {
    Seq::new(width, |index: int| byte_at(value, position_of(width as int, order, index)))
}

/// The number whose lowest bytes are the first `count` of the given bytes,
/// read in the given order, and whose other bytes are zero.
pub open spec fn decode_prefix(bytes: Seq<u8>, order: ByteOrder, count: nat) -> int
    decreases count,
{
    if count == 0 {
        0
    } else {
        let index = count - 1;
        decode_prefix(bytes, order, index as nat) + bytes[index] * place(
            position_of(bytes.len() as int, order, index),
        )
    }
}

/// The number that the given bytes, at most eight, encode in the given order.
pub open spec fn decode(bytes: Seq<u8>, order: ByteOrder) -> int {
    decode_prefix(bytes, order, bytes.len())
}

/// The weight of a position, as a machine number.
fn weight(position: usize) -> (r: u64)
    requires
        position < 8,
    ensures
        r == place(position as int),
{
    if position == 0 {
        1
    } else if position == 1 {
        0x100
    } else if position == 2 {
        0x1_0000
    } else if position == 3 {
        0x100_0000
    } else if position == 4 {
        0x1_0000_0000
    } else if position == 5 {
        0x100_0000_0000
    } else if position == 6 {
        0x1_0000_0000_0000
    } else {
        0x100_0000_0000_0000
    }
}

/// Writes the lowest `width` bytes of a number in the given order. Beyond
/// its eight bytes a number has only zero bytes.
pub fn to_bytes(value: u64, width: usize, order: ByteOrder) -> (r: Vec<u8>)
    ensures
        r@ == encode(value, width as nat, order),
{
    let mut out: Vec<u8> = Vec::new();
    let mut index: usize = 0;
    while index < width
        invariant
            index <= width,
            out@ == encode(value, width as nat, order).take(index as int),
        decreases width - index,
    {
        let position = match order {
            ByteOrder::Little => index,
            ByteOrder::Big => width - 1 - index,
        };
        let byte = if position < 8 {
            ((value / weight(position)) % 256) as u8
        } else {
            0
        };
        out.push(byte);
        index += 1;
        assert(out@ =~= encode(value, width as nat, order).take(index as int));
    }
    assert(out@ =~= encode(value, width as nat, order));
    out
}

/// Each position weighs 256 times the one below it.
pub proof fn lemma_place_step(position: int)
    requires
        0 <= position < 8,
    ensures
        place(position + 1) == 256 * place(position),
        place(position) > 0,
{
}

/// A prefix of at most eight bytes decodes to a number below 256 to the
/// power of the number of bytes: in little-endian order it stays below the
/// weight of the first byte not read, in big-endian order it leaves room for
/// the bytes not read.
pub proof fn lemma_decode_prefix_bound(bytes: Seq<u8>, order: ByteOrder, count: nat)
    requires
        count <= bytes.len() <= 8,
    ensures
        0 <= decode_prefix(bytes, order, count),
        order == ByteOrder::Little ==> decode_prefix(bytes, order, count) < place(count as int),
        order == ByteOrder::Big ==> decode_prefix(bytes, order, count) + place(
            bytes.len() - count,
        ) <= place(bytes.len() as int),
        decode_prefix(bytes, order, count) < 0x1_0000_0000_0000_0000,
    decreases count,
{
    if count > 0 {
        let index = count - 1;
        let position = position_of(bytes.len() as int, order, index);
        lemma_decode_prefix_bound(bytes, order, index as nat);
        lemma_place_step(position);
        let byte = bytes[index] as int;
        let w = place(position);
        assert(0 <= byte * w <= 255 * w) by (nonlinear_arith)
            requires
                0 <= byte <= 255,
                w > 0,
        ;
    }
}

/// Reads a number from at most eight bytes in the given order.
pub fn from_bytes(bytes: &[u8], order: ByteOrder) -> (r: u64)
    requires
        bytes@.len() <= 8,
    ensures
        r == decode(bytes@, order),
{
    let width = bytes.len();
    let mut value: u64 = 0;
    let mut index: usize = 0;
    while index < width
        invariant
            index <= width <= 8,
            width == bytes@.len(),
            value == decode_prefix(bytes@, order, index as nat),
        decreases width - index,
    {
        let position = match order {
            ByteOrder::Little => index,
            ByteOrder::Big => width - 1 - index,
        };
        proof {
            lemma_decode_prefix_bound(bytes@, order, (index + 1) as nat);
        }
        value = value + (bytes[index] as u64) * weight(position);
        index += 1;
    }
    value
}

/// The bytes of a number below a position, and the byte at it, make up the
/// bytes below the next position.
pub proof fn lemma_byte_at(value: u64, position: int)
    requires
        0 <= position < 8,
    ensures
        value as int % place(position + 1) == value as int % place(position) + byte_at(
            value,
            position,
        ) * place(position),
{
    lemma_place_step(position);
    vstd::arithmetic::div_mod::lemma_mod_breakdown(value as int, place(position), 256);
    assert(place(position) * 256 == place(position + 1));
    assert(place(position) * ((value as int / place(position)) % 256) == byte_at(value, position)
        * place(position)) by (nonlinear_arith)
        requires
            byte_at(value, position) == (value as int / place(position)) % 256,
    ;
}

/// What a prefix of the encoding of a number decodes to: in little-endian
/// order the bytes of the number below the prefix's length, in big-endian
/// order the bytes from there up to the width.
pub proof fn lemma_decode_encoded_prefix(value: u64, width: nat, order: ByteOrder, count: nat)
    requires
        count <= width <= 8,
    ensures
        order == ByteOrder::Little ==> decode_prefix(encode(value, width, order), order, count)
            == value as int % place(count as int),
        order == ByteOrder::Big ==> decode_prefix(encode(value, width, order), order, count)
            == value as int % place(width as int) - value as int % place(width - count),
    decreases count,
{
    if count > 0 {
        let index = count - 1;
        lemma_decode_encoded_prefix(value, width, order, index as nat);
        lemma_byte_at(value, position_of(width as int, order, index));
    }
}

/// Round trip. The lowest `width` bytes of a number, written in either order
/// and read back in the same order, give the number modulo 256 to the power
/// of `width`: the number itself where it fits into `width` bytes.
pub proof fn lemma_decode_encode(value: u64, width: nat, order: ByteOrder)
    requires
        width <= 8,
    ensures
        encode(value, width, order).len() == width,
        decode(encode(value, width, order), order) == value as int % place(width as int),
        value < place(width as int) ==> decode(encode(value, width, order), order) == value,
{
    lemma_decode_encoded_prefix(value, width, order, width);
}

} // verus!
