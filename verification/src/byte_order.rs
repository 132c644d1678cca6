//! Integers as bytes, in either byte order.

use vstd::prelude::*;

verus! {

/// The order in which the bytes of a multi-byte integer stand on the wire.
#[derive(Clone, Copy, Debug, PartialEq, Eq, Structural)]
pub enum ByteOrder {
    /// Most significant byte first: network byte order.
    BigEndian,
    /// Least significant byte first.
    LittleEndian,
}

impl ByteOrder {
    /// The byte order in which the two bytes of `probe` hold the number one.
    /// Bytes that do not hold it least significant byte first are taken for
    /// big-endian.
    pub fn from_probe(probe: [u8; 2]) -> (order: ByteOrder)
        ensures
            order == if probe@[0] == 1 {
                ByteOrder::LittleEndian
            } else {
                ByteOrder::BigEndian
            },
            forall|other: ByteOrder| probe@ == u16_bytes(1, other) ==> order == other,
    {
        if probe[0] == 1 {
            ByteOrder::LittleEndian
        } else {
            ByteOrder::BigEndian
        }
    }

    /// The byte order of the machine that runs the call, found by looking at
    /// how it lays out the number one. Nothing is promised of the result:
    /// it is one thing on one machine and another on the next.
    pub fn native() -> ByteOrder {
        ByteOrder::from_probe(u16_native_bytes(1))
    }
}

/// `u16::to_ne_bytes`: the bytes of `x` as the running machine keeps them in
/// memory. Which of the two byte orders that is depends on the machine, so
/// the contract only says that it is one of them.
#[verifier::external_body]
fn u16_native_bytes(x: u16) -> (bytes: [u8; 2])
    ensures
        bytes@ == u16_bytes(x, ByteOrder::BigEndian) || bytes@ == u16_bytes(
            x,
            ByteOrder::LittleEndian,
        ),
{
    x.to_ne_bytes()
}

/// The two bytes of `x`, most significant first.
pub open spec fn u16_be_bytes(x: u16) -> Seq<u8> {
    seq![(x / 0x100) as u8, (x % 0x100) as u8]
}

/// The four bytes of `x`, most significant first.
pub open spec fn u32_be_bytes(x: u32) -> Seq<u8> {
    seq![
        (x / 0x100_0000) as u8,
        (x / 0x1_0000 % 0x100) as u8,
        (x / 0x100 % 0x100) as u8,
        (x % 0x100) as u8,
    ]
}

/// The integer whose bytes are `hi`, `lo`, most significant first.
pub open spec fn u16_of_be_bytes(hi: u8, lo: u8) -> u16 {
    (hi * 0x100 + lo) as u16
}

/// The integer whose bytes are `b3`, `b2`, `b1`, `b0`, most significant first.
pub open spec fn u32_of_be_bytes(b3: u8, b2: u8, b1: u8, b0: u8) -> u32 {
    (b3 * 0x100_0000 + b2 * 0x1_0000 + b1 * 0x100 + b0) as u32
}

/// The two bytes of `x` in the given order.
pub open spec fn u16_bytes(x: u16, order: ByteOrder) -> Seq<u8> {
    match order {
        ByteOrder::BigEndian => u16_be_bytes(x),
        ByteOrder::LittleEndian => seq![u16_be_bytes(x)[1], u16_be_bytes(x)[0]],
    }
}

/// The four bytes of `x` in the given order.
pub open spec fn u32_bytes(x: u32, order: ByteOrder) -> Seq<u8> {
    match order {
        ByteOrder::BigEndian => u32_be_bytes(x),
        ByteOrder::LittleEndian => seq![
            u32_be_bytes(x)[3],
            u32_be_bytes(x)[2],
            u32_be_bytes(x)[1],
            u32_be_bytes(x)[0],
        ],
    }
}

/// The integer that the first two bytes of `bytes` stand for in the given
/// order.
pub open spec fn u16_of_bytes(bytes: Seq<u8>, order: ByteOrder) -> u16
    recommends
        bytes.len() >= 2,
{
    match order {
        ByteOrder::BigEndian => u16_of_be_bytes(bytes[0], bytes[1]),
        ByteOrder::LittleEndian => u16_of_be_bytes(bytes[1], bytes[0]),
    }
}

/// The integer that the first four bytes of `bytes` stand for in the given
/// order.
pub open spec fn u32_of_bytes(bytes: Seq<u8>, order: ByteOrder) -> u32
    recommends
        bytes.len() >= 4,
{
    match order {
        ByteOrder::BigEndian => u32_of_be_bytes(bytes[0], bytes[1], bytes[2], bytes[3]),
        ByteOrder::LittleEndian => u32_of_be_bytes(bytes[3], bytes[2], bytes[1], bytes[0]),
    }
}

/// Splits `x` into its two bytes in the given order.
pub fn u16_to_bytes(x: u16, order: ByteOrder) -> (bytes: [u8; 2])
    ensures
        bytes@ == u16_bytes(x, order),
{
    let hi: u8 = (x / 0x100) as u8;
    let lo: u8 = (x % 0x100) as u8;
    match order {
        ByteOrder::BigEndian => [hi, lo],
        ByteOrder::LittleEndian => [lo, hi],
    }
}

/// Splits `x` into its four bytes in the given order.
pub fn u32_to_bytes(x: u32, order: ByteOrder) -> (bytes: [u8; 4])
    ensures
        bytes@ == u32_bytes(x, order),
{
    let b3: u8 = (x / 0x100_0000) as u8;
    let b2: u8 = (x / 0x1_0000 % 0x100) as u8;
    let b1: u8 = (x / 0x100 % 0x100) as u8;
    let b0: u8 = (x % 0x100) as u8;
    match order {
        ByteOrder::BigEndian => [b3, b2, b1, b0],
        ByteOrder::LittleEndian => [b0, b1, b2, b3],
    }
}

/// Joins two bytes, given in the stated order, into an integer.
pub fn u16_from_bytes(bytes: [u8; 2], order: ByteOrder) -> (x: u16)
    ensures
        x == u16_of_bytes(bytes@, order),
{
    let (hi, lo): (u8, u8) = match order {
        ByteOrder::BigEndian => (bytes[0], bytes[1]),
        ByteOrder::LittleEndian => (bytes[1], bytes[0]),
    };
    hi as u16 * 0x100 + lo as u16
}

/// Joins four bytes, given in the stated order, into an integer.
pub fn u32_from_bytes(bytes: [u8; 4], order: ByteOrder) -> (x: u32)
    ensures
        x == u32_of_bytes(bytes@, order),
{
    let (b3, b2, b1, b0): (u8, u8, u8, u8) = match order {
        ByteOrder::BigEndian => (bytes[0], bytes[1], bytes[2], bytes[3]),
        ByteOrder::LittleEndian => (bytes[3], bytes[2], bytes[1], bytes[0]),
    };
    b3 as u32 * 0x100_0000 + b2 as u32 * 0x1_0000 + b1 as u32 * 0x100 + b0 as u32
}

/// Splitting a 16-bit integer into bytes and joining them again, in the same
/// order, gives the integer back.
pub proof fn lemma_u16_value_round_trip(x: u16, order: ByteOrder)
    ensures
        u16_bytes(x, order).len() == 2,
        u16_of_bytes(u16_bytes(x, order), order) == x,
{
}

/// Splitting a 32-bit integer into bytes and joining them again, in the same
/// order, gives the integer back.
pub proof fn lemma_u32_value_round_trip(x: u32, order: ByteOrder)
    ensures
        u32_bytes(x, order).len() == 4,
        u32_of_bytes(u32_bytes(x, order), order) == x,
{
}

/// Joining two bytes into an integer and splitting it again, in the same
/// order, gives the two bytes back.
pub proof fn lemma_u16_bytes_round_trip(bytes: Seq<u8>, order: ByteOrder)
    requires
        bytes.len() == 2,
    ensures
        u16_bytes(u16_of_bytes(bytes, order), order) == bytes,
{
}

/// Joining four bytes into an integer and splitting it again, in the same
/// order, gives the four bytes back.
pub proof fn lemma_u32_bytes_round_trip(bytes: Seq<u8>, order: ByteOrder)
    requires
        bytes.len() == 4,
    ensures
        u32_bytes(u32_of_bytes(bytes, order), order) == bytes,
{
    match order {
        ByteOrder::BigEndian => lemma_u32_be_digits(bytes[0], bytes[1], bytes[2], bytes[3]),
        ByteOrder::LittleEndian => lemma_u32_be_digits(bytes[3], bytes[2], bytes[1], bytes[0]),
    }
}

/// The big-endian bytes of the integer made of four bytes are those bytes.
proof fn lemma_u32_be_digits(b3: u8, b2: u8, b1: u8, b0: u8)
    ensures
        u32_be_bytes(u32_of_be_bytes(b3, b2, b1, b0)) == seq![b3, b2, b1, b0],
{
    let low: int = b2 * 0x1_0000 + b1 * 0x100 + b0;
    let x: int = b3 * 0x100_0000 + low;
    assert(0 <= low < 0x100_0000);
    assert(x / 0x100_0000 == b3);
    assert(x / 0x1_0000 == b3 * 0x100 + b2);
    assert(x / 0x100 == b3 * 0x1_0000 + b2 * 0x100 + b1);
    assert(x % 0x100 == b0);
}

} // verus!
