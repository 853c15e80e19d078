//! 32-bit words in memory, in either byte order.
//!
//! The engine keeps addresses as 32-bit words whose bytes in memory are the
//! address's octets in network order. Which word that is depends on the byte
//! order of the machine, so the byte order is a value here.

use byteorder::ByteOrder;
use vstd::prelude::*;

verus! {

/// The order in which a machine lays out the bytes of a word.
#[derive(Clone, Copy, Debug, PartialEq, Eq, Structural)]
pub enum Endian {
    Little,
    Big,
}

/// The word whose four bytes, least significant first, are `b[0..4]`.
pub open spec fn le_word(b: Seq<u8>) -> u32 {
    (b[0] as u32) | (b[1] as u32) << 8 | (b[2] as u32) << 16 | (b[3] as u32) << 24
}

/// The word whose four bytes, most significant first, are `b[0..4]`.
pub open spec fn be_word(b: Seq<u8>) -> u32 {
    (b[3] as u32) | (b[2] as u32) << 8 | (b[1] as u32) << 16 | (b[0] as u32) << 24
}

/// The four bytes of `w`, least significant first.
pub open spec fn le_bytes(w: u32) -> Seq<u8> {
    seq![
        (w & 0xff) as u8,
        ((w >> 8) & 0xff) as u8,
        ((w >> 16) & 0xff) as u8,
        ((w >> 24) & 0xff) as u8,
    ]
}

/// The four bytes of `w`, most significant first.
pub open spec fn be_bytes(w: u32) -> Seq<u8> {
    seq![
        ((w >> 24) & 0xff) as u8,
        ((w >> 16) & 0xff) as u8,
        ((w >> 8) & 0xff) as u8,
        (w & 0xff) as u8,
    ]
}

/// The word that a machine of the given byte order reads from `b[0..4]`.
pub open spec fn word_of(order: Endian, b: Seq<u8>) -> u32 {
    match order {
        Endian::Little => le_word(b),
        Endian::Big => be_word(b),
    }
}

/// The bytes that a machine of the given byte order stores for `w`.
pub open spec fn bytes_of(order: Endian, w: u32) -> Seq<u8> {
    match order {
        Endian::Little => le_bytes(w),
        Endian::Big => be_bytes(w),
    }
}

/// `byteorder::LittleEndian::read_u32` on a buffer of exactly four bytes:
/// the word that has them as its bytes, least significant first.
#[verifier::external_body]
fn read_little(b: [u8; 4]) -> (w: u32)
    ensures
        w == le_word(b@),
{
    byteorder::LittleEndian::read_u32(&b)
}

/// `byteorder::BigEndian::read_u32` on a buffer of exactly four bytes: the
/// word that has them as its bytes, most significant first.
#[verifier::external_body]
fn read_big(b: [u8; 4]) -> (w: u32)
    ensures
        w == be_word(b@),
{
    byteorder::BigEndian::read_u32(&b)
}

/// `byteorder::LittleEndian::write_u32` into a buffer of exactly four bytes:
/// the bytes of the word, least significant first.
#[verifier::external_body]
fn write_little(w: u32) -> (b: [u8; 4])
    ensures
        b@ == le_bytes(w),
{
    let mut b = [0u8; 4];
    byteorder::LittleEndian::write_u32(&mut b, w);
    b
}

/// `byteorder::BigEndian::write_u32` into a buffer of exactly four bytes:
/// the bytes of the word, most significant first.
#[verifier::external_body]
fn write_big(w: u32) -> (b: [u8; 4])
    ensures
        b@ == be_bytes(w),
{
    let mut b = [0u8; 4];
    byteorder::BigEndian::write_u32(&mut b, w);
    b
}

/// Reads four bytes as a machine of the given byte order does.
pub fn read_word(order: Endian, b: [u8; 4]) -> (w: u32)
    ensures
        w == word_of(order, b@),
{
    match order {
        Endian::Little => read_little(b),
        Endian::Big => read_big(b),
    }
}

/// Stores a word as a machine of the given byte order does.
pub fn write_word(order: Endian, w: u32) -> (b: [u8; 4])
    ensures
        b@ == bytes_of(order, w),
{
    match order {
        Endian::Little => write_little(w),
        Endian::Big => write_big(w),
    }
}

/// Storing the word that was read gives the bytes back.
pub proof fn lemma_bytes_of_word(order: Endian, b: Seq<u8>)
    requires
        b.len() == 4,
    ensures
        bytes_of(order, word_of(order, b)) == b,
{
    let b0 = b[0];
    let b1 = b[1];
    let b2 = b[2];
    let b3 = b[3];
    assert({
        let w = (b0 as u32) | (b1 as u32) << 8 | (b2 as u32) << 16 | (b3 as u32) << 24;
        &&& (w & 0xff) as u8 == b0
        &&& ((w >> 8) & 0xff) as u8 == b1
        &&& ((w >> 16) & 0xff) as u8 == b2
        &&& ((w >> 24) & 0xff) as u8 == b3
    }) by (bit_vector);
    assert({
        let w = (b3 as u32) | (b2 as u32) << 8 | (b1 as u32) << 16 | (b0 as u32) << 24;
        &&& (w & 0xff) as u8 == b3
        &&& ((w >> 8) & 0xff) as u8 == b2
        &&& ((w >> 16) & 0xff) as u8 == b1
        &&& ((w >> 24) & 0xff) as u8 == b0
    }) by (bit_vector);
    assert(bytes_of(order, word_of(order, b)) =~= b);
}

/// Reading the bytes that were stored gives the word back.
pub proof fn lemma_word_of_bytes(order: Endian, w: u32)
    ensures
        bytes_of(order, w).len() == 4,
        word_of(order, bytes_of(order, w)) == w,
{
    assert(((w & 0xff) as u8 as u32) | (((w >> 8) & 0xff) as u8 as u32) << 8 | (((w >> 16)
        & 0xff) as u8 as u32) << 16 | (((w >> 24) & 0xff) as u8 as u32) << 24 == w)
        by (bit_vector);
}

} // verus!
