//! Owned byte buffers.
//!
//! The adapter hands payloads around as `bytes::Bytes` and collects
//! scattered payloads in a `bytes::BytesMut`. Both are opaque here: what
//! they hold is named, and the few calls that the adapter makes are stated
//! over those names.

use bytes::BufMut;
use vstd::prelude::*;

verus! {

#[verifier::external_type_specification]
#[verifier::external_body]
pub struct ExBytes(bytes::Bytes);

#[verifier::external_type_specification]
#[verifier::external_body]
pub struct ExBytesMut(bytes::BytesMut);

/// The bytes that a frozen buffer holds, first to last.
pub uninterp spec fn bytes_contents(b: bytes::Bytes) -> Seq<u8>;

/// The bytes that a growable buffer holds, first to last.
pub uninterp spec fn bytes_mut_contents(b: bytes::BytesMut) -> Seq<u8>;

/// `bytes::BytesMut::new`: a buffer that holds nothing.
#[verifier::external_body]
pub(crate) fn bytes_mut_new() -> (b: bytes::BytesMut)
    ensures
        bytes_mut_contents(b) == Seq::<u8>::empty(),
{
    bytes::BytesMut::new()
}

/// `bytes::BufMut::put` on a `BytesMut`, with a slice as the source: the
/// slice's bytes are appended to what the buffer holds, which grows as
/// needed.
#[verifier::external_body]
pub(crate) fn bytes_mut_put(b: &mut bytes::BytesMut, src: &[u8])
    ensures
        bytes_mut_contents(*final(b)) == bytes_mut_contents(*old(b)) + src@,
{
    b.put(src)
}

/// `bytes::BytesMut::freeze`: the frozen buffer holds what the growable
/// one held.
#[verifier::external_body]
pub(crate) fn bytes_mut_freeze(b: bytes::BytesMut) -> (frozen: bytes::Bytes)
    ensures
        bytes_contents(frozen) == bytes_mut_contents(b),
{
    b.freeze()
}

/// `From<Vec<u8>>` of `bytes::Bytes`: the buffer holds the vector's bytes.
#[verifier::external_body]
pub(crate) fn bytes_from_vec(v: Vec<u8>) -> (b: bytes::Bytes)
    ensures
        bytes_contents(b) == v@,
{
    bytes::Bytes::from(v)
}

/// `bytes::Bytes::len`: the number of bytes held.
#[verifier::external_body]
pub(crate) fn bytes_len(b: &bytes::Bytes) -> (n: usize)
    ensures
        n == bytes_contents(*b).len(),
{
    b.len()
}

/// `Deref` of `bytes::Bytes`, copied to a vector: the bytes held, in
/// order.
#[verifier::external_body]
pub(crate) fn bytes_to_vec(b: &bytes::Bytes) -> (v: Vec<u8>)
    ensures
        v@ == bytes_contents(*b),
{
    b.to_vec()
}

/// The contents of each piece of a scattered payload.
pub open spec fn pieces(segments: Seq<Vec<u8>>) -> Seq<Seq<u8>> {
    Seq::new(segments.len(), |i: int| segments[i]@)
}

/// The first `n` pieces, one after the other.
pub open spec fn joined(segments: Seq<Vec<u8>>, n: int) -> Seq<u8> {
    pieces(segments).take(n).flatten()
}

/// Joining one more piece appends it.
pub proof fn lemma_joined_step(segments: Seq<Vec<u8>>, n: int)
    requires
        0 <= n < segments.len(),
    ensures
        joined(segments, n + 1) == joined(segments, n) + segments[n]@,
{
    let p = pieces(segments);
    assert(p.take(n + 1) =~= p.take(n).push(segments[n]@));
    p.take(n).lemma_flatten_push(segments[n]@);
}

/// Joining all pieces is flattening them.
pub proof fn lemma_joined_all(segments: Seq<Vec<u8>>)
    ensures
        joined(segments, segments.len() as int) == pieces(segments).flatten(),
{
    let p = pieces(segments);
    assert(p.take(segments.len() as int) =~= p);
}

/// A longer prefix of the pieces joins to at least as many bytes.
pub proof fn lemma_joined_grows(segments: Seq<Vec<u8>>, n: int, m: int)
    requires
        0 <= n <= m <= segments.len(),
    ensures
        joined(segments, n).len() <= joined(segments, m).len(),
    decreases m - n,
{
    if n < m {
        lemma_joined_step(segments, m - 1);
        lemma_joined_grows(segments, n, m - 1);
    }
}

/// Copies the pieces of a scattered payload, in order, into one contiguous
/// vector.
pub fn gather(segments: &Vec<Vec<u8>>) -> (out: Vec<u8>)
    ensures
        out@ == pieces(segments@).flatten(),
{
    let mut out: Vec<u8> = Vec::new();
    let mut i: usize = 0;
    assert(joined(segments@, 0) =~= Seq::<u8>::empty());
    while i < segments.len()
        invariant
            i <= segments.len(),
            out@ == joined(segments@, i as int),
        decreases segments.len() - i,
    {
        let ghost before = out@;
        out.extend_from_slice(segments[i].as_slice());
        proof {
            lemma_joined_step(segments@, i as int);
            assert(out@ =~= before + segments@[i as int]@);
        }
        i += 1;
    }
    proof {
        lemma_joined_all(segments@);
    }
    out
}

/// Collects the fragments of a received payload, in order, in one
/// contiguous buffer. Every fragment is taken, whatever their number.
pub fn assemble(fragments: &Vec<Vec<u8>>) -> (out: bytes::Bytes)
    ensures
        bytes_contents(out) == pieces(fragments@).flatten(),
{
    let mut buffer = bytes_mut_new();
    let mut i: usize = 0;
    assert(joined(fragments@, 0) =~= Seq::<u8>::empty());
    while i < fragments.len()
        invariant
            i <= fragments.len(),
            bytes_mut_contents(buffer) == joined(fragments@, i as int),
        decreases fragments.len() - i,
    {
        bytes_mut_put(&mut buffer, fragments[i].as_slice());
        proof {
            lemma_joined_step(fragments@, i as int);
        }
        i += 1;
    }
    proof {
        lemma_joined_all(fragments@);
    }
    bytes_mut_freeze(buffer)
}

} // verus!
