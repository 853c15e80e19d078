//! The bridge between the engine's packet buffers and owned bytes.
//!
//! A packet buffer of the engine is a chain of segments with a total
//! length of at most 65535 bytes. `PacketBuffer` holds such a chain by
//! value: bytes cross the boundary by copy, and nothing here keeps a
//! reference into memory that the engine owns.

use crate::buf::{bytes_contents, bytes_from_vec, bytes_to_vec, gather};
use crate::buf::{joined, lemma_joined_all, lemma_joined_grows, lemma_joined_step, pieces};
use crate::fault::Fault;
use vstd::prelude::*;

verus! {

/// The longest payload that one packet buffer can carry.
pub const MAX_PACKET: usize = 65535;

/// A packet buffer: a chain of segments, and the sum of their lengths.
#[derive(Debug)]
pub struct PacketBuffer {
    segments: Vec<Vec<u8>>,
    tot_len: u16,
}

impl View for PacketBuffer {
    type V = Seq<u8>;

    /// The payload: the segments' bytes, one segment after the other.
    closed spec fn view(&self) -> Seq<u8> {
        pieces(self.segments@).flatten()
    }
}

/// The chain that carries `payload` in a single segment.
pub open spec fn single_segment(payload: Seq<u8>) -> Seq<Seq<u8>> {
    seq![payload]
}

impl PacketBuffer {
    /// The segments of the chain, first to last.
    pub closed spec fn chain(&self) -> Seq<Seq<u8>> {
        pieces(self.segments@)
    }

    /// The recorded total length is that of the payload.
    pub closed spec fn wf(&self) -> bool {
        self.tot_len as nat == self@.len()
    }

    /// The payload is the chain, flattened.
    pub broadcast proof fn lemma_view_is_flat_chain(&self)
        ensures
            #[trigger] self@ == self.chain().flatten(),
    {
    }

    /// Takes over a chain of segments, if a packet buffer can carry it.
    pub fn from_segments(segments: Vec<Vec<u8>>) -> (r: Option<PacketBuffer>)
        ensures
            r is Some <==> pieces(segments@).flatten().len() <= MAX_PACKET,
            r is Some ==> r.unwrap().wf() && r.unwrap().chain() == pieces(segments@),
    {
        let mut total: usize = 0;
        let mut i: usize = 0;
        assert(joined(segments@, 0) =~= Seq::<u8>::empty());
        while i < segments.len()
            invariant
                i <= segments.len(),
                total == joined(segments@, i as int).len(),
                total <= MAX_PACKET,
            decreases segments.len() - i,
        {
            let len = segments[i].len();
            proof {
                lemma_joined_step(segments@, i as int);
            }
            if len > MAX_PACKET - total {
                proof {
                    lemma_joined_grows(segments@, i + 1, segments@.len() as int);
                    lemma_joined_all(segments@);
                }
                return None;
            }
            total = total + len;
            i += 1;
        }
        proof {
            lemma_joined_all(segments@);
        }
        Some(PacketBuffer { segments, tot_len: total as u16 })
    }

    /// A packet buffer of one segment that carries `payload`, as the
    /// engine allocates it for a payload handed to it. A payload longer
    /// than a packet buffer can carry is refused.
    pub fn single(payload: Vec<u8>) -> (r: Result<PacketBuffer, Fault>)
        ensures
            r is Ok <==> payload@.len() <= MAX_PACKET,
            r is Ok ==> r.unwrap().wf() && r.unwrap()@ == payload@ && r.unwrap().chain()
                == single_segment(payload@),
            r is Err ==> r.unwrap_err() == Fault::Oversized,
    {
        let len = payload.len();
        if len > MAX_PACKET {
            return Err(Fault::Oversized);
        }
        let ghost bytes = payload@;
        let mut segments: Vec<Vec<u8>> = Vec::new();
        segments.push(payload);
        proof {
            assert(pieces(segments@) =~= single_segment(bytes));
            single_segment(bytes).lemma_flatten_singleton();
        }
        Ok(PacketBuffer { segments, tot_len: len as u16 })
    }

    /// The length of the payload.
    pub fn tot_len(&self) -> (len: u16)
        requires
            self.wf(),
        ensures
            len as nat == self@.len(),
    {
        self.tot_len
    }

    /// The segments, for handing them to the engine one by one.
    pub fn segments(&self) -> (segments: &Vec<Vec<u8>>)
        ensures
            pieces(segments@) == self.chain(),
    {
        &self.segments
    }

    /// Copies the whole payload out. The packet buffer stays as it is: its
    /// disposal is left to whoever owns it.
    pub fn to_owned(&self) -> (payload: Vec<u8>)
        ensures
            payload@ == self@,
    {
        gather(&self.segments)
    }
}

/// An owned value that a packet buffer's payload can be copied into.
pub trait FromPbuf: Sized {
    /// The bytes that the value holds.
    spec fn copied(&self) -> Seq<u8>;

    /// Copies the full payload of `p` into a fresh value. `p` is neither
    /// changed nor released.
    fn from_pbuf(p: &PacketBuffer) -> (out: Self)
        ensures
            out.copied() == p@,
    ;
}

/// An owned value that can be copied into a packet buffer.
pub trait IntoPbuf: Sized {
    /// The bytes that the value holds.
    spec fn payload(&self) -> Seq<u8>;

    /// Makes a packet buffer of one segment, sized to the value, and
    /// copies the value's bytes in. Fails, with nothing made, exactly when
    /// the value is longer than a packet buffer can carry.
    fn into_pbuf(self) -> (r: Result<PacketBuffer, Fault>)
        ensures
            r is Ok <==> self.payload().len() <= MAX_PACKET,
            r is Ok ==> r.unwrap().wf() && r.unwrap()@ == self.payload() && r.unwrap().chain()
                == single_segment(self.payload()),
            r is Err ==> r.unwrap_err() == Fault::Oversized,
    ;
}

impl FromPbuf for bytes::Bytes {
    open spec fn copied(&self) -> Seq<u8> {
        bytes_contents(*self)
    }

    fn from_pbuf(p: &PacketBuffer) -> (out: Self) {
        bytes_from_vec(p.to_owned())
    }
}

impl IntoPbuf for bytes::Bytes {
    open spec fn payload(&self) -> Seq<u8> {
        bytes_contents(*self)
    }

    fn into_pbuf(self) -> (r: Result<PacketBuffer, Fault>) {
        PacketBuffer::single(bytes_to_vec(&self))
    }
}

/// A payload that fits the interface's MTU can always be made into a
/// packet buffer, and copying out the buffer made of it gives the payload
/// back exactly.
pub proof fn lemma_owned_round_trip(payload: Seq<u8>, mtu: u16, p: PacketBuffer)
    requires
        payload.len() <= mtu,
        p.chain() == single_segment(payload),
    ensures
        payload.len() <= MAX_PACKET,
        p@ == payload,
{
    p.lemma_view_is_flat_chain();
    single_segment(payload).lemma_flatten_singleton();
}

} // verus!
