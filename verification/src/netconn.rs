//! The bridge between one connection of the engine and its two readiness
//! queues.
//!
//! The engine reports everything about a connection through a single
//! callback. The bridge sorts those reports into a queue for the reading
//! side and a queue for the writing side, and turns the engine's
//! blocking-style calls into attempts that either complete at once or say
//! which queue to wait on.

use crate::addr::{EngineAddr, IpAddress, SocketAddress};
use crate::buf::{assemble, bytes_contents, pieces};
use crate::endian::Endian;
use crate::fault::Fault;
use crate::io::Polled;
use vstd::prelude::*;

verus! {

/// The kind of a connection.
#[derive(Clone, Copy, Debug, PartialEq, Eq, Structural)]
pub enum ConnKind {
    /// A byte stream.
    Stream,
    /// Whole datagrams of one IP protocol.
    Raw,
}

/// The tag of a report of the engine about a connection.
#[derive(Clone, Copy, Debug, PartialEq, Eq, Structural)]
pub enum EventTag {
    /// More is there to receive: data, a new connection on a listener, or,
    /// with a length of zero, the end of the stream.
    RcvPlus,
    /// Received data was taken out.
    RcvMinus,
    /// More can be sent.
    SendPlus,
    /// Less can be sent.
    SendMinus,
    /// The connection failed.
    Error,
    /// A tag that the bridge does not know.
    Other,
}

/// A notification in one of the two readiness queues.
#[derive(Clone, Copy, Debug, PartialEq, Eq, Structural)]
pub enum NetconnEvent {
    /// So many bytes are there to receive, or can be sent.
    Data(usize),
    /// The connection failed.
    Error,
}

/// What the callback does with one report of the engine.
#[derive(Clone, Copy, Debug, PartialEq, Eq, Structural)]
pub enum Dispatch {
    /// Nothing.
    Ignore,
    /// The peer closed the stream: take the callback context away from
    /// the engine and release it. Both queues lose their sending end.
    Release,
    /// Put the notification into the read queue.
    Read(NetconnEvent),
    /// Put the notification into the write queue.
    Write(NetconnEvent),
    /// Put the notification into both queues.
    Both(NetconnEvent),
}

/// What the callback does with a report, given whether the callback
/// context has been released and whether the connection is a listener.
pub open spec fn dispatch(released: bool, tag: EventTag, len: u16, listening: bool) -> Dispatch {
    if released {
        Dispatch::Ignore
    } else {
        match tag {
            EventTag::RcvPlus => if len == 0 && !listening {
                Dispatch::Release
            } else {
                Dispatch::Read(NetconnEvent::Data(len as usize))
            },
            EventTag::SendPlus => Dispatch::Write(NetconnEvent::Data(len as usize)),
            EventTag::Error => Dispatch::Both(NetconnEvent::Error),
            _ => Dispatch::Ignore,
        }
    }
}

impl Dispatch {
    /// What the read queue gets.
    pub open spec fn to_read(self) -> Option<NetconnEvent> {
        match self {
            Dispatch::Read(e) => Some(e),
            Dispatch::Both(e) => Some(e),
            _ => None,
        }
    }

    /// What the write queue gets.
    pub open spec fn to_write(self) -> Option<NetconnEvent> {
        match self {
            Dispatch::Write(e) => Some(e),
            Dispatch::Both(e) => Some(e),
            _ => None,
        }
    }
}

/// The record that the engine's callback finds through the connection:
/// the sending ends of the two queues, until it is released.
///
/// There is one such record for a connection and it cannot be copied, so
/// what it says of the release is what happened.
#[derive(Debug)]
pub struct CallbackContext {
    released: bool,
}

/// One report of the engine: its tag, its length, and whether the
/// connection is a listener at that time.
pub struct Report {
    pub tag: EventTag,
    pub len: u16,
    pub listening: bool,
}

/// Whether the context is released after the callback has seen these
/// reports, in order, starting with a context that is not.
pub open spec fn released_after(reports: Seq<Report>) -> bool
    decreases reports.len(),
{
    if reports.len() == 0 {
        false
    } else {
        let before = released_after(reports.drop_last());
        let r = reports.last();
        before || dispatch(before, r.tag, r.len, r.listening) == Dispatch::Release
    }
}

/// How often the callback releases the context while it sees these
/// reports, in order, starting with a context that is not released.
pub open spec fn releases(reports: Seq<Report>) -> nat
    decreases reports.len(),
{
    if reports.len() == 0 {
        0
    } else {
        let before = released_after(reports.drop_last());
        let r = reports.last();
        releases(reports.drop_last()) + if dispatch(before, r.tag, r.len, r.listening)
            == Dispatch::Release {
            1nat
        } else {
            0nat
        }
    }
}

impl CallbackContext {
    /// The context has been taken away from the engine and released.
    pub closed spec fn released(&self) -> bool {
        self.released
    }

    /// The context of a new connection.
    pub fn new() -> (ctx: CallbackContext)
        ensures
            !ctx.released(),
    {
        CallbackContext { released: false }
    }

    /// Tells whether the context has been released.
    pub fn is_released(&self) -> (yes: bool)
        ensures
            yes == self.released(),
    {
        self.released
    }

    /// The callback: sorts one report of the engine. It never waits and
    /// never calls the engine.
    pub fn on_event(&mut self, tag: EventTag, len: u16, listening: bool) -> (d: Dispatch)
        ensures
            d == dispatch(old(self).released(), tag, len, listening),
            final(self).released() == (old(self).released() || d == Dispatch::Release),
    {
        if self.released {
            return Dispatch::Ignore;
        }
        match tag {
            EventTag::RcvPlus => {
                if len == 0 && !listening {
                    self.released = true;
                    Dispatch::Release
                } else {
                    Dispatch::Read(NetconnEvent::Data(len as usize))
                }
            },
            EventTag::SendPlus => Dispatch::Write(NetconnEvent::Data(len as usize)),
            EventTag::Error => Dispatch::Both(NetconnEvent::Error),
            _ => Dispatch::Ignore,
        }
    }

    /// The last handle to the connection goes away. Tells whether the
    /// context is to be released now: it is, unless the callback has
    /// released it before.
    pub fn on_drop(&mut self) -> (release_now: bool)
        ensures
            release_now == !old(self).released(),
            final(self).released(),
    {
        let release_now = !self.released;
        self.released = true;
        release_now
    }
}

/// Whatever the engine reports and in whatever order, the callback
/// releases the context at most once, and after that it ignores every
/// report. Together with `on_drop`, which releases exactly when the
/// callback has not, the context is released exactly once in the life of a
/// connection.
pub proof fn lemma_released_once(reports: Seq<Report>)
    ensures
        releases(reports) <= 1,
        releases(reports) == 1 <==> released_after(reports),
    decreases reports.len(),
{
    if reports.len() > 0 {
        lemma_released_once(reports.drop_last());
    }
}

/// A failure of the connection is put into both queues, so that whoever
/// waits on either side sees it.
pub proof fn lemma_error_reaches_both(len: u16, listening: bool)
    ensures
        dispatch(false, EventTag::Error, len, listening).to_read() == Some(NetconnEvent::Error),
        dispatch(false, EventTag::Error, len, listening).to_write() == Some(NetconnEvent::Error),
{
}

/// The two flags that make the engine's calls on a connection return at
/// once: one for calls in general, one for a connection attempt.
pub const NONBLOCKING_FLAGS: u8 = 0x06;

/// The backlog that a listener asks for.
pub const LISTEN_BACKLOG: u8 = 0xff;

/// The longest datagram that one submission to the engine can carry.
pub const MAX_DATAGRAM: usize = 65535;

/// How a payload is submitted to the engine.
#[derive(Clone, Copy, Debug, PartialEq, Eq, Structural)]
pub enum Submission {
    /// As the next bytes of a stream, of which the engine takes as many as
    /// it can at once.
    Stream { len: usize },
    /// As one datagram, which the engine takes whole or not at all.
    Datagram { size: u16 },
}

/// One call to the engine in the course of setting a connection up.
#[derive(Clone, Copy, Debug, PartialEq, Eq)]
pub enum ConnStep {
    /// Bind the connection to a local address and port.
    Bind { addr: EngineAddr, port: u16 },
    /// Bind the connection to the interface with this index.
    BindIf { index: u8 },
    /// Start to listen, with this backlog.
    Listen { backlog: u8 },
    /// Start to connect to a remote address and port.
    Connect { addr: EngineAddr, port: u16 },
    /// Wait for a notification in the write queue.
    AwaitWritable,
}

impl ConnStep {
    /// The call is one that could block, so the connection is put into
    /// non-blocking mode before it is made: listening and connecting.
    /// Binding returns at once as it is.
    pub open spec fn may_block(self) -> bool {
        self is Listen || self is Connect
    }

    /// Tells whether the connection is put into non-blocking mode before
    /// the call is made.
    pub fn nonblocking_first(&self) -> (yes: bool)
        ensures
            yes == self.may_block(),
    {
        match self {
            ConnStep::Listen { .. } => true,
            ConnStep::Connect { .. } => true,
            _ => false,
        }
    }
}

/// What a wait on a readiness queue came to.
#[derive(Clone, Copy, Debug, PartialEq, Eq, Structural)]
pub enum Readiness {
    /// A notification of so many bytes was there.
    Ready(usize),
    /// A notification of a failure was there. The engine holds the error.
    Faulted,
    /// Nothing was there.
    Pending,
}

/// What a wait on a readiness queue comes to, by what was taken from the
/// queue. A closed queue is like an empty one.
pub open spec fn readiness_of(polled: Polled<NetconnEvent>) -> Readiness {
    match polled {
        Polled::Item(NetconnEvent::Data(len)) => Readiness::Ready(len),
        Polled::Item(NetconnEvent::Error) => Readiness::Faulted,
        _ => Readiness::Pending,
    }
}

/// How a payload of `len` bytes is submitted on a connection of kind
/// `kind`, if it can be.
pub open spec fn submission_of(kind: ConnKind, len: usize) -> Result<Submission, Fault> {
    match kind {
        ConnKind::Stream => Ok(Submission::Stream { len }),
        ConnKind::Raw => if len <= MAX_DATAGRAM {
            Ok(Submission::Datagram { size: len as u16 })
        } else {
            Err(Fault::Oversized)
        },
    }
}

/// What a send of `len` bytes reports, by what the engine said of the
/// submission: the number of bytes it took of a stream, or nothing in
/// particular of a datagram. A payload that cannot be submitted is not
/// sent, whatever is said of it.
pub open spec fn sent_of(kind: ConnKind, len: usize, outcome: Result<usize, Fault>) -> Result<
    usize,
    Fault,
> {
    match submission_of(kind, len) {
        Err(e) => Err(e),
        Ok(_) => match outcome {
            Err(e) => Err(e),
            Ok(taken) => match kind {
                ConnKind::Stream => Ok(taken),
                ConnKind::Raw => Ok(len),
            },
        },
    }
}

/// One connection of the engine, as far as the adapter keeps it itself.
#[derive(Clone, Copy, Debug, PartialEq, Eq, Structural)]
pub struct Netconn {
    kind: ConnKind,
    proto: u8,
}

impl Netconn {
    pub closed spec fn kind(&self) -> ConnKind {
        self.kind
    }

    pub closed spec fn proto(&self) -> u8 {
        self.proto
    }

    /// A connection of the given kind. `proto` is the IP protocol of a raw
    /// connection, and 0 for a stream.
    pub fn new_from_type(kind: ConnKind, proto: u8) -> (conn: Netconn)
        ensures
            conn.kind() == kind,
            conn.proto() == proto,
    {
        Netconn { kind, proto }
    }

    /// A stream connection.
    pub fn new_tcp() -> (conn: Netconn)
        ensures
            conn.kind() == ConnKind::Stream,
            conn.proto() == 0,
    {
        Netconn::new_from_type(ConnKind::Stream, 0)
    }

    /// A raw connection for one IP protocol.
    pub fn new_raw(proto: u8) -> (conn: Netconn)
        ensures
            conn.kind() == ConnKind::Raw,
            conn.proto() == proto,
    {
        Netconn::new_from_type(ConnKind::Raw, proto)
    }

    /// The kind of the connection.
    pub fn ntype(&self) -> (kind: ConnKind)
        ensures
            kind == self.kind(),
    {
        self.kind
    }

    /// The IP protocol of the connection.
    pub fn protocol(&self) -> (proto: u8)
        ensures
            proto == self.proto(),
    {
        self.proto
    }

    /// The engine's flags of a connection, with those set that make its
    /// calls return at once. The other flags stay as they are.
    pub fn set_nonblocking(flags: u8) -> (set: u8)
        ensures
            set == flags | NONBLOCKING_FLAGS,
            set & NONBLOCKING_FLAGS == NONBLOCKING_FLAGS,
            set & !NONBLOCKING_FLAGS == flags & !NONBLOCKING_FLAGS,
    {
        let set = flags | NONBLOCKING_FLAGS;
        assert(set & 0x06 == 0x06 && set & !0x06u8 == flags & !0x06u8) by (bit_vector)
            requires
                set == flags | 0x06,
        ;
        set
    }

    /// The call that binds the connection to the interface with this
    /// index.
    pub fn bind_if(index: u8) -> (step: ConnStep)
        ensures
            step == (ConnStep::BindIf { index }),
    {
        ConnStep::BindIf { index }
    }

    /// The call that binds the connection to a port on every local
    /// address.
    pub fn bind_port(port: u16) -> (step: ConnStep)
        ensures
            step == (ConnStep::Bind { addr: EngineAddr::Any, port }),
    {
        ConnStep::Bind { addr: EngineAddr::unspecified(), port }
    }

    /// The call that binds the connection to a local address and port.
    pub fn bind_ip_port(ip: IpAddress, port: u16, order: Endian) -> (step: ConnStep)
        ensures
            step == (ConnStep::Bind { addr: ip.engine_form(order), port }),
    {
        ConnStep::Bind { addr: ip.to_engine(order), port }
    }

    /// The call that starts to connect to a remote address and port.
    pub fn connect(ip: IpAddress, port: u16, order: Endian) -> (step: ConnStep)
        ensures
            step == (ConnStep::Connect { addr: ip.engine_form(order), port }),
    {
        ConnStep::Connect { addr: ip.to_engine(order), port }
    }

    /// What an attempt to connect came to. That the attempt goes on in the
    /// background is no failure: the write queue tells how it ends. Every
    /// other answer of the engine stands.
    pub fn connecting(answer: Result<(), Fault>) -> (r: Result<(), Fault>)
        ensures
            r == match answer {
                Err(e) => if e.in_progress() {
                    Ok(())
                } else {
                    Err(e)
                },
                Ok(_) => Ok(()),
            },
    {
        match answer {
            Err(e) => {
                if e.is_in_progress() {
                    Ok(())
                } else {
                    Err(e)
                }
            },
            Ok(_) => Ok(()),
        }
    }

    /// The call that starts to listen.
    pub fn listen() -> (step: ConnStep)
        ensures
            step == (ConnStep::Listen { backlog: LISTEN_BACKLOG }),
    {
        ConnStep::Listen { backlog: LISTEN_BACKLOG }
    }

    /// What an attempt to accept came to: a connection of the listener's
    /// kind, or the engine's refusal.
    pub fn accept(&self, answer: Result<(), Fault>) -> (r: Result<Netconn, Fault>)
        ensures
            r == match answer {
                Ok(_) => Ok(*self),
                Err(e) => Err(e),
            },
    {
        match answer {
            Ok(_) => Ok(Netconn::new_from_type(self.kind, self.proto)),
            Err(e) => Err(e),
        }
    }

    /// What an attempt to receive came to: all the fragments that the
    /// engine handed out, in order, in one contiguous buffer, or the
    /// engine's refusal.
    pub fn recv(answer: Result<Vec<Vec<u8>>, Fault>) -> (r: Result<bytes::Bytes, Fault>)
        ensures
            answer is Ok <==> r is Ok,
            answer is Ok ==> bytes_contents(r.unwrap()) == pieces(answer.unwrap()@).flatten(),
            answer is Err ==> r.unwrap_err() == answer.unwrap_err(),
    {
        match answer {
            Ok(fragments) => Ok(assemble(&fragments)),
            Err(e) => Err(e),
        }
    }

    /// How a payload of `len` bytes is submitted: on a stream as it is, on
    /// a raw connection as one datagram. A payload too long for one
    /// datagram is refused before anything is submitted.
    pub fn submit(&self, len: usize) -> (r: Result<Submission, Fault>)
        ensures
            r == submission_of(self.kind(), len),
    {
        match self.kind {
            ConnKind::Stream => Ok(Submission::Stream { len }),
            ConnKind::Raw => {
                if len <= MAX_DATAGRAM {
                    Ok(Submission::Datagram { size: len as u16 })
                } else {
                    Err(Fault::Oversized)
                }
            },
        }
    }

    /// What a send of `len` bytes reports once the engine has answered: on
    /// a stream the number of bytes that the engine took, on a raw
    /// connection the whole length, and the engine's refusal in either
    /// case. A payload that `submit` refuses is reported as refused.
    pub fn send(&self, len: usize, answer: Result<usize, Fault>) -> (r: Result<usize, Fault>)
        ensures
            r == sent_of(self.kind(), len, answer),
    {
        match self.submit(len) {
            Err(e) => Err(e),
            Ok(_) => match answer {
                Err(e) => Err(e),
                Ok(taken) => match self.kind {
                    ConnKind::Stream => Ok(taken),
                    ConnKind::Raw => Ok(len),
                },
            },
        }
    }

    /// Which directions a shutdown closes: the sending one only.
    pub fn shutdown_tx() -> (directions: (bool, bool))
        ensures
            directions == (false, true),
    {
        (false, true)
    }

    /// The local address of the connection, from what the engine says it
    /// is bound to.
    pub fn local(answer: Result<(EngineAddr, u16), Fault>, order: Endian) -> (r: Result<
        SocketAddress,
        Fault,
    >)
        ensures
            r == match answer {
                Err(e) => Err(e),
                Ok((addr, port)) => match addr.address(order) {
                    Ok(ip) => Ok(SocketAddress { ip, port }),
                    Err(e) => Err(e),
                },
            },
    {
        match answer {
            Err(e) => Err(e),
            Ok((addr, port)) => match addr.to_address(order) {
                Ok(ip) => Ok(SocketAddress { ip, port }),
                Err(e) => Err(e),
            },
        }
    }

    /// What a wait on the read queue came to.
    pub fn poll_rx(polled: Polled<NetconnEvent>) -> (r: Readiness)
        ensures
            r == readiness_of(polled),
    {
        Netconn::poll_queue(polled)
    }

    /// What a wait on the write queue came to.
    pub fn poll_tx(polled: Polled<NetconnEvent>) -> (r: Readiness)
        ensures
            r == readiness_of(polled),
    {
        Netconn::poll_queue(polled)
    }

    fn poll_queue(polled: Polled<NetconnEvent>) -> (r: Readiness)
        ensures
            r == readiness_of(polled),
    {
        match polled {
            Polled::Item(NetconnEvent::Data(len)) => Readiness::Ready(len),
            Polled::Item(NetconnEvent::Error) => Readiness::Faulted,
            _ => Readiness::Pending,
        }
    }
}

/// On a stream of which the engine takes only `taken` of `len` bytes, the
/// send reports exactly `taken`: the bytes from there on are the caller's
/// to submit again.
pub proof fn lemma_partial_write(len: usize, taken: usize)
    requires
        taken < len,
    ensures
        submission_of(ConnKind::Stream, len) == Ok::<Submission, Fault>(
            Submission::Stream { len },
        ),
        sent_of(ConnKind::Stream, len, Ok(taken)) == Ok::<usize, Fault>(taken),
{
}

/// A datagram is sent whole or not at all. One that does not fit in a
/// single submission is refused with nothing submitted, and no answer
/// makes it sent; one that the engine refuses is reported as a failure;
/// and a send that succeeds reports the whole length.
pub proof fn lemma_datagram_atomic(len: usize, answer: Result<usize, Fault>)
    ensures
        len > MAX_DATAGRAM ==> submission_of(ConnKind::Raw, len) == Err::<Submission, Fault>(
            Fault::Oversized,
        ) && sent_of(ConnKind::Raw, len, answer) == Err::<usize, Fault>(Fault::Oversized),
        len <= MAX_DATAGRAM ==> submission_of(ConnKind::Raw, len) == Ok::<Submission, Fault>(
            Submission::Datagram { size: len as u16 },
        ),
        sent_of(ConnKind::Raw, len, answer) is Ok ==> sent_of(ConnKind::Raw, len, answer)
            == Ok::<usize, Fault>(len),
        answer is Err ==> sent_of(ConnKind::Raw, len, answer) is Err,
{
}

} // verus!
