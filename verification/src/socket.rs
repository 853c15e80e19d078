//! The socket facade: reads and writes on a connection, by attempt and
//! retry.
//!
//! A read or a write first tries the engine. Where the engine would
//! block, the socket waits on the readiness queue of that direction. Each
//! function here decides what follows one answer, of the engine or of the
//! queue.

use crate::addr::{EngineAddr, SocketAddress};
use crate::buf::{bytes_contents, bytes_len, bytes_to_vec};
use crate::endian::Endian;
use crate::fault::Fault;
use crate::io::copy_prefix;
use crate::netconn::{Netconn, Readiness};
use vstd::prelude::*;

verus! {

/// What a read or a write does after the engine has answered its attempt.
#[derive(Clone, Copy, Debug, PartialEq, Eq)]
pub enum Attempt {
    /// The operation is over, with so many bytes moved or with a failure.
    Return(Result<usize, Fault>),
    /// The engine would block: wait on the readiness queue of the
    /// operation's direction.
    Await,
}

/// What a read or a write does after its wait on the readiness queue.
#[derive(Clone, Copy, Debug, PartialEq, Eq, Structural)]
pub enum Woken {
    /// Try the engine again.
    Retry,
    /// Stay pending; the caller is woken by the next notification.
    Suspend,
    /// The operation is over: it failed with the error that the engine
    /// holds for the connection.
    FailWithEngineError,
}

/// What a read does after an attempt to receive. Received data ends the
/// read with its length. A connection that is not connected any more is
/// at its end of stream, which is a read of no bytes and no failure.
pub open spec fn read_attempt(received: Result<Seq<u8>, Fault>) -> Attempt {
    match received {
        Ok(data) => Attempt::Return(Ok(data.len() as usize)),
        Err(e) => if e.not_connected() {
            Attempt::Return(Ok(0))
        } else if e.would_block() {
            Attempt::Await
        } else {
            Attempt::Return(Err(e))
        },
    }
}

/// What a read does after its wait on the read queue. Any notification of
/// data leads to another attempt, whether there is data or not.
pub open spec fn read_woken(ready: Readiness) -> Woken {
    match ready {
        Readiness::Ready(_) => Woken::Retry,
        Readiness::Faulted => Woken::FailWithEngineError,
        Readiness::Pending => Woken::Suspend,
    }
}

/// What a write does after an attempt to send.
pub open spec fn write_attempt(sent: Result<usize, Fault>) -> Attempt {
    match sent {
        Ok(len) => Attempt::Return(Ok(len)),
        Err(e) => if e.would_block() {
            Attempt::Await
        } else {
            Attempt::Return(Err(e))
        },
    }
}

/// What a write does after its wait on the write queue. The write itself
/// never tries again: it stays pending, and its caller's next poll makes
/// the next attempt.
pub open spec fn write_woken(ready: Readiness) -> Woken {
    match ready {
        Readiness::Faulted => Woken::FailWithEngineError,
        _ => Woken::Suspend,
    }
}

/// One answer that a read gets in the course of a poll.
pub enum ReadEvent {
    /// The engine's answer to an attempt to receive.
    Received(Result<Seq<u8>, Fault>),
    /// What the wait on the read queue came to.
    Waited(Readiness),
}

/// How one poll of a read ends.
pub enum ReadOutcome {
    /// With so many bytes, or a failure that the engine returned.
    Done(Result<usize, Fault>),
    /// With the error that the engine holds for the connection.
    EngineError,
    /// Pending.
    Pending,
}

/// How one poll of a read ends when it gets these answers, in order, and
/// how many of them it uses. `None` where the answers are not those of a
/// poll: where they run out before the poll ends, or an answer of the
/// queue stands where one of the engine is due.
pub open spec fn read_poll(events: Seq<ReadEvent>) -> Option<(ReadOutcome, nat)>
    decreases events.len(),
{
    if events.len() == 0 {
        None
    } else {
        match events[0] {
            ReadEvent::Received(received) => match read_attempt(received) {
                Attempt::Return(r) => Some((ReadOutcome::Done(r), 1nat)),
                Attempt::Await => if events.len() < 2 {
                    None
                } else {
                    match events[1] {
                        ReadEvent::Waited(ready) => match read_woken(ready) {
                            Woken::Retry => match read_poll(events.skip(2)) {
                                Some((outcome, used)) => Some((outcome, used + 2)),
                                None => None,
                            },
                            Woken::Suspend => Some((ReadOutcome::Pending, 2nat)),
                            Woken::FailWithEngineError => Some((ReadOutcome::EngineError, 2nat)),
                        },
                        _ => None,
                    }
                },
            },
            _ => None,
        }
    }
}

/// A stream or raw socket on one connection.
#[derive(Clone, Copy, Debug, PartialEq, Eq, Structural)]
pub struct NetconnSocket {
    conn: Netconn,
}

impl NetconnSocket {
    /// The connection.
    pub closed spec fn conn(&self) -> Netconn {
        self.conn
    }

    /// The socket on `conn`.
    pub closed spec fn new_spec(conn: Netconn) -> NetconnSocket {
        NetconnSocket { conn }
    }

    /// The socket on `conn` is on that connection.
    pub broadcast proof fn lemma_new_spec(conn: Netconn)
        ensures
            (#[trigger] NetconnSocket::new_spec(conn)).conn() == conn,
    {
    }

    /// The socket on a connection.
    pub fn new(conn: Netconn) -> (socket: NetconnSocket)
        ensures
            socket == NetconnSocket::new_spec(conn),
            socket.conn() == conn,
    {
        NetconnSocket { conn }
    }

    /// The connection, for the calls that go to the engine.
    pub fn netconn(&self) -> (conn: &Netconn)
        ensures
            *conn == self.conn(),
    {
        &self.conn
    }

    /// The local address of the socket, from what the engine says its
    /// connection is bound to.
    pub fn local(&self, answer: Result<(EngineAddr, u16), Fault>, order: Endian) -> (r: Result<
        SocketAddress,
        Fault,
    >)
        ensures
            r == match answer {
                Err(e) => Err(e),
                Ok((addr, port)) => match addr.address(order) {
                    Ok(ip) => Ok(SocketAddress { ip, port }),
                    Err(e) => Err(e),
                },
            },
    {
        Netconn::local(answer, order)
    }

    /// Closes the socket and gives back its connection, which is to be
    /// deleted in the engine.
    pub fn close(self) -> (conn: Netconn)
        ensures
            conn == self.conn(),
    {
        self.conn
    }

    /// A read, after an attempt to receive. Received data is copied to the
    /// start of `buf`; in every other case `buf` stays as it is.
    ///
    /// Received data is handed over whole: `buf` must have room for it.
    pub fn poll_read(received: Result<bytes::Bytes, Fault>, buf: &mut [u8]) -> (action: Attempt)
        requires
            received is Ok ==> bytes_contents(received.unwrap()).len() <= old(buf)@.len(),
        ensures
            action == read_attempt(
                match received {
                    Ok(data) => Ok(bytes_contents(data)),
                    Err(e) => Err(e),
                },
            ),
            final(buf)@ == match received {
                Ok(data) => bytes_contents(data) + old(buf)@.skip(
                    bytes_contents(data).len() as int,
                ),
                Err(_) => old(buf)@,
            },
    {
        match received {
            Ok(data) => {
                let bytes = bytes_to_vec(&data);
                let n = copy_prefix(buf, bytes.as_slice());
                assert(bytes@.take(n as int) =~= bytes@);
                Attempt::Return(Ok(n))
            },
            Err(e) => {
                if e.is_not_connected() {
                    Attempt::Return(Ok(0))
                } else if e.is_would_block() {
                    Attempt::Await
                } else {
                    Attempt::Return(Err(e))
                }
            },
        }
    }

    /// A read, after an attempt to receive, for a buffer of any size.
    /// `None`, with `buf` as it was, where the received data is longer than
    /// `buf`; else what `poll_read` does.
    pub fn poll_read_checked(received: Result<bytes::Bytes, Fault>, buf: &mut [u8]) -> (action:
        Option<Attempt>)
        ensures
            action is None <==> received is Ok && bytes_contents(received.unwrap()).len() > old(
                buf,
            )@.len(),
            action is Some ==> action.unwrap() == read_attempt(
                match received {
                    Ok(data) => Ok(bytes_contents(data)),
                    Err(e) => Err(e),
                },
            ),
            final(buf)@ == match received {
                Ok(data) => if action is Some {
                    bytes_contents(data) + old(buf)@.skip(bytes_contents(data).len() as int)
                } else {
                    old(buf)@
                },
                Err(_) => old(buf)@,
            },
    {
        let fits = match &received {
            Ok(data) => bytes_len(data) <= buf.len(),
            Err(_) => true,
        };
        if fits {
            Some(NetconnSocket::poll_read(received, buf))
        } else {
            None
        }
    }

    /// A read, after its wait on the read queue.
    pub fn read_woken(ready: Readiness) -> (next: Woken)
        ensures
            next == read_woken(ready),
    {
        match ready {
            Readiness::Ready(_) => Woken::Retry,
            Readiness::Faulted => Woken::FailWithEngineError,
            Readiness::Pending => Woken::Suspend,
        }
    }

    /// A write, after an attempt to send.
    pub fn poll_write(sent: Result<usize, Fault>) -> (action: Attempt)
        ensures
            action == write_attempt(sent),
    {
        match sent {
            Ok(len) => Attempt::Return(Ok(len)),
            Err(e) => {
                if e.is_would_block() {
                    Attempt::Await
                } else {
                    Attempt::Return(Err(e))
                }
            },
        }
    }

    /// A write, after its wait on the write queue.
    pub fn write_woken(ready: Readiness) -> (next: Woken)
        ensures
            next == write_woken(ready),
            next != Woken::Retry,
    {
        match ready {
            Readiness::Faulted => Woken::FailWithEngineError,
            _ => Woken::Suspend,
        }
    }

    /// Nothing is buffered in the socket: a flush is done at once.
    pub fn poll_flush() -> (r: Result<(), Fault>)
        ensures
            r is Ok,
    {
        Ok(())
    }

    /// A shutdown closes the sending direction only, and is over with the
    /// engine's answer, whatever it is.
    pub fn poll_shutdown(answer: Result<(), Fault>) -> (r: Result<(), Fault>)
        ensures
            r == answer,
    {
        answer
    }
}

/// Once the peer has ended the stream, a read ends at once with no bytes
/// and no failure: it makes one attempt, waits for nothing and returns a
/// single result, whatever would come after.
pub proof fn lemma_end_of_stream(e: Fault, rest: Seq<ReadEvent>)
    requires
        e.not_connected(),
    ensures
        read_poll(seq![ReadEvent::Received(Err(e))] + rest) == Some(
            (ReadOutcome::Done(Ok(0)), 1nat),
        ),
{
    let events = seq![ReadEvent::Received(Err(e))] + rest;
    assert(events[0] == ReadEvent::Received(Err(e)));
}

/// A read that is woken by a notification tries the engine again, and what
/// that attempt and the ones after it come to is what the read comes to. A
/// wake with no data behind it lets the read wait again and is no
/// failure.
pub proof fn lemma_wake_retries(e: Fault, n: usize, rest: Seq<ReadEvent>)
    requires
        e.would_block(),
    ensures
        read_poll(
            seq![ReadEvent::Received(Err(e)), ReadEvent::Waited(Readiness::Ready(n))] + rest,
        ) == match read_poll(rest) {
            Some((outcome, used)) => Some((outcome, used + 2)),
            None => None,
        },
{
    let events = seq![ReadEvent::Received(Err(e)), ReadEvent::Waited(Readiness::Ready(n))] + rest;
    assert(events[0] == ReadEvent::Received(Err(e)));
    assert(events[1] == ReadEvent::Waited(Readiness::Ready(n)));
    assert(events.skip(2) =~= rest);
    assert(!e.not_connected());
}

/// A read on a connection with nothing to receive and nothing in its read
/// queue is pending: it reports neither data nor a failure.
pub proof fn lemma_nothing_pending(e: Fault, rest: Seq<ReadEvent>)
    requires
        e.would_block(),
    ensures
        read_poll(
            seq![ReadEvent::Received(Err(e)), ReadEvent::Waited(Readiness::Pending)] + rest,
        ) == Some((ReadOutcome::Pending, 2nat)),
{
    let events = seq![ReadEvent::Received(Err(e)), ReadEvent::Waited(Readiness::Pending)] + rest;
    assert(events[0] == ReadEvent::Received(Err(e)));
    assert(events[1] == ReadEvent::Waited(Readiness::Pending));
    assert(!e.not_connected());
}

} // verus!
