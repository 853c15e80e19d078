//! Stream listeners and stream connections.
//!
//! Setting either up is a short run of calls to the engine, each of which
//! can fail; the first failure ends the run and is the failure of the
//! whole. The functions here name the calls of a run, in order, together
//! with what the run yields when all of them succeed.

use crate::addr::{EngineAddr, SocketAddress};
use crate::endian::Endian;
use crate::fault::Fault;
use crate::netconn::{ConnKind, ConnStep, Netconn, Readiness, LISTEN_BACKLOG};
use crate::socket::NetconnSocket;
use vstd::prelude::*;

verus! {

/// A stream connection is a socket on a connection of kind stream.
pub type TcpStream = NetconnSocket;

/// The first of the addresses that a host name resolved to. A name that
/// resolved to none is a failure.
pub fn first_resolved(addrs: &Vec<SocketAddress>) -> (r: Result<SocketAddress, Fault>)
    ensures
        r == if addrs@.len() == 0 {
            Err::<SocketAddress, Fault>(Fault::Unresolved)
        } else {
            Ok::<SocketAddress, Fault>(addrs@[0])
        },
{
    if addrs.len() == 0 {
        Err(Fault::Unresolved)
    } else {
        Ok(addrs[0])
    }
}

/// The calls that make a listener of a fresh connection: bind it, then
/// listen.
pub open spec fn listen_plan(addr: EngineAddr, port: u16) -> Seq<ConnStep> {
    seq![ConnStep::Bind { addr, port }, ConnStep::Listen { backlog: LISTEN_BACKLOG }]
}

/// The calls that connect a connection: start to connect, then wait for
/// the write queue to tell how the handshake ended.
pub open spec fn connect_plan(addr: EngineAddr, port: u16) -> Seq<ConnStep> {
    seq![ConnStep::Connect { addr, port }, ConnStep::AwaitWritable]
}

/// What a listener does after its wait on the read queue.
#[derive(Clone, Copy, Debug, PartialEq, Eq, Structural)]
pub enum ListenerStep {
    /// A connection came in: accept it.
    Accept,
    /// Yield the error that the engine holds for the listener.
    YieldEngineError,
    /// Stay pending.
    Suspend,
}

/// How a connection attempt stands after a wait on the write queue.
#[derive(Clone, Copy, Debug, PartialEq, Eq, Structural)]
pub enum Handshake {
    /// The handshake is done: this is the connected socket.
    Established(NetconnSocket),
    /// The attempt failed, with the error that the engine holds for the
    /// connection.
    Failed,
    /// Nothing is known yet.
    Waiting,
}

/// The state of a listener.
#[derive(Clone, Copy, Debug, PartialEq, Eq, Structural)]
pub struct TcpListenerInner {
    pub conn: Netconn,
}

/// A stream listener: a stream of the connections that come in.
#[derive(Clone, Copy, Debug, PartialEq, Eq, Structural)]
pub struct TcpListener {
    inner: TcpListenerInner,
}

/// A stream connection that is bound or not, and not yet a listener.
#[derive(Clone, Copy, Debug, PartialEq, Eq, Structural)]
pub struct StackBuilder(pub Netconn);

fn listen_steps(addr: EngineAddr, port: u16) -> (steps: Vec<ConnStep>)
    ensures
        steps@ == listen_plan(addr, port),
{
    let mut steps: Vec<ConnStep> = Vec::new();
    steps.push(ConnStep::Bind { addr, port });
    steps.push(Netconn::listen());
    assert(steps@ =~= listen_plan(addr, port));
    steps
}

impl StackBuilder {
    /// A builder on a fresh stream connection.
    pub fn new() -> (builder: StackBuilder)
        ensures
            builder.0.kind() == ConnKind::Stream,
            builder.0.proto() == 0,
    {
        StackBuilder(Netconn::new_tcp())
    }

    /// The listener on `port` of every local address, and the calls that
    /// make the builder's connection that listener.
    pub fn bind_to(self, port: u16) -> (r: (TcpListener, Vec<ConnStep>))
        ensures
            r.0.conn() == self.0,
            r.1@ == listen_plan(EngineAddr::Any, port),
    {
        (TcpListener::new(self.0), listen_steps(EngineAddr::unspecified(), port))
    }

    /// The listener on a port of the engine's choice.
    pub fn bind_any(self) -> (r: (TcpListener, Vec<ConnStep>))
        ensures
            r.0.conn() == self.0,
            r.1@ == listen_plan(EngineAddr::Any, 0),
    {
        self.bind_to(0)
    }

    /// The builder, and the call that binds its connection to the first
    /// address that the host name resolved to.
    pub fn bind_local(self, hosts: &Vec<SocketAddress>, order: Endian) -> (r: Result<
        (StackBuilder, ConnStep),
        Fault,
    >)
        ensures
            hosts@.len() == 0 ==> r == Err::<(StackBuilder, ConnStep), Fault>(Fault::Unresolved),
            hosts@.len() > 0 ==> r == Ok::<(StackBuilder, ConnStep), Fault>(
                (
                    self,
                    ConnStep::Bind { addr: hosts@[0].ip.engine_form(order), port: hosts@[0].port },
                ),
            ),
    {
        match first_resolved(hosts) {
            Ok(host) => Ok((self, Netconn::bind_ip_port(host.ip, host.port, order))),
            Err(e) => Err(e),
        }
    }
}

impl TcpListener {
    /// The listener's connection.
    pub closed spec fn conn(&self) -> Netconn {
        self.inner.conn
    }

    /// The listener on a connection that listens.
    pub fn new(conn: Netconn) -> (listener: TcpListener)
        ensures
            listener.conn() == conn,
    {
        TcpListener { inner: TcpListenerInner { conn } }
    }

    /// The listener's connection, for the calls that go to the engine.
    pub fn netconn(&self) -> (conn: &Netconn)
        ensures
            *conn == self.conn(),
    {
        &self.inner.conn
    }

    /// The listener on the first address that the host name resolved to,
    /// and the calls that make a fresh stream connection that listener.
    pub fn bind(hosts: &Vec<SocketAddress>, order: Endian) -> (r: Result<
        (TcpListener, Vec<ConnStep>),
        Fault,
    >)
        ensures
            r is Ok <==> hosts@.len() > 0,
            r is Err ==> r.unwrap_err() == Fault::Unresolved,
            r is Ok ==> {
                &&& r.unwrap().0.conn().kind() == ConnKind::Stream
                &&& r.unwrap().0.conn().proto() == 0
                &&& r.unwrap().1@ == listen_plan(
                    hosts@[0].ip.engine_form(order),
                    hosts@[0].port,
                )
            },
    {
        match first_resolved(hosts) {
            Ok(host) => {
                let netconn = Netconn::new_tcp();
                Ok((TcpListener::new(netconn), listen_steps(host.ip.to_engine(order), host.port)))
            },
            Err(e) => Err(e),
        }
    }

    /// The listener on `port` of every local address, and the calls that
    /// make a fresh stream connection that listener.
    pub fn bind_to(port: u16) -> (r: (TcpListener, Vec<ConnStep>))
        ensures
            r.0.conn().kind() == ConnKind::Stream,
            r.0.conn().proto() == 0,
            r.1@ == listen_plan(EngineAddr::Any, port),
    {
        StackBuilder::new().bind_to(port)
    }

    /// The listener on a port of the engine's choice.
    pub fn bind_any() -> (r: (TcpListener, Vec<ConnStep>))
        ensures
            r.0.conn().kind() == ConnKind::Stream,
            r.0.conn().proto() == 0,
            r.1@ == listen_plan(EngineAddr::Any, 0),
    {
        TcpListener::bind_to(0)
    }

    /// The next connection, after the wait on the listener's read queue.
    /// Each notification there stands for one connection that came in.
    pub fn poll_next(ready: Readiness) -> (step: ListenerStep)
        ensures
            step == match ready {
                Readiness::Ready(_) => ListenerStep::Accept,
                Readiness::Faulted => ListenerStep::YieldEngineError,
                Readiness::Pending => ListenerStep::Suspend,
            },
    {
        match ready {
            Readiness::Ready(_) => ListenerStep::Accept,
            Readiness::Faulted => ListenerStep::YieldEngineError,
            Readiness::Pending => ListenerStep::Suspend,
        }
    }

    /// The next connection, after the engine has answered the attempt to
    /// accept it: a socket on a new connection, or the engine's refusal.
    ///
    /// The attempt follows a notification, so the engine has a connection
    /// to hand out and does not answer that it would block.
    pub fn accepted(&self, answer: Result<(), Fault>) -> (item: Result<TcpStream, Fault>)
        requires
            answer is Err ==> !answer.unwrap_err().would_block(),
        ensures
            item == match answer {
                Ok(_) => Ok(NetconnSocket::new_spec(self.conn())),
                Err(e) => Err(e),
            },
    {
        match self.inner.conn.accept(answer) {
            Ok(conn) => Ok(NetconnSocket::new(conn)),
            Err(e) => Err(e),
        }
    }
}

impl NetconnSocket {
    /// The connection to make, and the calls that connect it to the first
    /// address that the host name resolved to.
    pub fn connect(hosts: &Vec<SocketAddress>, order: Endian) -> (r: Result<
        (Netconn, Vec<ConnStep>),
        Fault,
    >)
        ensures
            r is Ok <==> hosts@.len() > 0,
            r is Err ==> r.unwrap_err() == Fault::Unresolved,
            r is Ok ==> {
                &&& r.unwrap().0.kind() == ConnKind::Stream
                &&& r.unwrap().0.proto() == 0
                &&& r.unwrap().1@ == connect_plan(
                    hosts@[0].ip.engine_form(order),
                    hosts@[0].port,
                )
            },
    {
        NetconnSocket::connect_priv(Netconn::new_tcp(), hosts, order)
    }

    /// The calls that connect `netconn` to the first address that the
    /// host name resolved to.
    pub fn connect_priv(netconn: Netconn, hosts: &Vec<SocketAddress>, order: Endian) -> (r:
        Result<(Netconn, Vec<ConnStep>), Fault>)
        ensures
            r is Ok <==> hosts@.len() > 0,
            r is Err ==> r.unwrap_err() == Fault::Unresolved,
            r is Ok ==> {
                &&& r.unwrap().0 == netconn
                &&& r.unwrap().1@ == connect_plan(
                    hosts@[0].ip.engine_form(order),
                    hosts@[0].port,
                )
            },
    {
        match first_resolved(hosts) {
            Ok(host) => {
                let mut steps: Vec<ConnStep> = Vec::new();
                steps.push(Netconn::connect(host.ip, host.port, order));
                steps.push(ConnStep::AwaitWritable);
                assert(steps@ =~= connect_plan(host.ip.engine_form(order), host.port));
                Ok((netconn, steps))
            },
            Err(e) => Err(e),
        }
    }

    /// The connection to make, and the call that binds it to the first
    /// address that the local name resolved to. The remote name is
    /// resolved after that call, and `connect_priv` gives the calls that
    /// follow.
    pub fn connect_from(srcs: &Vec<SocketAddress>, order: Endian) -> (r: Result<
        (Netconn, ConnStep),
        Fault,
    >)
        ensures
            r is Ok <==> srcs@.len() > 0,
            r is Err ==> r.unwrap_err() == Fault::Unresolved,
            r is Ok ==> {
                &&& r.unwrap().0.kind() == ConnKind::Stream
                &&& r.unwrap().0.proto() == 0
                &&& r.unwrap().1 == (ConnStep::Bind {
                    addr: srcs@[0].ip.engine_form(order),
                    port: srcs@[0].port,
                })
            },
    {
        match first_resolved(srcs) {
            Ok(src) => Ok((Netconn::new_tcp(), Netconn::bind_ip_port(src.ip, src.port, order))),
            Err(e) => Err(e),
        }
    }

    /// How the attempt to connect `netconn` stands after a wait on its
    /// write queue. A notification that more can be sent means that the
    /// handshake is done; one of a failure means that the attempt failed.
    pub fn connected(netconn: Netconn, ready: Readiness) -> (h: Handshake)
        ensures
            h == match ready {
                Readiness::Ready(_) => Handshake::Established(NetconnSocket::new_spec(netconn)),
                Readiness::Faulted => Handshake::Failed,
                Readiness::Pending => Handshake::Waiting,
            },
    {
        match ready {
            Readiness::Ready(_) => Handshake::Established(NetconnSocket::new(netconn)),
            Readiness::Faulted => Handshake::Failed,
            Readiness::Pending => Handshake::Waiting,
        }
    }
}

} // verus!
