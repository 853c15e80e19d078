//! Raw sockets: whole datagrams of one IP protocol on one interface.

use crate::netconn::{ConnKind, ConnStep, Netconn};
use crate::netif::NetDevice;
use crate::proto::Proto;
use crate::socket::NetconnSocket;
use vstd::prelude::*;

verus! {

/// A raw socket is a socket on a connection of kind raw.
pub type RawSocket = NetconnSocket;

impl NetconnSocket {
    /// The raw socket for `proto` on the interface of `dev`, and the call
    /// that binds its connection to that interface. If the engine refuses
    /// the call there is no socket.
    ///
    /// The interface must have been added to the engine.
    pub fn bind_proto<D>(proto: Proto, dev: &NetDevice<D>) -> (r: (RawSocket, ConnStep))
        requires
            dev.netif().number() is Some,
            dev.netif().number().unwrap() < u8::MAX,
        ensures
            r.0.conn().kind() == ConnKind::Raw,
            r.0.conn().proto() == proto.number(),
            r.1 == (ConnStep::BindIf { index: (dev.netif().number().unwrap() + 1) as u8 }),
    {
        let raw = Netconn::new_raw(proto.value());
        let step = Netconn::bind_if(dev.netif_as_ref().index());
        (NetconnSocket::new(raw), step)
    }
}

} // verus!
