//! Verified decision core of an asynchronous socket and network-interface
//! adapter for an embeddable, callback-driven TCP/IP engine.
//!
//! The engine itself, the task scheduler and the transport device live
//! outside this crate. What is here is everything the adapter decides or
//! computes on plain values: buffer conversion, address conversion, the
//! one-time initialisation latch, interface registration, the demultiplexing
//! of engine callbacks and the retry protocol of the socket facade.

pub mod addr;
pub mod buf;
pub mod device;
pub mod endian;
pub mod fault;
pub mod latch;
pub mod io;
pub mod loopback;
pub mod netconn;
pub mod netif;
pub mod pbuf;
pub mod proto;
pub mod raw;
pub mod socket;
pub mod stack;
pub mod tcp;

pub use addr::{EngineAddr, Ip4Addr, Ip6Addr, IpAddress, SocketAddress};
pub use device::{Device, DeviceBuilder, DeviceWrapper, Ipv4Net, Ipv6Net};
pub use endian::Endian;
pub use fault::{Fault, FaultClass};
pub use loopback::Loopback;
pub use netconn::{CallbackContext, ConnKind, ConnStep, Dispatch, EventTag, Netconn};
pub use netconn::{NetconnEvent, Readiness, Submission};
pub use netif::{NetDevice, NetIf, NetifStep};
pub use io::{IoPoll, Polled};
pub use latch::{Admission, LatchState, InitLatch};
pub use pbuf::{FromPbuf, IntoPbuf, PacketBuffer};
pub use proto::Proto;
pub use raw::RawSocket;
pub use socket::{Attempt, NetconnSocket, Woken};
pub use stack::Stack;
pub use tcp::{Handshake, ListenerStep, StackBuilder, TcpListener, TcpListenerInner, TcpStream};
