use bytes::Bytes;
use lwip::netconn::{LISTEN_BACKLOG, MAX_DATAGRAM, NONBLOCKING_FLAGS};
use lwip::{Attempt, CallbackContext, ConnKind, ConnStep, Dispatch, Endian, EngineAddr, EventTag};
use lwip::{Fault, FaultClass, Ip4Addr, IpAddress, Netconn, NetconnEvent, NetconnSocket, Polled};
use lwip::{Readiness, SocketAddress, Submission, Woken};

const WOULD_BLOCK: Fault = Fault::Engine { errno: 11, class: FaultClass::WouldBlock };
const NOT_CONNECTED: Fault = Fault::Engine { errno: 107, class: FaultClass::NotConnected };
const REFUSED: Fault = Fault::Engine { errno: 111, class: FaultClass::Other };
const IN_PROGRESS: Fault = Fault::Engine { errno: 115, class: FaultClass::Other };

#[test]
fn level_decreases_are_ignored() {
    let mut ctx = CallbackContext::new();
    assert_eq!(ctx.on_event(EventTag::RcvMinus, 10, false), Dispatch::Ignore);
    assert_eq!(ctx.on_event(EventTag::SendMinus, 10, false), Dispatch::Ignore);
    assert_eq!(ctx.on_event(EventTag::RcvMinus, 0, true), Dispatch::Ignore);
    assert_eq!(ctx.on_event(EventTag::Other, 3, false), Dispatch::Ignore);
    assert!(!ctx.is_released());
}

#[test]
fn readiness_goes_to_the_queue_of_its_direction() {
    let mut ctx = CallbackContext::new();
    assert_eq!(
        ctx.on_event(EventTag::RcvPlus, 5, false),
        Dispatch::Read(NetconnEvent::Data(5))
    );
    assert_eq!(
        ctx.on_event(EventTag::SendPlus, 1460, false),
        Dispatch::Write(NetconnEvent::Data(1460))
    );
    assert_eq!(
        ctx.on_event(EventTag::SendPlus, 0, false),
        Dispatch::Write(NetconnEvent::Data(0))
    );
    assert_eq!(
        ctx.on_event(EventTag::RcvPlus, 65535, false),
        Dispatch::Read(NetconnEvent::Data(65535))
    );
}

#[test]
fn a_new_connection_on_a_listener_is_a_notification() {
    let mut ctx = CallbackContext::new();
    assert_eq!(ctx.on_event(EventTag::RcvPlus, 0, true), Dispatch::Read(NetconnEvent::Data(0)));
    assert!(!ctx.is_released());
}

#[test]
fn an_error_goes_to_both_queues() {
    let mut ctx = CallbackContext::new();
    assert_eq!(ctx.on_event(EventTag::Error, 0, false), Dispatch::Both(NetconnEvent::Error));
    assert_eq!(ctx.on_event(EventTag::Error, 7, true), Dispatch::Both(NetconnEvent::Error));
    assert!(!ctx.is_released());
}

#[test]
fn the_end_of_the_stream_releases_the_context_once() {
    let mut ctx = CallbackContext::new();
    assert_eq!(ctx.on_event(EventTag::RcvPlus, 0, false), Dispatch::Release);
    assert!(ctx.is_released());
    assert_eq!(ctx.on_event(EventTag::RcvPlus, 0, false), Dispatch::Ignore);
    assert_eq!(ctx.on_event(EventTag::RcvPlus, 4, false), Dispatch::Ignore);
    assert_eq!(ctx.on_event(EventTag::Error, 0, false), Dispatch::Ignore);
    assert_eq!(ctx.on_event(EventTag::SendPlus, 4, false), Dispatch::Ignore);
    assert!(!ctx.on_drop());
    assert!(ctx.is_released());
}

#[test]
fn dropping_a_live_connection_releases_the_context() {
    let mut ctx = CallbackContext::new();
    assert_eq!(ctx.on_event(EventTag::RcvPlus, 4, false), Dispatch::Read(NetconnEvent::Data(4)));
    assert!(ctx.on_drop());
    assert!(ctx.is_released());
    assert!(!ctx.on_drop());
    assert_eq!(ctx.on_event(EventTag::RcvPlus, 0, false), Dispatch::Ignore);
}

#[test]
fn nonblocking_flags() {
    assert_eq!(NONBLOCKING_FLAGS, 0x02 | 0x04);
    assert_eq!(Netconn::set_nonblocking(0), 0x06);
    assert_eq!(Netconn::set_nonblocking(0x06), 0x06);
    assert_eq!(Netconn::set_nonblocking(0x02), 0x06);
    assert_eq!(Netconn::set_nonblocking(0x81), 0x87);
    assert_eq!(Netconn::set_nonblocking(0xff), 0xff);
}

#[test]
fn kinds_of_connections() {
    let tcp = Netconn::new_tcp();
    assert_eq!(tcp.ntype(), ConnKind::Stream);
    assert_eq!(tcp.protocol(), 0);
    let raw = Netconn::new_raw(58);
    assert_eq!(raw.ntype(), ConnKind::Raw);
    assert_eq!(raw.protocol(), 58);
    assert_eq!(Netconn::new_from_type(ConnKind::Raw, 1), Netconn::new_raw(1));
}

#[test]
fn binding_and_listening_calls() {
    assert_eq!(Netconn::bind_if(3), ConnStep::BindIf { index: 3 });
    assert_eq!(Netconn::bind_port(1234), ConnStep::Bind { addr: EngineAddr::Any, port: 1234 });
    assert_eq!(
        Netconn::bind_ip_port(IpAddress::V4([10, 0, 0, 1]), 80, Endian::Big),
        ConnStep::Bind { addr: EngineAddr::V4(Ip4Addr { addr: 0x0a00_0001 }), port: 80 }
    );
    assert_eq!(
        Netconn::bind_ip_port(IpAddress::V4([0, 0, 0, 0]), 80, Endian::Big),
        ConnStep::Bind { addr: EngineAddr::Any, port: 80 }
    );
    assert_eq!(
        Netconn::connect(IpAddress::V4([127, 0, 0, 1]), 1234, Endian::Little),
        ConnStep::Connect { addr: EngineAddr::V4(Ip4Addr { addr: 0x0100_007f }), port: 1234 }
    );
    assert_eq!(Netconn::listen(), ConnStep::Listen { backlog: 0xff });
    assert_eq!(LISTEN_BACKLOG, 0xff);
    assert_eq!(Netconn::shutdown_tx(), (false, true));
}

#[test]
fn a_connect_in_progress_is_no_failure() {
    assert_eq!(Netconn::connecting(Ok(())), Ok(()));
    assert_eq!(Netconn::connecting(Err(IN_PROGRESS)), Ok(()));
    assert_eq!(Netconn::connecting(Err(REFUSED)), Err(REFUSED));
    assert_eq!(Netconn::connecting(Err(WOULD_BLOCK)), Err(WOULD_BLOCK));
    assert_eq!(Netconn::connecting(Err(Fault::Unresolved)), Err(Fault::Unresolved));
}

#[test]
fn an_accepted_connection_has_the_listeners_kind() {
    let listener = Netconn::new_tcp();
    assert_eq!(listener.accept(Ok(())), Ok(Netconn::new_tcp()));
    assert_eq!(listener.accept(Err(REFUSED)), Err(REFUSED));
}

#[test]
fn receive_joins_all_fragments() {
    let r = Netconn::recv(Ok(vec![b"he".to_vec(), b"l".to_vec(), b"lo".to_vec()]));
    assert_eq!(r, Ok(Bytes::from(b"hello".to_vec())));
    assert_eq!(Netconn::recv(Ok(vec![])), Ok(Bytes::new()));
    assert_eq!(Netconn::recv(Err(WOULD_BLOCK)), Err(WOULD_BLOCK));
    assert_eq!(Netconn::recv(Err(NOT_CONNECTED)), Err(NOT_CONNECTED));
}

#[test]
fn a_stream_send_reports_what_the_engine_took() {
    let tcp = Netconn::new_tcp();
    assert_eq!(tcp.submit(1000), Ok(Submission::Stream { len: 1000 }));
    assert_eq!(tcp.submit(1 << 20), Ok(Submission::Stream { len: 1 << 20 }));
    assert_eq!(tcp.send(1000, Ok(1000)), Ok(1000));
    assert_eq!(tcp.send(1000, Ok(536)), Ok(536));
    assert_eq!(tcp.send(1000, Ok(0)), Ok(0));
    assert_eq!(tcp.send(1000, Err(WOULD_BLOCK)), Err(WOULD_BLOCK));
}

#[test]
fn a_datagram_is_sent_whole_or_not_at_all() {
    let raw = Netconn::new_raw(1);
    assert_eq!(MAX_DATAGRAM, 65535);
    assert_eq!(raw.submit(0), Ok(Submission::Datagram { size: 0 }));
    assert_eq!(raw.submit(64), Ok(Submission::Datagram { size: 64 }));
    assert_eq!(raw.submit(65535), Ok(Submission::Datagram { size: 65535 }));
    assert_eq!(raw.submit(65536), Err(Fault::Oversized));
    assert_eq!(raw.submit(65536 + 64), Err(Fault::Oversized));
    assert_eq!(raw.send(64, Ok(0)), Ok(64));
    assert_eq!(raw.send(64, Ok(64)), Ok(64));
    assert_eq!(raw.send(64, Err(REFUSED)), Err(REFUSED));
    assert_eq!(raw.send(65535, Ok(65535)), Ok(65535));
    assert_eq!(raw.send(65536, Ok(65536)), Err(Fault::Oversized));
    assert_eq!(raw.send(70000, Ok(70000)), Err(Fault::Oversized));
    assert_eq!(raw.send(70000, Err(REFUSED)), Err(Fault::Oversized));
}

#[test]
fn only_listening_and_connecting_are_made_nonblocking_first() {
    assert!(Netconn::listen().nonblocking_first());
    assert!(Netconn::connect(IpAddress::V4([10, 0, 0, 1]), 80, Endian::Big).nonblocking_first());
    assert!(!Netconn::bind_port(80).nonblocking_first());
    assert!(!Netconn::bind_if(1).nonblocking_first());
    assert!(!ConnStep::AwaitWritable.nonblocking_first());
}

#[test]
fn the_local_address() {
    let v4 = EngineAddr::V4(Ip4Addr { addr: 0x0100_007f });
    assert_eq!(
        Netconn::local(Ok((v4, 1234)), Endian::Little),
        Ok(SocketAddress { ip: IpAddress::V4([127, 0, 0, 1]), port: 1234 })
    );
    assert_eq!(Netconn::local(Ok((EngineAddr::Any, 1)), Endian::Little), Err(Fault::InvalidAddress));
    assert_eq!(
        Netconn::local(Ok((EngineAddr::Unknown(9), 1)), Endian::Little),
        Err(Fault::InvalidAddress)
    );
    assert_eq!(Netconn::local(Err(NOT_CONNECTED), Endian::Little), Err(NOT_CONNECTED));
    let socket = NetconnSocket::new(Netconn::new_tcp());
    assert_eq!(
        socket.local(Ok((v4, 80)), Endian::Little),
        Ok(SocketAddress { ip: IpAddress::V4([127, 0, 0, 1]), port: 80 })
    );
}

#[test]
fn waits_on_a_readiness_queue() {
    assert_eq!(Netconn::poll_rx(Polled::Item(NetconnEvent::Data(5))), Readiness::Ready(5));
    assert_eq!(Netconn::poll_rx(Polled::Item(NetconnEvent::Error)), Readiness::Faulted);
    assert_eq!(Netconn::poll_rx(Polled::Pending), Readiness::Pending);
    assert_eq!(Netconn::poll_rx(Polled::Closed), Readiness::Pending);
    assert_eq!(Netconn::poll_tx(Polled::Item(NetconnEvent::Data(0))), Readiness::Ready(0));
    assert_eq!(Netconn::poll_tx(Polled::Item(NetconnEvent::Error)), Readiness::Faulted);
    assert_eq!(Netconn::poll_tx(Polled::Pending), Readiness::Pending);
    assert_eq!(Netconn::poll_tx(Polled::Closed), Readiness::Pending);
}

#[test]
fn a_read_copies_what_was_received() {
    let mut buf = [0u8; 8];
    let action = NetconnSocket::poll_read(Ok(Bytes::from(b"hello".to_vec())), &mut buf);
    assert_eq!(action, Attempt::Return(Ok(5)));
    assert_eq!(&buf, b"hello\0\0\0");
    let action = NetconnSocket::poll_read(Ok(Bytes::new()), &mut buf);
    assert_eq!(action, Attempt::Return(Ok(0)));
    assert_eq!(&buf, b"hello\0\0\0");
}

#[test]
fn a_read_at_the_end_of_the_stream_returns_no_bytes() {
    let mut buf = [3u8; 4];
    assert_eq!(NetconnSocket::poll_read(Err(NOT_CONNECTED), &mut buf), Attempt::Return(Ok(0)));
    assert_eq!(buf, [3u8; 4]);
    assert_eq!(NetconnSocket::poll_read(Err(NOT_CONNECTED), &mut buf), Attempt::Return(Ok(0)));
}

#[test]
fn a_read_that_would_block_waits_and_tries_again() {
    let mut buf = [3u8; 4];
    assert_eq!(NetconnSocket::poll_read(Err(WOULD_BLOCK), &mut buf), Attempt::Await);
    assert_eq!(buf, [3u8; 4]);
    assert_eq!(NetconnSocket::read_woken(Readiness::Ready(0)), Woken::Retry);
    assert_eq!(NetconnSocket::read_woken(Readiness::Ready(5)), Woken::Retry);
    assert_eq!(NetconnSocket::read_woken(Readiness::Pending), Woken::Suspend);
    assert_eq!(NetconnSocket::read_woken(Readiness::Faulted), Woken::FailWithEngineError);
}

#[test]
fn a_read_passes_other_failures_on() {
    let mut buf = [3u8; 4];
    assert_eq!(NetconnSocket::poll_read(Err(REFUSED), &mut buf), Attempt::Return(Err(REFUSED)));
    assert_eq!(
        NetconnSocket::poll_read(Err(Fault::InvalidAddress), &mut buf),
        Attempt::Return(Err(Fault::InvalidAddress))
    );
    assert_eq!(buf, [3u8; 4]);
}

#[test]
fn a_checked_read_refuses_data_that_does_not_fit() {
    let mut buf = [1u8; 4];
    let data = Bytes::from(b"hello".to_vec());
    assert_eq!(NetconnSocket::poll_read_checked(Ok(data), &mut buf), None);
    assert_eq!(buf, [1u8; 4]);
    let data = Bytes::from(b"helo".to_vec());
    assert_eq!(NetconnSocket::poll_read_checked(Ok(data), &mut buf), Some(Attempt::Return(Ok(4))));
    assert_eq!(&buf, b"helo");
    assert_eq!(
        NetconnSocket::poll_read_checked(Err(WOULD_BLOCK), &mut buf),
        Some(Attempt::Await)
    );
    assert_eq!(
        NetconnSocket::poll_read_checked(Err(NOT_CONNECTED), &mut buf),
        Some(Attempt::Return(Ok(0)))
    );
}

#[test]
fn a_write_reports_what_was_sent() {
    assert_eq!(NetconnSocket::poll_write(Ok(5)), Attempt::Return(Ok(5)));
    assert_eq!(NetconnSocket::poll_write(Ok(0)), Attempt::Return(Ok(0)));
    assert_eq!(NetconnSocket::poll_write(Err(WOULD_BLOCK)), Attempt::Await);
    assert_eq!(NetconnSocket::poll_write(Err(NOT_CONNECTED)), Attempt::Return(Err(NOT_CONNECTED)));
    assert_eq!(NetconnSocket::poll_write(Err(REFUSED)), Attempt::Return(Err(REFUSED)));
}

#[test]
fn a_woken_write_stays_pending() {
    assert_eq!(NetconnSocket::write_woken(Readiness::Ready(100)), Woken::Suspend);
    assert_eq!(NetconnSocket::write_woken(Readiness::Pending), Woken::Suspend);
    assert_eq!(NetconnSocket::write_woken(Readiness::Faulted), Woken::FailWithEngineError);
}

#[test]
fn flush_and_shutdown() {
    assert_eq!(NetconnSocket::poll_flush(), Ok(()));
    assert_eq!(NetconnSocket::poll_shutdown(Ok(())), Ok(()));
    assert_eq!(NetconnSocket::poll_shutdown(Err(NOT_CONNECTED)), Err(NOT_CONNECTED));
}

#[test]
fn a_socket_keeps_its_connection() {
    let socket = NetconnSocket::new(Netconn::new_raw(17));
    assert_eq!(*socket.netconn(), Netconn::new_raw(17));
    assert_eq!(socket.close(), Netconn::new_raw(17));
}
