use bytes::Bytes;
use lwip::netif::IP6_ADDR_VALID;
use lwip::{Admission, Device, DeviceBuilder, Endian, Fault, LatchState, InitLatch};
use lwip::{Ip4Addr, Ip6Addr, IoPoll, Ipv4Net, Ipv6Net, Loopback, NetDevice, NetIf, NetifStep};
use lwip::{Polled, Stack};

#[test]
fn the_startup_is_run_once() {
    let mut latch = InitLatch::new();
    assert_eq!(latch.state, LatchState::Fresh);
    assert!(!latch.pump_claimed);
    assert_eq!(latch.enter(), Admission::Startup);
    latch.settle(true);
    assert_eq!(latch.state, LatchState::Ready);
    for _ in 0..5 {
        assert_eq!(latch.enter(), Admission::Proceed);
        latch.settle(false);
        assert_eq!(latch.state, LatchState::Ready);
    }
}

#[test]
fn a_failed_startup_is_not_tried_again() {
    let mut latch = InitLatch::new();
    assert_eq!(latch.enter(), Admission::Startup);
    latch.settle(false);
    assert_eq!(latch.state, LatchState::Failed);
    assert_eq!(latch.enter(), Admission::Halt);
    latch.settle(true);
    assert_eq!(latch.state, LatchState::Failed);
    assert_eq!(latch.enter(), Admission::Halt);
}

#[test]
fn only_one_frame_pump_in_a_process() {
    let mut latch = InitLatch::new();
    assert_eq!(latch.claim_pump(), Ok(Admission::Startup));
    assert!(latch.pump_claimed);
    assert_eq!(latch.state, LatchState::Fresh);
    latch.settle(true);
    assert_eq!(latch.claim_pump(), Err(Fault::AlreadyExists));
    assert_eq!(latch.claim_pump(), Err(Fault::AlreadyExists));
    assert_eq!(latch.state, LatchState::Ready);

    let mut later = InitLatch::new();
    later.settle(true);
    assert_eq!(later.claim_pump(), Ok(Admission::Proceed));
}

#[test]
fn netmasks_follow_the_prefix() {
    let mask = |prefix: u8| Ipv4Net::new([10, 1, 2, 3], prefix).unwrap().mask();
    assert_eq!(mask(0), [0, 0, 0, 0]);
    assert_eq!(mask(1), [128, 0, 0, 0]);
    assert_eq!(mask(8), [255, 0, 0, 0]);
    assert_eq!(mask(12), [255, 240, 0, 0]);
    assert_eq!(mask(24), [255, 255, 255, 0]);
    assert_eq!(mask(31), [255, 255, 255, 254]);
    assert_eq!(mask(32), [255, 255, 255, 255]);
}

#[test]
fn networks_keep_address_and_prefix() {
    let net = Ipv4Net::new([192, 168, 0, 1], 24).unwrap();
    assert_eq!(net.ip(), [192, 168, 0, 1]);
    assert_eq!(net.prefix(), 24);
    let mut octets = [0u8; 16];
    octets[0] = 0xfe;
    octets[1] = 0x80;
    octets[15] = 9;
    let net6 = Ipv6Net::new(octets, 64).unwrap();
    assert_eq!(net6.ip(), octets);
    assert_eq!(net6.prefix(), 64);
}

#[test]
fn prefixes_longer_than_the_address_are_refused() {
    assert!(Ipv4Net::new([10, 0, 0, 1], 32).is_ok());
    assert_eq!(Ipv4Net::new([10, 0, 0, 1], 33), Err(Fault::InvalidPrefix));
    assert_eq!(Ipv4Net::new([10, 0, 0, 1], 255), Err(Fault::InvalidPrefix));
    assert!(Ipv6Net::new([0; 16], 128).is_ok());
    assert_eq!(Ipv6Net::new([0; 16], 129), Err(Fault::InvalidPrefix));
}

#[test]
fn the_default_builder() {
    let dev = DeviceBuilder::default().build(());
    assert_eq!(dev.mtu(), 1500);
    assert_eq!(dev.ipv4().ip(), [0, 0, 0, 0]);
    assert_eq!(dev.ipv4().prefix(), 0);
    assert_eq!(dev.ipv4().mask(), [0, 0, 0, 0]);
    assert!(dev.ipv6().is_empty());
}

#[test]
fn the_builder_collects_what_it_is_given() {
    let mut a = [0u8; 16];
    a[15] = 1;
    let mut b = [0u8; 16];
    b[0] = 0x20;
    b[1] = 0x01;
    let dev = DeviceBuilder::default()
        .mtu(9000)
        .ipv4([10, 0, 0, 1], 24)
        .ipv6(a, 128)
        .ipv6(b, 32)
        .build("stream");
    assert_eq!(dev.mtu(), 9000);
    assert_eq!(dev.ipv4().ip(), [10, 0, 0, 1]);
    assert_eq!(dev.ipv4().prefix(), 24);
    assert_eq!(dev.ipv4().mask(), [255, 255, 255, 0]);
    let nets = dev.ipv6();
    assert_eq!(nets.len(), 2);
    assert_eq!(nets[0].ip(), a);
    assert_eq!(nets[0].prefix(), 128);
    assert_eq!(nets[1].ip(), b);
    assert_eq!(nets[1].prefix(), 32);
    assert_eq!(*dev.get_ref(), "stream");
    assert_eq!(dev.into_inner(), "stream");
}

#[test]
fn the_loopback_device() {
    let dev = DeviceBuilder::loopback(Endian::Little);
    let wrapped = dev.device_as_ref();
    assert_eq!(wrapped.mtu(), u16::MAX);
    assert_eq!(wrapped.ipv4().ip(), [127, 0, 0, 1]);
    assert_eq!(wrapped.ipv4().prefix(), 8);
    assert_eq!(wrapped.ipv4().mask(), [255, 0, 0, 0]);
    let nets = wrapped.ipv6();
    assert_eq!(nets.len(), 1);
    assert_eq!(nets[0].ip(), [0, 0, 0, 0, 0, 0, 0, 0, 0, 0, 0, 0, 0, 0, 0, 1]);
    assert_eq!(nets[0].prefix(), 8);
    let steps = dev.netif_as_ref().steps();
    assert_eq!(
        steps,
        vec![
            NetifStep::Add {
                addr: Ip4Addr { addr: 0x0100_007f },
                netmask: Ip4Addr { addr: 0x0000_00ff },
                gateway: Ip4Addr { addr: 0 },
            },
            NetifStep::AttachQueue,
            NetifStep::SetLinkUp,
            NetifStep::SetUp,
            NetifStep::AddIp6(Ip6Addr { addr: [0, 0, 0, 0x0100_0000], zone: 0 }),
        ]
    );
    assert_eq!(IP6_ADDR_VALID, 0x10);
}

#[test]
fn registration_on_a_big_endian_machine() {
    let dev = DeviceBuilder::default().ipv4([10, 0, 0, 1], 24).build(());
    let netif = NetIf::new(&dev, Endian::Big);
    assert_eq!(
        netif.steps(),
        vec![
            NetifStep::Add {
                addr: Ip4Addr { addr: 0x0a00_0001 },
                netmask: Ip4Addr { addr: 0xffff_ff00 },
                gateway: Ip4Addr { addr: 0 },
            },
            NetifStep::AttachQueue,
            NetifStep::SetLinkUp,
            NetifStep::SetUp,
        ]
    );
}

#[test]
fn registration_adds_every_ipv6_address_in_order() {
    let mut a = [0u8; 16];
    a[15] = 1;
    let mut b = [0u8; 16];
    b[0] = 0xfe;
    b[1] = 0x80;
    let dev = DeviceBuilder::default().ipv6(a, 128).ipv6(b, 10).build(());
    let steps = NetIf::new(&dev, Endian::Big).steps();
    assert_eq!(steps.len(), 6);
    assert_eq!(steps[1], NetifStep::AttachQueue);
    assert_eq!(steps[2], NetifStep::SetLinkUp);
    assert_eq!(steps[3], NetifStep::SetUp);
    assert_eq!(steps[4], NetifStep::AddIp6(Ip6Addr { addr: [0, 0, 0, 1], zone: 0 }));
    assert_eq!(steps[5], NetifStep::AddIp6(Ip6Addr { addr: [0xfe80_0000, 0, 0, 0], zone: 0 }));
}

#[test]
fn an_ipv6_address_is_marked_valid_in_the_slot_the_engine_chose() {
    assert_eq!(NetIf::ip6_added(Ok(1)), Some(NetifStep::SetIp6State { slot: 1, state: 0x10 }));
    assert_eq!(NetIf::ip6_added(Ok(2)), Some(NetifStep::SetIp6State { slot: 2, state: 0x10 }));
    assert_eq!(NetIf::ip6_added(Ok(0)), Some(NetifStep::SetIp6State { slot: 0, state: 0x10 }));
    assert_eq!(NetIf::ip6_added(Ok(-1)), None);
    let refused = Fault::Engine { errno: 22, class: lwip::FaultClass::Other };
    assert_eq!(NetIf::ip6_added(Err(refused)), None);
}

#[test]
fn the_queue_is_attached_before_the_interface_is_up() {
    let dev = DeviceBuilder::loopback(Endian::Little);
    let steps = dev.netif_as_ref().steps();
    let at = |wanted: NetifStep| steps.iter().position(|s| *s == wanted).unwrap();
    assert_eq!(at(NetifStep::AttachQueue), 1);
    assert!(at(NetifStep::AttachQueue) < at(NetifStep::SetLinkUp));
    assert!(at(NetifStep::AttachQueue) < at(NetifStep::SetUp));
}

#[test]
fn a_wrapper_comes_apart_into_stream_and_declaration() {
    let dev = DeviceBuilder::default().mtu(1400).ipv4([10, 1, 1, 1], 30).build("stream");
    let (stream, declared) = dev.split();
    assert_eq!(stream, "stream");
    assert_eq!(declared.mtu(), 1400);
    assert_eq!(declared.ipv4().ip(), [10, 1, 1, 1]);
    assert_eq!(declared.ipv4().mask(), [255, 255, 255, 252]);
    assert!(declared.ipv6().is_empty());
}

#[test]
fn the_interface_index_is_one_more_than_the_number() {
    let mut dev = NetDevice::new(DeviceBuilder::default().build(()), Endian::Little);
    dev.netif_as_mut().registered(0);
    assert_eq!(dev.netif_as_ref().index(), 1);
    dev.netif_as_mut().registered(41);
    assert_eq!(dev.netif_as_ref().index(), 42);
    dev.netif_as_mut().registered(254);
    assert_eq!(dev.netif_as_ref().index(), 255);
}

#[test]
fn a_net_device_comes_apart_into_its_two_ends() {
    let mut dev = NetDevice::new(DeviceBuilder::default().mtu(576).build(7u32), Endian::Little);
    assert_eq!(*dev.device_as_ref().get_ref(), 7);
    assert_eq!(dev.device_as_mut().mtu(), 576);
    let (netif, device) = dev.drive();
    assert_eq!(netif.steps().len(), 4);
    assert_eq!(device.into_inner(), 7);
}

#[test]
fn loopback_hands_frames_back_in_order() {
    let mut lo = Loopback::new();
    let mut buf = [0u8; 8];
    assert_eq!(lo.poll_read(&mut buf), IoPoll::Pending);
    assert_eq!(buf, [0u8; 8]);
    assert_eq!(lo.poll_write(b"one"), (IoPoll::Ready(Ok(3)), true));
    assert_eq!(lo.poll_write(b"three"), (IoPoll::Ready(Ok(5)), false));
    assert_eq!(lo.poll_write(b""), (IoPoll::Ready(Ok(0)), false));
    assert_eq!(lo.poll_read(&mut buf), IoPoll::Ready(Ok(3)));
    assert_eq!(&buf, b"one\0\0\0\0\0");
    assert_eq!(lo.poll_read(&mut buf), IoPoll::Ready(Ok(5)));
    assert_eq!(&buf, b"three\0\0\0");
    assert_eq!(lo.poll_read(&mut buf), IoPoll::Ready(Ok(0)));
    assert_eq!(&buf, b"three\0\0\0");
    assert_eq!(lo.poll_read(&mut buf), IoPoll::Pending);
    assert_eq!(lo.poll_write(b"x"), (IoPoll::Ready(Ok(1)), true));
    assert_eq!(lo.poll_flush(), Ok(()));
    assert_eq!(lo.poll_shutdown(), Ok(()));
}

#[test]
fn loopback_wakes_a_parked_reader_once() {
    let mut lo = Loopback::new();
    let mut buf = [0u8; 4];
    assert_eq!(lo.poll_write(b"a"), (IoPoll::Ready(Ok(1)), false));
    assert_eq!(lo.poll_read(&mut buf), IoPoll::Ready(Ok(1)));
    assert_eq!(lo.poll_read(&mut buf), IoPoll::Pending);
    assert_eq!(lo.poll_read(&mut buf), IoPoll::Pending);
    assert_eq!(lo.poll_write(b"b"), (IoPoll::Ready(Ok(1)), true));
    assert_eq!(lo.poll_write(b"c"), (IoPoll::Ready(Ok(1)), false));
}

#[test]
fn an_interface_read_gives_one_frame() {
    let mut buf = [9u8; 8];
    let r = NetIf::poll_read(Polled::Item(Bytes::from(b"frame".to_vec())), &mut buf);
    assert_eq!(r, IoPoll::Ready(Ok(5)));
    assert_eq!(&buf, b"frame\x09\x09\x09");
    let mut small = [0u8; 3];
    let r = NetIf::poll_read(Polled::Item(Bytes::from(b"frame".to_vec())), &mut small);
    assert_eq!(r, IoPoll::Ready(Ok(3)));
    assert_eq!(&small, b"fra");
}

#[test]
fn an_interface_read_with_no_frame_is_pending() {
    let mut buf = [9u8; 4];
    assert_eq!(NetIf::poll_read(Polled::Pending, &mut buf), IoPoll::Pending);
    assert_eq!(NetIf::poll_read(Polled::Closed, &mut buf), IoPoll::Pending);
    assert_eq!(buf, [9u8; 4]);
}

#[test]
fn an_interface_write_injects_one_frame() {
    let p = NetIf::frame_in(b"\x45\x00\x00\x14").unwrap();
    assert_eq!(p.tot_len(), 4);
    assert_eq!(p.to_owned(), b"\x45\x00\x00\x14".to_vec());
    assert_eq!(p.segments().len(), 1);
    assert!(matches!(NetIf::frame_in(&vec![0u8; 65536]), Err(Fault::Oversized)));
    assert_eq!(NetIf::poll_write(Ok(()), 4), IoPoll::Ready(Ok(4)));
    let refused = Fault::Engine { errno: 12, class: lwip::FaultClass::Other };
    assert_eq!(NetIf::poll_write(Err(refused), 4), IoPoll::Ready(Err(refused)));
}

#[test]
fn a_stack_claims_the_pump() {
    let mut latch = InitLatch::new();
    let dev = DeviceBuilder::default().ipv4([10, 0, 0, 1], 24).build(Loopback::new());
    let mut stack = Stack::new(dev, &mut latch, Endian::Little).unwrap();
    assert_eq!(stack.startup(), Admission::Startup);
    assert!(latch.pump_claimed);
    assert_eq!(stack.netif_as_mut().steps().len(), 4);
    latch.settle(true);
    let second = DeviceBuilder::default().build(Loopback::new());
    assert!(matches!(Stack::new(second, &mut latch, Endian::Little), Err(Fault::AlreadyExists)));
    let mut lo = stack.into_inner().into_inner();
    let mut buf = [0u8; 2];
    assert_eq!(lo.poll_read(&mut buf), IoPoll::Pending);
}

#[test]
fn an_interface_for_given_networks() {
    let net4 = Ipv4Net::new([172, 16, 5, 9], 12).unwrap();
    let mut octets = [0u8; 16];
    octets[0] = 0xfd;
    octets[15] = 2;
    let nets6 = vec![Ipv6Net::new(octets, 64).unwrap()];
    let netif = NetIf::for_networks(net4, &nets6, Endian::Big);
    assert_eq!(netif.num(), None);
    assert_eq!(
        netif.steps(),
        vec![
            NetifStep::Add {
                addr: Ip4Addr { addr: 0xac10_0509 },
                netmask: Ip4Addr { addr: 0xfff0_0000 },
                gateway: Ip4Addr { addr: 0 },
            },
            NetifStep::AttachQueue,
            NetifStep::SetLinkUp,
            NetifStep::SetUp,
            NetifStep::AddIp6(Ip6Addr { addr: [0xfd00_0000, 0, 0, 2], zone: 0 }),
        ]
    );
    let little = NetIf::for_networks(net4, &vec![], Endian::Little);
    assert_eq!(
        little.steps()[0],
        NetifStep::Add {
            addr: Ip4Addr { addr: 0x0905_10ac },
            netmask: Ip4Addr { addr: 0x0000_f0ff },
            gateway: Ip4Addr { addr: 0 },
        }
    );
}

#[test]
fn an_interface_remembers_its_number() {
    let mut netif = NetIf::for_networks(Ipv4Net::new([10, 0, 0, 1], 8).unwrap(), &vec![], Endian::Big);
    assert_eq!(netif.num(), None);
    netif.registered(3);
    assert_eq!(netif.num(), Some(3));
    assert_eq!(netif.index(), 4);
    assert_eq!(netif.steps().len(), 4);
    let dev = NetDevice::with_netif(netif, "device");
    assert_eq!(dev.netif_as_ref().num(), Some(3));
    assert_eq!(*dev.device_as_ref(), "device");
}

#[test]
fn loopback_tells_the_length_of_its_oldest_frame() {
    let mut lo = Loopback::new();
    assert_eq!(lo.front_len(), None);
    lo.poll_write(b"abc");
    lo.poll_write(b"defgh");
    assert_eq!(lo.front_len(), Some(3));
    let mut buf = [0u8; 8];
    lo.poll_read(&mut buf);
    assert_eq!(lo.front_len(), Some(5));
    lo.poll_read(&mut buf);
    assert_eq!(lo.front_len(), None);
}

#[test]
fn a_user_defined_device() {
    struct Tap;
    impl Device for Tap {
        fn ipv4(&self) -> Ipv4Net {
            Ipv4Net::new([10, 9, 8, 7], 16).unwrap()
        }
        fn ipv6(&self) -> Vec<Ipv6Net> {
            Vec::new()
        }
        fn mtu(&self) -> u16 {
            1280
        }
    }
    let netif = NetIf::new(&Tap, Endian::Big);
    assert_eq!(
        netif.steps()[0],
        NetifStep::Add {
            addr: Ip4Addr { addr: 0x0a09_0807 },
            netmask: Ip4Addr { addr: 0xffff_0000 },
            gateway: Ip4Addr { addr: 0 },
        }
    );
}
