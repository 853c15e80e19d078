//! What a transport device declares of itself, and the builder that
//! attaches such a declaration to a byte stream.

use crate::endian::be_bytes;
use crate::fault::Fault;
use crate::loopback::Loopback;
use crate::netif::NetDevice;
use vstd::pervasive::unreached;
use vstd::prelude::*;

verus! {

#[verifier::external_type_specification]
#[verifier::external_body]
pub struct ExIpNetworkError(ipnetwork::IpNetworkError);

/// The netmask of a prefix of `prefix` bits, as a word with the first
/// octet in its most significant byte.
pub open spec fn mask_word(prefix: u8) -> u32
    recommends
        prefix <= 32,
{
    if prefix == 0 {
        0u32
    } else {
        0xffff_ffffu32 << ((32 - prefix) as u32)
    }
}

/// The octets of the netmask of a prefix of `prefix` bits.
pub open spec fn mask_octets(prefix: u8) -> Seq<u8>
    recommends
        prefix <= 32,
{
    be_bytes(mask_word(prefix))
}

/// An IPv4 address together with the length of its network's prefix.
#[derive(Clone, Copy, Debug, PartialEq, Eq)]
pub struct Ipv4Net {
    addr: [u8; 4],
    prefix: u8,
    mask: [u8; 4],
}

/// An IPv6 address together with the length of its network's prefix.
#[derive(Clone, Copy, Debug, PartialEq, Eq)]
pub struct Ipv6Net {
    addr: [u8; 16],
    prefix: u8,
}

/// `ipnetwork::Ipv4Network::new` on the address with the given octets,
/// and `ip`, `prefix` and `mask` of the network it made. A prefix of more
/// than 32 bits is refused, and no other. The network keeps address and
/// prefix as they were given; its mask has the first `prefix` bits set.
#[verifier::external_body]
fn ipv4_network(addr: [u8; 4], prefix: u8) -> (r: Result<Ipv4Net, ipnetwork::IpNetworkError>)
    ensures
        r is Ok <==> prefix <= 32,
        r is Ok ==> r.unwrap().addr == addr && r.unwrap().prefix == prefix && r.unwrap().mask@
            == mask_octets(prefix),
{
    let net = ipnetwork::Ipv4Network::new(addr.into(), prefix)?;
    Ok(Ipv4Net { addr: net.ip().octets(), prefix: net.prefix(), mask: net.mask().octets() })
}

/// `ipnetwork::Ipv6Network::new` on the address with the given octets,
/// and `ip` and `prefix` of the network it made. A prefix of more than 128
/// bits is refused, and no other. The network keeps address and prefix as
/// they were given.
#[verifier::external_body]
fn ipv6_network(addr: [u8; 16], prefix: u8) -> (r: Result<Ipv6Net, ipnetwork::IpNetworkError>)
    ensures
        r is Ok <==> prefix <= 128,
        r is Ok ==> r.unwrap().addr == addr && r.unwrap().prefix == prefix,
{
    let net = ipnetwork::Ipv6Network::new(addr.into(), prefix)?;
    Ok(Ipv6Net { addr: net.ip().octets(), prefix: net.prefix() })
}

impl Ipv4Net {
    /// The prefix is one of an IPv4 network, and the mask is that of the
    /// prefix.
    #[verifier::type_invariant]
    spec fn inv(self) -> bool {
        self.prefix <= 32 && self.mask@ == mask_octets(self.prefix)
    }

    pub closed spec fn addr(&self) -> [u8; 4] {
        self.addr
    }

    pub closed spec fn prefix_len(&self) -> u8 {
        self.prefix
    }

    pub closed spec fn netmask(&self) -> [u8; 4] {
        self.mask
    }

    /// The network of `addr` with a prefix of `prefix` bits. A prefix
    /// longer than an IPv4 address is refused.
    pub fn new(addr: [u8; 4], prefix: u8) -> (r: Result<Ipv4Net, Fault>)
        ensures
            r is Ok <==> prefix <= 32,
            r is Ok ==> r.unwrap().addr() == addr && r.unwrap().prefix_len() == prefix
                && r.unwrap().netmask()@ == mask_octets(prefix),
            r is Err ==> r.unwrap_err() == Fault::InvalidPrefix,
    {
        match ipv4_network(addr, prefix) {
            Ok(net) => Ok(net),
            Err(_) => Err(Fault::InvalidPrefix),
        }
    }

    /// The address.
    pub fn ip(&self) -> (addr: [u8; 4])
        ensures
            addr == self.addr(),
    {
        self.addr
    }

    /// The number of bits of the prefix, at most 32.
    pub fn prefix(&self) -> (prefix: u8)
        ensures
            prefix == self.prefix_len(),
            prefix <= 32,
    {
        proof {
            use_type_invariant(self);
        }
        self.prefix
    }

    /// The netmask: the first `prefix` bits set, the others clear.
    pub fn mask(&self) -> (mask: [u8; 4])
        ensures
            mask == self.netmask(),
            mask@ == mask_octets(self.prefix_len()),
    {
        proof {
            use_type_invariant(self);
        }
        self.mask
    }
}

impl Ipv6Net {
    /// The prefix is one of an IPv6 network.
    #[verifier::type_invariant]
    spec fn inv(self) -> bool {
        self.prefix <= 128
    }

    pub closed spec fn addr(&self) -> [u8; 16] {
        self.addr
    }

    pub closed spec fn prefix_len(&self) -> u8 {
        self.prefix
    }

    /// The network of `addr` with a prefix of `prefix` bits. A prefix
    /// longer than an IPv6 address is refused.
    pub fn new(addr: [u8; 16], prefix: u8) -> (r: Result<Ipv6Net, Fault>)
        ensures
            r is Ok <==> prefix <= 128,
            r is Ok ==> r.unwrap().addr() == addr && r.unwrap().prefix_len() == prefix,
            r is Err ==> r.unwrap_err() == Fault::InvalidPrefix,
    {
        match ipv6_network(addr, prefix) {
            Ok(net) => Ok(net),
            Err(_) => Err(Fault::InvalidPrefix),
        }
    }

    /// The address.
    pub fn ip(&self) -> (addr: [u8; 16])
        ensures
            addr == self.addr(),
    {
        self.addr
    }

    /// The number of bits of the prefix, at most 128.
    pub fn prefix(&self) -> (prefix: u8)
        ensures
            prefix == self.prefix_len(),
            prefix <= 128,
    {
        proof {
            use_type_invariant(self);
        }
        self.prefix
    }
}

/// What a transport device declares: the largest frame it carries and the
/// networks it is bound to.
///
/// A device declares the same networks whenever it is asked. The two spec
/// functions name them; an implementation that does not say what they are
/// leaves them unknown.
pub trait Device {
    /// The IPv4 network that the device is bound to.
    closed spec fn declared4(&self) -> Ipv4Net {
        arbitrary()
    }

    /// The IPv6 networks that the device is bound to, in order.
    closed spec fn declared6(&self) -> Seq<Ipv6Net> {
        arbitrary()
    }

    /// The IPv4 network that the device is bound to.
    fn ipv4(&self) -> (net: Ipv4Net)
        ensures
            net == self.declared4(),
    ;

    /// The IPv6 networks that the device is bound to, in order.
    fn ipv6(&self) -> (nets: Vec<Ipv6Net>)
        ensures
            nets@ == self.declared6(),
    ;

    /// The largest frame that the device carries.
    fn mtu(&self) -> u16;
}

/// Collects what a device declares, before the device itself is there.
#[derive(Debug)]
pub struct DeviceBuilder {
    mtu: u16,
    ipv4: Ipv4Net,
    ipv6: Vec<Ipv6Net>,
}

/// The octets of `127.0.0.1`.
pub open spec fn v4_localhost() -> Seq<u8> {
    seq![127u8, 0u8, 0u8, 1u8]
}

/// The octets of `::1`.
pub open spec fn v6_localhost() -> Seq<u8> {
    Seq::new(16, |i: int| if i == 15 { 1u8 } else { 0u8 })
}

impl DeviceBuilder {
    pub closed spec fn max_unit(&self) -> u16 {
        self.mtu
    }

    pub closed spec fn net4(&self) -> Ipv4Net {
        self.ipv4
    }

    pub closed spec fn nets6(&self) -> Seq<Ipv6Net> {
        self.ipv6@
    }

    /// Sets the MTU.
    pub fn mtu(self, mtu: u16) -> (b: Self)
        ensures
            b.max_unit() == mtu,
            b.net4() == self.net4(),
            b.nets6() == self.nets6(),
    {
        let mut b = self;
        b.mtu = mtu;
        b
    }

    /// Sets the IPv4 network. The prefix must be one of an IPv4 network.
    pub fn ipv4(self, addr: [u8; 4], prefix: u8) -> (b: Self)
        requires
            prefix <= 32,
        ensures
            b.max_unit() == self.max_unit(),
            b.net4().addr() == addr,
            b.net4().prefix_len() == prefix,
            b.net4().netmask()@ == mask_octets(prefix),
            b.nets6() == self.nets6(),
    {
        let mut b = self;
        b.ipv4 = match Ipv4Net::new(addr, prefix) {
            Ok(net) => net,
            Err(_) => unreached(),
        };
        b
    }

    /// Adds an IPv6 network after those already there. The prefix must be
    /// one of an IPv6 network.
    pub fn ipv6(self, addr: [u8; 16], prefix: u8) -> (b: Self)
        requires
            prefix <= 128,
        ensures
            b.max_unit() == self.max_unit(),
            b.net4() == self.net4(),
            b.nets6().len() == self.nets6().len() + 1,
            b.nets6().drop_last() == self.nets6(),
            b.nets6().last().addr() == addr,
            b.nets6().last().prefix_len() == prefix,
    {
        let mut b = self;
        let net = match Ipv6Net::new(addr, prefix) {
            Ok(net) => net,
            Err(_) => unreached(),
        };
        b.ipv6.push(net);
        assert(b.ipv6@.drop_last() =~= self.ipv6@);
        b
    }

    /// Attaches the declaration to a byte stream.
    pub fn build<D>(self, underlying: D) -> (dev: DeviceWrapper<D>)
        ensures
            dev.inner() == underlying,
            dev.net4() == self.net4(),
            dev.nets6() == self.nets6(),
            dev.max_unit() == self.max_unit(),
    {
        DeviceWrapper { underlying, builder: self }
    }

    /// A loopback device with the largest MTU, bound to `127.0.0.1/8` and
    /// `::1/8`, together with the interface to register for it.
    pub fn loopback(order: crate::endian::Endian) -> (dev: NetDevice<DeviceWrapper<Loopback>>)
        ensures
            dev.device().max_unit() == u16::MAX,
            dev.device().net4().addr()@ == v4_localhost(),
            dev.device().net4().prefix_len() == 8,
            dev.device().net4().netmask()@ == mask_octets(8),
            dev.device().nets6().len() == 1,
            dev.device().nets6()[0].addr()@ == v6_localhost(),
            dev.device().nets6()[0].prefix_len() == 8,
            dev.device().inner().frames().len() == 0,
            dev.netif().describes(dev.device().net4(), dev.device().nets6(), order),
    {
        let lo = Loopback::new();
        let v4: [u8; 4] = [127, 0, 0, 1];
        let v6: [u8; 16] = [0, 0, 0, 0, 0, 0, 0, 0, 0, 0, 0, 0, 0, 0, 0, 1];
        assert(v4@ =~= v4_localhost());
        assert(v6@ =~= v6_localhost());
        let wrapped = DeviceBuilder::default().mtu(u16::MAX).ipv4(v4, 8).ipv6(v6, 8).build(lo);
        NetDevice::new(wrapped, order)
    }
}

impl Default for DeviceBuilder {
    /// An MTU of 1500, the network `0.0.0.0/0`, and no IPv6 network.
    fn default() -> (b: Self)
        ensures
            b.max_unit() == 1500,
            b.net4().addr()@ == seq![0u8, 0u8, 0u8, 0u8],
            b.net4().prefix_len() == 0,
            b.net4().netmask()@ == mask_octets(0),
            b.nets6().len() == 0,
    {
        let zero: [u8; 4] = [0, 0, 0, 0];
        assert(zero@ =~= seq![0u8, 0u8, 0u8, 0u8]);
        let ipv4 = match Ipv4Net::new(zero, 0) {
            Ok(net) => net,
            Err(_) => unreached(),
        };
        DeviceBuilder { mtu: 1500, ipv4, ipv6: Vec::new() }
    }
}

/// A byte stream together with what it declares as a device.
#[derive(Debug)]
pub struct DeviceWrapper<D> {
    underlying: D,
    builder: DeviceBuilder,
}

impl<D> DeviceWrapper<D> {
    /// The byte stream.
    pub closed spec fn inner(&self) -> D {
        self.underlying
    }

    /// The IPv4 network that the device declares.
    pub closed spec fn net4(&self) -> Ipv4Net {
        self.builder.ipv4
    }

    /// The IPv6 networks that the device declares, in order.
    pub closed spec fn nets6(&self) -> Seq<Ipv6Net> {
        self.builder.ipv6@
    }

    /// The MTU that the device declares.
    pub closed spec fn max_unit(&self) -> u16 {
        self.builder.mtu
    }

    /// Gives the byte stream back.
    pub fn into_inner(self) -> (underlying: D)
        ensures
            underlying == self.inner(),
    {
        self.underlying
    }

    /// Takes the wrapper apart: the byte stream, and what it declares as
    /// a device.
    pub fn split(self) -> (parts: (D, DeviceWrapper<()>))
        ensures
            parts.0 == self.inner(),
            parts.1.net4() == self.net4(),
            parts.1.nets6() == self.nets6(),
            parts.1.max_unit() == self.max_unit(),
    {
        (self.underlying, DeviceWrapper { underlying: (), builder: self.builder })
    }

    /// The byte stream, to read from it.
    pub fn get_ref(&self) -> (underlying: &D)
        ensures
            *underlying == self.inner(),
    {
        &self.underlying
    }
}

impl<D> Device for DeviceWrapper<D> {
    open spec fn declared4(&self) -> Ipv4Net {
        self.net4()
    }

    open spec fn declared6(&self) -> Seq<Ipv6Net> {
        self.nets6()
    }

    fn ipv4(&self) -> (net: Ipv4Net) {
        net_copy(&self.builder.ipv4)
    }

    fn ipv6(&self) -> (nets: Vec<Ipv6Net>) {
        let mut nets: Vec<Ipv6Net> = Vec::new();
        let mut i: usize = 0;
        while i < self.builder.ipv6.len()
            invariant
                i <= self.builder.ipv6@.len(),
                nets@ == self.builder.ipv6@.take(i as int),
            decreases self.builder.ipv6@.len() - i,
        {
            nets.push(self.builder.ipv6[i]);
            assert(nets@ =~= self.builder.ipv6@.take(i + 1));
            i += 1;
        }
        assert(nets@ =~= self.builder.ipv6@);
        nets
    }

    fn mtu(&self) -> (mtu: u16)
        ensures
            mtu == self.max_unit(),
    {
        self.builder.mtu
    }
}

fn net_copy(net: &Ipv4Net) -> (copy: Ipv4Net)
    ensures
        copy == *net,
{
    *net
}

} // verus!
