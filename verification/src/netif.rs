//! The adapter of one virtual network interface.
//!
//! The engine sees an interface that it hands frames to and gets frames
//! from. The outside sees a duplex byte stream that carries one whole frame
//! per read and per write. What is here is the interface's registration
//! with the engine, step by step, and what a read and a write do with a
//! frame.

use crate::addr::{ip4_to_engine, ip4_word, ip6_to_engine, ip6_words, Ip4Addr, Ip6Addr};
use crate::buf::{bytes_contents, bytes_mut_contents, bytes_mut_freeze, bytes_mut_new};
use crate::buf::{bytes_mut_put, bytes_to_vec};
use crate::device::{mask_octets, Device, Ipv4Net, Ipv6Net};
use crate::endian::Endian;
use crate::fault::Fault;
use crate::io::{copy_prefix, shorter, IoPoll, Polled};
use crate::pbuf::{single_segment, IntoPbuf, PacketBuffer, MAX_PACKET};
use vstd::prelude::*;

verus! {

/// The state in which the engine holds an IPv6 address that is ready for
/// use.
pub const IP6_ADDR_VALID: u8 = 0x10;

/// One call to the engine in the course of registering an interface.
#[derive(Clone, Copy, Debug, PartialEq, Eq)]
pub enum NetifStep {
    /// Add the interface with its IPv4 address, netmask and gateway, with
    /// the adapter's output hooks and the engine's input entry point. This
    /// is the one step that the engine can refuse; if it does, none of the
    /// others is taken and nothing stays registered.
    Add { addr: Ip4Addr, netmask: Ip4Addr, gateway: Ip4Addr },
    /// Hand the engine the sending end of the interface's frame queue.
    /// This is done while the interface is still down, so that the output
    /// hooks never run without the queue.
    AttachQueue,
    /// Declare the link up.
    SetLinkUp,
    /// Bring the interface up.
    SetUp,
    /// Add an IPv6 address. The engine answers with the slot that it put
    /// the address into.
    AddIp6(Ip6Addr),
    /// Set the state of the IPv6 address in a slot.
    SetIp6State { slot: i8, state: u8 },
}

/// What follows the engine's answer to the addition of an IPv6 address:
/// the address is marked valid in the slot that the engine chose for it.
/// Where the engine did not take the address, there is nothing to mark.
pub open spec fn ip6_followup(chosen: Result<i8, Fault>) -> Option<NetifStep> {
    match chosen {
        Ok(slot) => if slot >= 0 {
            Some(NetifStep::SetIp6State { slot, state: IP6_ADDR_VALID })
        } else {
            None
        },
        Err(_) => None,
    }
}

/// An interface as it is registered with the engine.
#[derive(Debug)]
pub struct NetIf {
    addr: Ip4Addr,
    netmask: Ip4Addr,
    gateway: Ip4Addr,
    ip6: Vec<Ip6Addr>,
    num: Option<u8>,
}

/// The octets of `0.0.0.0`.
pub open spec fn v4_unspecified() -> Seq<u8> {
    seq![0u8, 0u8, 0u8, 0u8]
}

impl NetIf {
    /// The IPv4 address, as the engine keeps it.
    pub closed spec fn addr(&self) -> u32 {
        self.addr.addr
    }

    /// The IPv4 netmask, as the engine keeps it.
    pub closed spec fn netmask(&self) -> u32 {
        self.netmask.addr
    }

    /// The IPv4 gateway, as the engine keeps it.
    pub closed spec fn gateway(&self) -> u32 {
        self.gateway.addr
    }

    /// The IPv6 addresses, as the engine keeps them.
    pub closed spec fn ip6(&self) -> Seq<Ip6Addr> {
        self.ip6@
    }

    /// The number that the engine gave the interface, once it has one.
    pub closed spec fn number(&self) -> Option<u8> {
        self.num
    }

    /// The interface is the one to register, on a machine of the given
    /// byte order, for a device that is bound to these networks: the
    /// address and the netmask of the IPv4 network, no gateway, and the
    /// addresses of the IPv6 networks in order. It has no number yet.
    pub open spec fn describes(&self, net4: Ipv4Net, nets6: Seq<Ipv6Net>, order: Endian) -> bool {
        &&& self.addr() == ip4_word(net4.addr()@, order)
        &&& self.netmask() == ip4_word(mask_octets(net4.prefix_len()), order)
        &&& self.gateway() == ip4_word(v4_unspecified(), order)
        &&& self.number() is None
        &&& self.ip6().len() == nets6.len()
        &&& forall|i: int|
            0 <= i < self.ip6().len() ==> {
                &&& (#[trigger] self.ip6()[i]).zone == 0
                &&& self.ip6()[i].addr@ == ip6_words(nets6[i].addr()@, order)
            }
    }

    /// The calls that register the interface, in order: the interface is
    /// added, gets its queue, is brought up, and then gets its IPv6
    /// addresses one by one. Each addition of an IPv6 address is followed
    /// by what `ip6_added` makes of the engine's answer.
    pub open spec fn plan(&self) -> Seq<NetifStep> {
        Seq::new(
            4 + self.ip6().len(),
            |i: int|
                if i == 0 {
                    NetifStep::Add {
                        addr: Ip4Addr { addr: self.addr() },
                        netmask: Ip4Addr { addr: self.netmask() },
                        gateway: Ip4Addr { addr: self.gateway() },
                    }
                } else if i == 1 {
                    NetifStep::AttachQueue
                } else if i == 2 {
                    NetifStep::SetLinkUp
                } else if i == 3 {
                    NetifStep::SetUp
                } else {
                    NetifStep::AddIp6(self.ip6()[i - 4])
                },
        )
    }

    /// Works out the interface to register for a device that is bound to
    /// these networks. Nothing is registered yet: `steps` lists what is
    /// to be done.
    pub fn for_networks(net4: Ipv4Net, nets6: &Vec<Ipv6Net>, order: Endian) -> (netif: NetIf)
        ensures
            netif.describes(net4, nets6@, order),
    {
        let addr = ip4_to_engine(net4.ip(), order);
        let netmask = ip4_to_engine(net4.mask(), order);
        let zero: [u8; 4] = [0, 0, 0, 0];
        assert(zero@ =~= v4_unspecified());
        let gateway = ip4_to_engine(zero, order);
        let mut ip6: Vec<Ip6Addr> = Vec::new();
        let mut i: usize = 0;
        while i < nets6.len()
            invariant
                i <= nets6@.len(),
                ip6@.len() == i,
                forall|j: int|
                    0 <= j < i ==> {
                        &&& (#[trigger] ip6@[j]).zone == 0
                        &&& ip6@[j].addr@ == ip6_words(nets6@[j].addr()@, order)
                    },
            decreases nets6@.len() - i,
        {
            ip6.push(ip6_to_engine(nets6[i].ip(), order));
            i += 1;
        }
        NetIf { addr, netmask, gateway, ip6, num: None }
    }

    /// Works out the interface to register for `device`: the one for the
    /// networks that the device declares.
    pub fn new<D: Device>(device: &D, order: Endian) -> (netif: NetIf)
        ensures
            netif.describes(device.declared4(), device.declared6(), order),
    {
        let net4 = device.ipv4();
        let nets6 = device.ipv6();
        NetIf::for_networks(net4, &nets6, order)
    }

    /// Lists the calls that register the interface, in the order in which
    /// they are to be made.
    pub fn steps(&self) -> (steps: Vec<NetifStep>)
        ensures
            steps@ == self.plan(),
    {
        let mut steps: Vec<NetifStep> = Vec::new();
        steps.push(
            NetifStep::Add { addr: self.addr, netmask: self.netmask, gateway: self.gateway },
        );
        steps.push(NetifStep::AttachQueue);
        steps.push(NetifStep::SetLinkUp);
        steps.push(NetifStep::SetUp);
        let mut i: usize = 0;
        while i < self.ip6.len()
            invariant
                i <= self.ip6@.len(),
                steps@.len() == 4 + i,
                forall|j: int| 0 <= j < steps@.len() ==> steps@[j] == self.plan()[j],
            decreases self.ip6@.len() - i,
        {
            steps.push(NetifStep::AddIp6(self.ip6[i]));
            i += 1;
        }
        assert(steps@ =~= self.plan());
        steps
    }

    /// The call that follows the engine's answer to the addition of an
    /// IPv6 address, if one does.
    pub fn ip6_added(chosen: Result<i8, Fault>) -> (next: Option<NetifStep>)
        ensures
            next == ip6_followup(chosen),
    {
        match chosen {
            Ok(slot) => {
                if slot >= 0 {
                    Some(NetifStep::SetIp6State { slot, state: IP6_ADDR_VALID })
                } else {
                    None
                }
            },
            Err(_) => None,
        }
    }

    /// Records the number that the engine gave the interface when it was
    /// added.
    pub fn registered(&mut self, num: u8)
        ensures
            final(self).number() == Some(num),
            final(self).addr() == old(self).addr(),
            final(self).netmask() == old(self).netmask(),
            final(self).gateway() == old(self).gateway(),
            final(self).ip6() == old(self).ip6(),
    {
        self.num = Some(num);
    }

    /// The number that the engine gave the interface, once it has one.
    pub fn num(&self) -> (num: Option<u8>)
        ensures
            num == self.number(),
    {
        self.num
    }

    /// The index by which connections are bound to the interface: one more
    /// than the engine's number for it.
    pub fn index(&self) -> (index: u8)
        requires
            self.number() is Some,
            self.number().unwrap() < u8::MAX,
        ensures
            index == self.number().unwrap() + 1,
    {
        match self.num {
            Some(num) => num + 1,
            None => vstd::pervasive::unreached(),
        }
    }

    /// The read side: gives the caller the frame that was taken from the
    /// interface's queue, as far as `buf` has room for it. With no frame
    /// there the read is pending, also when the queue is closed, and `buf`
    /// stays as it is.
    pub fn poll_read(polled: Polled<bytes::Bytes>, buf: &mut [u8]) -> (r: IoPoll)
        ensures
            match polled {
                Polled::Item(frame) => {
                    let n = shorter(bytes_contents(frame).len() as int, old(buf)@.len() as int);
                    &&& r == IoPoll::Ready(Ok(n as usize))
                    &&& final(buf)@ == bytes_contents(frame).take(n) + old(buf)@.skip(n)
                },
                _ => r == IoPoll::Pending && final(buf)@ == old(buf)@,
            },
    {
        match polled {
            Polled::Item(frame) => {
                let data = bytes_to_vec(&frame);
                let n = copy_prefix(buf, data.as_slice());
                IoPoll::Ready(Ok(n))
            },
            _ => IoPoll::Pending,
        }
    }

    /// The write side, before the engine is called: copies the caller's
    /// frame into a packet buffer to hand to the engine's input entry
    /// point. A frame longer than a packet buffer can carry is refused.
    pub fn frame_in(buf: &[u8]) -> (r: Result<PacketBuffer, Fault>)
        ensures
            r is Ok <==> buf@.len() <= MAX_PACKET,
            r is Ok ==> r.unwrap().wf() && r.unwrap()@ == buf@ && r.unwrap().chain()
                == single_segment(buf@),
            r is Err ==> r.unwrap_err() == Fault::Oversized,
    {
        let mut owned = bytes_mut_new();
        bytes_mut_put(&mut owned, buf);
        assert(bytes_mut_contents(owned) =~= buf@);
        bytes_mut_freeze(owned).into_pbuf()
    }

    /// The write side, after the engine was called: a frame of `len` bytes
    /// that the engine took was written whole, and a refusal of the engine
    /// is the write's failure. The write never waits.
    pub fn poll_write(injected: Result<(), Fault>, len: usize) -> (r: IoPoll)
        ensures
            r == match injected {
                Ok(_) => IoPoll::Ready(Ok(len)),
                Err(e) => IoPoll::Ready(Err(e)),
            },
    {
        match injected {
            Ok(_) => IoPoll::Ready(Ok(len)),
            Err(e) => IoPoll::Ready(Err(e)),
        }
    }
}

/// A transport device together with the interface registered for it.
#[derive(Debug)]
pub struct NetDevice<D> {
    netif: NetIf,
    device: D,
}

impl<D> NetDevice<D> {
    /// The interface.
    pub closed spec fn netif(&self) -> NetIf {
        self.netif
    }

    /// The device.
    pub closed spec fn device(&self) -> D {
        self.device
    }

    /// Pairs `device` with the interface to register for it.
    pub fn new(device: D, order: Endian) -> (dev: NetDevice<D>) where D: Device
        ensures
            dev.device() == device,
            dev.netif().describes(device.declared4(), device.declared6(), order),
    {
        let netif = NetIf::new(&device, order);
        NetDevice { netif, device }
    }

    /// Pairs `device` with an interface that was worked out for it.
    pub fn with_netif(netif: NetIf, device: D) -> (dev: NetDevice<D>)
        ensures
            dev.device() == device,
            dev.netif() == netif,
    {
        NetDevice { netif, device }
    }

    /// Takes the pair apart, for the frame pump to copy between the two.
    pub fn drive(self) -> (ends: (NetIf, D))
        ensures
            ends.0 == self.netif(),
            ends.1 == self.device(),
    {
        (self.netif, self.device)
    }

    pub fn netif_as_ref(&self) -> (netif: &NetIf)
        ensures
            *netif == self.netif(),
    {
        &self.netif
    }

    pub fn netif_as_mut(&mut self) -> (netif: &mut NetIf)
        ensures
            *netif == old(self).netif(),
            final(self).netif() == *final(netif),
            final(self).device() == old(self).device(),
    {
        &mut self.netif
    }

    pub fn device_as_ref(&self) -> (device: &D)
        ensures
            *device == self.device(),
    {
        &self.device
    }

    pub fn device_as_mut(&mut self) -> (device: &mut D)
        ensures
            *device == old(self).device(),
            final(self).device() == *final(device),
            final(self).netif() == old(self).netif(),
    {
        &mut self.device
    }
}

} // verus!
