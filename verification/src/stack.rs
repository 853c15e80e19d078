//! The frame pump's two ends: an interface and the transport device that
//! carries its frames.

use crate::device::Device;
use crate::endian::Endian;
use crate::fault::Fault;
use crate::latch::{admission_of, Admission, InitLatch};
use crate::netif::NetIf;
use vstd::prelude::*;

verus! {

/// An interface and its transport device, between which the frame pump
/// copies until either side ends or fails. A process has at most one.
#[derive(Debug)]
pub struct Stack<D> {
    netif: NetIf,
    device: D,
    admission: Admission,
}

impl<D> Stack<D> {
    /// The interface.
    pub closed spec fn netif(&self) -> NetIf {
        self.netif
    }

    /// The transport device.
    pub closed spec fn device(&self) -> D {
        self.device
    }

    /// What the latch said about the engine's startup when the pump was
    /// claimed.
    pub closed spec fn admission(&self) -> Admission {
        self.admission
    }

    /// Claims the process's frame pump for `device`, and pairs the device
    /// with the interface to register for it. A second claim in one
    /// process is refused, and changes nothing but the latch's memory of
    /// it.
    pub fn new(device: D, latch: &mut InitLatch, order: Endian) -> (r: Result<Stack<D>, Fault>) where
        D: Device,

        ensures
            r is Ok <==> !old(latch).pump_claimed,
            r matches Err(e) ==> e == Fault::AlreadyExists,
            r is Ok ==> {
                &&& r.unwrap().device() == device
                &&& r.unwrap().netif().describes(device.declared4(), device.declared6(), order)
                &&& r.unwrap().admission() == admission_of(old(latch).state)
            },
            final(latch).pump_claimed,
            final(latch).state == old(latch).state,
    {
        match latch.claim_pump() {
            Ok(admission) => {
                let netif = NetIf::new(&device, order);
                Ok(Stack { netif, device, admission })
            },
            Err(e) => Err(e),
        }
    }

    /// What to do about the engine's startup before the interface is
    /// registered.
    pub fn startup(&self) -> (admission: Admission)
        ensures
            admission == self.admission(),
    {
        self.admission
    }

    /// The interface, to register it and to pump its frames.
    pub fn netif_as_mut(&mut self) -> (netif: &mut NetIf)
        ensures
            *netif == old(self).netif(),
            final(self).netif() == *final(netif),
            final(self).device() == old(self).device(),
            final(self).admission() == old(self).admission(),
    {
        &mut self.netif
    }

    /// Takes the pair apart, for the frame pump to copy between the two.
    pub fn drive(self) -> (ends: (NetIf, D))
        ensures
            ends.0 == self.netif(),
            ends.1 == self.device(),
    {
        (self.netif, self.device)
    }

    /// Gives the transport device back.
    pub fn into_inner(self) -> (device: D)
        ensures
            device == self.device(),
    {
        self.device
    }
}

} // verus!
