//! The I/O port handle.

use crate::bus::PortBus;
use crate::bus::PortRw;
use crate::decimal;
use vstd::prelude::*;

verus! {

/// An x86 I/O port handle: a cheap, copyable name for one of the 65536 port
/// addresses. It owns nothing and reserves nothing; several handles may name
/// the same address.
#[derive(Clone, Copy, PartialEq, Eq, Structural, Debug)]
pub struct Port {
    address: u16,
}

impl Port {
    /// The address this handle names.
    pub closed spec fn addr(self) -> u16 {
        self.address
    }

    /// Creates a new port instance with the given address. Any 16-bit value
    /// is accepted; whether hardware answers there is the caller's concern.
    pub fn new(addr: u16) -> (p: Self)
        ensures
            p.addr() == addr,
    {
        Port { address: addr }
    }

    /// The address this handle names, as a plain value.
    pub fn address(&self) -> (r: u16)
        ensures
            r == self.addr(),
    {
        self.address
    }

    /// Reads a T-sized value from the port: observes the cell for this
    /// handle's address in the lane of width `T` and changes nothing.
    pub fn read<T: PortRw>(&self, bus: &PortBus) -> (r: T)
        requires
            bus.wf(),
        ensures
            r == T::lane(*bus)[self.addr() as int],
    {
        T::read(self.address, bus)
    }

    /// Reads a T-sized value from the port into the given buffer and returns
    /// `Self` for chaining.
    pub fn read_to<T: PortRw>(&self, buf: &mut T, bus: &PortBus) -> (r: &Self)
        requires
            bus.wf(),
        ensures
            *final(buf) == T::lane(*bus)[self.addr() as int],
            *r == *self,
    {
        *buf = T::read(self.address, bus);
        self
    }

    /// Writes a T-sized `value` to the port and returns `Self` for chaining:
    /// replaces the cell for this handle's address in the lane of width `T`
    /// and touches no other cell and no other lane.
    pub fn write<T: PortRw>(&self, value: T, bus: &mut PortBus) -> (r: &Self)
        requires
            old(bus).wf(),
        ensures
            final(bus).wf(),
            T::lane(*final(bus)) == T::lane(*old(bus)).update(self.addr() as int, value),
            T::untouched(*old(bus), *final(bus)),
            *r == *self,
    {
        T::write(self.address, value, bus);
        self
    }

    /// The decimal rendering of the address, as `Display` would print it.
    pub fn to_decimal(&self) -> (s: String)
        ensures
            s@ == decimal::decimal_of(self.addr() as nat),
    {
        decimal::u16_to_decimal(self.address)
    }
}

impl Default for Port {
    /// The default handle names address 0.
    fn default() -> (p: Self)
        ensures
            p.addr() == 0,
    {
        Port { address: 0 }
    }
}

/// Law: two port handles are equal exactly when their addresses are equal;
/// no other state participates in equality.
pub proof fn lemma_port_eq_iff_addr(p: Port, q: Port)
    ensures
        (p == q) <==> (p.addr() == q.addr()),
{
}

} // verus!
