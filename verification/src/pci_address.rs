//! Addresses of functions on a PCI bus.
use vstd::prelude::*;

verus! {

/// Bus, device and function number.
#[derive(Clone, Copy, Debug, PartialEq, Eq, Structural)]
pub struct PciAddress {
    pub bus: u8,
    pub dev: u8,
    pub func: u8,
}

impl PciAddress {
    /// Device numbers have five bits, function numbers three.
    pub open spec fn valid(self) -> bool {
        self.dev < 32 && self.func < 8
    }

    /// The order of addresses: by bus, then device, then function.
    pub open spec fn precedes(self, other: Self) -> bool {
        ||| self.bus < other.bus
        ||| self.bus == other.bus && self.dev < other.dev
        ||| self.bus == other.bus && self.dev == other.dev && self.func < other.func
    }

    /// The requester ID of this function in a power management event.
    pub open spec fn requester_id(self) -> u16 {
        ((self.bus as u16) << 8) | ((self.dev as u16) << 3) | (self.func as u16)
    }

    pub fn is_before(&self, other: &PciAddress) -> (r: bool)
        ensures
            r == self.precedes(*other),
    {
        self.bus < other.bus || (self.bus == other.bus && (self.dev < other.dev || (self.dev
            == other.dev && self.func < other.func)))
    }

    pub fn pme_requester_id(&self) -> (r: u16)
        ensures
            r == self.requester_id(),
            self.valid() ==> r == self.bus * 256 + self.dev * 8 + self.func,
    {
        let bus: u16 = self.bus as u16;
        let dev: u16 = self.dev as u16;
        let func: u16 = self.func as u16;
        proof {
            self.requester_id_is_sum();
        }
        (bus << 8) | (dev << 3) | func
    }

    /// A requester ID holds the bus number in its upper byte, then five bits of
    /// the device number, then three of the function number.
    pub proof fn requester_id_is_sum(self)
        ensures
            self.valid() ==> self.requester_id() == self.bus * 256 + self.dev * 8 + self.func,
    {
        let bus: u16 = self.bus as u16;
        let dev: u16 = self.dev as u16;
        let func: u16 = self.func as u16;
        assert(dev < 32 && func < 8 && bus < 256 ==> ((bus << 8) | (dev << 3) | func) == bus * 256
            + dev * 8 + func) by (bit_vector);
    }
}

/// Of two different addresses exactly one comes first.
pub proof fn address_order_is_total(a: PciAddress, b: PciAddress)
    ensures
        !a.precedes(a),
        a != b ==> (a.precedes(b) <==> !b.precedes(a)),
{
}

/// Different functions have different requester IDs, and the order of addresses
/// is that of their requester IDs.
pub proof fn requester_ids_tell_functions_apart(a: PciAddress, b: PciAddress)
    requires
        a.valid(),
        b.valid(),
    ensures
        a.requester_id() == b.requester_id() <==> a == b,
        a.precedes(b) <==> a.requester_id() < b.requester_id(),
{
    a.requester_id_is_sum();
    b.requester_id_is_sum();
}

} // verus!
