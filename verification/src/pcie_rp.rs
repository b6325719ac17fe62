//! A PCI Express root port whose slot takes hot plugged devices.
use crate::pci_address::PciAddress;
use crate::pcie::{
    PcieDevicePortType, PCIE_SLTCTL_PIC, PCIE_SLTCTL_PIC_OFF, PCIE_SLTCTL_PIC_ON, PCIE_SLTSTA_ABP,
    PCIE_SLTSTA_PDS,
};
use crate::pcie_port;
use crate::pcie_port::{
    HotPlugCompleteSender, PcieConfigModel, PcieHostPort, PciePort, PcieRootCap, PcieRootCaps,
    PciDeviceError, PortAction,
};
use vstd::prelude::*;

verus! {

/// PCI device ID of the root port.
pub const PCIE_RP_DID: u16 = 0x3420;

/// What a hot plugged device is known by.
#[derive(Clone, Copy, Debug, PartialEq, Eq, Structural)]
pub enum HotPlugKey {
    HostUpstreamPort { host_addr: PciAddress },
    HostDownstreamPort { host_addr: PciAddress },
    HostVfio { host_addr: PciAddress },
    GuestDevice { guest_addr: PciAddress },
}

/// Why a hot plug or unplug did not happen.
#[derive(Clone, Copy, Debug, PartialEq, Eq, Structural)]
pub enum HotPlugError {
    /// The previous slot event is pending.
    SlotEventPending,
    /// The guest has not enabled the slot yet.
    SlotNotEnabled,
    /// No such device is behind the port.
    NoDownstreamDevice,
    /// An unplug is under way.
    UnplugPending,
    /// No event could be made.
    EventFailed,
    /// The power indicator blinks.
    PowerIndicatorBlinking,
    /// The event could not be signalled.
    SignalFailed,
}

/// A port that is used as a PCI Express device.
pub trait PciePortVariant {
    fn get_pcie_port(&self) -> &PciePort;

    fn get_pcie_port_mut(&mut self) -> &mut PciePort;

    /// The devices that the guest has released.
    fn get_removed_devices_impl(&self) -> Vec<PciAddress>;

    fn hotplug_implemented_impl(&self) -> bool;

    fn hotplugged_impl(&self) -> bool;
}

pub type Devices = Seq<(PciAddress, HotPlugKey)>;

/// The devices stand in the order of their addresses, each address once.
pub open spec fn ordered(s: Devices) -> bool {
    forall|i: int, j: int| 0 <= i < j < s.len() ==> (#[trigger] s[i]).0.precedes((#[trigger] s[j]).0)
}

pub open spec fn has_address(s: Devices, addr: PciAddress) -> bool {
    exists|i: int| 0 <= i < s.len() && (#[trigger] s[i]).0 == addr
}

pub open spec fn addresses(s: Devices) -> Seq<PciAddress> {
    Seq::new(s.len(), |i: int| s[i].0)
}

/// `after` is `before` with `addr` standing for `key`.
pub open spec fn inserted(before: Devices, after: Devices, addr: PciAddress, key: HotPlugKey) -> bool {
    &&& ordered(after)
    &&& forall|e: (PciAddress, HotPlugKey)|
        #[trigger] after.contains(e) <==> e == (addr, key) || (before.contains(e) && e.0 != addr)
}

/// `after` is `before` without `addr`.
pub open spec fn removed(before: Devices, after: Devices, addr: PciAddress) -> bool {
    &&& ordered(after)
    &&& forall|e: (PciAddress, HotPlugKey)|
        #[trigger] after.contains(e) <==> before.contains(e) && e.0 != addr
}

fn position(devices: &Vec<(PciAddress, HotPlugKey)>, addr: PciAddress) -> (r: usize)
    requires
        ordered(devices@),
    ensures
        r <= devices@.len(),
        forall|i: int| 0 <= i < r ==> (#[trigger] devices@[i]).0.precedes(addr),
        forall|i: int| r <= i < devices@.len() ==> !(#[trigger] devices@[i]).0.precedes(addr),
{
    let mut i: usize = 0;
    while i < devices.len()
        invariant
            i <= devices@.len(),
            ordered(devices@),
            forall|j: int| 0 <= j < i ==> (#[trigger] devices@[j]).0.precedes(addr),
        decreases devices.len() - i,
    {
        if !devices[i].0.is_before(&addr) {
            return i;
        }
        i = i + 1;
    }
    i
}

fn insert_device(devices: &mut Vec<(PciAddress, HotPlugKey)>, addr: PciAddress, key: HotPlugKey)
    requires
        ordered(old(devices)@),
    ensures
        inserted(old(devices)@, final(devices)@, addr, key),
{
    let ghost before = devices@;
    let at: usize = position(devices, addr);
    if at < devices.len() && devices[at].0 == addr {
        devices.set(at, (addr, key));
        assert forall|e: (PciAddress, HotPlugKey)| #[trigger]
            devices@.contains(e) <==> e == (addr, key) || (before.contains(e) && e.0 != addr) by {
            if devices@.contains(e) {
                let i = choose|i: int| 0 <= i < devices@.len() && devices@[i] == e;
                assert(i != at ==> before[i] == e);
            }
            if e == (addr, key) {
                assert(devices@[at as int] == e);
            }
            if before.contains(e) && e.0 != addr {
                let i = choose|i: int| 0 <= i < before.len() && before[i] == e;
                assert(devices@[i] == e);
            }
        }
    } else {
        devices.insert(at, (addr, key));
        assert(devices@ =~= before.insert(at as int, (addr, key)));
        assert forall|e: (PciAddress, HotPlugKey)| #[trigger]
            devices@.contains(e) <==> e == (addr, key) || (before.contains(e) && e.0 != addr) by {
            if devices@.contains(e) {
                let i = choose|i: int| 0 <= i < devices@.len() && devices@[i] == e;
                if i < at {
                    assert(before[i] == e);
                } else if i > at {
                    assert(before[i - 1] == e);
                }
            }
            if e == (addr, key) {
                assert(devices@[at as int] == e);
            }
            if before.contains(e) && e.0 != addr {
                let i = choose|i: int| 0 <= i < before.len() && before[i] == e;
                if i < at {
                    assert(devices@[i] == e);
                } else {
                    assert(devices@[i + 1] == e);
                }
            }
        }
    }
}

fn remove_device(devices: &mut Vec<(PciAddress, HotPlugKey)>, addr: PciAddress) -> (r: bool)
    requires
        ordered(old(devices)@),
    ensures
        r == has_address(old(devices)@, addr),
        removed(old(devices)@, final(devices)@, addr),
        !r ==> final(devices)@ == old(devices)@,
{
    let ghost before = devices@;
    let at: usize = position(devices, addr);
    if at < devices.len() && devices[at].0 == addr {
        let _ = devices.remove(at);
        assert(devices@ =~= before.remove(at as int));
        assert forall|e: (PciAddress, HotPlugKey)| #[trigger]
            devices@.contains(e) <==> before.contains(e) && e.0 != addr by {
            if devices@.contains(e) {
                let i = choose|i: int| 0 <= i < devices@.len() && devices@[i] == e;
                if i < at {
                    assert(before[i] == e);
                } else {
                    assert(before[i + 1] == e);
                }
            }
            if before.contains(e) && e.0 != addr {
                let i = choose|i: int| 0 <= i < before.len() && before[i] == e;
                if i < at {
                    assert(devices@[i] == e);
                } else {
                    assert(devices@[i - 1] == e);
                }
            }
        }
        true
    } else {
        assert forall|i: int| 0 <= i < before.len() implies (#[trigger] before[i]).0 != addr by {
            if at < before.len() && i > at {
                assert(before[at as int].0.precedes(before[i].0));
            }
        }
        false
    }
}

/// A root port.
#[derive(Debug)]
pub struct PcieRootPort {
    pub pcie_port: PciePort,
    pub downstream_devices: Vec<(PciAddress, HotPlugKey)>,
    pub hotplug_out_begin: bool,
    pub removed_downstream: Vec<PciAddress>,
}

impl PcieRootPort {
    /// The devices are ordered, and the port has its root capability.
    pub open spec fn wf(self, caps: Seq<PcieRootCap>) -> bool {
        ordered(self.downstream_devices@) && self.pcie_port.rooted(caps)
    }

    pub open spec fn config(self) -> PcieConfigModel {
        self.pcie_port.pcie_config@
    }

    pub fn new(caps: &mut PcieRootCaps, secondary_bus_num: u8, slot_implemented: bool) -> (r: Self)
        requires
            old(caps)@.len() < usize::MAX,
        ensures
            r.wf(final(caps)@),
            r.pcie_port.fresh(
                slot_implemented,
                PcieDevicePortType::RootPort,
                old(caps)@.len() as int,
            ),
            r.pcie_port.device_id == PCIE_RP_DID,
            r.pcie_port.debug_label@ == "PcieRootPort"@,
            r.pcie_port.preferred_address is None,
            r.pcie_port.host_window is None,
            r.pcie_port.bus_range.primary == 0,
            r.pcie_port.bus_range.secondary == secondary_bus_num,
            r.pcie_port.bus_range.subordinate == secondary_bus_num,
            r.downstream_devices@.len() == 0,
            r.removed_downstream@.len() == 0,
            !r.hotplug_out_begin,
            final(caps)@ == old(caps)@.push(
                PcieRootCap::initial(secondary_bus_num, secondary_bus_num),
            ),
    {
        PcieRootPort {
            pcie_port: PciePort::new(
                caps,
                PCIE_RP_DID,
                "PcieRootPort".to_owned(),
                0,
                secondary_bus_num,
                slot_implemented,
                PcieDevicePortType::RootPort,
            ),
            downstream_devices: Vec::new(),
            hotplug_out_begin: false,
            removed_downstream: Vec::new(),
        }
    }

    /// A root port that stands for a root port of the host.
    pub fn new_from_host(
        caps: &mut PcieRootCaps,
        pcie_host: PcieHostPort,
        slot_implemented: bool,
    ) -> (r: Result<Self, PciDeviceError>)
        requires
            old(caps)@.len() < usize::MAX,
        ensures
            r is Ok <==> pcie_host.address is Some,
            r is Err ==> {
                &&& r->Err_0 is PciAddressParseFailure
                &&& r->Err_0->PciAddressParseFailure_0@ == pcie_host.name@
                &&& final(caps)@ == old(caps)@
            },
            r is Ok ==> {
                let rp = r->Ok_0;
                &&& rp.wf(final(caps)@)
                &&& rp.pcie_port.fresh(
                    slot_implemented,
                    PcieDevicePortType::RootPort,
                    old(caps)@.len() as int,
                )
                &&& rp.pcie_port.device_id == pcie_host.device_id
                &&& rp.pcie_port.debug_label@ == pcie_host.name@
                &&& rp.pcie_port.preferred_address == pcie_host.address
                &&& rp.pcie_port.host_window == Some(pcie_host.window)
                &&& rp.pcie_port.bus_range == pcie_host.bus_range
                &&& rp.downstream_devices@.len() == 0
                &&& rp.removed_downstream@.len() == 0
                &&& !rp.hotplug_out_begin
                &&& final(caps)@ == old(caps)@.push(
                    PcieRootCap::initial(
                        pcie_host.bus_range.secondary,
                        pcie_host.bus_range.subordinate,
                    ),
                )
            },
    {
        match PciePort::new_from_host(
            caps,
            pcie_host,
            slot_implemented,
            PcieDevicePortType::RootPort,
        ) {
            Err(e) => Err(e),
            Ok(pcie_port) => Ok(
                PcieRootPort {
                    pcie_port,
                    downstream_devices: Vec::new(),
                    hotplug_out_begin: false,
                    removed_downstream: Vec::new(),
                },
            ),
        }
    }

    /// The error that stops a hot plug or unplug before it looks at devices.
    pub open spec fn slot_error(self) -> Option<HotPlugError> {
        if self.config().hpc_sender is Some {
            Some(HotPlugError::SlotEventPending)
        } else if !pcie_port::hotplug_enables(self.config().control()) {
            Some(HotPlugError::SlotNotEnabled)
        } else {
            None
        }
    }

    /// The result of a hot plug of `addr`.
    pub open spec fn hot_plug_result(self, addr: PciAddress, event: Option<u64>) -> Result<
        u64,
        HotPlugError,
    > {
        if self.slot_error() is Some {
            Err(self.slot_error()->0)
        } else if !has_address(self.downstream_devices@, addr) {
            Err(HotPlugError::NoDownstreamDevice)
        } else {
            match event {
                None => Err(HotPlugError::EventFailed),
                Some(id) => Ok(id),
            }
        }
    }

    /// The capability once a hot plug has been set up, before the guest is
    /// told.
    pub open spec fn plugging(self, event: u64) -> PcieConfigModel {
        PcieConfigModel {
            hpc_sender: Some(HotPlugCompleteSender { sender: event, armed: false }),
            slot_status: self.config().slot_status | (PCIE_SLTSTA_PDS | PCIE_SLTSTA_ABP),
            ..self.config()
        }
    }

    /// The capability once an unplug has been set up, before the guest is told.
    pub open spec fn unplugging(self, event: u64) -> PcieConfigModel {
        PcieConfigModel {
            hpc_sender: Some(HotPlugCompleteSender { sender: event, armed: false }),
            slot_status: self.config().slot_status | PCIE_SLTSTA_ABP,
            ..self.config()
        }
    }

    /// The capability after the guest was told of a slot event by way of
    /// `pme` or a hot plug interrupt.
    pub open spec fn told(c: PcieConfigModel, pme: bool) -> PcieConfigModel {
        if pme {
            PcieConfigModel { hp_interrupt_pending: true, ..c }
        } else {
            c.after_hp()
        }
    }

    /// How the guest is told of a slot event.
    pub open spec fn telling(self, c: PcieConfigModel, caps: Seq<PcieRootCap>, pme: bool) -> Seq<
        PortAction,
    > {
        if pme {
            self.pcie_port.root(caps).pme_effects(self.pcie_port.pci_address->0.requester_id())
        } else {
            c.hp_effects()
        }
    }

    /// The root capabilities after the guest was told of a slot event.
    pub open spec fn told_caps(self, caps: Seq<PcieRootCap>, pme: bool) -> Seq<PcieRootCap> {
        if pme {
            caps.update(
                self.config().root_cap as int,
                self.pcie_port.root(caps).after_pme(
                    self.pcie_port.pci_address->0.requester_id(),
                ),
            )
        } else {
            caps
        }
    }

    /// Plugs in the device at `addr`: the slot shows a device and a pressed
    /// attention button. `event` is the event to signal at the end, `None` if
    /// none could be made; `pme` says that the port is to be woken up.
    pub fn hot_plug(
        &mut self,
        caps: &mut PcieRootCaps,
        addr: PciAddress,
        event: Option<u64>,
        pme: bool,
        out: &mut Vec<PortAction>,
    ) -> (r: Result<u64, HotPlugError>)
        requires
            old(self).wf(old(caps)@),
            pme ==> old(self).pcie_port.pci_address is Some,
        ensures
            final(self).wf(final(caps)@),
            r == old(self).hot_plug_result(addr, event),
            final(self).pcie_port.same_identity(old(self).pcie_port),
            final(self).downstream_devices@ == old(self).downstream_devices@,
            final(self).removed_downstream@ == old(self).removed_downstream@,
            final(self).hotplug_out_begin == old(self).hotplug_out_begin,
            r is Err ==> {
                &&& final(self).config() == old(self).config()
                &&& final(caps)@ == old(caps)@
                &&& final(out)@ == old(out)@
            },
            r is Ok ==> {
                let c = old(self).plugging(r->Ok_0);
                &&& final(self).config() == Self::told(c, pme)
                &&& final(caps)@ == old(self).told_caps(old(caps)@, pme)
                &&& final(out)@ == old(out)@ + c.mirror() + old(self).telling(c, old(caps)@, pme)
            },
            r is Ok && !pme && old(self).config().msi is Some ==> final(out)@.contains(
                PortAction::TriggerMsi(old(self).config().msi->0),
            ),
    {
        if self.pcie_port.is_hpc_pending() {
            return Err(HotPlugError::SlotEventPending);
        }
        if !self.pcie_port.is_hotplug_ready() {
            return Err(HotPlugError::SlotNotEnabled);
        }
        if !self.has_device(addr) {
            return Err(HotPlugError::NoDownstreamDevice);
        }
        match event {
            None => Err(HotPlugError::EventFailed),
            Some(id) => {
                self.pcie_port.set_hpc_sender(id);
                self.pcie_port.set_slot_status(PCIE_SLTSTA_PDS | PCIE_SLTSTA_ABP, out);
                assert(self.config() == old(self).plugging(id));
                self.pcie_port.trigger_hp_or_pme_interrupt(caps, pme, out);
                proof {
                    if !pme && old(self).config().msi is Some {
                        let msi = old(self).config().msi->0;
                        let c = old(self).plugging(id);
                        let told = c.mirror() + old(self).telling(c, old(caps)@, pme);
                        hot_plug_raises_the_msi(*old(self), old(caps)@, addr, id, msi);
                        assert(out@ =~= old(out)@ + told);
                        pcie_port::concat_contains(old(out)@, told, PortAction::TriggerMsi(msi));
                    }
                }
                Ok(id)
            },
        }
    }

    /// The result of an unplug of `addr`.
    pub open spec fn hot_unplug_result(
        self,
        addr: PciAddress,
        event: Option<u64>,
        signalled: bool,
    ) -> Result<u64, HotPlugError> {
        let pic = self.config().control() & PCIE_SLTCTL_PIC;
        if self.slot_error() is Some {
            Err(self.slot_error()->0)
        } else if !has_address(self.downstream_devices@, addr) {
            Err(HotPlugError::NoDownstreamDevice)
        } else if self.hotplug_out_begin {
            Err(HotPlugError::UnplugPending)
        } else if event is None {
            Err(HotPlugError::EventFailed)
        } else if pic == PCIE_SLTCTL_PIC_ON {
            Ok(event->0)
        } else if pic == PCIE_SLTCTL_PIC_OFF {
            if signalled {
                Ok(event->0)
            } else {
                Err(HotPlugError::SignalFailed)
            }
        } else {
            Err(HotPlugError::PowerIndicatorBlinking)
        }
    }

    /// The unplug gets as far as taking the device out of the port.
    pub open spec fn takes_out(self, addr: PciAddress) -> bool {
        self.slot_error() is None && has_address(self.downstream_devices@, addr)
    }

    /// The host port's part in an unplug.
    pub open spec fn host_unplug(self) -> Seq<PortAction> {
        if self.pcie_port.host_window is Some {
            seq![PortAction::HostUnplug]
        } else {
            Seq::empty()
        }
    }

    /// Unplugs the device at `addr`, and with it all other devices behind the
    /// port. Where the power indicator is on, the attention button is pressed
    /// and `event` is signalled when the guest is done; where it is off, the
    /// slot is empty at once. `event` is `None` if no event could be made, and
    /// `signalled` is whether it can be signalled, where that is done at once; the
    /// host port is not unplugged if it cannot. `pme` says that the port is to be
    /// woken up.
    pub fn hot_unplug(
        &mut self,
        caps: &mut PcieRootCaps,
        addr: PciAddress,
        event: Option<u64>,
        signalled: bool,
        pme: bool,
        out: &mut Vec<PortAction>,
    ) -> (r: Result<u64, HotPlugError>)
        requires
            old(self).wf(old(caps)@),
            pme ==> old(self).pcie_port.pci_address is Some,
        ensures
            final(self).wf(final(caps)@),
            r == old(self).hot_unplug_result(addr, event, signalled),
            final(self).pcie_port.same_identity(old(self).pcie_port),
            old(self).takes_out(addr) ==> removed(
                old(self).downstream_devices@,
                final(self).downstream_devices@,
                addr,
            ),
            !old(self).takes_out(addr) ==> final(self).downstream_devices@ == old(
                self,
            ).downstream_devices@,
            final(self).hotplug_out_begin == (old(self).hotplug_out_begin || old(self).takes_out(
                addr,
            )),
            final(self).removed_downstream@ == (if old(self).takes_out(addr) && !old(
                self,
            ).hotplug_out_begin {
                seq![addr] + addresses(final(self).downstream_devices@)
            } else {
                old(self).removed_downstream@
            }),
            r is Err && r != Err::<u64, HotPlugError>(HotPlugError::SignalFailed) ==> {
                &&& final(self).config() == old(self).config()
                &&& final(caps)@ == old(caps)@
                &&& final(out)@ == old(out)@
            },
            r is Ok && old(self).config().control() & PCIE_SLTCTL_PIC == PCIE_SLTCTL_PIC_ON ==> {
                let c = old(self).unplugging(r->Ok_0);
                &&& final(self).config() == Self::told(c, pme)
                &&& final(caps)@ == old(self).told_caps(old(caps)@, pme)
                &&& final(out)@ == old(out)@ + c.mirror() + old(self).telling(c, old(caps)@, pme)
                    + old(self).host_unplug()
            },
            r is Ok && !pme && old(self).config().control() & PCIE_SLTCTL_PIC == PCIE_SLTCTL_PIC_ON
                && old(self).config().msi is Some ==> final(out)@.contains(
                PortAction::TriggerMsi(old(self).config().msi->0),
            ),
            r == Err::<u64, HotPlugError>(HotPlugError::SignalFailed) || (r is Ok && old(
                self,
            ).config().control() & PCIE_SLTCTL_PIC == PCIE_SLTCTL_PIC_OFF) ==> {
                let c = old(self).config().with_status(
                    old(self).config().slot_status & !PCIE_SLTSTA_PDS,
                );
                &&& final(self).config() == c
                &&& final(caps)@ == old(caps)@
                &&& final(out)@ == old(out)@ + c.mirror() + seq![PortAction::Signal(event->0)] + (
                if r is Ok {
                    old(self).host_unplug()
                } else {
                    Seq::empty()
                })
            },
    {
        if self.pcie_port.is_hpc_pending() {
            return Err(HotPlugError::SlotEventPending);
        }
        if !self.pcie_port.is_hotplug_ready() {
            return Err(HotPlugError::SlotNotEnabled);
        }
        if !remove_device(&mut self.downstream_devices, addr) {
            return Err(HotPlugError::NoDownstreamDevice);
        }
        if self.hotplug_out_begin {
            return Err(HotPlugError::UnplugPending);
        }
        self.hotplug_out_begin = true;
        self.mark_removed(addr);
        let id: u64 = match event {
            None => {
                return Err(HotPlugError::EventFailed);
            },
            Some(id) => id,
        };
        let pic: u16 = self.pcie_port.get_slot_control() & PCIE_SLTCTL_PIC;
        if pic == PCIE_SLTCTL_PIC_ON {
            self.pcie_port.set_hpc_sender(id);
            self.pcie_port.set_slot_status(PCIE_SLTSTA_ABP, out);
            assert(self.config() == old(self).unplugging(id));
            self.pcie_port.trigger_hp_or_pme_interrupt(caps, pme, out);
        } else if pic == PCIE_SLTCTL_PIC_OFF {
            self.pcie_port.mask_slot_status(!PCIE_SLTSTA_PDS, out);
            let ghost o = out@;
            out.push(PortAction::Signal(id));
            assert(out@ =~= o + seq![PortAction::Signal(id)]);
            if !signalled {
                assert(out@ =~= o + seq![PortAction::Signal(id)] + Seq::<PortAction>::empty());
                return Err(HotPlugError::SignalFailed);
            }
        } else {
            return Err(HotPlugError::PowerIndicatorBlinking);
        }
        let ghost o = out@;
        self.pcie_port.hot_unplug(out);
        assert(out@ =~= o + old(self).host_unplug());
        proof {
            if !pme && pic == PCIE_SLTCTL_PIC_ON && old(self).config().msi is Some {
                let msi = old(self).config().msi->0;
                let c = old(self).unplugging(id);
                let told = c.mirror() + old(self).telling(c, old(caps)@, pme) + old(
                    self,
                ).host_unplug();
                hot_unplug_raises_the_msi(*old(self), old(caps)@, addr, id, signalled, msi);
                assert(out@ =~= old(out)@ + told);
                pcie_port::concat_contains(old(out)@, told, PortAction::TriggerMsi(msi));
            }
        }
        Ok(id)
    }

    /// Lists `addr` and all devices that are left as removed.
    fn mark_removed(&mut self, addr: PciAddress)
        ensures
            *final(self) == (PcieRootPort {
                removed_downstream: final(self).removed_downstream,
                ..*old(self)
            }),
            final(self).removed_downstream@ == seq![addr] + addresses(
                old(self).downstream_devices@,
            ),
    {
        let mut list: Vec<PciAddress> = Vec::new();
        list.push(addr);
        let mut i: usize = 0;
        while i < self.downstream_devices.len()
            invariant
                *self == *old(self),
                i <= self.downstream_devices@.len(),
                list@ == seq![addr] + addresses(self.downstream_devices@).take(i as int),
            decreases self.downstream_devices.len() - i,
        {
            list.push(self.downstream_devices[i].0);
            i = i + 1;
            assert(list@ =~= seq![addr] + addresses(self.downstream_devices@).take(i as int));
        }
        assert(addresses(self.downstream_devices@).take(i as int) =~= addresses(
            self.downstream_devices@,
        ));
        self.removed_downstream = list;
    }

    /// Gets a notification for when the slot is ready for hot plug. `event` is the
    /// event that was made for it, or the error number where there is none; it is
    /// signalled at once if the slot is ready already. `failed` is the error number
    /// of signalling it or, where it waits, of cloning it, if that failed.
    pub fn get_ready_notification(
        &mut self,
        event: Result<u64, i32>,
        failed: Option<i32>,
        out: &mut Vec<PortAction>,
    ) -> (r: Result<u64, PciDeviceError>)
        ensures
            final(self).pcie_port.same_identity(old(self).pcie_port),
            r == pcie_port::notification_result(pcie_port::hotplug_enables(old(self).config().control()), event, failed),
            final(self).config() == (if r is Ok && !pcie_port::hotplug_enables(old(self).config().control()) {
                PcieConfigModel {
                    ready_notifications: old(self).config().ready_notifications.push(event->Ok_0),
                    ..old(self).config()
                }
            } else {
                old(self).config()
            }),
            final(out)@ == old(out)@ + pcie_port::ready_signal(pcie_port::hotplug_enables(old(self).config().control()), event),
            *final(self) == (PcieRootPort { pcie_port: final(self).pcie_port, ..*old(self) }),
    {
        self.pcie_port.get_ready_notification(event, failed, out)
    }

    pub fn get_address(&self) -> (r: Option<PciAddress>)
        ensures
            r == self.pcie_port.pci_address,
    {
        self.pcie_port.get_address()
    }

    pub fn get_secondary_bus_number(&self) -> (r: Option<u8>)
        ensures
            r == Some(self.pcie_port.bus_range.secondary),
    {
        match self.pcie_port.get_bus_range() {
            Some(range) => Some(range.secondary),
            None => None,
        }
    }

    pub fn is_match(&self, host_addr: PciAddress) -> (r: Option<u8>)
        ensures
            r == (if host_addr.bus == self.pcie_port.bus_range.secondary
                || self.pcie_port.host_window is None {
                Some(self.pcie_port.bus_range.secondary)
            } else {
                None
            }),
    {
        self.pcie_port.is_match(host_addr)
    }

    /// Puts a device behind the port, where it has a slot. The first one after
    /// an unplug starts a new round: what was there before is gone.
    pub fn add_hotplug_device(&mut self, hotplug_key: HotPlugKey, guest_addr: PciAddress)
        requires
            ordered(old(self).downstream_devices@),
        ensures
            final(self).pcie_port == old(self).pcie_port,
            ordered(final(self).downstream_devices@),
            old(self).config().slot_control is None ==> *final(self) == *old(self),
            old(self).config().slot_control is Some ==> {
                &&& !final(self).hotplug_out_begin
                &&& final(self).removed_downstream@ == (if old(self).hotplug_out_begin {
                    Seq::empty()
                } else {
                    old(self).removed_downstream@
                })
                &&& inserted(
                    if old(self).hotplug_out_begin {
                        Seq::empty()
                    } else {
                        old(self).downstream_devices@
                    },
                    final(self).downstream_devices@,
                    guest_addr,
                    hotplug_key,
                )
            },
    {
        if !self.pcie_port.hotplug_implemented() {
            return ;
        }
        if self.hotplug_out_begin {
            self.hotplug_out_begin = false;
            self.downstream_devices.clear();
            self.removed_downstream.clear();
        }
        insert_device(&mut self.downstream_devices, guest_addr, hotplug_key);
    }

    /// The address of the first device with this key.
    pub fn get_hotplug_device(&self, hotplug_key: HotPlugKey) -> (r: Option<PciAddress>)
        ensures
            r is None ==> forall|i: int|
                0 <= i < self.downstream_devices@.len() ==> (
                #[trigger] self.downstream_devices@[i]).1 != hotplug_key,
            r is Some ==> exists|i: int|
                {
                    &&& 0 <= i < self.downstream_devices@.len()
                    &&& (#[trigger] self.downstream_devices@[i]) == (r->0, hotplug_key)
                    &&& forall|j: int|
                        0 <= j < i ==> (#[trigger] self.downstream_devices@[j]).1 != hotplug_key
                },
    {
        let mut i: usize = 0;
        while i < self.downstream_devices.len()
            invariant
                i <= self.downstream_devices@.len(),
                forall|j: int|
                    0 <= j < i ==> (#[trigger] self.downstream_devices@[j]).1 != hotplug_key,
            decreases self.downstream_devices.len() - i,
        {
            if self.downstream_devices[i].1 == hotplug_key {
                assert(self.downstream_devices@[i as int] == (
                    self.downstream_devices@[i as int].0,
                    hotplug_key,
                ));
                return Some(self.downstream_devices[i].0);
            }
            i = i + 1;
        }
        None
    }

    /// Whether no device is behind the port.
    pub fn is_empty(&self) -> (r: bool)
        ensures
            r == (self.downstream_devices@.len() == 0),
    {
        self.downstream_devices.len() == 0
    }

    /// A root port is not hot plugged itself.
    pub fn get_hotplug_key(&self) -> (r: Option<HotPlugKey>)
        ensures
            r is None,
    {
        None
    }

    /// A general purpose event: a host port is prepared for a new device, and a
    /// sleeping port (`pme`) is woken up.
    pub fn notify_gpe(&mut self, caps: &mut PcieRootCaps, pme: bool, out: &mut Vec<PortAction>)
        requires
            old(self).pcie_port.rooted(old(caps)@),
            pme && old(self).config().slot_control is Some ==> old(
                self,
            ).pcie_port.pci_address is Some,
        ensures
            *final(self) == (PcieRootPort {
                pcie_port: PciePort {
                    prepare_hotplug: old(self).pcie_port.prepare_hotplug || (old(
                        self,
                    ).config().slot_control is Some && old(self).pcie_port.host_window is Some),
                    ..old(self).pcie_port
                },
                ..*old(self)
            }),
            final(caps)@ == old(self).told_caps(
                old(caps)@,
                pme && old(self).config().slot_control is Some,
            ),
            final(out)@ == old(out)@ + (if pme && old(self).config().slot_control is Some {
                old(self).pcie_port.root(old(caps)@).pme_effects(
                    old(self).pcie_port.pci_address->0.requester_id(),
                )
            } else {
                Seq::empty()
            }),
    {
        assert(out@ + Seq::<PortAction>::empty() =~= out@);
        if !self.pcie_port.hotplug_implemented() {
            return ;
        }
        if self.pcie_port.is_host() {
            self.pcie_port.prepare_hotplug();
        }
        if pme {
            if let Some(address) = self.pcie_port.get_address() {
                self.pcie_port.inject_pme(caps, address.pme_requester_id(), out);
            }
        }
    }

    /// A power management event of `requester_id`.
    pub fn notify_pme(&mut self, caps: &mut PcieRootCaps, requester_id: u16, out: &mut Vec<PortAction>)
        requires
            old(self).pcie_port.rooted(old(caps)@),
        ensures
            *final(self) == *old(self),
            final(caps)@ == old(caps)@.update(
                old(self).config().root_cap as int,
                old(self).pcie_port.root(old(caps)@).after_pme(requester_id),
            ),
            final(out)@ == old(out)@ + old(self).pcie_port.root(old(caps)@).pme_effects(
                requester_id,
            ),
    {
        self.pcie_port.inject_pme(caps, requester_id, out);
    }

    fn has_device(&self, addr: PciAddress) -> (r: bool)
        requires
            ordered(self.downstream_devices@),
        ensures
            r == has_address(self.downstream_devices@, addr),
    {
        let at: usize = position(&self.downstream_devices, addr);
        let found = at < self.downstream_devices.len() && self.downstream_devices[at].0 == addr;
        assert(!found ==> !has_address(self.downstream_devices@, addr)) by {
            if has_address(self.downstream_devices@, addr) {
                let i = choose|i: int|
                    0 <= i < self.downstream_devices@.len() && (
                    #[trigger] self.downstream_devices@[i]).0 == addr;
                if i > at {
                    assert(self.downstream_devices@[at as int].0.precedes(
                        self.downstream_devices@[i].0,
                    ));
                }
            }
        }
        found
    }
}

impl PciePortVariant for PcieRootPort {
    fn get_pcie_port(&self) -> (r: &PciePort)
        ensures
            *r == self.pcie_port,
    {
        &self.pcie_port
    }

    fn get_pcie_port_mut(&mut self) -> (r: &mut PciePort)
        ensures
            *r == old(self).pcie_port,
            *final(self) == (PcieRootPort { pcie_port: *final(r), ..*old(self) }),
    {
        &mut self.pcie_port
    }

    fn get_removed_devices_impl(&self) -> (r: Vec<PciAddress>)
        ensures
            r@ == (if self.config().removed_downstream_valid {
                self.removed_downstream@
            } else {
                Seq::empty()
            }),
    {
        let mut r: Vec<PciAddress> = Vec::new();
        if self.pcie_port.removed_downstream_valid() {
            let mut i: usize = 0;
            while i < self.removed_downstream.len()
                invariant
                    i <= self.removed_downstream@.len(),
                    r@ == self.removed_downstream@.take(i as int),
                decreases self.removed_downstream.len() - i,
            {
                r.push(self.removed_downstream[i]);
                i = i + 1;
                assert(r@ =~= self.removed_downstream@.take(i as int));
            }
            assert(self.removed_downstream@.take(i as int) =~= self.removed_downstream@);
        }
        r
    }

    fn hotplug_implemented_impl(&self) -> (r: bool)
        ensures
            r == (self.config().slot_control is Some),
    {
        self.pcie_port.hotplug_implemented()
    }

    fn hotplugged_impl(&self) -> (r: bool)
        ensures
            !r,
    {
        false
    }
}

/// A port whose hot plug was set up refuses the next hot plug and unplug until
/// that one is complete.
pub proof fn one_slot_event_at_a_time(
    before: PcieRootPort,
    after: PcieRootPort,
    event: u64,
    pme: bool,
    addr: PciAddress,
    next: Option<u64>,
    signalled: bool,
)
    requires
        after.config() == PcieRootPort::told(before.plugging(event), pme) || after.config()
            == PcieRootPort::told(before.unplugging(event), pme),
    ensures
        after.hot_plug_result(addr, next) == Err::<u64, HotPlugError>(
            HotPlugError::SlotEventPending,
        ),
        after.hot_unplug_result(addr, next, signalled) == Err::<u64, HotPlugError>(
            HotPlugError::SlotEventPending,
        ),
{
}

/// While an unplug is under way, no second unplug succeeds.
pub proof fn one_unplug_at_a_time(
    rp: PcieRootPort,
    addr: PciAddress,
    event: Option<u64>,
    signalled: bool,
)
    requires
        rp.hotplug_out_begin,
    ensures
        rp.hot_unplug_result(addr, event, signalled) is Err,
{
}

/// Devices in order are determined by which devices there are.
pub proof fn ordered_devices_are_unique(a: Devices, b: Devices)
    requires
        ordered(a),
        ordered(b),
        forall|e: (PciAddress, HotPlugKey)| a.contains(e) <==> b.contains(e),
    ensures
        a =~= b,
    decreases a.len(),
{
    if a.len() == 0 {
        if b.len() > 0 {
            assert(b.contains(b[0]));
        }
    } else {
        assert(a.contains(a[0]));
        let k = choose|k: int| 0 <= k < b.len() && b[k] == a[0];
        assert(b.contains(b[0]));
        let l = choose|l: int| 0 <= l < a.len() && a[l] == b[0];
        assert(a[0] == b[0]);
        let ra = a.skip(1);
        let rb = b.skip(1);
        assert forall|e: (PciAddress, HotPlugKey)| ra.contains(e) <==> rb.contains(e) by {
            if ra.contains(e) {
                let i = choose|i: int| 0 <= i < ra.len() && ra[i] == e;
                assert(a[i + 1] == e);
                assert(a[0].0.precedes(a[i + 1].0));
                assert(b.contains(e));
                let j = choose|j: int| 0 <= j < b.len() && b[j] == e;
                assert(j > 0);
                assert(rb[j - 1] == e);
            }
            if rb.contains(e) {
                let i = choose|i: int| 0 <= i < rb.len() && rb[i] == e;
                assert(b[i + 1] == e);
                assert(b[0].0.precedes(b[i + 1].0));
                assert(a.contains(e));
                let j = choose|j: int| 0 <= j < a.len() && a[j] == e;
                assert(j > 0);
                assert(ra[j - 1] == e);
            }
        }
        ordered_devices_are_unique(ra, rb);
        assert(a =~= seq![a[0]] + ra);
        assert(b =~= seq![b[0]] + rb);
    }
}

/// A device that was put behind the port is found there again until it is taken
/// out, and then no more.
pub proof fn added_device_is_present(before: Devices, after: Devices, addr: PciAddress, key: HotPlugKey)
    requires
        inserted(before, after, addr, key),
    ensures
        has_address(after, addr),
        forall|gone: Devices| #[trigger] removed(after, gone, addr) ==> !has_address(gone, addr),
{
    assert(after.contains((addr, key)));
    let i = choose|i: int| 0 <= i < after.len() && after[i] == (addr, key);
    assert(after[i].0 == addr);
    assert forall|gone: Devices| #[trigger] removed(after, gone, addr) implies !has_address(
        gone,
        addr,
    ) by {
        if has_address(gone, addr) {
            let j = choose|j: int| 0 <= j < gone.len() && (#[trigger] gone[j]).0 == addr;
            assert(gone.contains(gone[j]));
        }
    }
}

/// A hot plug that does not wake the port shows a device, a pressed attention
/// button and a change of presence, and raises the port's MSI: the slot is ready
/// only where the guest has enabled hot plug interrupts together with one of the
/// two.
pub proof fn hot_plug_raises_the_msi(
    rp: PcieRootPort,
    caps: Seq<PcieRootCap>,
    addr: PciAddress,
    event: u64,
    id: u64,
)
    requires
        rp.hot_plug_result(addr, Some(event)) is Ok,
        rp.config().msi == Some(id),
    ensures
        ({
            let c = rp.plugging(event);
            let after = PcieRootPort::told(c, false);
            &&& (c.mirror() + rp.telling(c, caps, false)).contains(PortAction::TriggerMsi(id))
            &&& after.slot_status & 0x40 != 0
            &&& after.slot_status & 0x01 != 0
            &&& after.slot_status & 0x08 != 0
            &&& after.hpc_sender == Some(HotPlugCompleteSender { sender: event, armed: false })
        }),
{
    let c = rp.plugging(event);
    pcie_port::slot_bit_facts(rp.config().slot_status, c.control());
    pcie_port::slot_bit_facts(c.slot_status, c.control());
    pcie_port::hot_plug_interrupt_reaches_the_guest(c, id);
    pcie_port::concat_contains(c.mirror(), c.hp_effects(), PortAction::TriggerMsi(id));
}

/// An unplug of a slot whose power indicator is on, without waking the port,
/// presses the attention button, marks presence as changed and raises the port's
/// MSI. The slot still shows what it showed before.
pub proof fn hot_unplug_raises_the_msi(
    rp: PcieRootPort,
    caps: Seq<PcieRootCap>,
    addr: PciAddress,
    event: u64,
    signalled: bool,
    id: u64,
)
    requires
        rp.hot_unplug_result(addr, Some(event), signalled) is Ok,
        rp.config().control() & 0x300 == 0x100,
        rp.config().msi == Some(id),
    ensures
        ({
            let c = rp.unplugging(event);
            let after = PcieRootPort::told(c, false);
            &&& (c.mirror() + rp.telling(c, caps, false) + rp.host_unplug()).contains(
                PortAction::TriggerMsi(id),
            )
            &&& after.slot_status & 0x40 == rp.config().slot_status & 0x40
            &&& after.slot_status & 0x01 != 0
            &&& after.slot_status & 0x08 != 0
            &&& after.hpc_sender == Some(HotPlugCompleteSender { sender: event, armed: false })
        }),
{
    let c = rp.unplugging(event);
    pcie_port::slot_bit_facts(rp.config().slot_status, c.control());
    pcie_port::slot_bit_facts(c.slot_status, c.control());
    pcie_port::hot_plug_interrupt_reaches_the_guest(c, id);
    pcie_port::concat_contains(c.mirror(), c.hp_effects(), PortAction::TriggerMsi(id));
    pcie_port::concat_contains(
        c.mirror() + c.hp_effects(),
        rp.host_unplug(),
        PortAction::TriggerMsi(id),
    );
}

/// A port that is woken up for a slot event puts the hot plug interrupt off, and
/// the root port's MSI is raised in its place where the guest wants power
/// management events and none is shown.
pub proof fn sleeping_port_is_woken(rp: PcieRootPort, caps: Seq<PcieRootCap>, c: PcieConfigModel, id: u64)
    requires
        rp.pcie_port.pci_address is Some,
        rp.pcie_port.pci_address->0.valid(),
        rp.pcie_port.rooted(caps),
        rp.pcie_port.root(caps).msi == Some(id),
        rp.pcie_port.root(caps).control & 0x08 != 0,
        rp.pcie_port.root(caps).status & 0x1_0000 == 0,
    ensures
        PcieRootPort::told(c, true).hp_interrupt_pending,
        PcieRootPort::told(c, true).slot_status == c.slot_status,
        rp.telling(c, caps, true) == seq![PortAction::TriggerMsi(id)],
        ({
            let a = rp.pcie_port.pci_address->0;
            rp.told_caps(caps, true)[rp.config().root_cap as int].status & 0x1_ffff == 0x1_0000
                + a.bus * 256 + a.dev * 8 + a.func
        }),
{
    let a = rp.pcie_port.pci_address->0;
    a.requester_id_is_sum();
    pcie_port::power_event_raises_the_msi(rp.pcie_port.root(caps), a.requester_id(), 0, id);
}

/// A hot plug succeeds exactly where no slot event is pending, the guest has
/// enabled the slot, the device is behind the port and there is an event to
/// signal.
pub proof fn hot_plug_succeeds_when_ready(rp: PcieRootPort, addr: PciAddress, event: Option<u64>)
    ensures
        rp.hot_plug_result(addr, event) is Ok <==> {
            &&& rp.config().hpc_sender is None
            &&& rp.config().control() & 0x01 != 0 || rp.config().control() & 0x08 != 0
            &&& rp.config().control() & 0x10 != 0
            &&& rp.config().control() & 0x20 != 0
            &&& exists|i: int|
                0 <= i < rp.downstream_devices@.len() && (#[trigger] rp.downstream_devices@[i]).0
                    == addr
            &&& event is Some
        },
        rp.hot_plug_result(addr, event) is Ok ==> rp.hot_plug_result(addr, event)->Ok_0 == event->0,
{
    pcie_port::slot_bit_facts(0, rp.config().control());
}

/// Why a hot plug fails is told: a slot event that is pending first, then a slot
/// that the guest has not enabled, then a device that is not there, then an event
/// that could not be made.
pub proof fn hot_plug_failure_is_told(rp: PcieRootPort, addr: PciAddress, event: Option<u64>)
    ensures
        ({
            let control = rp.config().control();
            let enabled = (control & 0x01 != 0 || control & 0x08 != 0) && control & 0x10 != 0
                && control & 0x20 != 0;
            let there = exists|i: int|
                0 <= i < rp.downstream_devices@.len() && (#[trigger] rp.downstream_devices@[i]).0
                    == addr;
            let r = rp.hot_plug_result(addr, event);
            &&& rp.config().hpc_sender is Some ==> r == Err::<u64, HotPlugError>(
                HotPlugError::SlotEventPending,
            )
            &&& rp.config().hpc_sender is None && !enabled ==> r == Err::<u64, HotPlugError>(
                HotPlugError::SlotNotEnabled,
            )
            &&& rp.config().hpc_sender is None && enabled && !there ==> r == Err::<
                u64,
                HotPlugError,
            >(HotPlugError::NoDownstreamDevice)
            &&& rp.config().hpc_sender is None && enabled && there && event is None ==> r == Err::<
                u64,
                HotPlugError,
            >(HotPlugError::EventFailed)
        }),
{
    pcie_port::slot_bit_facts(0, rp.config().control());
}

/// An unplug succeeds where a hot plug would, no unplug is under way, and the power
/// indicator is on, or is off and the event can be signalled; while it blinks the
/// guest is not done yet.
pub proof fn hot_unplug_follows_the_power_indicator(
    rp: PcieRootPort,
    addr: PciAddress,
    event: u64,
    signalled: bool,
)
    requires
        rp.hot_plug_result(addr, Some(event)) is Ok,
    ensures
        ({
            let pic = rp.config().control() & 0x300;
            let r = rp.hot_unplug_result(addr, Some(event), signalled);
            &&& rp.hotplug_out_begin ==> r == Err::<u64, HotPlugError>(HotPlugError::UnplugPending)
            &&& !rp.hotplug_out_begin && pic == 0x100 ==> r == Ok::<u64, HotPlugError>(event)
            &&& !rp.hotplug_out_begin && pic == 0x300 && signalled ==> r == Ok::<
                u64,
                HotPlugError,
            >(event)
            &&& !rp.hotplug_out_begin && pic == 0x300 && !signalled ==> r == Err::<
                u64,
                HotPlugError,
            >(HotPlugError::SignalFailed)
            &&& !rp.hotplug_out_begin && pic != 0x100 && pic != 0x300 ==> r == Err::<
                u64,
                HotPlugError,
            >(HotPlugError::PowerIndicatorBlinking)
            &&& rp.takes_out(addr)
        }),
        rp.pcie_port.host_window is Some ==> rp.host_unplug() == seq![PortAction::HostUnplug],
        rp.pcie_port.host_window is None ==> rp.host_unplug().len() == 0,
{
}

/// Putting a device behind the port, or taking one out, leaves every other device
/// there under its address, with its key.
pub proof fn other_devices_stay(
    before: Devices,
    after: Devices,
    addr: PciAddress,
    key: HotPlugKey,
    other: (PciAddress, HotPlugKey),
)
    requires
        inserted(before, after, addr, key) || removed(before, after, addr),
        other.0 != addr,
    ensures
        after.contains(other) <==> before.contains(other),
        has_address(after, other.0) <==> has_address(before, other.0),
        addresses(after).len() == after.len(),
        forall|i: int| 0 <= i < after.len() ==> #[trigger] addresses(after)[i] == after[i].0,
{
    if has_address(after, other.0) {
        let i = choose|i: int| 0 <= i < after.len() && (#[trigger] after[i]).0 == other.0;
        assert(after.contains(after[i]));
        let j = choose|j: int| 0 <= j < before.len() && before[j] == after[i];
        assert(before[j].0 == other.0);
    }
    if has_address(before, other.0) {
        let i = choose|i: int| 0 <= i < before.len() && (#[trigger] before[i]).0 == other.0;
        assert(before.contains(before[i]));
        assert(after.contains(before[i]));
        let j = choose|j: int| 0 <= j < after.len() && after[j] == before[i];
        assert(after[j].0 == other.0);
    }
}

/// An unplug takes the device out where it is behind the port, no slot event is
/// pending, and the guest has enabled the slot; nowhere else.
pub proof fn device_is_taken_out_of_a_ready_slot(rp: PcieRootPort, addr: PciAddress)
    ensures
        ({
            let control = rp.config().control();
            &&& rp.takes_out(addr) ==> rp.config().hpc_sender is None
            &&& rp.takes_out(addr) ==> (control & 0x01 != 0 || control & 0x08 != 0) && control & 0x10
                != 0 && control & 0x20 != 0
            &&& rp.takes_out(addr) ==> exists|i: int|
                0 <= i < rp.downstream_devices@.len() && (#[trigger] rp.downstream_devices@[i]).0
                    == addr
        }),
{
    pcie_port::slot_bit_facts(0, rp.config().control());
}

} // verus!
