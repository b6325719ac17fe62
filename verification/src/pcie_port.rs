//! A PCI Express port with an optional hot plug slot.
//!
//! Everything that leaves the port (interrupts, signals, updates of the guest's
//! view of the capability) is handed back as a list of actions in the order in
//! which they are to be performed. Events and MSI configurations are known by
//! numbers that the caller gives out.
use crate::bytes;
use crate::pci_address::PciAddress;
use crate::pcie::{
    PciBridgeBusRange, PciDevicePower, PcieDevicePortType, PCIE_CAP_LEN, PCIE_ROOTCTL_OFFSET,
    PCIE_ROOTCTL_PME_ENABLE, PCIE_ROOTSTA_OFFSET, PCIE_ROOTSTA_PME_PENDING,
    PCIE_ROOTSTA_PME_REQ_ID_MASK, PCIE_ROOTSTA_PME_STATUS, PCIE_SLTCTL_ABPE, PCIE_SLTCTL_AIC_OFF,
    PCIE_SLTCTL_CCIE, PCIE_SLTCTL_HPIE, PCIE_SLTCTL_OFFSET, PCIE_SLTCTL_PDCE, PCIE_SLTCTL_PIC,
    PCIE_SLTCTL_PIC_BLINK, PCIE_SLTCTL_PIC_OFF, PCIE_SLTSTA_ABP, PCIE_SLTSTA_CC,
    PCIE_SLTSTA_DLLSC, PCIE_SLTSTA_OFFSET, PCIE_SLTSTA_PDC, PCIE_SLTSTA_PDS, PCIE_SLTSTA_PFD,
    PCIE_SLTSTA_W1C,
};
use vstd::prelude::*;

verus! {

/// Memory window of a port without a host port: 8 MiB.
pub const PCIE_BR_MEM_SIZE: u64 = 0x80_0000;

/// Prefetchable window of a port without a host port: 64 MiB.
pub const PCIE_BR_PREF_MEM_SIZE: u64 = 0x400_0000;

/// What a port asks its surroundings to do.
#[derive(Clone, Copy, Debug, PartialEq, Eq, Structural)]
pub enum PortAction {
    /// Signal an event.
    Signal(u64),
    /// Raise an MSI, if the guest has enabled it.
    TriggerMsi(u64),
    /// Update the bits of `mask` in a register of the mapped capability.
    SetCapReg { reg: usize, value: u32, mask: u32 },
    /// Probe the host port for the device that was plugged in.
    HotplugProbe,
    /// Unplug the device behind the host port.
    HostUnplug,
}

/// Errors of a PCI device.
#[derive(Debug, PartialEq, Eq)]
pub enum PciDeviceError {
    PciAllocationFailed,
    PciAddressParseFailure(String),
    EventCreationFailed(i32),
    EventSignalFailed(i32),
    EventCloneFailed(i32),
}

/// What asking for a notification comes to. `event` is the new event or why there
/// is none, and `failed` is the error number of signalling it, where the slot is
/// ready, or else of cloning it, if that failed.
pub open spec fn notification_result(
    ready: bool,
    event: Result<u64, i32>,
    failed: Option<i32>,
) -> Result<u64, PciDeviceError> {
    match (event, failed) {
        (Err(e), _) => Err(PciDeviceError::EventCreationFailed(e)),
        (Ok(_), Some(e)) => if ready {
            Err(PciDeviceError::EventSignalFailed(e))
        } else {
            Err(PciDeviceError::EventCloneFailed(e))
        },
        (Ok(id), None) => Ok(id),
    }
}

/// The signal of a new event, where the slot is ready.
pub open spec fn ready_signal(ready: bool, event: Result<u64, i32>) -> Seq<PortAction> {
    if ready && event is Ok {
        seq![PortAction::Signal(event->Ok_0)]
    } else {
        Seq::empty()
    }
}

/// The interrupt of an MSI configuration, if there is one and `cond` holds.
pub open spec fn msi_if(cond: bool, msi: Option<u64>) -> Seq<PortAction> {
    if cond && msi is Some {
        seq![PortAction::TriggerMsi(msi->0)]
    } else {
        Seq::empty()
    }
}

fn trigger_interrupt(msi: &Option<u64>, out: &mut Vec<PortAction>)
    ensures
        final(out)@ == old(out)@ + msi_if(true, *msi),
{
    if let Some(id) = msi {
        out.push(PortAction::TriggerMsi(*id));
    }
    assert(out@ =~= old(out)@ + msi_if(true, *msi));
}

/// The root capability that the ports below one root port share.
#[derive(Clone, Copy, Debug, PartialEq, Eq, Structural)]
pub struct PcieRootCap {
    pub secondary_bus_num: u8,
    pub subordinate_bus_num: u8,
    pub control: u16,
    pub status: u32,
    /// Requester of a power management event that waits for the one in `status`.
    pub pme_pending_requester_id: Option<u16>,
    pub msi: Option<u64>,
}

impl PcieRootCap {
    /// The bus lies behind this root port.
    pub open spec fn covers(self, bus: u8) -> bool {
        self.secondary_bus_num <= bus <= self.subordinate_bus_num
    }

    /// The capability of a new root port.
    pub open spec fn initial(secondary_bus_num: u8, subordinate_bus_num: u8) -> Self {
        PcieRootCap {
            secondary_bus_num,
            subordinate_bus_num,
            control: 0,
            status: 0,
            pme_pending_requester_id: None,
            msi: None,
        }
    }

    /// A power management event is shown to the guest.
    pub open spec fn pme_shown(self) -> bool {
        self.status & PCIE_ROOTSTA_PME_STATUS != 0
    }

    /// The interrupt for a power management event, where the guest wants it.
    pub open spec fn pme_actions(self) -> Seq<PortAction> {
        msi_if(self.control & PCIE_ROOTCTL_PME_ENABLE != 0 && self.pme_shown(), self.msi)
    }

    /// The capability with the event of `requester` shown and none waiting.
    pub open spec fn showing(self, requester: u16) -> Self {
        PcieRootCap {
            status: (self.status & !PCIE_ROOTSTA_PME_REQ_ID_MASK) | (requester as u32)
                | PCIE_ROOTSTA_PME_STATUS,
            pme_pending_requester_id: None,
            ..self
        }
    }

    /// The capability after an event of `requester`: shown if none is, else
    /// kept waiting in place of an earlier one that waits.
    pub open spec fn after_pme(self, requester: u16) -> Self {
        if self.pme_shown() {
            PcieRootCap {
                status: self.status | PCIE_ROOTSTA_PME_PENDING,
                pme_pending_requester_id: Some(requester),
                ..self
            }
        } else {
            self.showing(requester)
        }
    }

    /// What happens with an event of `requester`.
    pub open spec fn pme_effects(self, requester: u16) -> Seq<PortAction> {
        if self.pme_shown() {
            Seq::empty()
        } else {
            self.showing(requester).pme_actions()
        }
    }

    /// The capability after the guest wrote `v` to root status: clearing the
    /// event that is shown brings up the one that waits.
    pub open spec fn after_status_write(self, v: u32) -> Self {
        if v & PCIE_ROOTSTA_PME_STATUS == 0 {
            self
        } else {
            match self.pme_pending_requester_id {
                Some(requester) => PcieRootCap {
                    status: self.status & !PCIE_ROOTSTA_PME_PENDING,
                    ..self
                }.showing(requester),
                None => PcieRootCap { status: self.status & !PCIE_ROOTSTA_PME_STATUS, ..self },
            }
        }
    }

    pub open spec fn status_write_effects(self, v: u32) -> Seq<PortAction> {
        if v & PCIE_ROOTSTA_PME_STATUS != 0 && self.pme_pending_requester_id is Some {
            self.after_status_write(v).pme_actions()
        } else {
            Seq::empty()
        }
    }

    pub fn new(secondary_bus_num: u8, subordinate_bus_num: u8) -> (r: Self)
        ensures
            r == Self::initial(secondary_bus_num, subordinate_bus_num),
    {
        PcieRootCap {
            secondary_bus_num,
            subordinate_bus_num,
            control: 0,
            status: 0,
            pme_pending_requester_id: None,
            msi: None,
        }
    }

    pub fn clone_interrupt(&mut self, msi: u64)
        ensures
            *final(self) == (PcieRootCap { msi: Some(msi), ..*old(self) }),
    {
        self.msi = Some(msi);
    }

    pub fn trigger_pme_interrupt(&self, out: &mut Vec<PortAction>)
        ensures
            final(out)@ == old(out)@ + self.pme_actions(),
    {
        if (self.control & PCIE_ROOTCTL_PME_ENABLE) != 0 && (self.status & PCIE_ROOTSTA_PME_STATUS)
            != 0 {
            trigger_interrupt(&self.msi, out);
        }
        assert(out@ =~= old(out)@ + self.pme_actions());
    }

    /// A power management event of `requester_id` comes in.
    pub fn inject_pme(&mut self, requester_id: u16, out: &mut Vec<PortAction>)
        ensures
            *final(self) == old(self).after_pme(requester_id),
            final(out)@ == old(out)@ + old(self).pme_effects(requester_id),
    {
        if (self.status & PCIE_ROOTSTA_PME_STATUS) != 0 {
            self.status = self.status | PCIE_ROOTSTA_PME_PENDING;
            self.pme_pending_requester_id = Some(requester_id);
            assert(out@ =~= old(out)@ + Seq::<PortAction>::empty());
        } else {
            self.status = (self.status & !PCIE_ROOTSTA_PME_REQ_ID_MASK) | (requester_id as u32)
                | PCIE_ROOTSTA_PME_STATUS;
            self.pme_pending_requester_id = None;
            self.trigger_pme_interrupt(out);
        }
    }

    /// The guest writes root status.
    pub fn write_status(&mut self, v: u32, out: &mut Vec<PortAction>)
        ensures
            *final(self) == old(self).after_status_write(v),
            final(out)@ == old(out)@ + old(self).status_write_effects(v),
    {
        if v & PCIE_ROOTSTA_PME_STATUS != 0 {
            match self.pme_pending_requester_id {
                Some(requester_id) => {
                    self.status = self.status & !PCIE_ROOTSTA_PME_PENDING;
                    self.status = (self.status & !PCIE_ROOTSTA_PME_REQ_ID_MASK) | (
                    requester_id as u32) | PCIE_ROOTSTA_PME_STATUS;
                    self.pme_pending_requester_id = None;
                    self.trigger_pme_interrupt(out);
                },
                None => {
                    self.status = self.status & !PCIE_ROOTSTA_PME_STATUS;
                    assert(out@ =~= old(out)@ + Seq::<PortAction>::empty());
                },
            }
        } else {
            assert(out@ =~= old(out)@ + Seq::<PortAction>::empty());
        }
    }
}

/// The root capabilities of all root ports, in the order of their creation.
#[derive(Debug)]
pub struct PcieRootCaps {
    pub caps: Vec<PcieRootCap>,
}

impl View for PcieRootCaps {
    type V = Seq<PcieRootCap>;

    open spec fn view(&self) -> Seq<PcieRootCap> {
        self.caps@
    }
}

/// Index of the first root capability that covers `bus`.
pub open spec fn covering(caps: Seq<PcieRootCap>, bus: u8, i: int) -> bool {
    &&& 0 <= i < caps.len()
    &&& caps[i].covers(bus)
    &&& forall|j: int| 0 <= j < i ==> !(#[trigger] caps[j]).covers(bus)
}

impl PcieRootCaps {
    pub fn new() -> (r: Self)
        ensures
            r@ == Seq::<PcieRootCap>::empty(),
    {
        PcieRootCaps { caps: Vec::new() }
    }

    /// Adds the capability of a new root port and returns its index.
    pub fn push_pcie_root_cap(&mut self, cap: PcieRootCap) -> (r: usize)
        requires
            old(self)@.len() < usize::MAX,
        ensures
            r == old(self)@.len(),
            final(self)@ == old(self)@.push(cap),
    {
        self.caps.push(cap);
        self.caps.len() - 1
    }

    /// The first root port that `bus` lies behind.
    pub fn get_pcie_root_cap(&self, bus_num: u8) -> (r: Option<usize>)
        ensures
            r is Some ==> covering(self@, bus_num, r->0 as int),
            r is None ==> forall|j: int|
                0 <= j < self@.len() ==> !(#[trigger] self@[j]).covers(bus_num),
    {
        let mut i: usize = 0;
        while i < self.caps.len()
            invariant
                i <= self.caps.len(),
                forall|j: int| 0 <= j < i ==> !(#[trigger] self@[j]).covers(bus_num),
            decreases self.caps.len() - i,
        {
            if self.caps[i].secondary_bus_num <= bus_num && self.caps[i].subordinate_bus_num
                >= bus_num {
                return Some(i);
            }
            i = i + 1;
        }
        None
    }
}

/// Who waits for the end of a hot plug or unplug.
#[derive(Clone, Copy, Debug, PartialEq, Eq, Structural)]
pub struct HotPlugCompleteSender {
    pub sender: u64,
    /// The next slot status write completes the operation.
    pub armed: bool,
}

impl HotPlugCompleteSender {
    pub fn new(sender: u64) -> (r: Self)
        ensures
            r == (HotPlugCompleteSender { sender, armed: false }),
    {
        HotPlugCompleteSender { sender, armed: false }
    }
}

/// What the capability of a port holds.
#[verifier::ext_equal]
pub struct PcieConfigModel {
    pub msi: Option<u64>,
    pub slot_control: Option<u16>,
    pub slot_status: u16,
    pub root_cap: usize,
    pub port_type: PcieDevicePortType,
    pub hpc_sender: Option<HotPlugCompleteSender>,
    pub hp_interrupt_pending: bool,
    pub removed_downstream_valid: bool,
    pub enabled: bool,
    pub ready_notifications: Seq<u64>,
    pub cap_mapped: bool,
}

/// Slot control with every enable that hot plug needs.
pub open spec fn hotplug_enables(control: u16) -> bool {
    &&& control & (PCIE_SLTCTL_PDCE | PCIE_SLTCTL_ABPE) != 0
    &&& control & PCIE_SLTCTL_CCIE != 0
    &&& control & PCIE_SLTCTL_HPIE != 0
}

/// The guest turns the power indicator off.
pub open spec fn powers_off(from: u16, to: u16) -> bool {
    to & PCIE_SLTCTL_PIC == PCIE_SLTCTL_PIC_OFF && from & PCIE_SLTCTL_PIC != PCIE_SLTCTL_PIC_OFF
}

/// The power indicator stops blinking.
pub open spec fn stops_blinking(from: u16, to: u16) -> bool {
    from & PCIE_SLTCTL_PIC == PCIE_SLTCTL_PIC_BLINK && to & PCIE_SLTCTL_PIC != PCIE_SLTCTL_PIC_BLINK
}

/// The signals of a list of events.
pub open spec fn signals(events: Seq<u64>) -> Seq<PortAction> {
    Seq::new(events.len(), |i: int| PortAction::Signal(events[i]))
}

impl PcieConfigModel {
    pub open spec fn control(self) -> u16 {
        match self.slot_control {
            Some(v) => v,
            None => 0,
        }
    }

    /// The update of the mapped capability that shows the slot status.
    pub open spec fn mirror(self) -> Seq<PortAction> {
        if self.cap_mapped {
            seq![
                PortAction::SetCapReg {
                    reg: PCIE_SLTCTL_OFFSET / 4,
                    value: (self.slot_status as u32) << 16,
                    mask: 0xffff_0000,
                },
            ]
        } else {
            Seq::empty()
        }
    }

    pub open spec fn with_status(self, slot_status: u16) -> Self {
        PcieConfigModel { slot_status, ..self }
    }

    /// The state after a hot plug interrupt: presence is marked as changed where
    /// the guest has enabled hot plug interrupts.
    pub open spec fn after_hp(self) -> Self {
        if self.control() & PCIE_SLTCTL_HPIE != 0 {
            self.with_status(self.slot_status | PCIE_SLTSTA_PDC)
        } else {
            self
        }
    }

    pub open spec fn hp_effects(self) -> Seq<PortAction> {
        if self.control() & PCIE_SLTCTL_HPIE != 0 {
            let wanted = self.after_hp().slot_status & self.control() & (PCIE_SLTCTL_ABPE
                | PCIE_SLTCTL_PDCE) != 0;
            self.after_hp().mirror() + msi_if(wanted, self.msi)
        } else {
            Seq::empty()
        }
    }

    /// What a read of the register at `offset` shows, if there is one.
    pub open spec fn read(self, root: PcieRootCap, offset: int) -> Option<u32> {
        let is_root = self.port_type == PcieDevicePortType::RootPort;
        if offset == PCIE_SLTCTL_OFFSET {
            Some(((self.slot_status as u32) << 16) | (self.control() as u32))
        } else if offset == PCIE_ROOTCTL_OFFSET {
            Some(
                if is_root {
                    root.control as u32
                } else {
                    0
                },
            )
        } else if offset == PCIE_ROOTSTA_OFFSET {
            Some(
                if is_root {
                    root.status
                } else {
                    0
                },
            )
        } else {
            None
        }
    }

    /// The guest's first write that enables hot plug.
    pub open spec fn becomes_enabled(self, value: u16) -> bool {
        !self.enabled && hotplug_enables(value)
    }

    /// The device is detached: the slot is populated and is powered off.
    pub open spec fn detaches(self, value: u16) -> bool {
        self.slot_status & PCIE_SLTSTA_PDS != 0 && powers_off(self.control(), value)
    }

    /// A deferred hot plug interrupt can be delivered.
    pub open spec fn delivers_deferred(self, value: u16) -> bool {
        &&& self.hp_interrupt_pending
        &&& self.control() & PCIE_SLTCTL_HPIE == 0
        &&& value & PCIE_SLTCTL_HPIE != 0
    }

    /// The state once `value` is in place, before any interrupt.
    pub open spec fn sltctl_stored(self, value: u16) -> Self {
        PcieConfigModel {
            slot_control: Some(value),
            enabled: self.enabled || hotplug_enables(value),
            ready_notifications: if self.becomes_enabled(value) {
                Seq::empty()
            } else {
                self.ready_notifications
            },
            removed_downstream_valid: self.detaches(value),
            slot_status: if self.detaches(value) {
                self.slot_status & !PCIE_SLTSTA_PDS
            } else {
                self.slot_status
            },
            ..self
        }
    }

    /// The state after the interrupt for a detached device.
    pub open spec fn sltctl_detached(self, value: u16) -> Self {
        if self.detaches(value) {
            self.sltctl_stored(value).after_hp()
        } else {
            self.sltctl_stored(value)
        }
    }

    /// The state after a deferred interrupt.
    pub open spec fn sltctl_delivered(self, value: u16) -> Self {
        if self.delivers_deferred(value) {
            PcieConfigModel {
                hp_interrupt_pending: false,
                ..self.sltctl_detached(value)
            }.after_hp()
        } else {
            self.sltctl_detached(value)
        }
    }

    /// The state after slot control went from `from` to `to`. A change completes
    /// a command; where it ends the blinking, whoever waits for the operation is
    /// told at the next slot status write.
    pub open spec fn after_command(self, from: u16, to: u16) -> Self {
        if from != to {
            PcieConfigModel {
                slot_status: self.slot_status | PCIE_SLTSTA_CC,
                hpc_sender: if stops_blinking(from, to) && self.hpc_sender is Some {
                    Some(HotPlugCompleteSender { armed: true, ..self.hpc_sender->0 })
                } else {
                    self.hpc_sender
                },
                ..self
            }
        } else {
            self
        }
    }

    /// The state after a write of slot control.
    pub open spec fn after_sltctl(self, value: u16) -> Self {
        self.sltctl_delivered(value).after_command(self.control(), value)
    }

    /// Who waits for the slot to become ready is told.
    pub open spec fn ready_effects(self, value: u16) -> Seq<PortAction> {
        if self.becomes_enabled(value) {
            signals(self.ready_notifications)
        } else {
            Seq::empty()
        }
    }

    pub open spec fn detach_effects(self, value: u16) -> Seq<PortAction> {
        if self.detaches(value) {
            self.sltctl_stored(value).hp_effects()
        } else {
            Seq::empty()
        }
    }

    pub open spec fn deferred_effects(self, value: u16) -> Seq<PortAction> {
        if self.delivers_deferred(value) {
            self.sltctl_detached(value).hp_effects()
        } else {
            Seq::empty()
        }
    }

    pub open spec fn command_effects(self, value: u16) -> Seq<PortAction> {
        msi_if(self.control() != value && value & PCIE_SLTCTL_CCIE != 0, self.msi)
    }

    pub open spec fn sltctl_effects(self, value: u16) -> Seq<PortAction> {
        self.ready_effects(value) + self.detach_effects(value) + self.deferred_effects(value)
            + self.command_effects(value)
    }

    /// The completion of a hot plug operation is due.
    pub open spec fn completes(self) -> bool {
        self.hpc_sender is Some && self.hpc_sender->0.armed
    }

    /// The state after a slot status write: a due completion is sent off, and
    /// the bits that a word names are cleared.
    pub open spec fn after_sltsta(self, data: Seq<u8>) -> Self {
        let m = if self.completes() {
            PcieConfigModel { hpc_sender: None, ..self }
        } else {
            self
        };
        if data.len() == 2 {
            m.with_status(self.slot_status & !(word(data) & PCIE_SLTSTA_W1C))
        } else {
            m
        }
    }

    pub open spec fn sltsta_effects(self) -> Seq<PortAction> {
        if self.completes() {
            seq![PortAction::Signal(self.hpc_sender->0.sender)]
        } else {
            Seq::empty()
        }
    }

    /// The state after a write to the register at `offset`. A port without a
    /// slot ignores slot registers, and a slot or root control register takes
    /// words only.
    pub open spec fn write(self, offset: int, data: Seq<u8>) -> Self {
        let m = PcieConfigModel { removed_downstream_valid: false, ..self };
        if self.slot_control is None {
            m
        } else if offset == PCIE_SLTCTL_OFFSET && data.len() == 2 {
            m.after_sltctl(word(data))
        } else if offset == PCIE_SLTSTA_OFFSET {
            m.after_sltsta(data)
        } else {
            m
        }
    }

    /// The root capability after a write to the register at `offset`.
    pub open spec fn root_write(self, root: PcieRootCap, offset: int, data: Seq<u8>) -> PcieRootCap {
        if self.port_type != PcieDevicePortType::RootPort {
            root
        } else if offset == PCIE_ROOTCTL_OFFSET && data.len() == 2 {
            PcieRootCap { control: word(data), ..root }
        } else if offset == PCIE_ROOTSTA_OFFSET && data.len() == 4 {
            root.after_status_write(bytes::le_value(data) as u32)
        } else {
            root
        }
    }

    pub open spec fn write_effects(self, root: PcieRootCap, offset: int, data: Seq<u8>) -> Seq<
        PortAction,
    > {
        if offset == PCIE_SLTCTL_OFFSET && data.len() == 2 && self.slot_control is Some {
            self.sltctl_effects(word(data))
        } else if offset == PCIE_SLTSTA_OFFSET && self.slot_control is Some {
            self.sltsta_effects()
        } else if offset == PCIE_ROOTSTA_OFFSET && data.len() == 4 && self.port_type
            == PcieDevicePortType::RootPort {
            root.status_write_effects(bytes::le_value(data) as u32)
        } else {
            Seq::empty()
        }
    }
}

/// The word in two bytes.
pub open spec fn word(data: Seq<u8>) -> u16 {
    bytes::le_value(data) as u16
}

/// The capability of a port as the guest sees it.
#[derive(Debug)]
pub struct PcieConfig {
    pub msi: Option<u64>,
    /// `None` where the port has no slot.
    pub slot_control: Option<u16>,
    pub slot_status: u16,
    /// Index of the root capability of the root port that this port is or lies
    /// behind.
    pub root_cap: usize,
    pub port_type: PcieDevicePortType,
    pub hpc_sender: Option<HotPlugCompleteSender>,
    pub hp_interrupt_pending: bool,
    pub removed_downstream_valid: bool,
    pub enabled: bool,
    pub hot_plug_ready_notifications: Vec<u64>,
    /// Whether the guest maps the capability.
    pub cap_mapped: bool,
}

impl View for PcieConfig {
    type V = PcieConfigModel;

    open spec fn view(&self) -> PcieConfigModel {
        PcieConfigModel {
            msi: self.msi,
            slot_control: self.slot_control,
            slot_status: self.slot_status,
            root_cap: self.root_cap,
            port_type: self.port_type,
            hpc_sender: self.hpc_sender,
            hp_interrupt_pending: self.hp_interrupt_pending,
            removed_downstream_valid: self.removed_downstream_valid,
            enabled: self.enabled,
            ready_notifications: self.hot_plug_ready_notifications@,
            cap_mapped: self.cap_mapped,
        }
    }
}

proof fn w1c_steps(s: u16, v: u16)
    ensures
        ({
            let s1 = if v & 0x01u16 != 0 {
                s & !0x01u16
            } else {
                s
            };
            let s2 = if v & 0x02u16 != 0 {
                s1 & !0x02u16
            } else {
                s1
            };
            let s3 = if v & 0x08u16 != 0 {
                s2 & !0x08u16
            } else {
                s2
            };
            let s4 = if v & 0x10u16 != 0 {
                s3 & !0x10u16
            } else {
                s3
            };
            let s5 = if v & 0x100u16 != 0 {
                s4 & !0x100u16
            } else {
                s4
            };
            s5 == s & !(v & 0x11Bu16)
        }),
{
    assert({
        let s1 = if v & 0x01u16 != 0 {
            s & !0x01u16
        } else {
            s
        };
        let s2 = if v & 0x02u16 != 0 {
            s1 & !0x02u16
        } else {
            s1
        };
        let s3 = if v & 0x08u16 != 0 {
            s2 & !0x08u16
        } else {
            s2
        };
        let s4 = if v & 0x10u16 != 0 {
            s3 & !0x10u16
        } else {
            s3
        };
        let s5 = if v & 0x100u16 != 0 {
            s4 & !0x100u16
        } else {
            s4
        };
        s5 == s & !(v & 0x11Bu16)
    }) by (bit_vector);
}

proof fn sltctl_bits(s: u16, v: u16)
    by (bit_vector)
    ensures
        (s | 0x10u16) & 0x10u16 != 0,
        (v & 0x20u16 == 0x20u16) == (v & 0x20u16 != 0),
{
}

proof fn concat4(
    o: Seq<PortAction>,
    a: Seq<PortAction>,
    b: Seq<PortAction>,
    c: Seq<PortAction>,
    d: Seq<PortAction>,
)
    ensures
        o + a + b + c + d == o + (a + b + c + d),
{
    assert(o + a + b + c + d =~= o + (a + b + c + d));
}

impl PcieConfig {
    /// A new capability: a slot starts with both indicators off.
    pub fn new(root_cap: usize, slot_implemented: bool, port_type: PcieDevicePortType) -> (r: Self)
        ensures
            r@ == (PcieConfigModel {
                msi: None,
                slot_control: if slot_implemented {
                    Some(PCIE_SLTCTL_PIC_OFF | PCIE_SLTCTL_AIC_OFF)
                } else {
                    None
                },
                slot_status: 0,
                root_cap,
                port_type,
                hpc_sender: None,
                hp_interrupt_pending: false,
                removed_downstream_valid: false,
                enabled: false,
                ready_notifications: Seq::empty(),
                cap_mapped: false,
            }),
    {
        PcieConfig {
            msi: None,
            slot_control: if slot_implemented {
                Some(PCIE_SLTCTL_PIC_OFF | PCIE_SLTCTL_AIC_OFF)
            } else {
                None
            },
            slot_status: 0,
            root_cap,
            port_type,
            hpc_sender: None,
            hp_interrupt_pending: false,
            removed_downstream_valid: false,
            enabled: false,
            hot_plug_ready_notifications: Vec::new(),
            cap_mapped: false,
        }
    }

    pub fn get_slot_control(&self) -> (r: u16)
        ensures
            r == self@.control(),
    {
        match self.slot_control {
            Some(v) => v,
            None => 0,
        }
    }

    pub fn get_slot_status(&self) -> (r: u16)
        ensures
            r == self@.slot_status,
    {
        self.slot_status
    }

    /// Reads a register of the capability; other offsets leave `data` alone.
    pub fn read_pcie_cap(&self, caps: &PcieRootCaps, offset: usize, data: &mut u32)
        requires
            self.root_cap < caps@.len(),
        ensures
            *final(data) == (match self@.read(caps@[self.root_cap as int], offset as int) {
                Some(v) => v,
                None => *old(data),
            }),
    {
        if offset == PCIE_SLTCTL_OFFSET {
            *data = ((self.slot_status as u32) << 16) | (self.get_slot_control() as u32);
        } else if offset == PCIE_ROOTCTL_OFFSET {
            *data =
            match self.port_type {
                PcieDevicePortType::RootPort => caps.caps[self.root_cap].control as u32,
                _ => 0,
            };
        } else if offset == PCIE_ROOTSTA_OFFSET {
            *data =
            match self.port_type {
                PcieDevicePortType::RootPort => caps.caps[self.root_cap].status,
                _ => 0,
            };
        }
    }

    /// Whether the guest has enabled what hot plug needs.
    pub fn is_hotplug_ready(&self) -> (r: bool)
        ensures
            r == hotplug_enables(self@.control()),
    {
        let slot_control: u16 = self.get_slot_control();
        (slot_control & (PCIE_SLTCTL_PDCE | PCIE_SLTCTL_ABPE)) != 0 && (slot_control
            & PCIE_SLTCTL_CCIE) != 0 && (slot_control & PCIE_SLTCTL_HPIE) != 0
    }

    /// Gets a notification for when the slot is ready for hot plug. `event` is the
    /// event that was made for it, or the error number where there is none; it is
    /// signalled at once if the slot is ready already. `failed` is the error number
    /// of signalling it or, where it waits, of cloning it, if that failed.
    pub fn get_ready_notification(
        &mut self,
        event: Result<u64, i32>,
        failed: Option<i32>,
        out: &mut Vec<PortAction>,
    ) -> (r: Result<u64, PciDeviceError>)
        ensures
            r == notification_result(hotplug_enables(old(self)@.control()), event, failed),
            final(self)@ == (if r is Ok && !hotplug_enables(old(self)@.control()) {
                PcieConfigModel {
                    ready_notifications: old(self)@.ready_notifications.push(event->Ok_0),
                    ..old(self)@
                }
            } else {
                old(self)@
            }),
            final(out)@ == old(out)@ + ready_signal(hotplug_enables(old(self)@.control()), event),
    {
        let id: u64 = match event {
            Ok(id) => id,
            Err(e) => {
                assert(out@ =~= old(out)@ + Seq::<PortAction>::empty());
                return Err(PciDeviceError::EventCreationFailed(e));
            },
        };
        if self.is_hotplug_ready() {
            out.push(PortAction::Signal(id));
            assert(out@ =~= old(out)@ + seq![PortAction::Signal(id)]);
            match failed {
                Some(e) => Err(PciDeviceError::EventSignalFailed(e)),
                None => Ok(id),
            }
        } else {
            assert(out@ =~= old(out)@ + Seq::<PortAction>::empty());
            match failed {
                Some(e) => Err(PciDeviceError::EventCloneFailed(e)),
                None => {
                    self.hot_plug_ready_notifications.push(id);
                    Ok(id)
                },
            }
        }
    }

    fn mirror_status(&self, out: &mut Vec<PortAction>)
        ensures
            final(out)@ == old(out)@ + self@.mirror(),
    {
        if self.cap_mapped {
            out.push(
                PortAction::SetCapReg {
                    reg: PCIE_SLTCTL_OFFSET / 4,
                    value: (self.slot_status as u32) << 16,
                    mask: 0xffff_0000,
                },
            );
        }
        assert(out@ =~= old(out)@ + self@.mirror());
    }

    /// Keeps the slot status bits of `mask`.
    pub fn mask_slot_status(&mut self, mask: u16, out: &mut Vec<PortAction>)
        ensures
            final(self)@ == old(self)@.with_status(old(self)@.slot_status & mask),
            final(out)@ == old(out)@ + final(self)@.mirror(),
    {
        self.slot_status = self.slot_status & mask;
        self.mirror_status(out);
    }

    /// Sets slot status bits.
    pub fn set_slot_status(&mut self, flag: u16, out: &mut Vec<PortAction>)
        ensures
            final(self)@ == old(self)@.with_status(old(self)@.slot_status | flag),
            final(out)@ == old(out)@ + final(self)@.mirror(),
    {
        self.slot_status = self.slot_status | flag;
        self.mirror_status(out);
    }

    /// Raises a hot plug interrupt where the guest has enabled it.
    pub fn trigger_hp_interrupt(&mut self, out: &mut Vec<PortAction>)
        ensures
            final(self)@ == old(self)@.after_hp(),
            final(out)@ == old(out)@ + old(self)@.hp_effects(),
    {
        let slot_control: u16 = self.get_slot_control();
        if (slot_control & PCIE_SLTCTL_HPIE) != 0 {
            self.set_slot_status(PCIE_SLTSTA_PDC, out);
            if (self.slot_status & slot_control & (PCIE_SLTCTL_ABPE | PCIE_SLTCTL_PDCE)) != 0 {
                trigger_interrupt(&self.msi, out);
            }
        }
        assert(out@ =~= old(out)@ + old(self)@.hp_effects());
    }

    fn signal_ready(&mut self, out: &mut Vec<PortAction>)
        ensures
            final(self)@ == (PcieConfigModel {
                ready_notifications: Seq::empty(),
                ..old(self)@
            }),
            final(out)@ == old(out)@ + signals(old(self)@.ready_notifications),
    {
        let ghost before = out@;
        let mut i: usize = 0;
        while i < self.hot_plug_ready_notifications.len()
            invariant
                *self == *old(self),
                i <= self.hot_plug_ready_notifications@.len(),
                out@ == before + signals(self.hot_plug_ready_notifications@).take(i as int),
            decreases self.hot_plug_ready_notifications.len() - i,
        {
            let ghost prev = out@;
            out.push(PortAction::Signal(self.hot_plug_ready_notifications[i]));
            i = i + 1;
            assert(out@ =~= before + signals(self.hot_plug_ready_notifications@).take(i as int));
        }
        assert(signals(self.hot_plug_ready_notifications@).take(i as int) =~= signals(
            self.hot_plug_ready_notifications@,
        ));
        self.hot_plug_ready_notifications = Vec::new();
    }

    fn write_sltctl(&mut self, value: u16, out: &mut Vec<PortAction>)
        requires
            old(self)@.slot_control is Some,
            !old(self)@.removed_downstream_valid,
        ensures
            final(self)@ == old(self)@.after_sltctl(value),
            final(out)@ == old(out)@ + old(self)@.sltctl_effects(value),
    {
        let ghost m = self@;
        let ghost o0 = out@;
        if !self.enabled && (value & (PCIE_SLTCTL_PDCE | PCIE_SLTCTL_ABPE)) != 0 && (value
            & PCIE_SLTCTL_CCIE) != 0 && (value & PCIE_SLTCTL_HPIE) != 0 {
            self.signal_ready(out);
            self.enabled = true;
        }
        let ghost o1 = out@;
        assert(o1 =~= o0 + m.ready_effects(value));
        let old_control: u16 = self.get_slot_control();
        self.slot_control = Some(value);
        if (self.slot_status & PCIE_SLTSTA_PDS != 0) && (value & PCIE_SLTCTL_PIC
            == PCIE_SLTCTL_PIC_OFF) && (old_control & PCIE_SLTCTL_PIC != PCIE_SLTCTL_PIC_OFF) {
            self.removed_downstream_valid = true;
            self.slot_status = self.slot_status & !PCIE_SLTSTA_PDS;
            assert(self@ =~= m.sltctl_stored(value));
            self.trigger_hp_interrupt(out);
        }
        let ghost o2 = out@;
        assert(o2 =~= o1 + m.detach_effects(value));
        assert(self@ =~= m.sltctl_detached(value));
        proof {
            sltctl_bits(self.slot_status, value);
        }
        if (old_control & PCIE_SLTCTL_HPIE == 0) && (value & PCIE_SLTCTL_HPIE == PCIE_SLTCTL_HPIE)
            && self.hp_interrupt_pending {
            self.hp_interrupt_pending = false;
            self.trigger_hp_interrupt(out);
        }
        let ghost o3 = out@;
        assert(o3 =~= o2 + m.deferred_effects(value));
        assert(self@ =~= m.sltctl_delivered(value));
        self.complete_command(old_control, value, out);
        proof {
            concat4(
                o0,
                m.ready_effects(value),
                m.detach_effects(value),
                m.deferred_effects(value),
                m.command_effects(value),
            );
        }
    }

    /// Marks a changed slot control as a completed command.
    fn complete_command(&mut self, old_control: u16, value: u16, out: &mut Vec<PortAction>)
        requires
            old(self)@.slot_control == Some(value),
        ensures
            final(self)@ == old(self)@.after_command(old_control, value),
            final(out)@ == old(out)@ + msi_if(
                old_control != value && value & PCIE_SLTCTL_CCIE != 0,
                old(self)@.msi,
            ),
    {
        if old_control != value {
            let old_pic_state: u16 = old_control & PCIE_SLTCTL_PIC;
            let pic_state: u16 = value & PCIE_SLTCTL_PIC;
            if old_pic_state == PCIE_SLTCTL_PIC_BLINK && old_pic_state != pic_state {
                if let Some(sender) = self.hpc_sender {
                    self.hpc_sender =
                    Some(HotPlugCompleteSender { sender: sender.sender, armed: true });
                }
            }
            proof {
                sltctl_bits(self.slot_status, value);
            }
            self.slot_status = self.slot_status | PCIE_SLTSTA_CC;
            self.trigger_cc_interrupt(out);
        }
        assert(out@ =~= old(out)@ + msi_if(
            old_control != value && value & PCIE_SLTCTL_CCIE != 0,
            old(self)@.msi,
        ));
    }

    /// Raises a command completed interrupt where the guest has enabled it.
    pub fn trigger_cc_interrupt(&self, out: &mut Vec<PortAction>)
        ensures
            final(out)@ == old(out)@ + msi_if(
                self@.control() & PCIE_SLTCTL_CCIE != 0 && self@.slot_status & PCIE_SLTSTA_CC != 0,
                self@.msi,
            ),
    {
        if (self.get_slot_control() & PCIE_SLTCTL_CCIE) != 0 && (self.slot_status & PCIE_SLTSTA_CC)
            != 0 {
            trigger_interrupt(&self.msi, out);
        }
        assert(out@ =~= old(out)@ + msi_if(
            self@.control() & PCIE_SLTCTL_CCIE != 0 && self@.slot_status & PCIE_SLTSTA_CC != 0,
            self@.msi,
        ));
    }

    fn write_sltsta(&mut self, data: &[u8], out: &mut Vec<PortAction>)
        ensures
            final(self)@ == old(self)@.after_sltsta(data@),
            final(out)@ == old(out)@ + old(self)@.sltsta_effects(),
    {
        if let Some(sender) = self.hpc_sender {
            if sender.armed {
                out.push(PortAction::Signal(sender.sender));
                self.hpc_sender = None;
            }
        }
        assert(out@ =~= old(out)@ + old(self)@.sltsta_effects());
        if data.len() != 2 {
            return ;
        }
        let value: u16 = read_word(data);
        proof {
            w1c_steps(self.slot_status, value);
        }
        if value & PCIE_SLTSTA_ABP != 0 {
            self.slot_status = self.slot_status & !PCIE_SLTSTA_ABP;
        }
        if value & PCIE_SLTSTA_PFD != 0 {
            self.slot_status = self.slot_status & !PCIE_SLTSTA_PFD;
        }
        if value & PCIE_SLTSTA_PDC != 0 {
            self.slot_status = self.slot_status & !PCIE_SLTSTA_PDC;
        }
        if value & PCIE_SLTSTA_CC != 0 {
            self.slot_status = self.slot_status & !PCIE_SLTSTA_CC;
        }
        if value & PCIE_SLTSTA_DLLSC != 0 {
            self.slot_status = self.slot_status & !PCIE_SLTSTA_DLLSC;
        }
    }

    /// The guest writes `data` to the capability at `offset`.
    pub fn write_pcie_cap(
        &mut self,
        caps: &mut PcieRootCaps,
        offset: usize,
        data: &[u8],
        out: &mut Vec<PortAction>,
    )
        requires
            old(self)@.root_cap < old(caps)@.len(),
        ensures
            final(self)@ == old(self)@.write(offset as int, data@),
            final(caps)@ == old(caps)@.update(
                old(self)@.root_cap as int,
                old(self)@.root_write(
                    old(caps)@[old(self)@.root_cap as int],
                    offset as int,
                    data@,
                ),
            ),
            final(out)@ == old(out)@ + old(self)@.write_effects(
                old(caps)@[old(self)@.root_cap as int],
                offset as int,
                data@,
            ),
    {
        let ghost caps0 = caps@;
        let ghost at = self.root_cap as int;
        assert(caps0.update(at, caps0[at]) =~= caps0);
        assert(out@ + Seq::<PortAction>::empty() =~= out@);
        self.removed_downstream_valid = false;
        if offset == PCIE_SLTCTL_OFFSET {
            if data.len() != 2 || self.slot_control.is_none() {
                return ;
            }
            let value: u16 = read_word(data);
            self.write_sltctl(value, out);
        } else if offset == PCIE_SLTSTA_OFFSET {
            if self.slot_control.is_none() {
                return ;
            }
            self.write_sltsta(data, out);
        } else if offset == PCIE_ROOTCTL_OFFSET {
            if data.len() != 2 {
                return ;
            }
            let v: u16 = read_word(data);
            match self.port_type {
                PcieDevicePortType::RootPort => {
                    let mut root: PcieRootCap = caps.caps[self.root_cap];
                    root.control = v;
                    caps.caps.set(self.root_cap, root);
                },
                _ => {},
            }
        } else if offset == PCIE_ROOTSTA_OFFSET {
            if data.len() != 4 {
                return ;
            }
            let v: u32 = bytes::read_le_u32(data);
            match self.port_type {
                PcieDevicePortType::RootPort => {
                    let mut root: PcieRootCap = caps.caps[self.root_cap];
                    root.write_status(v, out);
                    caps.caps.set(self.root_cap, root);
                },
                _ => {},
            }
        }
    }

    /// The registers of the capability that the port answers itself: a mask for
    /// each double word.
    pub fn read_mask() -> (r: Vec<u32>)
        ensures
            r@.len() == PCIE_CAP_LEN / 4,
            forall|i: int|
                0 <= i < r@.len() ==> r@[i] == (if i == PCIE_SLTCTL_OFFSET / 4 || i
                    == PCIE_ROOTCTL_OFFSET / 4 || i == PCIE_ROOTSTA_OFFSET / 4 {
                    0xffff_ffffu32
                } else {
                    0u32
                }),
    {
        let mut arr: Vec<u32> = Vec::new();
        let mut i: usize = 0;
        while i < PCIE_CAP_LEN / 4
            invariant
                arr@.len() == i <= PCIE_CAP_LEN / 4,
                forall|j: int| 0 <= j < i ==> arr@[j] == 0,
            decreases PCIE_CAP_LEN / 4 - i,
        {
            arr.push(0);
            i = i + 1;
        }
        arr.set(PCIE_SLTCTL_OFFSET / 4, 0xffff_ffff);
        arr.set(PCIE_ROOTCTL_OFFSET / 4, 0xffff_ffff);
        arr.set(PCIE_ROOTSTA_OFFSET / 4, 0xffff_ffff);
        arr
    }

    /// Reads double word `reg_idx` of the capability; zero where the port does
    /// not answer itself.
    pub fn read_reg(&self, caps: &PcieRootCaps, reg_idx: usize) -> (r: u32)
        requires
            self.root_cap < caps@.len(),
            reg_idx * 4 <= usize::MAX,
        ensures
            r == (match self@.read(caps@[self.root_cap as int], reg_idx * 4) {
                Some(v) => v,
                None => 0,
            }),
    {
        let mut data: u32 = 0;
        self.read_pcie_cap(caps, reg_idx * 4, &mut data);
        data
    }

    /// Writes at `offset` within double word `reg_idx` of the capability.
    pub fn write_reg(
        &mut self,
        caps: &mut PcieRootCaps,
        reg_idx: usize,
        offset: u64,
        data: &[u8],
        out: &mut Vec<PortAction>,
    )
        requires
            old(self)@.root_cap < old(caps)@.len(),
            reg_idx * 4 + offset <= usize::MAX,
        ensures
            final(self)@ == old(self)@.write(reg_idx * 4 + offset, data@),
            final(caps)@ == old(caps)@.update(
                old(self)@.root_cap as int,
                old(self)@.root_write(
                    old(caps)@[old(self)@.root_cap as int],
                    reg_idx * 4 + offset,
                    data@,
                ),
            ),
            final(out)@ == old(out)@ + old(self)@.write_effects(
                old(caps)@[old(self)@.root_cap as int],
                reg_idx * 4 + offset,
                data@,
            ),
    {
        self.write_pcie_cap(caps, reg_idx * 4 + offset as usize, data, out);
    }

    /// The guest maps the capability.
    pub fn set_cap_mapping(&mut self)
        ensures
            final(self)@ == (PcieConfigModel { cap_mapped: true, ..old(self)@ }),
    {
        self.cap_mapped = true;
    }
}

/// The word in two bytes.
fn read_word(data: &[u8]) -> (v: u16)
    requires
        data@.len() == 2,
    ensures
        v == word(data@),
{
    let v: u64 = bytes::le_number(data);
    proof {
        bytes::le_value_bound(data@);
        reveal_with_fuel(bytes::pow256, 3);
    }
    v as u16
}

/// What a port takes over from a port of the host.
#[derive(Debug)]
pub struct PcieHostPort {
    pub device_id: u16,
    pub name: String,
    /// The address that `name` spells, if it spells one.
    pub address: Option<PciAddress>,
    pub bus_range: PciBridgeBusRange,
    /// Sizes of the memory and the prefetchable window.
    pub window: (u64, u64),
}

/// What is to be asked of the PCI address allocator.
#[derive(Clone, Copy, Debug, PartialEq, Eq, Structural)]
pub enum AddressRequest {
    /// Nothing: the port has an address.
    Nothing,
    /// Reserve this address.
    Reserve(PciAddress),
    /// Allocate an address on this bus.
    Allocate(u8),
}

/// A PCI Express port.
#[derive(Debug)]
pub struct PciePort {
    pub device_id: u16,
    pub debug_label: String,
    pub preferred_address: Option<PciAddress>,
    pub pci_address: Option<PciAddress>,
    pub bus_range: PciBridgeBusRange,
    /// Window sizes of the host port, where there is one.
    pub host_window: Option<(u64, u64)>,
    pub pcie_config: PcieConfig,
    pub prepare_hotplug: bool,
}

impl PciePort {
    /// The port's root capability is among `caps`.
    pub open spec fn rooted(self, caps: Seq<PcieRootCap>) -> bool {
        self.pcie_config@.root_cap < caps.len()
    }

    pub open spec fn root(self, caps: Seq<PcieRootCap>) -> PcieRootCap {
        caps[self.pcie_config@.root_cap as int]
    }

    /// Everything but the capability is as in `other`.
    pub open spec fn same_identity(self, other: Self) -> bool {
        &&& self.device_id == other.device_id
        &&& self.debug_label@ == other.debug_label@
        &&& self.preferred_address == other.preferred_address
        &&& self.pci_address == other.pci_address
        &&& self.bus_range == other.bus_range
        &&& self.host_window == other.host_window
        &&& self.prepare_hotplug == other.prepare_hotplug
    }

    /// A port that was just made, with the given root capability.
    pub open spec fn fresh(self, slot: bool, port_type: PcieDevicePortType, root_cap: int) -> bool {
        let c = self.pcie_config@;
        &&& self.pci_address is None
        &&& !self.prepare_hotplug
        &&& c.slot_control == (if slot {
            Some(PCIE_SLTCTL_PIC_OFF | PCIE_SLTCTL_AIC_OFF)
        } else {
            None
        })
        &&& c.slot_status == 0
        &&& c.root_cap == root_cap
        &&& c.port_type == port_type
        &&& c.msi is None
        &&& c.hpc_sender is None
        &&& !c.hp_interrupt_pending
        &&& !c.removed_downstream_valid
        &&& !c.enabled
        &&& c.ready_notifications =~= Seq::empty()
        &&& !c.cap_mapped
    }

    /// The root capability that a new port uses, and the capabilities after its
    /// creation: a root port adds its own.
    fn find_root(
        caps: &mut PcieRootCaps,
        bus_range: PciBridgeBusRange,
        port_type: PcieDevicePortType,
    ) -> (r: usize)
        requires
            port_type == PcieDevicePortType::RootPort ==> old(caps)@.len() < usize::MAX,
            port_type != PcieDevicePortType::RootPort ==> exists|i: int|
                #[trigger] covering(old(caps)@, bus_range.primary, i),
        ensures
            port_type == PcieDevicePortType::RootPort ==> {
                &&& r == old(caps)@.len()
                &&& final(caps)@ == old(caps)@.push(PcieRootCap::initial(bus_range.secondary, bus_range.subordinate))
            },
            port_type != PcieDevicePortType::RootPort ==> {
                &&& covering(old(caps)@, bus_range.primary, r as int)
                &&& final(caps)@ == old(caps)@
            },
    {
        match port_type {
            PcieDevicePortType::RootPort => caps.push_pcie_root_cap(
                PcieRootCap::new(bus_range.secondary, bus_range.subordinate),
            ),
            _ => {
                let found = caps.get_pcie_root_cap(bus_range.primary);
                assert(found is Some) by {
                    let i = choose|i: int| #[trigger] covering(caps@, bus_range.primary, i);
                    assert(caps@[i].covers(bus_range.primary));
                }
                match found {
                    Some(i) => i,
                    None => 0,
                }
            },
        }
    }

    /// A port without a host port. A port that is no root port must lie behind
    /// one.
    pub fn new(
        caps: &mut PcieRootCaps,
        device_id: u16,
        debug_label: String,
        primary_bus_num: u8,
        secondary_bus_num: u8,
        slot_implemented: bool,
        port_type: PcieDevicePortType,
    ) -> (r: Self)
        requires
            port_type == PcieDevicePortType::RootPort ==> old(caps)@.len() < usize::MAX,
            port_type != PcieDevicePortType::RootPort ==> exists|i: int|
                #[trigger] covering(old(caps)@, primary_bus_num, i),
        ensures
            r.rooted(final(caps)@),
            r.fresh(slot_implemented, port_type, r.pcie_config@.root_cap as int),
            r.device_id == device_id,
            r.debug_label@ == debug_label@,
            r.preferred_address is None,
            r.host_window is None,
            r.bus_range == (PciBridgeBusRange {
                primary: primary_bus_num,
                secondary: secondary_bus_num,
                subordinate: secondary_bus_num,
            }),
            port_type == PcieDevicePortType::RootPort ==> {
                &&& r.pcie_config@.root_cap == old(caps)@.len()
                &&& final(caps)@ == old(caps)@.push(
                    PcieRootCap {
                        secondary_bus_num,
                        subordinate_bus_num: secondary_bus_num,
                        control: 0,
                        status: 0,
                        pme_pending_requester_id: None,
                        msi: None,
                    },
                )
            },
            port_type != PcieDevicePortType::RootPort ==> {
                &&& covering(old(caps)@, primary_bus_num, r.pcie_config@.root_cap as int)
                &&& final(caps)@ == old(caps)@
            },
    {
        let bus_range = PciBridgeBusRange {
            primary: primary_bus_num,
            secondary: secondary_bus_num,
            subordinate: secondary_bus_num,
        };
        let root_cap: usize = Self::find_root(caps, bus_range, port_type);
        PciePort {
            device_id,
            debug_label,
            preferred_address: None,
            pci_address: None,
            bus_range,
            host_window: None,
            pcie_config: PcieConfig::new(root_cap, slot_implemented, port_type),
            prepare_hotplug: false,
        }
    }

    /// A port that stands for a port of the host, at the address that the
    /// host port's name spells.
    pub fn new_from_host(
        caps: &mut PcieRootCaps,
        pcie_host: PcieHostPort,
        slot_implemented: bool,
        port_type: PcieDevicePortType,
    ) -> (r: Result<Self, PciDeviceError>)
        requires
            port_type == PcieDevicePortType::RootPort ==> old(caps)@.len() < usize::MAX,
            port_type != PcieDevicePortType::RootPort ==> exists|i: int|
                #[trigger] covering(old(caps)@, pcie_host.bus_range.primary, i),
        ensures
            r is Ok <==> pcie_host.address is Some,
            r is Err ==> {
                &&& r->Err_0 is PciAddressParseFailure
                &&& r->Err_0->PciAddressParseFailure_0@ == pcie_host.name@
                &&& final(caps)@ == old(caps)@
            },
            r is Ok ==> {
                let port = r->Ok_0;
                &&& port.rooted(final(caps)@)
                &&& port.fresh(slot_implemented, port_type, port.pcie_config@.root_cap as int)
                &&& port.device_id == pcie_host.device_id
                &&& port.debug_label@ == pcie_host.name@
                &&& port.preferred_address == pcie_host.address
                &&& port.host_window == Some(pcie_host.window)
                &&& port.bus_range == pcie_host.bus_range
                &&& port_type == PcieDevicePortType::RootPort ==> {
                    &&& port.pcie_config@.root_cap == old(caps)@.len()
                    &&& final(caps)@ == old(caps)@.push(PcieRootCap::initial(pcie_host.bus_range.secondary, pcie_host.bus_range.subordinate))
                }
                &&& port_type != PcieDevicePortType::RootPort ==> {
                    &&& covering(
                        old(caps)@,
                        pcie_host.bus_range.primary,
                        port.pcie_config@.root_cap as int,
                    )
                    &&& final(caps)@ == old(caps)@
                }
            },
    {
        match pcie_host.address {
            None => Err(PciDeviceError::PciAddressParseFailure(pcie_host.name)),
            Some(address) => {
                let root_cap: usize = Self::find_root(caps, pcie_host.bus_range, port_type);
                Ok(
                    PciePort {
                        device_id: pcie_host.device_id,
                        debug_label: pcie_host.name,
                        preferred_address: Some(address),
                        pci_address: None,
                        bus_range: pcie_host.bus_range,
                        host_window: Some(pcie_host.window),
                        pcie_config: PcieConfig::new(root_cap, slot_implemented, port_type),
                        prepare_hotplug: false,
                    },
                )
            },
        }
    }

    pub fn get_device_id(&self) -> (r: u16)
        ensures
            r == self.device_id,
    {
        self.device_id
    }

    pub fn get_address(&self) -> (r: Option<PciAddress>)
        ensures
            r == self.pci_address,
    {
        self.pci_address
    }

    pub fn debug_label(&self) -> (r: String)
        ensures
            r@ == self.debug_label@,
    {
        self.debug_label.clone()
    }

    pub fn preferred_address(&self) -> (r: Option<PciAddress>)
        ensures
            r == self.preferred_address,
    {
        self.preferred_address
    }

    /// What to ask of the allocator before `allocate_address`.
    pub fn address_request(&self) -> (r: AddressRequest)
        ensures
            r == (match (self.pci_address, self.preferred_address) {
                (Some(_), _) => AddressRequest::Nothing,
                (None, Some(address)) => AddressRequest::Reserve(address),
                (None, None) => AddressRequest::Allocate(self.bus_range.primary),
            }),
    {
        match (self.pci_address, self.preferred_address) {
            (Some(_), _) => AddressRequest::Nothing,
            (None, Some(address)) => AddressRequest::Reserve(address),
            (None, None) => AddressRequest::Allocate(self.bus_range.primary),
        }
    }

    /// The address of the port, given what the allocator answered: whether it
    /// reserved the preferred address, or which address it allocated. An
    /// address once given stays.
    pub fn allocate_address(&mut self, reserved: bool, allocated: Option<PciAddress>) -> (r: Result<
        PciAddress,
        PciDeviceError,
    >)
        ensures
            final(self).pci_address == (match (old(self).pci_address, old(self).preferred_address) {
                (Some(have), _) => Some(have),
                (None, Some(address)) => if reserved {
                    Some(address)
                } else {
                    None
                },
                (None, None) => allocated,
            }),
            r == (match final(self).pci_address {
                Some(address) => Ok::<PciAddress, PciDeviceError>(address),
                None => Err(PciDeviceError::PciAllocationFailed),
            }),
            *final(self) == (PciePort { pci_address: final(self).pci_address, ..*old(self) }),
    {
        if self.pci_address.is_none() {
            match self.preferred_address {
                Some(address) => {
                    self.pci_address = if reserved {
                        Some(address)
                    } else {
                        None
                    };
                },
                None => {
                    self.pci_address = allocated;
                },
            }
        }
        match self.pci_address {
            Some(address) => Ok(address),
            None => Err(PciDeviceError::PciAllocationFailed),
        }
    }

    /// The guest changed the power state of the port: a hot plug that was
    /// prepared is probed when the port wakes up.
    pub fn handle_cap_write_result(
        &mut self,
        from: PciDevicePower,
        to: PciDevicePower,
        out: &mut Vec<PortAction>,
    )
        ensures
            ({
                let probes = from == PciDevicePower::D3 && to == PciDevicePower::D0 && old(
                    self,
                ).prepare_hotplug && old(self).host_window is Some;
                &&& final(out)@ == (if probes {
                    old(out)@.push(PortAction::HotplugProbe)
                } else {
                    old(out)@
                })
                &&& *final(self) == (PciePort {
                    prepare_hotplug: old(self).prepare_hotplug && !probes,
                    ..*old(self)
                })
            }),
    {
        if from == PciDevicePower::D3 && to == PciDevicePower::D0 && self.prepare_hotplug {
            if self.host_window.is_some() {
                out.push(PortAction::HotplugProbe);
                self.prepare_hotplug = false;
            }
        }
    }

    pub fn get_bus_range(&self) -> (r: Option<PciBridgeBusRange>)
        ensures
            r == Some(self.bus_range),
    {
        Some(self.bus_range)
    }

    /// Sizes of the memory and the prefetchable window.
    pub fn get_bridge_window_size(&self) -> (r: (u64, u64))
        ensures
            r == (match self.host_window {
                Some(window) => window,
                None => (PCIE_BR_MEM_SIZE, PCIE_BR_PREF_MEM_SIZE),
            }),
    {
        match self.host_window {
            Some(window) => window,
            None => (PCIE_BR_MEM_SIZE, PCIE_BR_PREF_MEM_SIZE),
        }
    }

    pub fn get_slot_control(&self) -> (r: u16)
        ensures
            r == self.pcie_config@.control(),
    {
        self.pcie_config.get_slot_control()
    }

    /// Connects the MSI of the port; a root port uses it for power management
    /// events too.
    pub fn clone_interrupt(&mut self, caps: &mut PcieRootCaps, msi: u64)
        requires
            old(self).rooted(old(caps)@),
        ensures
            final(self).same_identity(*old(self)),
            final(self).pcie_config@ == (PcieConfigModel {
                msi: Some(msi),
                ..old(self).pcie_config@
            }),
            final(caps)@ == (if old(self).pcie_config@.port_type == PcieDevicePortType::RootPort {
                old(caps)@.update(
                    old(self).pcie_config@.root_cap as int,
                    PcieRootCap { msi: Some(msi), ..old(self).root(old(caps)@) },
                )
            } else {
                old(caps)@
            }),
    {
        match self.pcie_config.port_type {
            PcieDevicePortType::RootPort => {
                let mut root: PcieRootCap = caps.caps[self.pcie_config.root_cap];
                root.clone_interrupt(msi);
                caps.caps.set(self.pcie_config.root_cap, root);
            },
            _ => {},
        }
        self.pcie_config.msi = Some(msi);
    }

    /// Whether the port has a hot plug slot.
    pub fn hotplug_implemented(&self) -> (r: bool)
        ensures
            r == (self.pcie_config@.slot_control is Some),
    {
        self.pcie_config.slot_control.is_some()
    }

    /// A power management event of `requester_id` reaches the root port.
    pub fn inject_pme(&self, caps: &mut PcieRootCaps, requester_id: u16, out: &mut Vec<PortAction>)
        requires
            self.rooted(old(caps)@),
        ensures
            final(caps)@ == old(caps)@.update(
                self.pcie_config@.root_cap as int,
                self.root(old(caps)@).after_pme(requester_id),
            ),
            final(out)@ == old(out)@ + self.root(old(caps)@).pme_effects(requester_id),
    {
        let mut root: PcieRootCap = caps.caps[self.pcie_config.root_cap];
        root.inject_pme(requester_id, out);
        caps.caps.set(self.pcie_config.root_cap, root);
    }

    /// Whether a hot plug operation has not completed yet.
    pub fn is_hpc_pending(&self) -> (r: bool)
        ensures
            r == (self.pcie_config@.hpc_sender is Some),
    {
        self.pcie_config.hpc_sender.is_some()
    }

    /// `event` is to be signalled when the hot plug operation is complete.
    pub fn set_hpc_sender(&mut self, event: u64)
        ensures
            final(self).same_identity(*old(self)),
            final(self).pcie_config@ == (PcieConfigModel {
                hpc_sender: Some(HotPlugCompleteSender { sender: event, armed: false }),
                ..old(self).pcie_config@
            }),
    {
        self.pcie_config.hpc_sender = Some(HotPlugCompleteSender::new(event));
    }

    /// Tells the guest of a slot event: by a power management event where the
    /// port sleeps and may wake up (`pme`), else by a hot plug interrupt. The
    /// hot plug interrupt of a sleeping port is deferred.
    pub fn trigger_hp_or_pme_interrupt(
        &mut self,
        caps: &mut PcieRootCaps,
        pme: bool,
        out: &mut Vec<PortAction>,
    )
        requires
            old(self).rooted(old(caps)@),
            pme ==> old(self).pci_address is Some,
        ensures
            final(self).same_identity(*old(self)),
            pme ==> {
                let id = old(self).pci_address->0.requester_id();
                &&& final(self).pcie_config@ == (PcieConfigModel {
                    hp_interrupt_pending: true,
                    ..old(self).pcie_config@
                })
                &&& final(caps)@ == old(caps)@.update(
                    old(self).pcie_config@.root_cap as int,
                    old(self).root(old(caps)@).after_pme(id),
                )
                &&& final(out)@ == old(out)@ + old(self).root(old(caps)@).pme_effects(id)
            },
            !pme ==> {
                &&& final(self).pcie_config@ == old(self).pcie_config@.after_hp()
                &&& final(caps)@ == old(caps)@
                &&& final(out)@ == old(out)@ + old(self).pcie_config@.hp_effects()
            },
    {
        if pme {
            self.pcie_config.hp_interrupt_pending = true;
            if let Some(address) = self.pci_address {
                self.inject_pme(caps, address.pme_requester_id(), out);
            }
        } else {
            self.pcie_config.trigger_hp_interrupt(out);
        }
    }

    /// Whether the port stands for a port of the host.
    pub fn is_host(&self) -> (r: bool)
        ensures
            r == (self.host_window is Some),
    {
        self.host_window.is_some()
    }

    /// Whether the guest has enabled what hot plug needs.
    pub fn is_hotplug_ready(&self) -> (r: bool)
        ensures
            r == hotplug_enables(self.pcie_config@.control()),
    {
        self.pcie_config.is_hotplug_ready()
    }

    /// Gets a notification for when the slot is ready for hot plug. `event` is the
    /// event that was made for it, or the error number where there is none; it is
    /// signalled at once if the slot is ready already. `failed` is the error number
    /// of signalling it or, where it waits, of cloning it, if that failed.
    pub fn get_ready_notification(
        &mut self,
        event: Result<u64, i32>,
        failed: Option<i32>,
        out: &mut Vec<PortAction>,
    ) -> (r: Result<u64, PciDeviceError>)
        ensures
            final(self).same_identity(*old(self)),
            r == notification_result(hotplug_enables(old(self).pcie_config@.control()), event, failed),
            final(self).pcie_config@ == (if r is Ok && !hotplug_enables(old(self).pcie_config@.control()) {
                PcieConfigModel {
                    ready_notifications: old(self).pcie_config@.ready_notifications.push(event->Ok_0),
                    ..old(self).pcie_config@
                }
            } else {
                old(self).pcie_config@
            }),
            final(out)@ == old(out)@ + ready_signal(hotplug_enables(old(self).pcie_config@.control()), event),
    {
        self.pcie_config.get_ready_notification(event, failed, out)
    }

    /// Unplugs the device behind the host port, where there is one.
    pub fn hot_unplug(&self, out: &mut Vec<PortAction>)
        ensures
            final(out)@ == (if self.host_window is Some {
                old(out)@.push(PortAction::HostUnplug)
            } else {
                old(out)@
            }),
    {
        if self.host_window.is_some() {
            out.push(PortAction::HostUnplug);
        }
    }

    /// The bus behind the port, where a host device at `host_addr` belongs
    /// there. A port without a host port takes any.
    pub fn is_match(&self, host_addr: PciAddress) -> (r: Option<u8>)
        ensures
            r == (if host_addr.bus == self.bus_range.secondary || self.host_window is None {
                Some(self.bus_range.secondary)
            } else {
                None
            }),
    {
        if host_addr.bus == self.bus_range.secondary || self.host_window.is_none() {
            Some(self.bus_range.secondary)
        } else {
            None
        }
    }

    pub fn removed_downstream_valid(&self) -> (r: bool)
        ensures
            r == self.pcie_config@.removed_downstream_valid,
    {
        self.pcie_config.removed_downstream_valid
    }

    pub fn mask_slot_status(&mut self, mask: u16, out: &mut Vec<PortAction>)
        ensures
            final(self).same_identity(*old(self)),
            final(self).pcie_config@ == old(self).pcie_config@.with_status(
                old(self).pcie_config@.slot_status & mask,
            ),
            final(out)@ == old(out)@ + final(self).pcie_config@.mirror(),
    {
        self.pcie_config.mask_slot_status(mask, out);
    }

    pub fn set_slot_status(&mut self, flag: u16, out: &mut Vec<PortAction>)
        ensures
            final(self).same_identity(*old(self)),
            final(self).pcie_config@ == old(self).pcie_config@.with_status(
                old(self).pcie_config@.slot_status | flag,
            ),
            final(out)@ == old(out)@ + final(self).pcie_config@.mirror(),
    {
        self.pcie_config.set_slot_status(flag, out);
    }

    /// A device is about to be plugged in behind the host port.
    pub fn prepare_hotplug(&mut self)
        ensures
            *final(self) == (PciePort { prepare_hotplug: true, ..*old(self) }),
    {
        self.prepare_hotplug = true;
    }
}

proof fn w1c_bits(s: u16, v: u16, b: u16)
    by (bit_vector)
    ensures
        b & 0x11Bu16 == b ==> (s & !(v & 0x11Bu16)) & b == s & b & !v,
        (s & !(v & 0x11Bu16)) & !0x11Bu16 == s & !0x11Bu16,
{
}

/// A slot status write clears exactly the clearable bits that it names: among
/// clearable bits those not named stay, and all other bits stay.
pub proof fn slot_status_is_write_one_to_clear(m: PcieConfigModel, data: Seq<u8>, bits: u16)
    requires
        m.slot_control is Some,
        data.len() == 2,
        bits & PCIE_SLTSTA_W1C == bits,
    ensures
        m.write(PCIE_SLTSTA_OFFSET as int, data).slot_status & bits == m.slot_status & bits & !word(
            data,
        ),
        m.write(PCIE_SLTSTA_OFFSET as int, data).slot_status & !PCIE_SLTSTA_W1C == m.slot_status
            & !PCIE_SLTSTA_W1C,
{
    w1c_bits(m.slot_status, word(data), bits);
}

/// The list of removed devices is valid after a write only where that write
/// detached the device of a populated slot.
pub proof fn removed_devices_valid_only_on_detach(m: PcieConfigModel, offset: int, data: Seq<u8>)
    ensures
        m.write(offset, data).removed_downstream_valid <==> {
            &&& offset == PCIE_SLTCTL_OFFSET
            &&& data.len() == 2
            &&& m.slot_control is Some
            &&& m.slot_status & PCIE_SLTSTA_PDS != 0
            &&& powers_off(m.control(), word(data))
        },
{
}

/// A port without a slot ignores slot control and slot status.
pub proof fn no_slot_ignores_slot_writes(m: PcieConfigModel, root: PcieRootCap, data: Seq<u8>)
    requires
        m.slot_control is None,
        !m.removed_downstream_valid,
    ensures
        m.write(PCIE_SLTCTL_OFFSET as int, data) == m,
        m.write(PCIE_SLTSTA_OFFSET as int, data) == m,
        m.write_effects(root, PCIE_SLTCTL_OFFSET as int, data) == Seq::<PortAction>::empty(),
        m.write_effects(root, PCIE_SLTSTA_OFFSET as int, data) == Seq::<PortAction>::empty(),
{
}

proof fn pic_change(a: u16, b: u16)
    ensures
        stops_blinking(a, b) ==> a != b,
{
}

/// Whoever waits for a hot plug operation is told exactly once: at the first
/// slot status write after the power indicator stopped blinking.
pub proof fn hot_plug_completes_once(
    m: PcieConfigModel,
    event: u64,
    value: u16,
    data: Seq<u8>,
)
    requires
        m.slot_control is Some,
        m.hpc_sender == Some(HotPlugCompleteSender { sender: event, armed: false }),
        stops_blinking(m.control(), value),
    ensures
        m.sltsta_effects() == Seq::<PortAction>::empty(),
        m.after_sltctl(value).completes(),
        m.after_sltctl(value).sltsta_effects() == seq![PortAction::Signal(event)],
        m.after_sltctl(value).after_sltsta(data).hpc_sender is None,
        m.after_sltctl(value).after_sltsta(data).sltsta_effects() == Seq::<PortAction>::empty(),
{
    pic_change(m.control(), value);
}

/// A slot control write that is no change from a blinking indicator does not
/// complete a hot plug operation.
pub proof fn steady_indicator_does_not_complete(m: PcieConfigModel, value: u16)
    requires
        m.slot_control is Some,
        !stops_blinking(m.control(), value),
    ensures
        m.after_sltctl(value).hpc_sender == m.hpc_sender,
{
}

/// Writing slot control with the value that it has is no command: no status
/// bit changes and nothing is signalled but readiness.
pub proof fn same_control_is_no_command(m: PcieConfigModel)
    requires
        m.slot_control is Some,
    ensures
        m.after_sltctl(m.control()).slot_status == m.slot_status,
        m.after_sltctl(m.control()).hpc_sender == m.hpc_sender,
        m.sltctl_effects(m.control()) == m.ready_effects(m.control()),
{
    assert(m.sltctl_effects(m.control()) =~= m.ready_effects(m.control()));
}

/// Readiness is announced once: an enabled slot stays enabled and announces
/// nothing more.
pub proof fn readiness_is_announced_once(m: PcieConfigModel, value: u16)
    requires
        m.slot_control is Some,
    ensures
        hotplug_enables(value) ==> m.after_sltctl(value).enabled,
        m.enabled ==> m.after_sltctl(value).enabled,
        m.enabled ==> m.ready_effects(value) == Seq::<PortAction>::empty(),
{
}

/// A deferred hot plug interrupt is delivered when the guest enables hot plug
/// interrupts, and is then no longer deferred.
pub proof fn deferred_interrupt_is_delivered(m: PcieConfigModel, value: u16)
    requires
        m.slot_control is Some,
        m.hp_interrupt_pending,
        m.control() & PCIE_SLTCTL_HPIE == 0,
        value & PCIE_SLTCTL_HPIE != 0,
    ensures
        !m.after_sltctl(value).hp_interrupt_pending,
        m.deferred_effects(value) == m.sltctl_detached(value).hp_effects(),
{
}

proof fn pme_bits(s: u32, r: u32)
    by (bit_vector)
    requires
        r <= 0xffff,
    ensures
        ((s & !0xFFFFu32) | r | 0x1_0000u32) & 0x1_0000u32 != 0,
        ((s & !0xFFFFu32) | r | 0x1_0000u32) & 0xFFFFu32 == r,
        (s | 0x2_0000u32) & 0x1_0000u32 == s & 0x1_0000u32,
        (s & !0x1_0000u32) & 0x1_0000u32 == 0,
        0x1_0000u32 & 0x1_0000u32 != 0,
{
}

/// The requester that root status shows.
pub open spec fn shown_requester(root: PcieRootCap) -> u32 {
    root.status & PCIE_ROOTSTA_PME_REQ_ID_MASK
}

/// Power management events are shown one after the other: a second event waits
/// until the guest clears the first one, and clearing the second leaves none.
pub proof fn pme_events_queue(root: PcieRootCap, first: u16, second: u16)
    requires
        !root.pme_shown(),
    ensures
        ({
            let one = root.after_pme(first);
            let two = one.after_pme(second);
            let acked = two.after_status_write(PCIE_ROOTSTA_PME_STATUS);
            let done = acked.after_status_write(PCIE_ROOTSTA_PME_STATUS);
            &&& one.pme_shown() && shown_requester(one) == first
            &&& two.pme_shown() && two.pme_pending_requester_id == Some(second)
            &&& one.pme_effects(second) == Seq::<PortAction>::empty()
            &&& acked.pme_shown() && shown_requester(acked) == second
            &&& acked.pme_pending_requester_id is None
            &&& !done.pme_shown()
        }),
{
    let one = root.after_pme(first);
    let two = one.after_pme(second);
    let acked = two.after_status_write(PCIE_ROOTSTA_PME_STATUS);
    pme_bits(root.status, first as u32);
    pme_bits(one.status, second as u32);
    pme_bits(two.status, second as u32);
    pme_bits(two.status & !PCIE_ROOTSTA_PME_PENDING, second as u32);
    pme_bits(acked.status, second as u32);
}

pub proof fn slot_bit_facts(s: u16, c: u16)
    by (bit_vector)
    ensures
        (s | 0x08u16) & 0x08u16 != 0,
        (s | 0x08u16) & !0x08u16 == s & !0x08u16,
        ((s | 0x08u16) & c & (0x01u16 | 0x08u16) != 0) == (c & 0x08u16 != 0 || (c & 0x01u16 != 0 && s
            & 0x01u16 != 0)),
        (c & (0x08u16 | 0x01u16) != 0) == (c & 0x01u16 != 0 || c & 0x08u16 != 0),
        (s | (0x40u16 | 0x01u16)) & 0x01u16 != 0,
        (s | (0x40u16 | 0x01u16)) & 0x40u16 != 0,
        (s | 0x01u16) & 0x01u16 != 0,
        (s | 0x01u16) & 0x40u16 == s & 0x40u16,
        (s | 0x08u16) & 0x40u16 == s & 0x40u16,
        (s | 0x08u16) & 0x01u16 == s & 0x01u16,
        (s | 0x10u16) & 0x10u16 != 0,
        (s | 0x10u16) & !0x10u16 == s & !0x10u16,
        (s | 0x10u16) & 0x40u16 == s & 0x40u16,
        (s | 0x10u16) & 0x08u16 == s & 0x08u16,
        (s & !0x40u16) & 0x40u16 == 0,
        (s & !0x40u16) & 0x01u16 == s & 0x01u16,
        ((s as u32) << 16) == 0x1_0000 * s,
        (((s as u32) << 16) | (c as u32)) == 0x1_0000 * s + c,
{
}

pub proof fn concat_contains(a: Seq<PortAction>, b: Seq<PortAction>, x: PortAction)
    ensures
        (a + b).contains(x) <==> a.contains(x) || b.contains(x),
{
    if a.contains(x) {
        let i = choose|i: int| 0 <= i < a.len() && a[i] == x;
        assert((a + b)[i] == x);
    }
    if b.contains(x) {
        let i = choose|i: int| 0 <= i < b.len() && b[i] == x;
        assert((a + b)[a.len() + i] == x);
    }
}

/// A hot plug interrupt marks presence as changed and raises the port's MSI,
/// where the guest has enabled hot plug interrupts together with the change of
/// presence, or with the attention button while that is pressed. A guest that
/// has not enabled hot plug interrupts sees nothing.
pub proof fn hot_plug_interrupt_reaches_the_guest(m: PcieConfigModel, id: u64)
    ensures
        m.control() & 0x20 != 0 ==> m.after_hp().slot_status & 0x08 != 0,
        m.after_hp().slot_status & !0x08u16 == m.slot_status & !0x08u16,
        m.hp_effects().contains(PortAction::TriggerMsi(id)) <==> {
            &&& m.msi == Some(id)
            &&& m.control() & 0x20 != 0
            &&& m.control() & 0x08 != 0 || (m.control() & 0x01 != 0 && m.slot_status & 0x01 != 0)
        },
        m.control() & 0x20 == 0 ==> m.after_hp() == m && m.hp_effects().len() == 0,
{
    slot_bit_facts(m.slot_status, m.control());
    let msi = msi_if(
        m.after_hp().slot_status & m.control() & (PCIE_SLTCTL_ABPE | PCIE_SLTCTL_PDCE) != 0,
        m.msi,
    );
    if msi.len() > 0 {
        assert(msi[0] == PortAction::TriggerMsi(m.msi->0));
    }
    concat_contains(m.after_hp().mirror(), msi, PortAction::TriggerMsi(id));
}

/// The mapped capability shows the slot status in the upper half of the
/// register of slot control.
pub proof fn mapped_capability_shows_the_status(m: PcieConfigModel)
    ensures
        m.cap_mapped ==> m.mirror() == seq![
            PortAction::SetCapReg {
                reg: 6,
                value: (0x1_0000 * m.slot_status) as u32,
                mask: 0xffff_0000,
            },
        ],
        !m.cap_mapped ==> m.mirror() == Seq::<PortAction>::empty(),
        m.cap_mapped && m.control() & 0x20 != 0 ==> m.hp_effects().len() > 0 && m.hp_effects()[0]
            == m.after_hp().mirror()[0],
{
    slot_bit_facts(m.slot_status, 0);
}

/// What the guest wrote to slot control is what it reads there, below the slot
/// status, which a read shows in the upper half.
pub proof fn slot_control_reads_back(m: PcieConfigModel, root: PcieRootCap, data: Seq<u8>)
    requires
        m.slot_control is Some,
        data.len() == 2,
    ensures
        ({
            let n = m.write(0x18, data);
            &&& n.read(root, 0x18) == Some(
                (0x1_0000 * n.slot_status + data[0] + 0x100 * data[1]) as u32,
            )
        }),
{
    let n = m.write(0x18, data);
    bytes::le_value_is_weighted_sum(data);
    slot_bit_facts(n.slot_status, n.control());
}

/// A change of slot control completes a command: the status shows it, and the
/// port's MSI is raised where the guest asks for that.
pub proof fn changed_control_completes_a_command(
    m: PcieConfigModel,
    root: PcieRootCap,
    data: Seq<u8>,
    id: u64,
)
    requires
        m.slot_control is Some,
        data.len() == 2,
        m.control() != word(data),
    ensures
        m.write(0x18, data).slot_status & 0x10 != 0,
        m.msi == Some(id) && word(data) & 0x10 != 0 ==> m.write_effects(root, 0x18, data).contains(
            PortAction::TriggerMsi(id),
        ),
{
    let v = word(data);
    let stored = PcieConfigModel { removed_downstream_valid: false, ..m };
    slot_bit_facts(stored.sltctl_delivered(v).slot_status, 0);
    effects_contain(m, v, PortAction::TriggerMsi(id));
    if m.msi == Some(id) && v & 0x10 != 0 {
        assert(m.command_effects(v)[0] == PortAction::TriggerMsi(id));
    }
}

proof fn effects_contain(m: PcieConfigModel, v: u16, x: PortAction)
    ensures
        m.sltctl_effects(v).contains(x) <==> m.ready_effects(v).contains(x) || m.detach_effects(
            v,
        ).contains(x) || m.deferred_effects(v).contains(x) || m.command_effects(v).contains(x),
{
    let ab = m.ready_effects(v) + m.detach_effects(v);
    concat_contains(m.ready_effects(v), m.detach_effects(v), x);
    concat_contains(ab, m.deferred_effects(v), x);
    concat_contains(ab + m.deferred_effects(v), m.command_effects(v), x);
}

/// Turning the power indicator of a populated slot off detaches the device: the
/// slot is shown empty, the removed devices are valid, presence is marked as
/// changed, and the port's MSI is raised where the guest has enabled hot plug
/// interrupts and the change of presence.
pub proof fn powering_off_detaches(m: PcieConfigModel, root: PcieRootCap, data: Seq<u8>, id: u64)
    requires
        m.slot_control is Some,
        data.len() == 2,
        m.slot_status & 0x40 != 0,
        m.control() & 0x300 != 0x300,
        word(data) & 0x300 == 0x300,
    ensures
        m.write(0x18, data).slot_status & 0x40 == 0,
        m.write(0x18, data).removed_downstream_valid,
        word(data) & 0x20 != 0 ==> m.write(0x18, data).slot_status & 0x08 != 0,
        m.msi == Some(id) && word(data) & 0x20 != 0 && word(data) & 0x08 != 0 ==> m.write_effects(
            root,
            0x18,
            data,
        ).contains(PortAction::TriggerMsi(id)),
        m.msi == Some(id) && word(data) & 0x20 != 0 && word(data) & 0x01 != 0 && m.slot_status
            & 0x01 != 0 ==> m.write_effects(root, 0x18, data).contains(PortAction::TriggerMsi(id)),
{
    let v = word(data);
    let s = m.slot_status & !PCIE_SLTSTA_PDS;
    slot_bit_facts(m.slot_status, v);
    slot_bit_facts(s, v);
    slot_bit_facts(s | PCIE_SLTSTA_PDC, v);
    slot_bit_facts(s | PCIE_SLTSTA_PDC | PCIE_SLTSTA_PDC, v);
    hot_plug_interrupt_reaches_the_guest(m.sltctl_stored(v), id);
    effects_contain(m, v, PortAction::TriggerMsi(id));
}

/// The first write of slot control that enables what hot plug needs signals
/// every event that waits for it, and an earlier or later one signals none of
/// them.
pub proof fn readiness_signals_all_who_wait(m: PcieConfigModel, value: u16, event: u64)
    requires
        m.slot_control is Some,
        !m.enabled,
    ensures
        ({
            let enables = {
                &&& value & 0x01 != 0 || value & 0x08 != 0
                &&& value & 0x10 != 0
                &&& value & 0x20 != 0
            };
            &&& enables && m.ready_notifications.contains(event) ==> m.sltctl_effects(
                value,
            ).contains(PortAction::Signal(event))
            &&& enables ==> m.after_sltctl(value).ready_notifications.len() == 0
            &&& !enables ==> m.ready_effects(value).len() == 0 && m.after_sltctl(
                value,
            ).ready_notifications == m.ready_notifications
            &&& enables == m.after_sltctl(value).enabled
        }),
{
    slot_bit_facts(0, value);
    effects_contain(m, value, PortAction::Signal(event));
    if m.ready_notifications.contains(event) {
        let i = choose|i: int|
            0 <= i < m.ready_notifications.len() && m.ready_notifications[i] == event;
        assert(signals(m.ready_notifications)[i] == PortAction::Signal(event));
    }
}

/// A hot plug interrupt that was put off raises the port's MSI and marks presence
/// as changed when the guest enables hot plug interrupts and the change of
/// presence.
pub proof fn deferred_interrupt_raises_the_msi(m: PcieConfigModel, value: u16, id: u64)
    requires
        m.slot_control is Some,
        m.hp_interrupt_pending,
        m.control() & 0x20 == 0,
        value & 0x20 != 0,
        value & 0x08 != 0,
        m.msi == Some(id),
    ensures
        m.sltctl_effects(value).contains(PortAction::TriggerMsi(id)),
        m.after_sltctl(value).slot_status & 0x08 != 0,
        !m.after_sltctl(value).hp_interrupt_pending,
{
    hot_plug_interrupt_reaches_the_guest(m.sltctl_detached(value), id);
    effects_contain(m, value, PortAction::TriggerMsi(id));
    slot_bit_facts(m.sltctl_detached(value).slot_status, value);
    slot_bit_facts(m.sltctl_delivered(value).slot_status, value);
}

/// A power management event that comes in while none is shown raises the root
/// port's MSI, where the guest has enabled that, and the status names who sent
/// it. The one that waits is announced in the same way when the guest clears the
/// one that is shown.
pub proof fn power_event_raises_the_msi(root: PcieRootCap, first: u16, second: u16, id: u64)
    requires
        root.status & 0x1_0000 == 0,
        root.msi == Some(id),
        root.control & 0x08 != 0,
    ensures
        root.pme_effects(first) == seq![PortAction::TriggerMsi(id)],
        root.after_pme(first).status & 0x1_ffff == 0x1_0000 + first,
        ({
            let two = root.after_pme(first).after_pme(second);
            &&& two.status & 0x3_ffff == 0x3_0000 + first
            &&& two.status_write_effects(0x1_0000) == seq![PortAction::TriggerMsi(id)]
            &&& two.after_status_write(0x1_0000).status & 0x3_ffff == 0x1_0000 + second
        }),
{
    let one = root.after_pme(first);
    let two = one.after_pme(second);
    pme_bits(root.status, first as u32);
    pme_bits(one.status, second as u32);
    pme_bits(two.status & !PCIE_ROOTSTA_PME_PENDING, second as u32);
    pme_sum(root.status, first as u32, second as u32);
}

proof fn pme_sum(s: u32, first: u32, second: u32)
    by (bit_vector)
    requires
        first <= 0xffff,
        second <= 0xffff,
    ensures
        ((s & !0xFFFFu32) | first | 0x1_0000u32) & 0x1_ffffu32 == 0x1_0000u32 + first,
        (((s & !0xFFFFu32) | first | 0x1_0000u32) | 0x2_0000u32) & 0x3_ffffu32 == 0x3_0000u32
            + first,
        ((((((s & !0xFFFFu32) | first | 0x1_0000u32) | 0x2_0000u32) & !0x2_0000u32) & !0xFFFFu32)
            | second | 0x1_0000u32) & 0x3_ffffu32 == 0x1_0000u32 + second,
        0x1_0000u32 & 0x1_0000u32 != 0,
{
}

/// A root port keeps what the guest writes to root control, and reads show root
/// control and root status. Other ports have neither.
pub proof fn root_registers_belong_to_root_ports(
    m: PcieConfigModel,
    root: PcieRootCap,
    data: Seq<u8>,
)
    ensures
        m.port_type == PcieDevicePortType::RootPort && data.len() == 2 ==> m.read(
            m.root_write(root, 0x1C, data),
            0x1C,
        ) == Some((data[0] + 0x100 * data[1]) as u32),
        m.port_type == PcieDevicePortType::RootPort ==> m.read(root, 0x20) == Some(root.status),
        m.port_type != PcieDevicePortType::RootPort ==> m.read(root, 0x1C) == Some(0u32) && m.read(
            root,
            0x20,
        ) == Some(0u32) && m.root_write(root, 0x1C, data) == root && m.root_write(root, 0x20, data)
            == root,
{
    bytes::le_value_is_weighted_sum(data);
}

/// A hot plug operation is completed by the first slot status write after the power
/// indicator went from blinking to on or off, and by no other change of slot
/// control.
pub proof fn end_of_blinking_completes(m: PcieConfigModel, value: u16, data: Seq<u8>, event: u64)
    requires
        m.slot_control is Some,
        m.hpc_sender == Some(HotPlugCompleteSender { sender: event, armed: false }),
    ensures
        m.control() & 0x300 == 0x200 && value & 0x300 != 0x200 ==> m.after_sltctl(
            value,
        ).sltsta_effects() == seq![PortAction::Signal(event)] && m.after_sltctl(value).after_sltsta(
            data,
        ).hpc_sender is None,
        m.control() & 0x300 != 0x200 || value & 0x300 == 0x200 ==> m.after_sltctl(
            value,
        ).sltsta_effects() == Seq::<PortAction>::empty() && m.after_sltctl(value).hpc_sender
            == m.hpc_sender,
{
}

/// The list of removed devices becomes valid only where the power indicator of a
/// populated slot was not off and is turned off.
pub proof fn removal_needs_power_off(m: PcieConfigModel, offset: int, data: Seq<u8>)
    ensures
        m.write(offset, data).removed_downstream_valid <==> {
            &&& offset == 0x18
            &&& data.len() == 2
            &&& m.slot_control is Some
            &&& m.slot_status & 0x40 != 0
            &&& m.control() & 0x300 != 0x300
            &&& ((data[0] + 0x100 * data[1]) as u16) & 0x300 == 0x300
        },
{
    bytes::le_value_is_weighted_sum(data);
}

/// The guest clears the status bits that it writes as ones, where they can be
/// cleared, and no others; that the slot is populated it cannot clear.
pub proof fn status_bits_are_cleared_by_ones(m: PcieConfigModel, data: Seq<u8>)
    requires
        m.slot_control is Some,
        data.len() == 2,
    ensures
        ({
            let v = (data[0] + 0x100 * data[1]) as u16;
            let after = m.write(0x1a, data).slot_status;
            &&& after & 0x40 == m.slot_status & 0x40
            &&& v & 0x01 != 0 ==> after & 0x01 == 0
            &&& v & 0x08 != 0 ==> after & 0x08 == 0
            &&& v & 0x10 != 0 ==> after & 0x10 == 0
            &&& v & 0x01 == 0 ==> after & 0x01 == m.slot_status & 0x01
            &&& v & 0x08 == 0 ==> after & 0x08 == m.slot_status & 0x08
            &&& v & 0x10 == 0 ==> after & 0x10 == m.slot_status & 0x10
        }),
{
    bytes::le_value_is_weighted_sum(data);
    cleared_bits(m.slot_status, (data[0] + 0x100 * data[1]) as u16);
}

proof fn cleared_bits(s: u16, v: u16)
    by (bit_vector)
    ensures
        (s & !(v & 0x11Bu16)) & 0x40u16 == s & 0x40u16,
        v & 0x01u16 != 0 ==> (s & !(v & 0x11Bu16)) & 0x01u16 == 0,
        v & 0x08u16 != 0 ==> (s & !(v & 0x11Bu16)) & 0x08u16 == 0,
        v & 0x10u16 != 0 ==> (s & !(v & 0x11Bu16)) & 0x10u16 == 0,
        v & 0x01u16 == 0 ==> (s & !(v & 0x11Bu16)) & 0x01u16 == s & 0x01u16,
        v & 0x08u16 == 0 ==> (s & !(v & 0x11Bu16)) & 0x08u16 == s & 0x08u16,
        v & 0x10u16 == 0 ==> (s & !(v & 0x11Bu16)) & 0x10u16 == s & 0x10u16,
{
}

/// A bus lies behind a root port from its secondary up to its subordinate bus, both
/// of them with it.
pub proof fn root_port_covers_its_buses(root: PcieRootCap, bus: u8)
    ensures
        root.covers(root.secondary_bus_num) <==> root.secondary_bus_num
            <= root.subordinate_bus_num,
        bus < root.secondary_bus_num || bus > root.subordinate_bus_num ==> !root.covers(bus),
        root.secondary_bus_num <= bus <= root.subordinate_bus_num ==> root.covers(bus),
{
}

/// Asking for a notification gives the new event, which is signalled at once where
/// the slot is ready; each failure is told apart.
pub proof fn notification_is_the_new_event(id: u64, e: i32)
    ensures
        notification_result(true, Ok(id), None) == Ok::<u64, PciDeviceError>(id),
        notification_result(false, Ok(id), None) == Ok::<u64, PciDeviceError>(id),
        notification_result(true, Ok(id), Some(e)) == Err::<u64, PciDeviceError>(
            PciDeviceError::EventSignalFailed(e),
        ),
        notification_result(false, Ok(id), Some(e)) == Err::<u64, PciDeviceError>(
            PciDeviceError::EventCloneFailed(e),
        ),
        notification_result(true, Err(e), None) == Err::<u64, PciDeviceError>(
            PciDeviceError::EventCreationFailed(e),
        ),
        ready_signal(true, Ok(id)) == seq![PortAction::Signal(id)],
        ready_signal(false, Ok(id)) == Seq::<PortAction>::empty(),
        ready_signal(true, Err(e)) == Seq::<PortAction>::empty(),
{
}

/// Ports of one identity have the same device, name, addresses, buses and window.
pub proof fn identity_is_all_but_the_capability(a: PciePort, b: PciePort)
    ensures
        a.same_identity(a),
        a.same_identity(b) ==> {
            &&& b.same_identity(a)
            &&& a.device_id == b.device_id && a.debug_label@ == b.debug_label@
            &&& a.preferred_address == b.preferred_address && a.pci_address == b.pci_address
            &&& a.bus_range == b.bus_range && a.host_window == b.host_window
            &&& a.prepare_hotplug == b.prepare_hotplug
        },
{
}

} // verus!
