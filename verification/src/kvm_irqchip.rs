//! Interrupt chips on KVM: one that the kernel emulates as a whole, and one
//! whose PIC and IOAPIC are emulated outside the kernel.
//!
//! Events, virtual CPUs and other things of the host are known by numbers.
use crate::irq_route;
use crate::irq_route::{
    copy_routes, msi_routes, replace_conflicting, IrqRoute, IrqSource, IrqSourceChip, VcpuRunState,
};
use vstd::prelude::*;

verus! {

/// The timer's channel 0 is connected to this line.
pub const PIT_CHANNEL0_IRQ: u32 = 0;

pub const ENOENT: i32 = 2;

pub const EIO: i32 = 5;

pub const IOAPIC_BASE_ADDRESS: u64 = 0xfec0_0000;

pub const IOAPIC_MEM_LENGTH_BYTES: u64 = 0x100;

/// The routes of an x86 machine: lines 0 to 7 go to the primary PIC and the
/// IOAPIC, lines 8 to 15 to the secondary PIC and the IOAPIC, all further ones
/// to the IOAPIC only.
pub open spec fn default_routes(ioapic_pins: u32) -> Seq<IrqRoute> {
    let more = if ioapic_pins > 16 {
        ioapic_pins - 16
    } else {
        0
    };
    Seq::new(
        (32 + more) as nat,
        |k: int|
            if k >= 32 {
                IrqRoute::ioapic((k - 16) as u32)
            } else if k % 2 == 1 {
                IrqRoute::ioapic((k / 2) as u32)
            } else if k < 16 {
                IrqRoute::pic(IrqSourceChip::PicPrimary, (k / 2) as u32)
            } else {
                IrqRoute::pic(IrqSourceChip::PicSecondary, (k / 2) as u32)
            },
    )
}

/// The default routes for an IOAPIC with so many pins.
pub fn kvm_default_irq_routing_table(ioapic_pins: usize) -> (r: Vec<IrqRoute>)
    ensures
        r@ == default_routes(ioapic_pins as u32),
{
    let pins: u32 = ioapic_pins as u32;
    let mut routes: Vec<IrqRoute> = Vec::new();
    let ghost goal = default_routes(pins);
    let mut i: u32 = 0;
    while i < 16
        invariant
            i <= 16,
            goal == default_routes(pins),
            routes@.len() == 2 * i,
            forall|k: int| 0 <= k < routes@.len() ==> routes@[k] == goal[k],
        decreases 16 - i,
    {
        if i < 8 {
            routes.push(IrqRoute::pic_irq_route(IrqSourceChip::PicPrimary, i));
        } else {
            routes.push(IrqRoute::pic_irq_route(IrqSourceChip::PicSecondary, i));
        }
        routes.push(IrqRoute::ioapic_irq_route(i));
        i = i + 1;
    }
    while i < pins
        invariant
            16 <= i,
            i <= pins || i == 16,
            goal == default_routes(pins),
            routes@.len() == 16 + i,
            forall|k: int| 0 <= k < routes@.len() ==> routes@[k] == goal[k],
        decreases pins - i,
    {
        routes.push(IrqRoute::ioapic_irq_route(i));
        i = i + 1;
    }
    assert(routes@ =~= goal);
    routes
}

/// MSI routes that stand in for the lines of the IOAPIC.
pub open spec fn dummy_routes(ioapic_pins: nat) -> Seq<IrqRoute> {
    Seq::new(
        ioapic_pins,
        |i: int| IrqRoute { gsi: i as u32, source: IrqSource::Msi { address: 0, data: 0 } },
    )
}

pub fn kvm_dummy_msi_routes(ioapic_pins: usize) -> (r: Vec<IrqRoute>)
    ensures
        r@ == dummy_routes(ioapic_pins as nat),
{
    let mut routes: Vec<IrqRoute> = Vec::new();
    let mut i: usize = 0;
    while i < ioapic_pins
        invariant
            i <= ioapic_pins,
            routes@ == dummy_routes(i as nat),
        decreases ioapic_pins - i,
    {
        let ghost before = routes@;
        routes.push(
            IrqRoute { gsi: i as u32, source: IrqSource::Msi { address: 0, data: 0 } },
        );
        i = i + 1;
        assert(routes@ =~= dummy_routes(i as nat));
    }
    routes
}

/// The chip that the kernel emulates.
#[derive(Debug)]
pub struct KvmKernelIrqChip {
    pub vcpus: Vec<Option<u64>>,
    pub routes: Vec<IrqRoute>,
}

/// `n` CPUs that are not there yet.
pub open spec fn absent(n: nat) -> Seq<Option<u64>> {
    Seq::new(n, |i: int| None)
}

fn no_vcpus(n: usize) -> (r: Vec<Option<u64>>)
    ensures
        r@ == absent(n as nat),
{
    let mut v: Vec<Option<u64>> = Vec::new();
    let mut i: usize = 0;
    while i < n
        invariant
            i <= n,
            v@ == absent(i as nat),
        decreases n - i,
    {
        v.push(None);
        i = i + 1;
        assert(v@ =~= absent(i as nat));
    }
    v
}

/// The CPU of this number, if there is one.
pub open spec fn vcpu_of(vcpus: Seq<Option<u64>>, vcpu_id: usize) -> Result<u64, i32> {
    if vcpu_id < vcpus.len() && vcpus[vcpu_id as int] is Some {
        Ok(vcpus[vcpu_id as int]->0)
    } else {
        Err(ENOENT)
    }
}

fn find_vcpu(vcpus: &Vec<Option<u64>>, vcpu_id: usize) -> (r: Result<u64, i32>)
    ensures
        r == vcpu_of(vcpus@, vcpu_id),
{
    if vcpu_id < vcpus.len() {
        match vcpus[vcpu_id] {
            Some(id) => Ok(id),
            None => Err(ENOENT),
        }
    } else {
        Err(ENOENT)
    }
}

impl KvmKernelIrqChip {
    /// A chip of `num_vcpus` CPUs, once the kernel has made its part and told
    /// the number of IOAPIC pins, or an error.
    pub fn new(ioapic_pins: Result<usize, i32>, num_vcpus: usize) -> (r: Result<
        KvmKernelIrqChip,
        i32,
    >)
        ensures
            ioapic_pins is Err ==> r is Err && r->Err_0 == ioapic_pins->Err_0,
            ioapic_pins is Ok ==> r is Ok && r->Ok_0.vcpus@ == absent(num_vcpus as nat)
                && r->Ok_0.routes@ == default_routes(ioapic_pins->Ok_0 as u32),
    {
        match ioapic_pins {
            Err(e) => Err(e),
            Ok(pins) => Ok(
                KvmKernelIrqChip {
                    vcpus: no_vcpus(num_vcpus),
                    routes: kvm_default_irq_routing_table(pins),
                },
            ),
        }
    }

    /// The CPU whose local APIC is asked for.
    pub fn lapic_vcpu(&self, vcpu_id: usize) -> (r: Result<u64, i32>)
        ensures
            r == vcpu_of(self.vcpus@, vcpu_id),
    {
        find_vcpu(&self.vcpus, vcpu_id)
    }

    /// The kernel's timer does not use the speaker port.
    pub fn pit_uses_speaker_port(&self) -> (r: bool)
        ensures
            !r,
    {
        false
    }
}

/// An event that a device raises a line with.
#[derive(Clone, Copy, Debug, PartialEq, Eq, Structural)]
pub struct IrqEvent {
    pub gsi: u32,
    pub event: u64,
    /// Present where the line stays up until the guest is done with it.
    pub resample_event: Option<u64>,
}

/// What a chip asks its surroundings to do.
#[derive(Clone, Copy, Debug, PartialEq, Eq, Structural)]
pub enum IrqAction {
    /// Set a line of the PIC.
    Pic { pin: u8, level: bool },
    /// Set a line of the IOAPIC.
    Ioapic { pin: usize, level: bool },
    /// If the IOAPIC is free, raise a line and, where `pulse`, lower it again;
    /// else put the event off with `delay_irq_event`.
    TryIoapic { pin: usize, pulse: bool },
    /// Write 1 to the event that announces delayed events.
    TriggerDelayed,
    /// Tell the IOAPIC that the interrupt of a vector has ended.
    EndOfInterrupt { vector: u8 },
}

/// A device and its range on a bus.
#[derive(Clone, Copy, Debug, PartialEq, Eq, Structural)]
pub enum BusInsert {
    PitIo { base: u64, len: u64 },
    PicIo { base: u64, len: u64 },
    IoapicMmio { base: u64, len: u64 },
}

/// Whether an interrupt chip that x86 knows.
pub open spec fn x86_chip(chip: IrqSourceChip) -> bool {
    chip == IrqSourceChip::PicPrimary || chip == IrqSourceChip::PicSecondary || chip
        == IrqSourceChip::Ioapic
}

/// The chips and pins that a line goes to, in the order of the routes.
pub open spec fn chips_of(routes: Seq<IrqRoute>, irq: u32) -> Seq<(IrqSourceChip, u32)>
    decreases routes.len(),
{
    if routes.len() == 0 {
        Seq::empty()
    } else {
        let rest = chips_of(routes.drop_last(), irq);
        match routes.last().source {
            IrqSource::Irqchip { chip, pin } => if routes.last().gsi == irq && x86_chip(chip) {
                rest.push((chip, pin))
            } else {
                rest
            },
            IrqSource::Msi { address: _, data: _ } => rest,
        }
    }
}

/// The action that sets a pin of a chip.
pub open spec fn level_action(chip: IrqSourceChip, pin: u32, level: bool) -> IrqAction {
    if chip == IrqSourceChip::Ioapic {
        IrqAction::Ioapic { pin: pin as usize, level }
    } else {
        IrqAction::Pic { pin: pin as u8, level }
    }
}

/// Setting a line: one action for each pin that it goes to.
pub open spec fn level_actions(chips: Seq<(IrqSourceChip, u32)>, level: bool) -> Seq<IrqAction> {
    Seq::new(chips.len(), |i: int| level_action(chips[i].0, chips[i].1, level))
}

/// The actions at one pin for an event: up, and down again unless the line
/// waits for the guest.
pub open spec fn pulse_actions(chip: IrqSourceChip, pin: u32, pulse: bool) -> Seq<IrqAction> {
    if chip == IrqSourceChip::Ioapic {
        seq![IrqAction::TryIoapic { pin: pin as usize, pulse }]
    } else if pulse {
        seq![
            IrqAction::Pic { pin: pin as u8, level: true },
            IrqAction::Pic { pin: pin as u8, level: false },
        ]
    } else {
        seq![IrqAction::Pic { pin: pin as u8, level: true }]
    }
}

/// The actions for an event at all pins that its line goes to.
pub open spec fn event_actions(chips: Seq<(IrqSourceChip, u32)>, pulse: bool) -> Seq<IrqAction>
    decreases chips.len(),
{
    if chips.len() == 0 {
        Seq::empty()
    } else {
        event_actions(chips.drop_last(), pulse) + pulse_actions(
            chips.last().0,
            chips.last().1,
            pulse,
        )
    }
}

/// The resample events of a line, in the order of registration.
pub open spec fn resamples_of(events: Seq<Option<IrqEvent>>, gsi: u32) -> Seq<u64>
    decreases events.len(),
{
    if events.len() == 0 {
        Seq::empty()
    } else {
        let rest = resamples_of(events.drop_last(), gsi);
        match events.last() {
            Some(e) => if e.gsi == gsi && e.resample_event is Some {
                rest.push(e.resample_event->0)
            } else {
                rest
            },
            None => rest,
        }
    }
}

/// The resample events of a pin; lines have 32-bit numbers.
pub open spec fn line_resamples(events: Seq<Option<IrqEvent>>, pin: int) -> Seq<u64> {
    if pin <= u32::MAX {
        resamples_of(events, pin as u32)
    } else {
        Seq::empty()
    }
}

/// Index, line and event of each registered event, in the order of
/// registration.
pub open spec fn tokens_of(events: Seq<Option<IrqEvent>>) -> Seq<(usize, u32, u64)>
    decreases events.len(),
{
    if events.len() == 0 {
        Seq::empty()
    } else {
        let rest = tokens_of(events.drop_last());
        match events.last() {
            Some(e) => rest.push(((events.len() - 1) as usize, e.gsi, e.event)),
            None => rest,
        }
    }
}

/// The event at index `i` is of this line and number.
pub open spec fn is_event(events: Seq<Option<IrqEvent>>, i: int, irq: u32, event: u64) -> bool {
    0 <= i < events.len() && events[i] is Some && events[i]->0.gsi == irq && events[i]->0.event
        == event
}

/// A delayed event that has to wait on: it is no longer registered, or the
/// IOAPIC is locked.
pub open spec fn waits(events: Seq<Option<IrqEvent>>, index: usize, locked: bool) -> bool {
    events[index as int] is None || locked
}

/// The delayed events that are left.
pub open spec fn still_delayed(
    delayed: Seq<usize>,
    events: Seq<Option<IrqEvent>>,
    locked: Seq<bool>,
) -> Seq<usize>
    decreases delayed.len(),
{
    if delayed.len() == 0 {
        Seq::empty()
    } else {
        let rest = still_delayed(delayed.drop_last(), events, locked);
        if waits(events, delayed.last(), locked[delayed.len() - 1]) {
            rest.push(delayed.last())
        } else {
            rest
        }
    }
}

/// Raising and, without a resample event, lowering the IOAPIC line of an event.
pub open spec fn ioapic_pulse(e: IrqEvent) -> Seq<IrqAction> {
    let up = IrqAction::Ioapic { pin: e.gsi as usize, level: true };
    if e.resample_event is None {
        seq![up, IrqAction::Ioapic { pin: e.gsi as usize, level: false }]
    } else {
        seq![up]
    }
}

/// The actions for the delayed events that can be served now.
pub open spec fn delayed_actions(
    delayed: Seq<usize>,
    events: Seq<Option<IrqEvent>>,
    locked: Seq<bool>,
) -> Seq<IrqAction>
    decreases delayed.len(),
{
    if delayed.len() == 0 {
        Seq::empty()
    } else {
        let rest = delayed_actions(delayed.drop_last(), events, locked);
        if waits(events, delayed.last(), locked[delayed.len() - 1]) {
            rest
        } else {
            rest + ioapic_pulse(events[delayed.last() as int]->0)
        }
    }
}

/// Why the timer could not be made.
#[derive(Clone, Copy, Debug, PartialEq, Eq, Structural)]
pub enum PitError {
    CloneEvent(i32),
    CreateEvent(i32),
    CreateWaitContext(i32),
    WaitError(i32),
    TimerCreateError(i32),
    SpawnThread,
}

/// The error number of a timer error.
pub fn pit_errno(e: PitError) -> (r: i32)
    ensures
        r == (match e {
            PitError::CloneEvent(err) => err,
            PitError::CreateEvent(err) => err,
            PitError::CreateWaitContext(err) => err,
            PitError::WaitError(err) => err,
            PitError::TimerCreateError(err) => err,
            PitError::SpawnThread => EIO,
        }),
{
    match e {
        PitError::CloneEvent(err) => err,
        PitError::CreateEvent(err) => err,
        PitError::CreateWaitContext(err) => err,
        PitError::WaitError(err) => err,
        PitError::TimerCreateError(err) => err,
        PitError::SpawnThread => EIO,
    }
}

/// Capabilities of an interrupt chip.
#[derive(Clone, Copy, Debug, PartialEq, Eq, Structural)]
pub enum IrqChipCap {
    TscDeadlineTimer,
    X2Apic,
}

/// The chip whose PIC and IOAPIC are emulated outside the kernel.
#[derive(Debug)]
pub struct KvmSplitIrqChip {
    pub vcpus: Vec<Option<u64>>,
    pub routes: Vec<IrqRoute>,
    pub ioapic_pins: usize,
    /// Events that were put off because the IOAPIC was locked.
    pub delayed_ioapic_irq_events: Vec<usize>,
    /// Events by index; an index is never used again.
    pub irq_events: Vec<Option<IrqEvent>>,
}

/// The number of IOAPIC pins: what was asked for, or what the machine has. It
/// is an error if the machine does not know, in any case.
pub open spec fn pins_of(wanted: Option<usize>, vm_pins: Result<usize, i32>) -> Result<usize, i32> {
    match vm_pins {
        Err(e) => Err(e),
        Ok(n) => Ok(
            match wanted {
                Some(w) => w,
                None => n,
            },
        ),
    }
}

/// The number of pins of the IOAPIC: the one that is wanted, else that of the
/// machine, which must have an IOAPIC in any case.
pub fn ioapic_pin_count(wanted: Option<usize>, vm_pins: Result<usize, i32>) -> (r: Result<usize, i32>)
    ensures
        r == pins_of(wanted, vm_pins),
{
    match vm_pins {
        Err(e) => Err(e),
        Ok(n) => Ok(
            match wanted {
                Some(w) => w,
                None => n,
            },
        ),
    }
}

impl KvmSplitIrqChip {
    /// A delayed event has an index that was given out.
    pub open spec fn wf(self) -> bool {
        forall|i: int|
            0 <= i < self.delayed_ioapic_irq_events@.len() ==> (
            #[trigger] self.delayed_ioapic_irq_events@[i]) < self.irq_events@.len()
    }

    /// The line belongs to the IOAPIC rather than to the kernel.
    pub open spec fn own_line(self, irq: u32) -> bool {
        irq < self.ioapic_pins as u32
    }

    /// A chip of `num_vcpus` CPUs and `ioapic_pins` pins. Returns the chip, the
    /// MSI routes for the kernel, and what `register_irq_event` said of the
    /// timer's event.
    pub fn new(num_vcpus: usize, ioapic_pins: usize, pit_event: u64) -> (r: (
        Self,
        Vec<IrqRoute>,
        Option<usize>,
    ))
        ensures
            r.0.wf(),
            r.0.vcpus@ == absent(num_vcpus as nat),
            r.0.ioapic_pins == ioapic_pins,
            r.0.routes@ == default_routes(ioapic_pins as u32) + dummy_routes(ioapic_pins as nat),
            r.0.delayed_ioapic_irq_events@.len() == 0,
            r.1@ == irq_route::msis(r.0.routes@),
            ioapic_pins as u32 > 0 ==> {
                &&& r.2 == Some(0usize)
                &&& r.0.irq_events@ == seq![
                    Some(
                        IrqEvent { gsi: PIT_CHANNEL0_IRQ, event: pit_event, resample_event: None },
                    ),
                ]
            },
            ioapic_pins as u32 == 0 ==> r.2 is None && r.0.irq_events@.len() == 0,
    {
        let mut chip = KvmSplitIrqChip {
            vcpus: no_vcpus(num_vcpus),
            routes: Vec::new(),
            ioapic_pins,
            delayed_ioapic_irq_events: Vec::new(),
            irq_events: Vec::new(),
        };
        let mut routes: Vec<IrqRoute> = kvm_default_irq_routing_table(ioapic_pins);
        let mut dummies: Vec<IrqRoute> = kvm_dummy_msi_routes(ioapic_pins);
        routes.append(&mut dummies);
        let msis: Vec<IrqRoute> = chip.set_irq_routes(routes.as_slice());
        let index: Option<usize> = chip.register_irq_event(PIT_CHANNEL0_IRQ, pit_event, None);
        (chip, msis, index)
    }

    /// The chips and pins that a line goes to. MSIs and chips that x86 does not
    /// have are left out.
    pub fn routes_to_chips(&self, irq: u32) -> (r: Vec<(IrqSourceChip, u32)>)
        ensures
            r@ == chips_of(self.routes@, irq),
    {
        let mut chips: Vec<(IrqSourceChip, u32)> = Vec::new();
        let mut i: usize = 0;
        while i < self.routes.len()
            invariant
                i <= self.routes@.len(),
                chips@ == chips_of(self.routes@.take(i as int), irq),
            decreases self.routes.len() - i,
        {
            proof {
                assert(self.routes@.take(i + 1).drop_last() =~= self.routes@.take(i as int));
                assert(self.routes@.take(i + 1).last() == self.routes@[i as int]);
            }
            let route: IrqRoute = self.routes[i];
            match route.source {
                IrqSource::Irqchip { chip, pin } => {
                    if route.gsi == irq {
                        match chip {
                            IrqSourceChip::PicPrimary
                            | IrqSourceChip::PicSecondary
                            | IrqSourceChip::Ioapic => {
                                chips.push((chip, pin));
                            },
                            IrqSourceChip::Gic => {},
                            IrqSourceChip::Aia => {},
                        }
                    }
                },
                IrqSource::Msi { address: _, data: _ } => {},
            }
            i = i + 1;
        }
        assert(self.routes@.take(i as int) =~= self.routes@);
        chips
    }

    /// Whether an interrupt waits for a CPU: those of the PIC (`pic`) go to the
    /// first one only.
    pub fn interrupt_requested(&self, vcpu_id: usize, pic: bool) -> (r: bool)
        ensures
            r == (vcpu_id == 0 && pic),
    {
        if vcpu_id != 0 {
            return false;
        }
        pic
    }

    /// The interrupt vector for a CPU, given that of the PIC.
    pub fn get_external_interrupt(&self, vcpu_id: usize, pic: Option<u8>) -> (r: Option<u32>)
        ensures
            r == (match pic {
                Some(vector) => if vcpu_id == 0 {
                    Some(vector as u32)
                } else {
                    None
                },
                None => None,
            }),
    {
        if vcpu_id != 0 {
            return None;
        }
        match pic {
            Some(vector) => Some(vector as u32),
            None => None,
        }
    }

    /// What to do for a CPU that is about to run: the vector to inject, if any,
    /// and whether the CPU is to come back as soon as it can take another one.
    /// `requested` and `requested_after` say whether the PIC has an interrupt
    /// before and after its vector was fetched.
    pub fn inject_interrupts(
        &self,
        vcpu_id: usize,
        requested: bool,
        ready: bool,
        vector: Option<u8>,
        requested_after: bool,
    ) -> (r: (Option<u32>, bool))
        ensures
            r == (if vcpu_id == 0 && requested && ready {
                (
                    match vector {
                        Some(v) => Some(v as u32),
                        None => None,
                    },
                    requested_after,
                )
            } else {
                (None, false)
            }),
    {
        if !self.interrupt_requested(vcpu_id, requested) || !ready {
            return (None, false);
        }
        let injected = self.get_external_interrupt(vcpu_id, vector);
        (injected, self.interrupt_requested(vcpu_id, requested_after))
    }

    /// Registers an event of a line. Returns its index, or `None` where the
    /// line belongs to the kernel, which is then to be told.
    pub fn register_irq_event(&mut self, irq: u32, event: u64, resample_event: Option<u64>) -> (r:
        Option<usize>)
        requires
            old(self).wf(),
        ensures
            final(self).wf(),
            old(self).own_line(irq) ==> {
                &&& r == Some(old(self).irq_events@.len() as usize)
                &&& final(self).irq_events@ == old(self).irq_events@.push(
                    Some(IrqEvent { gsi: irq, event, resample_event }),
                )
            },
            !old(self).own_line(irq) ==> r is None && final(self).irq_events@ == old(
                self,
            ).irq_events@,
            *final(self) == (KvmSplitIrqChip { irq_events: final(self).irq_events, ..*old(self) }),
    {
        if irq < self.ioapic_pins as u32 {
            let index: usize = self.irq_events.len();
            self.irq_events.push(Some(IrqEvent { gsi: irq, event, resample_event }));
            Some(index)
        } else {
            None
        }
    }

    /// Takes an event of a line out again; its index stays unused. Returns
    /// whether the line belongs to the kernel, which is then to be told.
    pub fn unregister_irq_event(&mut self, irq: u32, event: u64) -> (r: bool)
        requires
            old(self).wf(),
        ensures
            final(self).wf(),
            r == !old(self).own_line(irq),
            *final(self) == (KvmSplitIrqChip { irq_events: final(self).irq_events, ..*old(self) }),
            r ==> final(self).irq_events@ == old(self).irq_events@,
            !r ==> (forall|i: int| !#[trigger] is_event(old(self).irq_events@, i, irq, event))
                ==> final(self).irq_events@ == old(self).irq_events@,
            !r ==> forall|i: int|
                #[trigger] is_event(old(self).irq_events@, i, irq, event) && (forall|j: int|
                    j < i ==> !#[trigger] is_event(old(self).irq_events@, j, irq, event))
                    ==> final(self).irq_events@ == old(self).irq_events@.update(i, None),
    {
        if irq < self.ioapic_pins as u32 {
            let ghost before = self.irq_events@;
            let mut index: usize = 0;
            while index < self.irq_events.len()
                invariant
                    *self == *old(self),
                    old(self).wf(),
                    old(self).own_line(irq),
                    before == self.irq_events@,
                    index <= before.len(),
                    forall|j: int| j < index ==> !#[trigger] is_event(before, j, irq, event),
                decreases self.irq_events.len() - index,
            {
                if let Some(evt) = self.irq_events[index] {
                    if evt.gsi == irq && evt.event == event {
                        assert(is_event(before, index as int, irq, event));
                        self.irq_events.set(index, None);
                        return false;
                    }
                }
                index = index + 1;
            }
            false
        } else {
            true
        }
    }

    /// Adds a CPU.
    pub fn add_vcpu(&mut self, vcpu_id: usize, vcpu: u64)
        requires
            vcpu_id < old(self).vcpus@.len(),
        ensures
            final(self).vcpus@ == old(self).vcpus@.update(vcpu_id as int, Some(vcpu)),
            *final(self) == (KvmSplitIrqChip { vcpus: final(self).vcpus, ..*old(self) }),
    {
        self.vcpus.set(vcpu_id, Some(vcpu));
    }

    /// The CPU whose state is asked for.
    pub fn vcpu(&self, vcpu_id: usize) -> (r: Result<u64, i32>)
        ensures
            r == vcpu_of(self.vcpus@, vcpu_id),
    {
        find_vcpu(&self.vcpus, vcpu_id)
    }

    pub fn register_edge_irq_event(&mut self, irq: u32, trigger: u64) -> (r: Option<usize>)
        requires
            old(self).wf(),
        ensures
            final(self).wf(),
            old(self).own_line(irq) ==> {
                &&& r == Some(old(self).irq_events@.len() as usize)
                &&& final(self).irq_events@ == old(self).irq_events@.push(
                    Some(IrqEvent { gsi: irq, event: trigger, resample_event: None }),
                )
            },
            !old(self).own_line(irq) ==> r is None && final(self).irq_events@ == old(
                self,
            ).irq_events@,
            *final(self) == (KvmSplitIrqChip { irq_events: final(self).irq_events, ..*old(self) }),
    {
        self.register_irq_event(irq, trigger, None)
    }

    pub fn register_level_irq_event(&mut self, irq: u32, trigger: u64, resample: u64) -> (r: Option<
        usize,
    >)
        requires
            old(self).wf(),
        ensures
            final(self).wf(),
            old(self).own_line(irq) ==> {
                &&& r == Some(old(self).irq_events@.len() as usize)
                &&& final(self).irq_events@ == old(self).irq_events@.push(
                    Some(IrqEvent { gsi: irq, event: trigger, resample_event: Some(resample) }),
                )
            },
            !old(self).own_line(irq) ==> r is None && final(self).irq_events@ == old(
                self,
            ).irq_events@,
            *final(self) == (KvmSplitIrqChip { irq_events: final(self).irq_events, ..*old(self) }),
    {
        self.register_irq_event(irq, trigger, Some(resample))
    }

    /// Routes a line: the new route replaces those that conflict with it.
    /// Returns the MSI routes for the kernel.
    pub fn route_irq(&mut self, route: IrqRoute) -> (r: Vec<IrqRoute>)
        ensures
            final(self).routes@ == irq_route::routed(old(self).routes@, route),
            *final(self) == (KvmSplitIrqChip { routes: final(self).routes, ..*old(self) }),
            r@ == irq_route::msis(final(self).routes@),
    {
        self.routes = replace_conflicting(&self.routes, route);
        msi_routes(self.routes.as_slice())
    }

    /// Replaces all routes. Returns the MSI routes for the kernel.
    pub fn set_irq_routes(&mut self, routes: &[IrqRoute]) -> (r: Vec<IrqRoute>)
        ensures
            final(self).routes@ == routes@,
            *final(self) == (KvmSplitIrqChip { routes: final(self).routes, ..*old(self) }),
            r@ == irq_route::msis(routes@),
    {
        self.routes = copy_routes(routes);
        msi_routes(routes)
    }

    /// Index, line and event of each registered event.
    pub fn irq_event_tokens(&self) -> (r: Vec<(usize, u32, u64)>)
        ensures
            r@ == tokens_of(self.irq_events@),
    {
        let mut tokens: Vec<(usize, u32, u64)> = Vec::new();
        let mut i: usize = 0;
        while i < self.irq_events.len()
            invariant
                i <= self.irq_events@.len(),
                tokens@ == tokens_of(self.irq_events@.take(i as int)),
            decreases self.irq_events.len() - i,
        {
            proof {
                assert(self.irq_events@.take(i + 1).drop_last() =~= self.irq_events@.take(i as int));
                assert(self.irq_events@.take(i + 1).last() == self.irq_events@[i as int]);
            }
            if let Some(evt) = self.irq_events[i] {
                tokens.push((i, evt.gsi, evt.event));
            }
            i = i + 1;
        }
        assert(self.irq_events@.take(i as int) =~= self.irq_events@);
        tokens
    }

    /// Sets a line at every pin that it goes to.
    pub fn service_irq(&self, irq: u32, level: bool) -> (r: Vec<IrqAction>)
        ensures
            r@ == level_actions(chips_of(self.routes@, irq), level),
    {
        let chips: Vec<(IrqSourceChip, u32)> = self.routes_to_chips(irq);
        let mut out: Vec<IrqAction> = Vec::new();
        let mut i: usize = 0;
        proof {
            chips_are_x86(self.routes@, irq);
        }
        while i < chips.len()
            invariant
                i <= chips@.len(),
                forall|k: int| 0 <= k < chips@.len() ==> x86_chip((#[trigger] chips@[k]).0),
                out@ == level_actions(chips@, level).take(i as int),
            decreases chips.len() - i,
        {
            let (chip, pin) = chips[i];
            assert(x86_chip(chips@[i as int].0));
            match chip {
                IrqSourceChip::Ioapic => {
                    out.push(IrqAction::Ioapic { pin: pin as usize, level });
                },
                _ => {
                    out.push(IrqAction::Pic { pin: pin as u8, level });
                },
            }
            i = i + 1;
            assert(out@ =~= level_actions(chips@, level).take(i as int));
        }
        assert(out@ =~= level_actions(chips@, level));
        out
    }

    /// What to do when the event of an index fires. The event itself is to be
    /// read first; nothing happens for an event that was taken out.
    pub fn service_irq_event(&self, event_index: usize) -> (r: Vec<IrqAction>)
        requires
            event_index < self.irq_events@.len(),
        ensures
            r@ == (match self.irq_events@[event_index as int] {
                None => Seq::empty(),
                Some(e) => event_actions(
                    chips_of(self.routes@, e.gsi),
                    e.resample_event is None,
                ),
            }),
    {
        let mut out: Vec<IrqAction> = Vec::new();
        if let Some(evt) = self.irq_events[event_index] {
            let pulse: bool = evt.resample_event.is_none();
            let chips: Vec<(IrqSourceChip, u32)> = self.routes_to_chips(evt.gsi);
            let mut i: usize = 0;
            while i < chips.len()
                invariant
                    i <= chips@.len(),
                    out@ == event_actions(chips@.take(i as int), pulse),
                decreases chips.len() - i,
            {
                proof {
                    assert(chips@.take(i + 1).drop_last() =~= chips@.take(i as int));
                    assert(chips@.take(i + 1).last() == chips@[i as int]);
                }
                let ghost before = out@;
                let (chip, pin) = chips[i];
                match chip {
                    IrqSourceChip::Ioapic => {
                        out.push(IrqAction::TryIoapic { pin: pin as usize, pulse });
                    },
                    _ => {
                        out.push(IrqAction::Pic { pin: pin as u8, level: true });
                        if pulse {
                            out.push(IrqAction::Pic { pin: pin as u8, level: false });
                        }
                    },
                }
                i = i + 1;
                assert(out@ =~= before + pulse_actions(chip, pin, pulse));
            }
            assert(chips@.take(i as int) =~= chips@);
        }
        out
    }

    /// Puts an event off because the IOAPIC is locked. Returns the action that
    /// announces it.
    pub fn delay_irq_event(&mut self, event_index: usize) -> (r: IrqAction)
        requires
            old(self).wf(),
            event_index < old(self).irq_events@.len(),
        ensures
            r == IrqAction::TriggerDelayed,
            final(self).wf(),
            final(self).delayed_ioapic_irq_events@ == old(self).delayed_ioapic_irq_events@.push(
                event_index,
            ),
            *final(self) == (KvmSplitIrqChip {
                delayed_ioapic_irq_events: final(self).delayed_ioapic_irq_events,
                ..*old(self)
            }),
    {
        self.delayed_ioapic_irq_events.push(event_index);
        IrqAction::TriggerDelayed
    }

    /// Serves the delayed events. `locked` says of each whether the IOAPIC is
    /// locked when its turn comes; those stay. Returns the actions and whether
    /// the event that announces delayed events is to be read: once none is
    /// left.
    pub fn process_delayed_irq_events(&mut self, locked: &[bool]) -> (r: (Vec<IrqAction>, bool))
        requires
            old(self).wf(),
            locked@.len() == old(self).delayed_ioapic_irq_events@.len(),
        ensures
            final(self).wf(),
            final(self).delayed_ioapic_irq_events@ == still_delayed(
                old(self).delayed_ioapic_irq_events@,
                old(self).irq_events@,
                locked@,
            ),
            *final(self) == (KvmSplitIrqChip {
                delayed_ioapic_irq_events: final(self).delayed_ioapic_irq_events,
                ..*old(self)
            }),
            r.0@ == delayed_actions(
                old(self).delayed_ioapic_irq_events@,
                old(self).irq_events@,
                locked@,
            ),
            r.1 == (final(self).delayed_ioapic_irq_events@.len() == 0),
    {
        let ghost delayed = self.delayed_ioapic_irq_events@;
        let ghost events = self.irq_events@;
        let mut out: Vec<IrqAction> = Vec::new();
        let mut kept: Vec<usize> = Vec::new();
        let mut i: usize = 0;
        while i < self.delayed_ioapic_irq_events.len()
            invariant
                *self == *old(self),
                old(self).wf(),
                delayed == self.delayed_ioapic_irq_events@,
                events == self.irq_events@,
                locked@.len() == delayed.len(),
                i <= delayed.len(),
                kept@ == still_delayed(delayed.take(i as int), events, locked@),
                out@ == delayed_actions(delayed.take(i as int), events, locked@),
                forall|k: int| 0 <= k < kept@.len() ==> (#[trigger] kept@[k]) < events.len(),
            decreases delayed.len() - i,
        {
            proof {
                assert(delayed.take(i + 1).drop_last() =~= delayed.take(i as int));
                assert(delayed.take(i + 1).last() == delayed[i as int]);
            }
            let ghost before = out@;
            let index: usize = self.delayed_ioapic_irq_events[i];
            match self.irq_events[index] {
                Some(evt) => {
                    if !locked[i] {
                        out.push(IrqAction::Ioapic { pin: evt.gsi as usize, level: true });
                        if evt.resample_event.is_none() {
                            out.push(IrqAction::Ioapic { pin: evt.gsi as usize, level: false });
                        }
                        assert(out@ =~= before + ioapic_pulse(evt));
                    } else {
                        kept.push(index);
                    }
                },
                None => {
                    kept.push(index);
                },
            }
            i = i + 1;
        }
        assert(delayed.take(i as int) =~= delayed);
        let none_left: bool = kept.len() == 0;
        self.delayed_ioapic_irq_events = kept;
        (out, none_left)
    }

    /// Where the devices of the chip go on the buses.
    pub fn bus_plan() -> (r: Vec<BusInsert>)
        ensures
            r@ == seq![
                BusInsert::PitIo { base: 0x40, len: 8 },
                BusInsert::PitIo { base: 0x61, len: 1 },
                BusInsert::PicIo { base: 0x20, len: 2 },
                BusInsert::PicIo { base: 0xa0, len: 2 },
                BusInsert::PicIo { base: 0x4d0, len: 2 },
                BusInsert::IoapicMmio { base: IOAPIC_BASE_ADDRESS, len: IOAPIC_MEM_LENGTH_BYTES },
            ],
    {
        let mut v: Vec<BusInsert> = Vec::new();
        v.push(BusInsert::PitIo { base: 0x40, len: 8 });
        v.push(BusInsert::PitIo { base: 0x61, len: 1 });
        v.push(BusInsert::PicIo { base: 0x20, len: 2 });
        v.push(BusInsert::PicIo { base: 0xa0, len: 2 });
        v.push(BusInsert::PicIo { base: 0x4d0, len: 2 });
        v.push(BusInsert::IoapicMmio { base: IOAPIC_BASE_ADDRESS, len: IOAPIC_MEM_LENGTH_BYTES });
        v
    }

    /// Once all devices have registered their events: the resample events of
    /// each line, for the PIC and the IOAPIC.
    pub fn finalize_devices(&self) -> (r: Vec<Vec<u64>>)
        ensures
            r@.len() == self.ioapic_pins,
            forall|p: int|
                0 <= p < self.ioapic_pins ==> (#[trigger] r@[p])@ == line_resamples(
                    self.irq_events@,
                    p,
                ),
    {
        let mut out: Vec<Vec<u64>> = Vec::new();
        let mut pin: usize = 0;
        while pin < self.ioapic_pins
            invariant
                pin <= self.ioapic_pins,
                out@.len() == pin,
                forall|p: int|
                    0 <= p < pin ==> (#[trigger] out@[p])@ == line_resamples(self.irq_events@, p),
            decreases self.ioapic_pins - pin,
        {
            let line: Vec<u64> = if pin <= u32::MAX as usize {
                self.resample_events(pin as u32)
            } else {
                Vec::new()
            };
            out.push(line);
            pin = pin + 1;
        }
        out
    }

    /// The resample events of a line.
    pub fn resample_events(&self, gsi: u32) -> (r: Vec<u64>)
        ensures
            r@ == resamples_of(self.irq_events@, gsi),
    {
        let mut out: Vec<u64> = Vec::new();
        let mut i: usize = 0;
        while i < self.irq_events.len()
            invariant
                i <= self.irq_events@.len(),
                out@ == resamples_of(self.irq_events@.take(i as int), gsi),
            decreases self.irq_events.len() - i,
        {
            proof {
                assert(self.irq_events@.take(i + 1).drop_last() =~= self.irq_events@.take(i as int));
                assert(self.irq_events@.take(i + 1).last() == self.irq_events@[i as int]);
            }
            if let Some(evt) = self.irq_events[i] {
                if evt.gsi == gsi {
                    if let Some(resample) = evt.resample_event {
                        out.push(resample);
                    }
                }
            }
            i = i + 1;
        }
        assert(self.irq_events@.take(i as int) =~= self.irq_events@);
        out
    }

    /// Whether an interrupt number from the allocator is among the IOAPIC's, so
    /// that another one has to be taken.
    pub fn is_ioapic_irq(&self, irq_num: u32) -> (r: bool)
        ensures
            r == self.own_line(irq_num),
    {
        irq_num < self.ioapic_pins as u32
    }

    /// Whether the chip has a capability; `tsc` says whether the hypervisor has
    /// the deadline timer.
    pub fn check_capability(&self, c: IrqChipCap, tsc: bool) -> (r: bool)
        ensures
            r == (c == IrqChipCap::X2Apic || tsc),
    {
        match c {
            IrqChipCap::TscDeadlineTimer => tsc,
            IrqChipCap::X2Apic => true,
        }
    }

    /// The kernel blocks CPUs by itself, so that here each can run.
    pub fn wait_until_runnable(&self, _vcpu_id: usize) -> (r: VcpuRunState)
        ensures
            r == VcpuRunState::Runnable,
    {
        VcpuRunState::Runnable
    }

    /// What is done at the end of an interrupt: the IOAPIC is told its vector.
    pub fn broadcast_eoi(&self, vector: u8) -> (r: IrqAction)
        ensures
            r == (IrqAction::EndOfInterrupt { vector }),
    {
        IrqAction::EndOfInterrupt { vector }
    }

    /// The emulated timer uses the speaker port.
    pub fn pit_uses_speaker_port(&self) -> (r: bool)
        ensures
            r,
    {
        true
    }
}

/// A line goes to chips that x86 has only.
pub proof fn chips_are_x86(routes: Seq<IrqRoute>, irq: u32)
    ensures
        forall|k: int|
            0 <= k < chips_of(routes, irq).len() ==> x86_chip(
                (#[trigger] chips_of(routes, irq)[k]).0,
            ),
    decreases routes.len(),
{
    if routes.len() > 0 {
        chips_are_x86(routes.drop_last(), irq);
        let rest = chips_of(routes.drop_last(), irq);
        assert forall|k: int| 0 <= k < chips_of(routes, irq).len() implies x86_chip(
            (#[trigger] chips_of(routes, irq)[k]).0,
        ) by {
            if k < rest.len() {
                assert(rest[k] == chips_of(routes, irq)[k]);
            }
        }
    }
}

/// The default routes take each line of the PICs to one PIC and to the IOAPIC.
pub proof fn default_line_reaches_pic_and_ioapic(pins: u32, irq: u32)
    requires
        irq < 16,
    ensures
        default_routes(pins).contains(IrqRoute::ioapic(irq)),
        irq < 8 ==> default_routes(pins).contains(IrqRoute::pic(IrqSourceChip::PicPrimary, irq)),
        irq >= 8 ==> default_routes(pins).contains(IrqRoute::pic(IrqSourceChip::PicSecondary, irq)),
{
    let s = default_routes(pins);
    assert(s[2 * irq + 1] == IrqRoute::ioapic(irq));
    if irq < 8 {
        assert(s[2 * irq] == IrqRoute::pic(IrqSourceChip::PicPrimary, irq));
    } else {
        assert(s[2 * irq] == IrqRoute::pic(IrqSourceChip::PicSecondary, irq));
    }
}

/// The default routes take all lines from the sixteenth on to the IOAPIC, and to
/// no other chip.
pub proof fn upper_lines_reach_only_the_ioapic(pins: u32, irq: u32, i: int)
    requires
        16 <= irq < pins,
        0 <= i < default_routes(pins).len(),
    ensures
        default_routes(pins).contains(IrqRoute::ioapic(irq)),
        default_routes(pins)[i].gsi == irq ==> default_routes(pins)[i] == IrqRoute::ioapic(irq),
{
    assert(default_routes(pins)[irq + 16] == IrqRoute::ioapic(irq));
}

/// Every delayed event is either served or stays delayed: none is lost.
pub proof fn delayed_events_are_kept_or_served(
    delayed: Seq<usize>,
    events: Seq<Option<IrqEvent>>,
    locked: Seq<bool>,
    i: int,
)
    requires
        0 <= i < delayed.len(),
    ensures
        waits(events, delayed[i], locked[i]) ==> still_delayed(delayed, events, locked).contains(
            delayed[i],
        ),
        !waits(events, delayed[i], locked[i]) ==> delayed_actions(
            delayed,
            events,
            locked,
        ).contains(
            IrqAction::Ioapic { pin: events[delayed[i] as int]->0.gsi as usize, level: true },
        ),
    decreases delayed.len(),
{
    let rest = delayed.drop_last();
    let kept = still_delayed(delayed, events, locked);
    let acts = delayed_actions(delayed, events, locked);
    let kept0 = still_delayed(rest, events, locked);
    let acts0 = delayed_actions(rest, events, locked);
    if i < delayed.len() - 1 {
        delayed_events_are_kept_or_served(rest, events, locked, i);
        if waits(events, delayed[i], locked[i]) {
            let k = choose|k: int| 0 <= k < kept0.len() && kept0[k] == delayed[i];
            assert(kept[k] == delayed[i]);
        } else {
            let a = IrqAction::Ioapic {
                pin: events[delayed[i] as int]->0.gsi as usize,
                level: true,
            };
            let k = choose|k: int| 0 <= k < acts0.len() && acts0[k] == a;
            assert(acts[k] == a);
        }
    } else if waits(events, delayed[i], locked[i]) {
        assert(kept[kept0.len() as int] == delayed[i]);
    } else {
        let e = events[delayed[i] as int]->0;
        assert(acts[acts0.len() as int] == ioapic_pulse(e)[0]);
    }
}

proof fn line_reaches_chip(routes: Seq<IrqRoute>, i: int, chip: IrqSourceChip, pin: u32)
    requires
        0 <= i < routes.len(),
        routes[i].source == (IrqSource::Irqchip { chip, pin }),
        x86_chip(chip),
    ensures
        chips_of(routes, routes[i].gsi).contains((chip, pin)),
    decreases routes.len(),
{
    let all = chips_of(routes, routes[i].gsi);
    let rest = chips_of(routes.drop_last(), routes[i].gsi);
    if i < routes.len() - 1 {
        line_reaches_chip(routes.drop_last(), i, chip, pin);
        let k = choose|k: int| 0 <= k < rest.len() && rest[k] == (chip, pin);
        assert(all[k] == (chip, pin));
    } else {
        assert(all[rest.len() as int] == (chip, pin));
    }
}

proof fn chip_comes_from_route(routes: Seq<IrqRoute>, irq: u32, k: int)
    requires
        0 <= k < chips_of(routes, irq).len(),
    ensures
        exists|i: int|
            0 <= i < routes.len() && (#[trigger] routes[i]).gsi == irq && routes[i].source == (
            IrqSource::Irqchip {
                chip: chips_of(routes, irq)[k].0,
                pin: chips_of(routes, irq)[k].1,
            }),
    decreases routes.len(),
{
    let rest = chips_of(routes.drop_last(), irq);
    if k < rest.len() {
        chip_comes_from_route(routes.drop_last(), irq, k);
        let i = choose|i: int|
            0 <= i < routes.drop_last().len() && (#[trigger] routes.drop_last()[i]).gsi == irq
                && routes.drop_last()[i].source == (IrqSource::Irqchip {
                chip: rest[k].0,
                pin: rest[k].1,
            });
        assert(routes[i].gsi == irq);
    } else {
        assert(routes[routes.len() - 1].gsi == irq);
    }
}

/// Setting a line sets every pin of the PICs and the IOAPIC that it is routed to,
/// to the level that is asked for, and no other pin.
pub proof fn line_is_set_at_all_its_pins(
    routes: Seq<IrqRoute>,
    i: int,
    chip: IrqSourceChip,
    pin: u32,
    level: bool,
    irq: u32,
    k: int,
)
    requires
        0 <= i < routes.len(),
        routes[i].source == (IrqSource::Irqchip { chip, pin }),
    ensures
        ({
            let actions = level_actions(chips_of(routes, routes[i].gsi), level);
            &&& chip == IrqSourceChip::Ioapic ==> actions.contains(
                IrqAction::Ioapic { pin: pin as usize, level },
            )
            &&& chip == IrqSourceChip::PicPrimary || chip == IrqSourceChip::PicSecondary
                ==> actions.contains(IrqAction::Pic { pin: pin as u8, level })
        }),
        0 <= k < level_actions(chips_of(routes, irq), level).len() ==> exists|j: int|
            0 <= j < routes.len() && (#[trigger] routes[j]).gsi == irq && routes[j].source
                is Irqchip,
{
    if x86_chip(chip) {
        line_reaches_chip(routes, i, chip, pin);
        let chips = chips_of(routes, routes[i].gsi);
        let n = choose|n: int| 0 <= n < chips.len() && chips[n] == (chip, pin);
        assert(level_actions(chips, level)[n] == level_action(chip, pin, level));
    }
    if 0 <= k < chips_of(routes, irq).len() {
        chip_comes_from_route(routes, irq, k);
    }
}

proof fn event_reaches_chip(
    chips: Seq<(IrqSourceChip, u32)>,
    n: int,
    pulse: bool,
    a: int,
) -> (at: int)
    requires
        0 <= n < chips.len(),
        0 <= a < pulse_actions(chips[n].0, chips[n].1, pulse).len(),
    ensures
        0 <= at,
        at - a + pulse_actions(chips[n].0, chips[n].1, pulse).len() <= event_actions(
            chips,
            pulse,
        ).len(),
        a <= at < event_actions(chips, pulse).len(),
        event_actions(chips, pulse)[at] == pulse_actions(chips[n].0, chips[n].1, pulse)[a],
        a + 1 < pulse_actions(chips[n].0, chips[n].1, pulse).len() ==> event_actions(
            chips,
            pulse,
        )[at + 1] == pulse_actions(chips[n].0, chips[n].1, pulse)[a + 1],
    decreases chips.len(),
{
    let rest = event_actions(chips.drop_last(), pulse);
    if n < chips.len() - 1 {
        event_reaches_chip(chips.drop_last(), n, pulse, a)
    } else {
        rest.len() + a
    }
}

/// An event reaches every pin that its line is routed to. At a PIC the pin goes
/// up, and down again at once unless the line waits for the guest; the IOAPIC is
/// asked to do the same.
pub proof fn event_reaches_all_its_pins(
    routes: Seq<IrqRoute>,
    i: int,
    chip: IrqSourceChip,
    pin: u32,
    pulse: bool,
)
    requires
        0 <= i < routes.len(),
        routes[i].source == (IrqSource::Irqchip { chip, pin }),
    ensures
        ({
            let actions = event_actions(chips_of(routes, routes[i].gsi), pulse);
            let pic = chip == IrqSourceChip::PicPrimary || chip == IrqSourceChip::PicSecondary;
            &&& chip == IrqSourceChip::Ioapic ==> actions.contains(
                IrqAction::TryIoapic { pin: pin as usize, pulse },
            )
            &&& pic && !pulse ==> actions.contains(IrqAction::Pic { pin: pin as u8, level: true })
            &&& pic && pulse ==> exists|at: int|
                0 <= at && at + 1 < actions.len() && #[trigger] actions[at] == (IrqAction::Pic {
                    pin: pin as u8,
                    level: true,
                }) && actions[at + 1] == (IrqAction::Pic { pin: pin as u8, level: false })
        }),
{
    if x86_chip(chip) {
        line_reaches_chip(routes, i, chip, pin);
        let chips = chips_of(routes, routes[i].gsi);
        let n = choose|n: int| 0 <= n < chips.len() && chips[n] == (chip, pin);
        let at = event_reaches_chip(chips, n, pulse, 0);
        let actions = event_actions(chips, pulse);
        assert(actions[at] == pulse_actions(chip, pin, pulse)[0]);
    }
}

/// Once the IOAPIC is free, all delayed events that are still registered are
/// served, and those alone; while it is locked none is, and all are kept in their
/// order.
pub proof fn delayed_events_wait_for_the_ioapic(
    delayed: Seq<usize>,
    events: Seq<Option<IrqEvent>>,
    locked: Seq<bool>,
)
    requires
        locked.len() == delayed.len(),
    ensures
        (forall|i: int|
            0 <= i < delayed.len() ==> !#[trigger] locked[i] && events[delayed[i] as int] is Some)
            ==> still_delayed(delayed, events, locked).len() == 0,
        (forall|i: int| 0 <= i < delayed.len() ==> #[trigger] locked[i]) ==> still_delayed(
            delayed,
            events,
            locked,
        ) == delayed && delayed_actions(delayed, events, locked).len() == 0,
    decreases delayed.len(),
{
    if delayed.len() > 0 {
        let rest = locked.drop_last();
        delayed_events_wait_for_the_ioapic(delayed.drop_last(), events, rest);
        delayed_prefix(delayed.drop_last(), events, locked, rest);
        if forall|i: int|
            0 <= i < delayed.len() ==> !#[trigger] locked[i] && events[delayed[i] as int] is Some {
            assert forall|i: int| 0 <= i < delayed.drop_last().len() implies !#[trigger] rest[i]
                && events[delayed.drop_last()[i] as int] is Some by {
                assert(rest[i] == locked[i]);
            }
            assert(!locked[delayed.len() - 1]);
        }
        if forall|i: int| 0 <= i < delayed.len() ==> #[trigger] locked[i] {
            assert forall|i: int| 0 <= i < delayed.drop_last().len() implies #[trigger] rest[i] by {
                assert(rest[i] == locked[i]);
            }
            assert(locked[delayed.len() - 1]);
            assert(delayed =~= delayed.drop_last().push(delayed.last()));
        }
    }
}

proof fn delayed_prefix(
    delayed: Seq<usize>,
    events: Seq<Option<IrqEvent>>,
    a: Seq<bool>,
    b: Seq<bool>,
)
    requires
        forall|i: int| 0 <= i < delayed.len() ==> a[i] == #[trigger] b[i],
    ensures
        still_delayed(delayed, events, a) == still_delayed(delayed, events, b),
        delayed_actions(delayed, events, a) == delayed_actions(delayed, events, b),
    decreases delayed.len(),
{
    if delayed.len() > 0 {
        delayed_prefix(delayed.drop_last(), events, a, b);
        assert(a[delayed.len() - 1] == b[delayed.len() - 1]);
    }
}

/// A delayed event that is served raises the IOAPIC pin of its line, and lowers it
/// again where nobody waits for the guest to be done.
pub proof fn served_event_pulses_its_line(e: IrqEvent)
    ensures
        ioapic_pulse(e).len() == if e.resample_event is None {
            2int
        } else {
            1
        },
        ioapic_pulse(e)[0] == (IrqAction::Ioapic { pin: e.gsi as usize, level: true }),
        e.resample_event is None ==> ioapic_pulse(e)[1] == (IrqAction::Ioapic {
            pin: e.gsi as usize,
            level: false,
        }),
{
}

/// The resample events of a line are those of the events registered for it, and
/// no others.
pub proof fn resamples_belong_to_their_line(events: Seq<Option<IrqEvent>>, gsi: u32, r: u64)
    ensures
        resamples_of(events, gsi).contains(r) <==> exists|i: int|
            0 <= i < events.len() && (#[trigger] events[i]) is Some && events[i]->0.gsi == gsi
                && events[i]->0.resample_event == Some(r),
    decreases events.len(),
{
    if events.len() > 0 {
        let rest = events.drop_last();
        let all = resamples_of(events, gsi);
        let few = resamples_of(rest, gsi);
        resamples_belong_to_their_line(rest, gsi, r);
        if all.contains(r) {
            let k = choose|k: int| 0 <= k < all.len() && all[k] == r;
            if k < few.len() {
                assert(few[k] == r);
                let i = choose|i: int|
                    0 <= i < rest.len() && (#[trigger] rest[i]) is Some && rest[i]->0.gsi == gsi
                        && rest[i]->0.resample_event == Some(r);
                assert(events[i] == rest[i]);
            } else {
                assert(events[events.len() - 1] == events.last());
            }
        }
        if exists|i: int|
            0 <= i < events.len() && (#[trigger] events[i]) is Some && events[i]->0.gsi == gsi
                && events[i]->0.resample_event == Some(r) {
            let i = choose|i: int|
                0 <= i < events.len() && (#[trigger] events[i]) is Some && events[i]->0.gsi == gsi
                    && events[i]->0.resample_event == Some(r);
            if i < rest.len() {
                assert(rest[i] == events[i]);
                let k = choose|k: int| 0 <= k < few.len() && few[k] == r;
                assert(all[k] == r);
            } else {
                assert(all[few.len() as int] == r);
            }
        }
    }
}

/// Every registered event has a token with its index, its line and its number.
pub proof fn registered_events_have_tokens(events: Seq<Option<IrqEvent>>, i: int)
    requires
        0 <= i < events.len() <= usize::MAX,
        events[i] is Some,
    ensures
        tokens_of(events).contains((i as usize, events[i]->0.gsi, events[i]->0.event)),
    decreases events.len(),
{
    let all = tokens_of(events);
    let few = tokens_of(events.drop_last());
    let t = (i as usize, events[i]->0.gsi, events[i]->0.event);
    if i < events.len() - 1 {
        registered_events_have_tokens(events.drop_last(), i);
        let k = choose|k: int| 0 <= k < few.len() && few[k] == t;
        assert(all[k] == t);
    } else {
        assert(all[few.len() as int] == t);
    }
}

/// A CPU that was added is found under its number, and one that was not is an
/// error.
pub proof fn added_cpu_is_found(vcpus: Seq<Option<u64>>, i: usize, vcpu: u64, n: nat)
    ensures
        i < vcpus.len() ==> vcpu_of(vcpus.update(i as int, Some(vcpu)), i) == Ok::<u64, i32>(vcpu),
        i >= vcpus.len() ==> vcpu_of(vcpus, i) == Err::<u64, i32>(2),
        vcpu_of(absent(n), i) == Err::<u64, i32>(2),
{
}

/// Until the guest sets up the IOAPIC, each of its lines has an MSI that goes
/// nowhere.
pub proof fn lines_start_with_dummy_msis(pins: nat, i: int)
    requires
        0 <= i < pins <= u32::MAX,
    ensures
        dummy_routes(pins).len() == pins,
        dummy_routes(pins)[i].gsi == i,
        dummy_routes(pins)[i].source == (IrqSource::Msi { address: 0, data: 0 }),
{
}

/// The default routes are two for each of the lines of the PICs, and one for each
/// further line of the IOAPIC.
pub proof fn default_routes_are_counted(pins: u32)
    ensures
        pins <= 16 ==> default_routes(pins).len() == 32,
        pins > 16 ==> default_routes(pins).len() == 16 + pins,
{
}

/// The lines below the number of pins belong to the IOAPIC, and all others to the
/// kernel. The number is the one that is wanted, else that of the machine.
pub proof fn lines_belong_to_ioapic_or_kernel(chip: KvmSplitIrqChip, irq: u32, n: usize, w: usize)
    ensures
        chip.ioapic_pins <= u32::MAX ==> (chip.own_line(irq) <==> irq < chip.ioapic_pins),
        pins_of(None, Ok(n)) == Ok::<usize, i32>(n),
        pins_of(Some(w), Ok(n)) == Ok::<usize, i32>(w),
        pins_of(Some(w), Err(2)) is Err,
{
}

/// Only events that are registered have tokens.
pub proof fn tokens_are_of_registered_events(events: Seq<Option<IrqEvent>>, t: (usize, u32, u64))
    requires
        events.len() <= usize::MAX,
        tokens_of(events).contains(t),
    ensures
        t.0 < events.len(),
        events[t.0 as int] is Some,
        events[t.0 as int]->0.gsi == t.1,
        events[t.0 as int]->0.event == t.2,
    decreases events.len(),
{
    if events.len() > 0 {
        let all = tokens_of(events);
        let few = tokens_of(events.drop_last());
        let k = choose|k: int| 0 <= k < all.len() && all[k] == t;
        if k < few.len() {
            assert(few[k] == t);
            tokens_are_of_registered_events(events.drop_last(), t);
        }
    }
}

/// A delayed event that is served, and for whose line nobody waits, is lowered
/// again.
pub proof fn served_event_is_lowered_again(
    delayed: Seq<usize>,
    events: Seq<Option<IrqEvent>>,
    locked: Seq<bool>,
    i: int,
)
    requires
        0 <= i < delayed.len(),
        events[delayed[i] as int] is Some,
        !locked[i],
        events[delayed[i] as int]->0.resample_event is None,
    ensures
        delayed_actions(delayed, events, locked).contains(
            IrqAction::Ioapic { pin: events[delayed[i] as int]->0.gsi as usize, level: false },
        ),
    decreases delayed.len(),
{
    let rest = delayed.drop_last();
    let all = delayed_actions(delayed, events, locked);
    let few = delayed_actions(rest, events, locked);
    let e = events[delayed[i] as int]->0;
    let down = IrqAction::Ioapic { pin: e.gsi as usize, level: false };
    if i < delayed.len() - 1 {
        served_event_is_lowered_again(rest, events, locked, i);
        let k = choose|k: int| 0 <= k < few.len() && few[k] == down;
        assert(all[k] == down);
    } else {
        assert(all[few.len() as int + 1] == ioapic_pulse(e)[1]);
    }
}

/// A pin has the resample events of the line of its number, and none where no line
/// has that number.
pub proof fn pins_have_the_events_of_their_line(events: Seq<Option<IrqEvent>>, gsi: u32, pin: int)
    ensures
        line_resamples(events, gsi as int) == resamples_of(events, gsi),
        pin > u32::MAX ==> line_resamples(events, pin).len() == 0,
{
}

/// A registered event is found at its place by its line and number, and by no other
/// line or number; nothing is found where no event is registered.
pub proof fn registered_event_is_found(
    events: Seq<Option<IrqEvent>>,
    i: int,
    irq: u32,
    event: u64,
)
    ensures
        0 <= i < events.len() && events[i] is Some ==> is_event(
            events,
            i,
            events[i]->0.gsi,
            events[i]->0.event,
        ),
        is_event(events, i, irq, event) ==> 0 <= i < events.len() && events[i] is Some
            && events[i]->0.gsi == irq && events[i]->0.event == event,
{
}

} // verus!
