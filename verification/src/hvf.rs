//! An interrupt chip around the emulated GICv3.
//!
//! Distributor and redistributors keep track of what is pending and enabled; a
//! CPU takes an interrupt through its CPU interface.
use crate::gic;
use crate::gic::{
    DistributorModel, GicCpuInterface, GicDistributor, GicRedistributor, RedistributorModel,
    GICD_SIZE, GICR_SIZE, GIC_NR_SPIS, GIC_SPI_BASE, GIC_SPURIOUS_INTID,
};
use crate::irq_route;
use crate::irq_route::{copy_routes, IrqRoute, IrqSource, IrqSourceChip, VcpuRunState};
use vstd::prelude::*;

verus! {

/// Size of the region that holds the redistributors: 32 MiB.
pub const HVF_GIC_REDIST_REGION_SIZE: u64 = 0x200_0000;

pub const AARCH64_GIC_DIST_SIZE: u64 = GICD_SIZE;

pub const AARCH64_GIC_REDIST_SIZE: u64 = GICR_SIZE;

/// The distributor lies behind the redistributors, above 3 GiB.
pub const AARCH64_GIC_DIST_BASE: u64 = 0xC200_0000;

pub const AARCH64_GIC_NR_SPIS: u32 = GIC_NR_SPIS;

pub const ENOENT: i32 = 2;

/// Address of the first redistributor, whatever the number of CPUs.
pub fn gic_redist_base(_num_cpus: usize) -> (r: u64)
    ensures
        r == 0xC000_0000,
{
    0xC000_0000
}

/// The default routes: each SPI line goes to its pin of the GIC.
pub open spec fn default_routes() -> Seq<IrqRoute> {
    Seq::new(AARCH64_GIC_NR_SPIS as nat, |i: int| IrqRoute::gic(i as u32))
}

pub fn default_irq_routing_table() -> (r: Vec<IrqRoute>)
    ensures
        r@ == default_routes(),
{
    let mut routes: Vec<IrqRoute> = Vec::new();
    let mut i: u32 = 0;
    while i < AARCH64_GIC_NR_SPIS
        invariant
            i <= AARCH64_GIC_NR_SPIS,
            routes@ == default_routes().take(i as int),
        decreases AARCH64_GIC_NR_SPIS - i,
    {
        routes.push(IrqRoute::gic_irq_route(i));
        i = i + 1;
        assert(routes@ =~= default_routes().take(i as int));
    }
    assert(routes@ =~= default_routes());
    routes
}

/// An event that a device raises a line with.
#[derive(Clone, Copy, Debug, PartialEq, Eq, Structural)]
pub struct IrqEvent {
    pub event: u64,
    pub gsi: u32,
    pub resample_event: Option<u64>,
    pub source: u64,
}

/// Kinds of devices that a chip puts on the bus.
#[derive(Clone, Copy, Debug, PartialEq, Eq, Structural)]
pub enum GicDevice {
    Distributor,
    Redistributor(usize),
}

/// A device and its range on the bus.
#[derive(Clone, Copy, Debug, PartialEq, Eq, Structural)]
pub struct BusRange {
    pub device: GicDevice,
    pub base: u64,
    pub len: u64,
}

/// Where the redistributor of a CPU lies.
pub open spec fn redist_range(cpu_id: int) -> BusRange {
    BusRange {
        device: GicDevice::Redistributor(cpu_id as usize),
        base: (0xC000_0000 + cpu_id * AARCH64_GIC_REDIST_SIZE) as u64,
        len: AARCH64_GIC_REDIST_SIZE,
    }
}

pub open spec fn dist_range() -> BusRange {
    BusRange {
        device: GicDevice::Distributor,
        base: AARCH64_GIC_DIST_BASE,
        len: AARCH64_GIC_DIST_SIZE,
    }
}

/// What the parts of the GIC hold.
#[verifier::ext_equal]
pub struct HvfModel {
    pub dist: DistributorModel,
    pub redists: Seq<RedistributorModel>,
    pub cpus: Seq<GicCpuInterface>,
}

impl HvfModel {
    /// One redistributor and one CPU interface for each CPU.
    pub open spec fn wf(self) -> bool {
        self.redists.len() == self.cpus.len() && self.dist.wf()
    }

    /// Interrupt `intid` is deliverable to a CPU: a private interrupt of the
    /// CPU or an SPI.
    pub open spec fn deliverable(self, cpu_id: usize, intid: u32) -> bool {
        if intid < GIC_SPI_BASE {
            cpu_id < self.redists.len() && self.redists[cpu_id as int].deliverable(intid)
        } else {
            self.dist.deliverable((intid - GIC_SPI_BASE) as u32)
        }
    }

    pub open spec fn priority(self, cpu_id: usize, intid: u32) -> u8 {
        if intid < GIC_SPI_BASE {
            self.redists[cpu_id as int].irq_priority(intid)
        } else {
            self.dist.spi_priority((intid - GIC_SPI_BASE) as u32)
        }
    }

    /// `r` is the interrupt to deliver to a CPU next, if any: the one of the
    /// lowest priority value, among equals the one of the lowest number.
    pub open spec fn next_irq(self, cpu_id: usize, r: Option<(u32, u8)>) -> bool {
        gic::is_highest(
            r,
            64,
            |i: u32| self.deliverable(cpu_id, i),
            |i: u32| self.priority(cpu_id, i),
        )
    }

    /// The chip after a CPU took interrupt `intid`: it is no longer pending.
    pub open spec fn taken(self, cpu_id: usize, intid: u32) -> Self {
        if intid == GIC_SPURIOUS_INTID {
            self
        } else if intid < GIC_SPI_BASE {
            HvfModel {
                redists: self.redists.update(
                    cpu_id as int,
                    self.redists[cpu_id as int].clear_private(intid),
                ),
                ..self
            }
        } else {
            HvfModel { dist: self.dist.clear_spi((intid - GIC_SPI_BASE) as u32), ..self }
        }
    }

    /// The interrupt number that a CPU gets when `next` is due.
    pub open spec fn acked(self, cpu_id: usize, next: Option<(u32, u8)>) -> u32 {
        match next {
            Some((intid, priority)) => self.cpus[cpu_id as int].acknowledged(
                Some(intid),
                priority,
            ),
            None => GIC_SPURIOUS_INTID,
        }
    }

    /// The chip after a CPU acknowledged when `next` was due.
    pub open spec fn after_ack(self, cpu_id: usize, next: Option<(u32, u8)>) -> Self {
        match next {
            Some((intid, priority)) => HvfModel {
                cpus: self.cpus.update(
                    cpu_id as int,
                    self.cpus[cpu_id as int].after_acknowledge(Some(intid), priority),
                ),
                ..self
            }.taken(cpu_id, self.acked(cpu_id, next)),
            None => self,
        }
    }
}

/// What keeps an interrupt from a CPU.
#[derive(Clone, Copy, Debug, PartialEq, Eq, Structural)]
pub struct PendingDiagnosis {
    pub intid: u32,
    pub priority: u8,
    pub can_preempt: bool,
    /// The running priority is as high.
    pub blocked_by_running: bool,
    /// The priority mask is as low.
    pub blocked_by_mask: bool,
}

/// The state of the GIC as far as it decides on delivery to a CPU.
#[derive(Clone, Copy, Debug, PartialEq, Eq, Structural)]
pub struct IrqDiagnosis {
    pub group1_enabled: bool,
    pub pmr: u8,
    pub running_priority: u8,
    pub active_intid: u32,
    pub dist_ctlr: u32,
    pub spi_pending: u32,
    pub spi_enabled: u32,
    pub spi_deliverable: u32,
    pub next: Option<PendingDiagnosis>,
}

/// The kind of an interrupt controller.
#[derive(Clone, Copy, Debug, PartialEq, Eq, Structural)]
pub enum DeviceKind {
    ArmVgicV3,
}

/// What an interrupt chip may be able to do.
#[derive(Clone, Copy, Debug, PartialEq, Eq, Structural)]
pub enum IrqChipCap {
    /// Read and set the multiprocessing state of CPUs.
    MpStateGetSet,
}

/// The chip.
pub struct HvfIrqChip {
    pub num_vcpus: usize,
    pub routes: Vec<IrqRoute>,
    pub irq_events: Vec<IrqEvent>,
    pub distributor: GicDistributor,
    pub redistributors: Vec<GicRedistributor>,
    pub cpu_interfaces: Vec<GicCpuInterface>,
}

impl View for HvfIrqChip {
    type V = HvfModel;

    open spec fn view(&self) -> HvfModel {
        HvfModel {
            dist: self.distributor.model(),
            redists: Seq::new(
                self.redistributors@.len(),
                |i: int| self.redistributors@[i].model(),
            ),
            cpus: self.cpu_interfaces@,
        }
    }
}

impl HvfIrqChip {
    pub open spec fn wf(self) -> bool {
        self@.wf() && self.redistributors@.len() == self.num_vcpus
    }

    /// Routes, events and the number of CPUs are as in `other`.
    pub open spec fn same_setup(self, other: Self) -> bool {
        &&& self.num_vcpus == other.num_vcpus
        &&& self.routes@ == other.routes@
        &&& self.irq_events@ == other.irq_events@
    }

    /// A chip for `num_vcpus` CPUs after reset.
    pub fn new(num_vcpus: usize) -> (r: Self)
        ensures
            r.wf(),
            r.num_vcpus == num_vcpus,
            r.routes@ == default_routes(),
            r.irq_events@.len() == 0,
            r@.dist == DistributorModel::reset(num_vcpus),
            r@.redists == Seq::new(
                num_vcpus as nat,
                |i: int| RedistributorModel::reset(i as usize, i == num_vcpus - 1),
            ),
            r@.cpus.len() == num_vcpus,
            forall|i: int|
                0 <= i < num_vcpus ==> {
                    &&& (#[trigger] r@.cpus[i]).idle()
                    &&& r@.cpus[i].pmr == 0xff
                    &&& r@.cpus[i].group_enable@ == seq![false, false]
                    &&& r@.cpus[i].bpr@ == seq![0u8, 0u8]
                    &&& r@.cpus[i].no_active_priorities()
                    &&& r@.cpus[i].ctlr == 0
                    &&& !r@.cpus[i].irq_pending
                },
    {
        let distributor = GicDistributor::new(num_vcpus);
        proof {
            gic::distributor_reset_invariant(num_vcpus);
        }
        let mut redistributors: Vec<GicRedistributor> = Vec::new();
        let mut cpu_interfaces: Vec<GicCpuInterface> = Vec::new();
        let mut cpu_id: usize = 0;
        while cpu_id < num_vcpus
            invariant
                cpu_id <= num_vcpus,
                redistributors@.len() == cpu_id,
                cpu_interfaces@.len() == cpu_id,
                forall|i: int|
                    0 <= i < cpu_id ==> (#[trigger] redistributors@[i]).model()
                        == RedistributorModel::reset(i as usize, i == num_vcpus - 1),
                forall|i: int|
                    0 <= i < cpu_id ==> {
                        &&& (#[trigger] cpu_interfaces@[i]).idle()
                        &&& cpu_interfaces@[i].pmr == 0xff
                        &&& cpu_interfaces@[i].group_enable@ == seq![false, false]
                        &&& cpu_interfaces@[i].bpr@ == seq![0u8, 0u8]
                        &&& cpu_interfaces@[i].no_active_priorities()
                        &&& cpu_interfaces@[i].ctlr == 0
                        &&& !cpu_interfaces@[i].irq_pending
                    },
            decreases num_vcpus - cpu_id,
        {
            let is_last: bool = cpu_id == num_vcpus - 1;
            redistributors.push(GicRedistributor::new(cpu_id, is_last));
            cpu_interfaces.push(GicCpuInterface::new());
            cpu_id = cpu_id + 1;
        }
        let r = HvfIrqChip {
            num_vcpus,
            routes: default_irq_routing_table(),
            irq_events: Vec::new(),
            distributor,
            redistributors,
            cpu_interfaces,
        };
        assert(r@.redists =~= Seq::new(
            num_vcpus as nat,
            |i: int| RedistributorModel::reset(i as usize, i == num_vcpus - 1),
        ));
        r
    }

    /// Where the parts of the GIC go on the bus.
    pub fn register_devices(&self) -> (r: Vec<BusRange>)
        requires
            self.wf(),
            self.num_vcpus < 0x4000_0000_0000,
        ensures
            r@ == seq![dist_range()] + Seq::new(
                self.num_vcpus as nat,
                |i: int| redist_range(i),
            ),
    {
        let mut v: Vec<BusRange> = Vec::new();
        v.push(
            BusRange {
                device: GicDevice::Distributor,
                base: AARCH64_GIC_DIST_BASE,
                len: AARCH64_GIC_DIST_SIZE,
            },
        );
        let redist_base: u64 = gic_redist_base(self.num_vcpus);
        let mut cpu_id: usize = 0;
        while cpu_id < self.num_vcpus
            invariant
                cpu_id <= self.num_vcpus < 0x4000_0000_0000,
                redist_base == 0xC000_0000,
                v@ == seq![dist_range()] + Seq::new(cpu_id as nat, |i: int| redist_range(i)),
            decreases self.num_vcpus - cpu_id,
        {
            let addr: u64 = redist_base + cpu_id as u64 * AARCH64_GIC_REDIST_SIZE;
            v.push(
                BusRange {
                    device: GicDevice::Redistributor(cpu_id),
                    base: addr,
                    len: AARCH64_GIC_REDIST_SIZE,
                },
            );
            cpu_id = cpu_id + 1;
            assert(v@ =~= seq![dist_range()] + Seq::new(cpu_id as nat, |i: int| redist_range(i)));
        }
        v
    }

    pub fn distributor_base(&self) -> (r: u64)
        ensures
            r == AARCH64_GIC_DIST_BASE,
    {
        AARCH64_GIC_DIST_BASE
    }

    pub fn redistributor_base(&self) -> (r: u64)
        ensures
            r == 0xC000_0000,
    {
        gic_redist_base(self.num_vcpus)
    }

    /// Makes a PPI of a CPU pending. A CPU that does not exist is ignored.
    pub fn set_ppi_pending(&mut self, cpu_id: usize, ppi: u32)
        requires
            old(self).wf(),
        ensures
            final(self).wf(),
            final(self).same_setup(*old(self)),
            final(self)@ == (if cpu_id < old(self)@.redists.len() {
                HvfModel {
                    redists: old(self)@.redists.update(
                        cpu_id as int,
                        old(self)@.redists[cpu_id as int].set_ppi(ppi),
                    ),
                    ..old(self)@
                }
            } else {
                old(self)@
            }),
    {
        if cpu_id < self.redistributors.len() {
            let redist = &mut self.redistributors[cpu_id];
            redist.state_mut().set_ppi_pending(ppi);
        }
        assert(self@ =~= (if cpu_id < old(self)@.redists.len() {
            HvfModel {
                redists: old(self)@.redists.update(
                    cpu_id as int,
                    old(self)@.redists[cpu_id as int].set_ppi(ppi),
                ),
                ..old(self)@
            }
        } else {
            old(self)@
        }));
    }

    /// Withdraws a PPI of a CPU. A CPU that does not exist is ignored.
    pub fn clear_ppi_pending(&mut self, cpu_id: usize, ppi: u32)
        requires
            old(self).wf(),
        ensures
            final(self).wf(),
            final(self).same_setup(*old(self)),
            final(self)@ == (if cpu_id < old(self)@.redists.len() {
                HvfModel {
                    redists: old(self)@.redists.update(
                        cpu_id as int,
                        old(self)@.redists[cpu_id as int].clear_ppi(ppi),
                    ),
                    ..old(self)@
                }
            } else {
                old(self)@
            }),
    {
        if cpu_id < self.redistributors.len() {
            let redist = &mut self.redistributors[cpu_id];
            redist.state_mut().clear_ppi_pending(ppi);
        }
        assert(self@ =~= (if cpu_id < old(self)@.redists.len() {
            HvfModel {
                redists: old(self)@.redists.update(
                    cpu_id as int,
                    old(self)@.redists[cpu_id as int].clear_ppi(ppi),
                ),
                ..old(self)@
            }
        } else {
            old(self)@
        }));
    }

    /// Makes an SPI pending.
    pub fn set_spi_pending(&mut self, spi: u32)
        requires
            old(self).wf(),
        ensures
            final(self).wf(),
            final(self).same_setup(*old(self)),
            final(self)@ == (HvfModel { dist: old(self)@.dist.set_spi(spi), ..old(self)@ }),
    {
        self.distributor.state_mut().set_spi_pending(spi);
        assert(self@ =~= (HvfModel { dist: old(self)@.dist.set_spi(spi), ..old(self)@ }));
    }

    /// Withdraws an SPI.
    pub fn clear_spi_pending(&mut self, spi: u32)
        requires
            old(self).wf(),
        ensures
            final(self).wf(),
            final(self).same_setup(*old(self)),
            final(self)@ == (HvfModel { dist: old(self)@.dist.clear_spi(spi), ..old(self)@ }),
    {
        self.distributor.state_mut().clear_spi_pending(spi);
        assert(self@ =~= (HvfModel { dist: old(self)@.dist.clear_spi(spi), ..old(self)@ }));
    }

    /// The number of the interrupt with the highest priority that is pending and
    /// enabled for a CPU, be it private or an SPI, or `None` if there is none.
    pub fn get_pending_irq(&self, cpu_id: usize) -> (r: Option<u32>)
        requires
            self.wf(),
        ensures
            cpu_id >= self@.redists.len() ==> r is None,
            cpu_id < self@.redists.len() ==> exists|next: Option<(u32, u8)>|
                {
                    &&& #[trigger] self@.next_irq(cpu_id, next)
                    &&& r == match next {
                        Some((intid, _)) => Some(intid),
                        None => None::<u32>,
                    }
                },
    {
        if cpu_id >= self.redistributors.len() {
            return None;
        }
        match self.get_highest_priority_pending(cpu_id) {
            Some((intid, _)) => Some(intid),
            None => None,
        }
    }

    /// The CPU interface of a CPU.
    pub fn cpu_interface(&self, cpu_id: usize) -> (r: Option<&GicCpuInterface>)
        ensures
            r == (if cpu_id < self@.cpus.len() {
                Some(&self@.cpus[cpu_id as int])
            } else {
                None
            }),
    {
        if cpu_id < self.cpu_interfaces.len() {
            Some(&self.cpu_interfaces[cpu_id])
        } else {
            None
        }
    }

    /// The distributor.
    pub fn distributor_state(&self) -> (r: &GicDistributor)
        ensures
            r.model() == self@.dist,
    {
        &self.distributor
    }

    /// The redistributor of a CPU.
    pub fn redistributor(&self, cpu_id: usize) -> (r: Option<&GicRedistributor>)
        ensures
            r is Some <==> cpu_id < self@.redists.len(),
            r is Some ==> r->0.model() == self@.redists[cpu_id as int],
    {
        if cpu_id < self.redistributors.len() {
            Some(&self.redistributors[cpu_id])
        } else {
            None
        }
    }

    /// The interrupt to deliver to a CPU next, with its priority: private
    /// interrupts and SPIs together.
    pub fn get_highest_priority_pending(&self, cpu_id: usize) -> (r: Option<(u32, u8)>)
        requires
            self.wf(),
        ensures
            self@.next_irq(cpu_id, r),
    {
        let mut best: Option<(u32, u8)> = None;
        if cpu_id < self.redistributors.len() {
            let state = self.redistributors[cpu_id].state();
            assert(state@ == self@.redists[cpu_id as int]);
            best = state.get_highest_priority_pending();
            assert(self@.redists[cpu_id as int].next_private(best));
        }
        let ghost private = best;
        let spi = self.distributor.state().get_highest_priority_pending_spi();
        match spi {
            Some((intid, prio)) => {
                match best {
                    None => {
                        best = Some((intid, prio));
                    },
                    Some((_, best_prio)) => {
                        if prio < best_prio {
                            best = Some((intid, prio));
                        }
                    },
                }
            },
            None => {},
        }
        proof {
            merge_highest(self@, cpu_id, private, spi, best);
        }
        best
    }

    /// A CPU reads ICC_IAR1_EL1: it takes the interrupt that is due, if it can
    /// preempt, and that interrupt is no longer pending. Returns its number, or
    /// `GIC_SPURIOUS_INTID`.
    pub fn acknowledge_interrupt(&mut self, cpu_id: usize) -> (r: u32)
        requires
            old(self).wf(),
        ensures
            final(self).wf(),
            final(self).same_setup(*old(self)),
            cpu_id >= old(self)@.cpus.len() ==> r == GIC_SPURIOUS_INTID && final(self)@ == old(
                self,
            )@,
            cpu_id < old(self)@.cpus.len() ==> exists|next: Option<(u32, u8)>|
                {
                    &&& #[trigger] old(self)@.next_irq(cpu_id, next)
                    &&& r == old(self)@.acked(cpu_id, next)
                    &&& final(self)@ == old(self)@.after_ack(cpu_id, next)
                },
    {
        let ghost m = self@;
        if cpu_id >= self.cpu_interfaces.len() {
            return GIC_SPURIOUS_INTID;
        }
        let pending = self.get_highest_priority_pending(cpu_id);
        let (intid, priority): (Option<u32>, u8) = match pending {
            Some((id, prio)) => (Some(id), prio),
            None => (None, 0xff),
        };
        let cpu_if = &mut self.cpu_interfaces[cpu_id];
        let acked_intid: u32 = cpu_if.acknowledge(intid, priority);
        assert(self@.cpus =~= m.cpus.update(
            cpu_id as int,
            m.cpus[cpu_id as int].after_acknowledge(intid, priority),
        ));
        assert(self@.redists =~= m.redists);
        assert(pending is None ==> self@.cpus =~= m.cpus);
        if acked_intid != GIC_SPURIOUS_INTID {
            assert(pending is Some);
            assert(m.deliverable(cpu_id, acked_intid));
            if acked_intid < GIC_SPI_BASE {
                let redist = &mut self.redistributors[cpu_id];
                redist.state_mut().clear_pending(acked_intid);
            } else {
                let spi: u32 = acked_intid - GIC_SPI_BASE;
                self.distributor.state_mut().clear_spi_pending(spi);
            }
        }
        assert(self@ =~= m.after_ack(cpu_id, pending));
        acked_intid
    }

    /// A CPU writes ICC_EOIR1_EL1.
    pub fn end_of_interrupt(&mut self, cpu_id: usize, intid: u32)
        requires
            old(self).wf(),
        ensures
            final(self).wf(),
            final(self).same_setup(*old(self)),
            final(self)@ == (if cpu_id < old(self)@.cpus.len() {
                HvfModel {
                    cpus: old(self)@.cpus.update(
                        cpu_id as int,
                        old(self)@.cpus[cpu_id as int].after_end(intid),
                    ),
                    ..old(self)@
                }
            } else {
                old(self)@
            }),
    {
        if cpu_id < self.cpu_interfaces.len() {
            let cpu_if = &mut self.cpu_interfaces[cpu_id];
            cpu_if.end_of_interrupt(intid);
        }
        assert(self@ =~= (if cpu_id < old(self)@.cpus.len() {
            HvfModel {
                cpus: old(self)@.cpus.update(
                    cpu_id as int,
                    old(self)@.cpus[cpu_id as int].after_end(intid),
                ),
                ..old(self)@
            }
        } else {
            old(self)@
        }));
    }

    /// Whether an IRQ is to be signalled to a CPU before it runs: group 1 is
    /// enabled and the interrupt that is due can preempt.
    pub fn should_signal_irq(&self, cpu_id: usize) -> (r: bool)
        requires
            self.wf(),
        ensures
            cpu_id >= self@.cpus.len() ==> !r,
            cpu_id < self@.cpus.len() ==> exists|next: Option<(u32, u8)>|
                #[trigger] self@.next_irq(cpu_id, next) && r == (self@.cpus[cpu_id as int].group_enable@[1]
                    && next is Some && self@.cpus[cpu_id as int].preempts((next->0).1)),
    {
        let next = self.get_highest_priority_pending(cpu_id);
        assert(self@.next_irq(cpu_id, next));
        match self.cpu_interface(cpu_id) {
            None => false,
            Some(cpu_if) => {
                if !cpu_if.is_group1_enabled() {
                    return false;
                }
                match next {
                    Some((_, priority)) => cpu_if.can_preempt(priority),
                    None => false,
                }
            },
        }
    }

    /// Why an interrupt is or is not delivered to a CPU; `None` for a CPU that
    /// does not exist.
    pub fn diagnose_irq_delivery(&self, cpu_id: usize) -> (r: Option<IrqDiagnosis>)
        requires
            self.wf(),
        ensures
            r is Some <==> cpu_id < self@.cpus.len(),
            r matches Some(d) ==> {
                let c = self@.cpus[cpu_id as int];
                &&& d.group1_enabled == c.group_enable@[1]
                &&& d.pmr == c.pmr
                &&& d.running_priority == c.running_priority
                &&& d.active_intid == c.active_intid
                &&& d.dist_ctlr == self@.dist.ctlr
                &&& d.spi_pending == self@.dist.pending[0]
                &&& d.spi_enabled == self@.dist.enable[0]
                &&& d.spi_deliverable == self@.dist.pending[0] & self@.dist.enable[0]
                &&& exists|next: Option<(u32, u8)>|
                    {
                        &&& #[trigger] self@.next_irq(cpu_id, next)
                        &&& next is None ==> d.next is None
                        &&& next matches Some((intid, priority)) ==> d.next == Some(
                            PendingDiagnosis {
                                intid,
                                priority,
                                can_preempt: c.preempts(priority),
                                blocked_by_running: priority >= c.running_priority,
                                blocked_by_mask: priority >= c.pmr,
                            },
                        )
                    }
            },
    {
        let pending = self.get_highest_priority_pending(cpu_id);
        match self.cpu_interface(cpu_id) {
            None => None,
            Some(cpu_if) => {
                let state = self.distributor.state();
                assert(self@.next_irq(cpu_id, pending));
                let next = match pending {
                    None => None,
                    Some((intid, priority)) => Some(
                        PendingDiagnosis {
                            intid,
                            priority,
                            can_preempt: cpu_if.can_preempt(priority),
                            blocked_by_running: priority >= cpu_if.running_priority,
                            blocked_by_mask: priority >= cpu_if.pmr,
                        },
                    ),
                };
                Some(
                    IrqDiagnosis {
                        group1_enabled: cpu_if.is_group1_enabled(),
                        pmr: cpu_if.pmr,
                        running_priority: cpu_if.running_priority,
                        active_intid: cpu_if.active_intid,
                        dist_ctlr: state.ctlr,
                        spi_pending: state.pending[0],
                        spi_enabled: state.enable[0],
                        spi_deliverable: state.pending[0] & state.enable[0],
                        next,
                    },
                )
            },
        }
    }

    /// Registers an event of a line. Returns its index.
    pub fn register_edge_irq_event(&mut self, irq: u32, trigger: u64, source: u64) -> (r: Option<
        usize,
    >)
        ensures
            r == Some(old(self).irq_events@.len() as usize),
            final(self).irq_events@ == old(self).irq_events@.push(
                IrqEvent { event: trigger, gsi: irq, resample_event: None, source },
            ),
            *final(self) == (HvfIrqChip { irq_events: final(self).irq_events, ..*old(self) }),
    {
        let index: usize = self.irq_events.len();
        self.irq_events.push(IrqEvent { event: trigger, gsi: irq, resample_event: None, source });
        Some(index)
    }

    /// Registers an event of a line that stays up until it is resampled.
    /// Returns its index.
    pub fn register_level_irq_event(&mut self, irq: u32, trigger: u64, resample: u64, source: u64) -> (r:
        Option<usize>)
        ensures
            r == Some(old(self).irq_events@.len() as usize),
            final(self).irq_events@ == old(self).irq_events@.push(
                IrqEvent { event: trigger, gsi: irq, resample_event: Some(resample), source },
            ),
            *final(self) == (HvfIrqChip { irq_events: final(self).irq_events, ..*old(self) }),
    {
        let index: usize = self.irq_events.len();
        self.irq_events.push(
            IrqEvent { event: trigger, gsi: irq, resample_event: Some(resample), source },
        );
        Some(index)
    }

    /// Takes out all events of a line.
    pub fn unregister_irq_event(&mut self, irq: u32)
        ensures
            final(self).irq_events@ == old(self).irq_events@.filter(|e: IrqEvent| e.gsi != irq),
            *final(self) == (HvfIrqChip { irq_events: final(self).irq_events, ..*old(self) }),
    {
        let ghost p = |e: IrqEvent| e.gsi != irq;
        let ghost s = self.irq_events@;
        let mut kept: Vec<IrqEvent> = Vec::new();
        let mut i: usize = 0;
        proof {
            irq_route::filter_start(s, p);
        }
        while i < self.irq_events.len()
            invariant
                *self == *old(self),
                s == self.irq_events@,
                i <= s.len(),
                p == (|e: IrqEvent| e.gsi != irq),
                kept@ == s.take(i as int).filter(p),
            decreases s.len() - i,
        {
            proof {
                irq_route::filter_step(s, i as int, p);
            }
            if self.irq_events[i].gsi != irq {
                kept.push(self.irq_events[i]);
            }
            i = i + 1;
        }
        proof {
            irq_route::filter_start(s, p);
        }
        self.irq_events = kept;
    }

    /// Routes a line: the new route replaces all others of the line.
    pub fn route_irq(&mut self, route: IrqRoute)
        ensures
            final(self).routes@ == old(self).routes@.filter(
                |r: IrqRoute| r.gsi != route.gsi,
            ).push(route),
            *final(self) == (HvfIrqChip { routes: final(self).routes, ..*old(self) }),
    {
        let ghost p = |r: IrqRoute| r.gsi != route.gsi;
        let ghost s = self.routes@;
        let mut kept: Vec<IrqRoute> = Vec::new();
        let mut i: usize = 0;
        proof {
            irq_route::filter_start(s, p);
        }
        while i < self.routes.len()
            invariant
                *self == *old(self),
                s == self.routes@,
                i <= s.len(),
                p == (|r: IrqRoute| r.gsi != route.gsi),
                kept@ == s.take(i as int).filter(p),
            decreases s.len() - i,
        {
            proof {
                irq_route::filter_step(s, i as int, p);
            }
            if self.routes[i].gsi != route.gsi {
                kept.push(self.routes[i]);
            }
            i = i + 1;
        }
        proof {
            irq_route::filter_start(s, p);
        }
        kept.push(route);
        self.routes = kept;
    }

    /// Replaces all routes.
    pub fn set_irq_routes(&mut self, routes: &[IrqRoute])
        ensures
            final(self).routes@ == routes@,
            *final(self) == (HvfIrqChip { routes: final(self).routes, ..*old(self) }),
    {
        self.routes = copy_routes(routes);
    }

    /// Index, source and event of each registered event.
    pub fn irq_event_tokens(&self) -> (r: Vec<(usize, u64, u64)>)
        ensures
            r@ == Seq::new(
                self.irq_events@.len(),
                |i: int| (i as usize, self.irq_events@[i].source, self.irq_events@[i].event),
            ),
    {
        let ghost goal = Seq::new(
            self.irq_events@.len(),
            |i: int| (i as usize, self.irq_events@[i].source, self.irq_events@[i].event),
        );
        let mut out: Vec<(usize, u64, u64)> = Vec::new();
        let mut i: usize = 0;
        while i < self.irq_events.len()
            invariant
                i <= self.irq_events@.len(),
                goal == Seq::new(
                    self.irq_events@.len(),
                    |i: int| (i as usize, self.irq_events@[i].source, self.irq_events@[i].event),
                ),
                out@ == goal.take(i as int),
            decreases self.irq_events.len() - i,
        {
            out.push((i, self.irq_events[i].source, self.irq_events[i].event));
            i = i + 1;
            assert(out@ =~= goal.take(i as int));
        }
        assert(out@ =~= goal);
        out
    }

    /// Sets a line: line 0 is SPI 0.
    pub fn service_irq(&mut self, irq: u32, level: bool)
        requires
            old(self).wf(),
        ensures
            final(self).wf(),
            final(self).same_setup(*old(self)),
            final(self)@ == (HvfModel {
                dist: if level {
                    old(self)@.dist.set_spi(irq)
                } else {
                    old(self)@.dist.clear_spi(irq)
                },
                ..old(self)@
            }),
    {
        if level {
            self.set_spi_pending(irq);
        } else {
            self.clear_spi_pending(irq);
        }
    }

    /// The event of an index fired: its line becomes pending. Returns the event
    /// that is to be read, if there is one of that index.
    pub fn service_irq_event(&mut self, event_index: usize) -> (r: Option<u64>)
        requires
            old(self).wf(),
        ensures
            final(self).wf(),
            final(self).same_setup(*old(self)),
            event_index < old(self).irq_events@.len() ==> {
                let e = old(self).irq_events@[event_index as int];
                &&& r == Some(e.event)
                &&& final(self)@ == (HvfModel { dist: old(self)@.dist.set_spi(e.gsi), ..old(self)@ })
            },
            event_index >= old(self).irq_events@.len() ==> r is None && final(self)@ == old(self)@,
    {
        if event_index < self.irq_events.len() {
            let e: IrqEvent = self.irq_events[event_index];
            self.set_spi_pending(e.gsi);
            Some(e.event)
        } else {
            None
        }
    }

    /// The multiprocessing state of a CPU is not known.
    pub fn get_mp_state(&self, _vcpu_id: usize) -> (r: Result<u32, i32>)
        ensures
            r == Err::<u32, i32>(ENOENT),
    {
        Err(ENOENT)
    }

    /// The multiprocessing state of a CPU cannot be set.
    pub fn set_mp_state(&mut self, _vcpu_id: usize, _state: u32) -> (r: Result<(), i32>)
        ensures
            r == Err::<(), i32>(ENOENT),
            *final(self) == *old(self),
    {
        Err(ENOENT)
    }

    /// The hypervisor blocks CPUs by itself, so that here each can run.
    pub fn wait_until_runnable(&self, _vcpu_id: usize) -> (r: VcpuRunState)
        ensures
            r == VcpuRunState::Runnable,
    {
        VcpuRunState::Runnable
    }

    /// The end of an interrupt is seen in the registers, not here.
    pub fn broadcast_eoi(&mut self, _vector: u8)
        ensures
            *final(self) == *old(self),
    {
    }

    /// Which GIC the guest sees.
    pub fn get_vgic_version(&self) -> (r: DeviceKind)
        ensures
            r == DeviceKind::ArmVgicV3,
    {
        DeviceKind::ArmVgicV3
    }

    /// There is no translation service for interrupts.
    pub fn has_vgic_its(&self) -> (r: bool)
        ensures
            !r,
    {
        false
    }

    /// The multiprocessing state is no capability of the chip.
    pub fn check_capability(&self, c: IrqChipCap) -> (r: bool)
        ensures
            !r,
    {
        match c {
            IrqChipCap::MpStateGetSet => false,
        }
    }
}

/// The better of a private interrupt and an SPI is the best of all.
proof fn merge_highest(
    m: HvfModel,
    cpu_id: usize,
    private: Option<(u32, u8)>,
    spi: Option<(u32, u8)>,
    best: Option<(u32, u8)>,
)
    requires
        cpu_id < m.redists.len() ==> m.redists[cpu_id as int].next_private(private),
        cpu_id >= m.redists.len() ==> private is None,
        m.dist.next_spi(spi),
        best == (match (private, spi) {
            (None, s) => s,
            (Some(p), Some(s)) => if s.1 < p.1 {
                spi
            } else {
                private
            },
            (Some(p), None) => private,
        }),
    ensures
        m.next_irq(cpu_id, best),
{
    let d = |i: u32| m.deliverable(cpu_id, i);
    let pr = |i: u32| m.priority(cpu_id, i);
    let dd = |i: u32| m.dist.deliverable(i);
    assert forall|j: u32| j < 64 && #[trigger] d(j) implies {
        &&& j < 32 ==> private is Some && ((private->0).1 < pr(j) || ((private->0).1 == pr(j) && (
        private->0).0 <= j))
        &&& j >= 32 ==> spi is Some && ((spi->0).1 < pr(j) || ((spi->0).1 == pr(j) && (spi->0).0
            <= j))
    } by {
        if j < 32 {
            let rd = |i: u32| m.redists[cpu_id as int].deliverable(i);
            assert(rd(j));
        } else {
            assert(dd((j - 32) as u32));
        }
    }
}

/// An acknowledged interrupt is not deliverable any more, and the delivery of
/// no other interrupt changes.
pub proof fn acknowledged_interrupt_is_not_pending(
    m: HvfModel,
    cpu_id: usize,
    next: Option<(u32, u8)>,
    other: u32,
)
    requires
        m.wf(),
        cpu_id < m.cpus.len(),
        m.next_irq(cpu_id, next),
        m.acked(cpu_id, next) != GIC_SPURIOUS_INTID,
        other < 64,
    ensures
        !m.after_ack(cpu_id, next).deliverable(cpu_id, m.acked(cpu_id, next)),
        other != m.acked(cpu_id, next) ==> m.after_ack(cpu_id, next).deliverable(cpu_id, other)
            == m.deliverable(cpu_id, other),
{
    let id = m.acked(cpu_id, next);
    assert(id < 64);
    if id < 32 {
        gic::private_clear_is_not_deliverable(m.redists[cpu_id as int], id, other);
    } else {
        gic::spi_clear_is_not_deliverable(m.dist, (id - 32) as u32, (other - 32) as u32);
    }
}

/// The interrupt that is due is determined.
pub proof fn next_interrupt_is_unique(
    m: HvfModel,
    cpu_id: usize,
    a: Option<(u32, u8)>,
    b: Option<(u32, u8)>,
)
    requires
        m.next_irq(cpu_id, a),
        m.next_irq(cpu_id, b),
    ensures
        a == b,
{
    gic::highest_is_unique(
        a,
        b,
        64,
        |i: u32| m.deliverable(cpu_id, i),
        |i: u32| m.priority(cpu_id, i),
    );
}

/// With up to 256 CPUs no two parts of the GIC overlap on the bus.
pub proof fn gic_ranges_are_disjoint(i: int, j: int)
    requires
        0 <= i < j < 256,
    ensures
        redist_range(i).base + redist_range(i).len <= redist_range(j).base,
        redist_range(j).base + redist_range(j).len <= dist_range().base,
        redist_range(i).base + redist_range(i).len <= dist_range().base,
{
}

/// The interrupt that is due for a CPU is pending and enabled, among the private
/// interrupts of that CPU or the SPIs, which follow them in number. None that is
/// pending and enabled there has a lower priority value, or the same one and a
/// lower number; and where one is, one is due.
pub proof fn next_interrupt_is_the_most_urgent(
    m: HvfModel,
    cpu_id: usize,
    r: Option<(u32, u8)>,
    j: u32,
)
    requires
        m.wf(),
        cpu_id < m.cpus.len(),
        m.next_irq(cpu_id, r),
        j < 32,
    ensures
        ({
            let private = m.redists[cpu_id as int];
            &&& private.deliverable(j) || m.dist.deliverable(j) ==> r is Some
            &&& r matches Some((intid, p)) ==> {
                &&& intid < 64
                &&& intid < 32 ==> private.deliverable(intid) && p == private.irq_priority(intid)
                &&& intid >= 32 ==> m.dist.deliverable((intid - 32) as u32) && p
                    == m.dist.spi_priority((intid - 32) as u32)
                &&& private.deliverable(j) ==> p < private.irq_priority(j) || (p
                    == private.irq_priority(j) && intid <= j)
                &&& m.dist.deliverable(j) ==> p < m.dist.spi_priority(j) || (p
                    == m.dist.spi_priority(j) && intid <= 32 + j)
            }
        }),
{
    let f = |i: u32| m.deliverable(cpu_id, i);
    assert(m.deliverable(cpu_id, j) ==> f(j));
    assert(m.deliverable(cpu_id, (32 + j) as u32) ==> f((32 + j) as u32));
}

/// A CPU that acknowledges takes the interrupt that is due where its priority is
/// above the running one and passes the mask; that priority then runs. Else it
/// gets the spurious number and nothing changes. Other CPUs and their private
/// interrupts are not touched.
pub proof fn acknowledge_takes_the_due_interrupt(
    m: HvfModel,
    cpu_id: usize,
    intid: u32,
    p: u8,
    other: int,
)
    requires
        m.wf(),
        cpu_id < m.cpus.len(),
        m.next_irq(cpu_id, Some((intid, p))),
        0 <= other < m.cpus.len(),
        other != cpu_id,
    ensures
        ({
            let c = m.cpus[cpu_id as int];
            let next = Some((intid, p));
            let n = m.after_ack(cpu_id, next);
            &&& p < c.running_priority && p < c.pmr ==> {
                &&& m.acked(cpu_id, next) == intid
                &&& n.cpus[cpu_id as int].running_priority == p
                &&& n.cpus[cpu_id as int].active_intid == intid
            }
            &&& p >= c.running_priority || p >= c.pmr ==> m.acked(cpu_id, next) == 1023 && n =~= m
            &&& n.cpus[other] == m.cpus[other]
            &&& n.redists[other] == m.redists[other]
        }),
        m.acked(cpu_id, None) == 1023,
        m.after_ack(cpu_id, None) == m,
{
    let c = m.cpus[cpu_id as int];
    let next = Some((intid, p));
    if p >= c.running_priority || p >= c.pmr {
        assert(m.after_ack(cpu_id, next).cpus =~= m.cpus);
    }
}

/// Redistributors lie one after the other from 3 GiB on, each of 128 KiB, and
/// the distributor of 64 KiB lies 32 MiB above the first.
pub proof fn gic_layout_on_the_bus(i: int)
    requires
        0 <= i < 256,
    ensures
        redist_range(i).base == 0xC000_0000 + 0x2_0000 * i,
        redist_range(i).len == 0x2_0000,
        redist_range(i).device == GicDevice::Redistributor(i as usize),
        dist_range().base == 0xC200_0000,
        dist_range().len == 0x1_0000,
        dist_range().device == GicDevice::Distributor,
{
}

/// Every SPI line has one default route, to the pin of its own number.
pub proof fn default_routes_are_straight(i: int)
    requires
        0 <= i < 32,
    ensures
        default_routes().len() == 32,
        default_routes()[i].gsi == i,
        default_routes()[i].source == (IrqSource::Irqchip {
            chip: IrqSourceChip::Gic,
            pin: i as u32,
        }),
{
}

/// Chips of one setup have the same CPUs, routes and events.
pub proof fn setup_is_cpus_routes_and_events(a: HvfIrqChip, b: HvfIrqChip)
    ensures
        a.same_setup(a),
        a.same_setup(b) ==> b.same_setup(a) && a.num_vcpus == b.num_vcpus && a.routes@ == b.routes@
            && a.irq_events@ == b.irq_events@,
{
}

} // verus!
