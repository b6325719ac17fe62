//! GICv3 emulation: the CPU interface, the redistributor of each CPU and the
//! distributor.
//!
//! The distributor manages shared peripheral interrupts (SPIs); each CPU has a
//! redistributor for its private interrupts (SGIs and PPIs) and a CPU interface
//! that acknowledges and ends interrupts.
use crate::bytes;
use crate::bytes::{read_le_u32, write_le_u32};
use vstd::prelude::*;
use vstd::string::StringExecFns;

verus! {

/// Number of SPIs, a multiple of 32.
pub const GIC_NR_SPIS: u32 = 32;

/// Number of software generated interrupts.
pub const GIC_NR_SGIS: u32 = 16;

/// Number of private peripheral interrupts.
pub const GIC_NR_PPIS: u32 = 16;

/// Number of interrupts that belong to one CPU.
pub const GIC_NR_PRIVATE_IRQS: u32 = 32;

/// Number of the first SPI.
pub const GIC_SPI_BASE: u32 = 32;

/// PPI of the virtual timer.
pub const VTIMER_PPI: u32 = 11;

/// Interrupt number of the virtual timer.
pub const VTIMER_INTID: u32 = 27;

/// Size of the distributor's register space.
pub const GICD_SIZE: u64 = 0x10000;

/// Size of one redistributor's register space.
pub const GICR_SIZE: u64 = 0x20000;

pub const GICD_CTLR: u64 = 0x0000;

pub const GICD_TYPER: u64 = 0x0004;

pub const GICD_IIDR: u64 = 0x0008;

pub const GICD_TYPER2: u64 = 0x000C;

pub const GICD_IGROUPR: u64 = 0x0080;

pub const GICD_ISENABLER: u64 = 0x0100;

pub const GICD_ICENABLER: u64 = 0x0180;

pub const GICD_ISPENDR: u64 = 0x0200;

pub const GICD_ICPENDR: u64 = 0x0280;

pub const GICD_ISACTIVER: u64 = 0x0300;

pub const GICD_ICACTIVER: u64 = 0x0380;

pub const GICD_IPRIORITYR: u64 = 0x0400;

pub const GICD_ICFGR: u64 = 0x0C00;

pub const GICD_IGRPMODR: u64 = 0x0D00;

pub const GICD_PIDR2: u64 = 0xFFE8;

pub const GICD_IROUTER: u64 = 0x6000;

pub const GICR_CTLR: u64 = 0x0000;

pub const GICR_IIDR: u64 = 0x0004;

pub const GICR_TYPER: u64 = 0x0008;

pub const GICR_TYPER_HI: u64 = 0x000C;

pub const GICR_WAKER: u64 = 0x0014;

pub const GICR_PIDR2: u64 = 0xFFE8;

pub const GICR_IGROUPR0: u64 = 0x10080;

pub const GICR_ISENABLER0: u64 = 0x10100;

pub const GICR_ICENABLER0: u64 = 0x10180;

pub const GICR_ISPENDR0: u64 = 0x10200;

pub const GICR_ICPENDR0: u64 = 0x10280;

pub const GICR_ISACTIVER0: u64 = 0x10300;

pub const GICR_ICACTIVER0: u64 = 0x10380;

pub const GICR_IPRIORITYR: u64 = 0x10400;

pub const GICR_ICFGR0: u64 = 0x10C00;

pub const GICR_ICFGR1: u64 = 0x10C04;

pub const GICR_IGRPMODR0: u64 = 0x10D00;

/// Group 1 non-secure enable bit of GICD_CTLR.
pub const GICD_CTLR_ENABLE_G1NS: u32 = 0x2;

/// The bits of GICD_CTLR that a write can change: the three group enables and
/// the two affinity routing enables.
pub const GICD_CTLR_WRITABLE: u32 = 0x37;

/// Security is disabled for good.
pub const GICD_CTLR_DS: u32 = 0x40;

pub const GICR_WAKER_PROCESSOR_SLEEP: u32 = 0x2;

pub const GICR_WAKER_CHILDREN_ASLEEP: u32 = 0x4;

/// Architecture version field of PIDR2: GICv3.
pub const GIC_PIDR2_ARCH_GICV3: u32 = 0x30;

/// Implementer identification.
pub const GIC_IIDR: u32 = 0x4300_0000;

/// Interrupt number that stands for "none".
pub const GIC_SPURIOUS_INTID: u32 = 1023;

/// Running priority while no interrupt is active.
pub const GIC_IDLE_PRIORITY: u8 = 0xff;

/// The CPU interface (ICC system registers) of one CPU.
#[derive(Debug)]
pub struct GicCpuInterface {
    /// Priority mask: only lower priority values are delivered.
    pub pmr: u8,
    /// Binary points of groups 0 and 1.
    pub bpr: [u8; 2],
    /// Group enables.
    pub group_enable: [bool; 2],
    /// Priority of the active interrupt.
    pub running_priority: u8,
    /// The active interrupt, or `GIC_SPURIOUS_INTID`.
    pub active_intid: u32,
    /// Active priority registers, four in each group.
    pub apr: [[u32; 4]; 2],
    /// Control register.
    pub ctlr: u32,
    /// Whether an IRQ is to be signalled to the CPU.
    pub irq_pending: bool,
}

impl GicCpuInterface {
    /// No interrupt is active.
    pub open spec fn idle(self) -> bool {
        self.active_intid == GIC_SPURIOUS_INTID && self.running_priority == GIC_IDLE_PRIORITY
    }

    /// Whether an interrupt of this priority goes ahead of what runs now.
    pub open spec fn preempts(self, priority: u8) -> bool {
        priority < self.running_priority && priority < self.pmr
    }

    /// The interrupt number that an acknowledge returns.
    pub open spec fn acknowledged(self, intid: Option<u32>, priority: u8) -> u32 {
        if intid is Some && self.preempts(priority) {
            intid->0
        } else {
            GIC_SPURIOUS_INTID
        }
    }

    /// The interface after an acknowledge.
    pub open spec fn after_acknowledge(self, intid: Option<u32>, priority: u8) -> Self {
        if intid is Some && self.preempts(priority) {
            GicCpuInterface { active_intid: intid->0, running_priority: priority, ..self }
        } else {
            self
        }
    }

    /// The interface after an end of interrupt.
    pub open spec fn after_end(self, intid: u32) -> Self {
        if intid == self.active_intid {
            GicCpuInterface {
                active_intid: GIC_SPURIOUS_INTID,
                running_priority: GIC_IDLE_PRIORITY,
                ..self
            }
        } else {
            self
        }
    }

    /// All active-priority registers are 0.
    pub open spec fn no_active_priorities(self) -> bool {
        forall|g: int, i: int| 0 <= g < 2 && 0 <= i < 4 ==> (#[trigger] self.apr@[g]@[i]) == 0
    }

    /// The interface after reset: every priority passes, no group is enabled.
    pub fn new() -> (r: Self)
        ensures
            r.pmr == 0xff,
            r.bpr@ == seq![0u8, 0u8],
            r.group_enable@ == seq![false, false],
            r.idle(),
            r.no_active_priorities(),
            r.ctlr == 0,
            !r.irq_pending,
    {
        let r = GicCpuInterface {
            pmr: 0xff,
            bpr: [0, 0],
            group_enable: [false, false],
            running_priority: GIC_IDLE_PRIORITY,
            active_intid: GIC_SPURIOUS_INTID,
            apr: [[0, 0, 0, 0], [0, 0, 0, 0]],
            ctlr: 0,
            irq_pending: false,
        };
        assert(r.bpr@ =~= seq![0u8, 0u8]);
        assert(r.group_enable@ =~= seq![false, false]);
        r
    }

    /// ICC_SRE_EL1: system register access is on, and bypass is off.
    pub fn read_sre(&self) -> (r: u64)
        ensures
            r == 7,
    {
        7
    }

    /// ICC_PMR_EL1.
    pub fn read_pmr(&self) -> (r: u64)
        ensures
            r == self.pmr,
    {
        self.pmr as u64
    }

    /// Writes ICC_PMR_EL1; the low byte counts.
    pub fn write_pmr(&mut self, value: u64)
        ensures
            final(self).pmr == value % 256,
            *final(self) == (GicCpuInterface { pmr: final(self).pmr, ..*old(self) }),
    {
        self.pmr = (value % 256) as u8;
    }

    /// ICC_BPR0_EL1 or ICC_BPR1_EL1; zero for any other group.
    pub fn read_bpr(&self, group: usize) -> (r: u64)
        ensures
            r == (if group < 2 {
                self.bpr@[group as int] as u64
            } else {
                0
            }),
    {
        if group < 2 {
            self.bpr[group] as u64
        } else {
            0
        }
    }

    /// Writes a binary point register; other groups are ignored.
    pub fn write_bpr(&mut self, group: usize, value: u64)
        ensures
            final(self).bpr@ == (if group < 2 {
                old(self).bpr@.update(group as int, (value % 256) as u8)
            } else {
                old(self).bpr@
            }),
            *final(self) == (GicCpuInterface { bpr: final(self).bpr, ..*old(self) }),
    {
        if group < 2 {
            self.bpr[group] = (value % 256) as u8;
        }
    }

    /// ICC_CTLR_EL1.
    pub fn read_ctlr(&self) -> (r: u64)
        ensures
            r == self.ctlr,
    {
        self.ctlr as u64
    }

    /// Writes ICC_CTLR_EL1; the low 32 bits count.
    pub fn write_ctlr(&mut self, value: u64)
        ensures
            final(self).ctlr == value % 0x1_0000_0000,
            *final(self) == (GicCpuInterface { ctlr: final(self).ctlr, ..*old(self) }),
    {
        self.ctlr = (value % 0x1_0000_0000) as u32;
    }

    /// ICC_IGRPEN0_EL1 or ICC_IGRPEN1_EL1; zero for any other group.
    pub fn read_igrpen(&self, group: usize) -> (r: u64)
        ensures
            r == (if group < 2 && self.group_enable@[group as int] {
                1u64
            } else {
                0
            }),
    {
        if group < 2 {
            if self.group_enable[group] {
                1
            } else {
                0
            }
        } else {
            0
        }
    }

    /// Writes a group enable; bit 0 counts, other groups are ignored.
    pub fn write_igrpen(&mut self, group: usize, value: u64)
        ensures
            final(self).group_enable@ == (if group < 2 {
                old(self).group_enable@.update(group as int, value % 2 == 1)
            } else {
                old(self).group_enable@
            }),
            *final(self) == (GicCpuInterface {
                group_enable: final(self).group_enable,
                ..*old(self)
            }),
    {
        if group < 2 {
            self.group_enable[group] = value % 2 == 1;
        }
    }

    /// Whether an interrupt of this priority can be taken now: it must go ahead
    /// of the running priority and pass the mask.
    pub fn can_preempt(&self, priority: u8) -> (r: bool)
        ensures
            r == self.preempts(priority),
    {
        priority < self.running_priority && priority < self.pmr
    }

    /// Whether group 1 is enabled.
    pub fn is_group1_enabled(&self) -> (r: bool)
        ensures
            r == self.group_enable@[1],
    {
        self.group_enable[1]
    }

    /// Takes the pending interrupt, if there is one that can preempt: it becomes
    /// the active one. Returns its number, or `GIC_SPURIOUS_INTID`.
    ///
    /// One interrupt is active at a time: taking a second one replaces the
    /// first.
    pub fn acknowledge(&mut self, pending_intid: Option<u32>, pending_priority: u8) -> (r: u32)
        ensures
            r == old(self).acknowledged(pending_intid, pending_priority),
            *final(self) == old(self).after_acknowledge(pending_intid, pending_priority),
    {
        match pending_intid {
            Some(id) => {
                if self.can_preempt(pending_priority) {
                    self.active_intid = id;
                    self.running_priority = pending_priority;
                    id
                } else {
                    GIC_SPURIOUS_INTID
                }
            },
            None => GIC_SPURIOUS_INTID,
        }
    }

    /// Ends the active interrupt, if `intid` is the active one.
    pub fn end_of_interrupt(&mut self, intid: u32)
        ensures
            *final(self) == old(self).after_end(intid),
    {
        if self.active_intid == intid {
            self.active_intid = GIC_SPURIOUS_INTID;
            self.running_priority = GIC_IDLE_PRIORITY;
        }
    }

    /// ICC_RPR_EL1.
    pub fn read_rpr(&self) -> (r: u64)
        ensures
            r == self.running_priority,
    {
        self.running_priority as u64
    }

    /// Marks that an IRQ is to be signalled.
    pub fn set_irq_pending(&mut self)
        ensures
            *final(self) == (GicCpuInterface { irq_pending: true, ..*old(self) }),
    {
        self.irq_pending = true;
    }

    /// Clears the mark and returns what it was.
    pub fn take_irq_pending(&mut self) -> (r: bool)
        ensures
            r == old(self).irq_pending,
            *final(self) == (GicCpuInterface { irq_pending: false, ..*old(self) }),
    {
        let r = self.irq_pending;
        self.irq_pending = false;
        r
    }

    /// Whether an IRQ is to be signalled.
    pub fn is_irq_pending(&self) -> (r: bool)
        ensures
            r == self.irq_pending,
    {
        self.irq_pending
    }
}

impl Default for GicCpuInterface {
    fn default() -> (r: Self)
        ensures
            r.pmr == 0xff,
            r.bpr@ == seq![0u8, 0u8],
            r.group_enable@ == seq![false, false],
            r.idle(),
            r.no_active_priorities(),
            r.ctlr == 0,
            !r.irq_pending,
    {
        Self::new()
    }
}

/// Bit `i` of a register word.
pub open spec fn bit(word: u32, i: u32) -> bool {
    word & (1u32 << i) != 0
}

/// The priority byte of interrupt `i` in registers of four priorities each.
pub open spec fn priority_byte(regs: Seq<u32>, i: u32) -> u8 {
    ((regs[(i / 4) as int] >> ((i % 4) * 8) as u32) & 0xff) as u8
}

/// `r` names the deliverable interrupt of the lowest priority value, the one of
/// the lowest number among equals.
pub open spec fn is_highest(
    r: Option<(u32, u8)>,
    n: u32,
    deliverable: spec_fn(u32) -> bool,
    priority: spec_fn(u32) -> u8,
) -> bool {
    match r {
        None => forall|j: u32| j < n ==> !#[trigger] deliverable(j),
        Some((i, p)) => {
            &&& i < n
            &&& deliverable(i)
            &&& p == priority(i)
            &&& forall|j: u32|
                j < n && #[trigger] deliverable(j) ==> p < priority(j) || (p == priority(j) && i
                    <= j)
        },
    }
}

/// What a redistributor's registers hold.
#[verifier::ext_equal]
pub struct RedistributorModel {
    pub cpu_id: usize,
    pub is_last: bool,
    pub ctlr: u32,
    pub waker: u32,
    pub group0: u32,
    pub enable0: u32,
    pub pending0: u32,
    pub active0: u32,
    pub icfgr0: u32,
    pub icfgr1: u32,
    pub igrpmodr0: u32,
    pub priority: Seq<u32>,
}

impl RedistributorModel {
    /// The low word of GICR_TYPER: the CPU number from bit 8 on, and bit 4 in
    /// the last redistributor.
    pub open spec fn typer(self) -> u32 {
        if self.is_last {
            ((self.cpu_id as u32) << 8) | (1u32 << 4)
        } else {
            (self.cpu_id as u32) << 8
        }
    }

    /// What a read of the register at `offset` returns.
    pub open spec fn read(self, offset: u64) -> u32 {
        if offset == GICR_CTLR {
            self.ctlr
        } else if offset == GICR_IIDR {
            GIC_IIDR
        } else if offset == GICR_TYPER {
            self.typer()
        } else if offset == GICR_TYPER_HI {
            self.cpu_id as u32
        } else if offset == GICR_WAKER {
            self.waker
        } else if offset == GICR_PIDR2 {
            GIC_PIDR2_ARCH_GICV3
        } else if offset == GICR_IGROUPR0 {
            self.group0
        } else if offset == GICR_ISENABLER0 || offset == GICR_ICENABLER0 {
            self.enable0
        } else if offset == GICR_ISPENDR0 || offset == GICR_ICPENDR0 {
            self.pending0
        } else if offset == GICR_ISACTIVER0 || offset == GICR_ICACTIVER0 {
            self.active0
        } else if offset == GICR_ICFGR0 {
            self.icfgr0
        } else if offset == GICR_ICFGR1 {
            self.icfgr1
        } else if offset == GICR_IGRPMODR0 {
            self.igrpmodr0
        } else if GICR_IPRIORITYR <= offset < GICR_IPRIORITYR + 32 {
            self.priority[(offset - GICR_IPRIORITYR) / 4]
        } else {
            0
        }
    }

    /// The registers after a write of `value` at `offset`. Offsets that are
    /// read-only or hold no register change nothing.
    pub open spec fn write(self, offset: u64, value: u32) -> Self {
        if offset == GICR_CTLR {
            RedistributorModel { ctlr: value, ..self }
        } else if offset == GICR_WAKER {
            RedistributorModel {
                waker: if value & GICR_WAKER_PROCESSOR_SLEEP == 0 {
                    value & !GICR_WAKER_CHILDREN_ASLEEP
                } else {
                    value
                },
                ..self
            }
        } else if offset == GICR_IGROUPR0 {
            RedistributorModel { group0: value, ..self }
        } else if offset == GICR_ISENABLER0 {
            RedistributorModel { enable0: self.enable0 | value, ..self }
        } else if offset == GICR_ICENABLER0 {
            RedistributorModel { enable0: self.enable0 & !value, ..self }
        } else if offset == GICR_ISPENDR0 {
            RedistributorModel { pending0: self.pending0 | value, ..self }
        } else if offset == GICR_ICPENDR0 {
            RedistributorModel { pending0: self.pending0 & !value, ..self }
        } else if offset == GICR_ISACTIVER0 {
            RedistributorModel { active0: self.active0 | value, ..self }
        } else if offset == GICR_ICACTIVER0 {
            RedistributorModel { active0: self.active0 & !value, ..self }
        } else if offset == GICR_ICFGR0 {
            RedistributorModel { icfgr0: value, ..self }
        } else if offset == GICR_ICFGR1 {
            RedistributorModel { icfgr1: value, ..self }
        } else if offset == GICR_IGRPMODR0 {
            RedistributorModel { igrpmodr0: value, ..self }
        } else if GICR_IPRIORITYR <= offset < GICR_IPRIORITYR + 32 {
            RedistributorModel {
                priority: self.priority.update((offset - GICR_IPRIORITYR) / 4, value),
                ..self
            }
        } else {
            self
        }
    }

    /// The registers after reset: awake, every interrupt in group 1 and
    /// disabled, with the highest priority.
    pub open spec fn reset(cpu_id: usize, is_last: bool) -> Self {
        RedistributorModel {
            cpu_id,
            is_last,
            ctlr: 0,
            waker: 0,
            group0: 0xFFFF_FFFF,
            enable0: 0,
            pending0: 0,
            active0: 0,
            icfgr0: 0,
            icfgr1: 0,
            igrpmodr0: 0,
            priority: Seq::new(8, |i: int| 0u32),
        }
    }

    /// Private interrupt `intid` is pending and enabled.
    pub open spec fn deliverable(self, intid: u32) -> bool {
        intid < GIC_NR_PRIVATE_IRQS && bit(self.pending0 & self.enable0, intid)
    }

    /// The priority of private interrupt `intid`; idle for any other number.
    pub open spec fn irq_priority(self, intid: u32) -> u8 {
        if intid < GIC_NR_PRIVATE_IRQS {
            priority_byte(self.priority, intid)
        } else {
            0xff
        }
    }

    pub open spec fn set_ppi(self, ppi: u32) -> Self {
        if ppi < GIC_NR_PPIS {
            RedistributorModel {
                pending0: self.pending0 | (1u32 << (GIC_NR_SGIS + ppi) as u32),
                ..self
            }
        } else {
            self
        }
    }

    pub open spec fn clear_ppi(self, ppi: u32) -> Self {
        if ppi < GIC_NR_PPIS {
            RedistributorModel {
                pending0: self.pending0 & !(1u32 << (GIC_NR_SGIS + ppi) as u32),
                ..self
            }
        } else {
            self
        }
    }

    /// The registers without private interrupt `intid` pending.
    pub open spec fn clear_private(self, intid: u32) -> Self {
        RedistributorModel { pending0: self.pending0 & !(1u32 << intid), ..self }
    }

    /// `r` is the private interrupt to deliver next, if any.
    pub open spec fn next_private(self, r: Option<(u32, u8)>) -> bool {
        is_highest(
            r,
            GIC_NR_PRIVATE_IRQS,
            |i: u32| self.deliverable(i),
            |i: u32| self.irq_priority(i),
        )
    }
}

/// The redistributor of one CPU.
#[derive(Debug)]
pub struct RedistributorState {
    /// CPU that this redistributor belongs to.
    pub cpu_id: usize,
    /// Whether this is the last redistributor.
    pub is_last: bool,
    pub ctlr: u32,
    pub waker: u32,
    pub group0: u32,
    pub enable0: u32,
    pub pending0: u32,
    pub active0: u32,
    pub icfgr0: u32,
    pub icfgr1: u32,
    pub igrpmodr0: u32,
    /// Four priorities in each register.
    pub priority: [u32; 8],
}

impl View for RedistributorState {
    type V = RedistributorModel;

    open spec fn view(&self) -> RedistributorModel {
        RedistributorModel {
            cpu_id: self.cpu_id,
            is_last: self.is_last,
            ctlr: self.ctlr,
            waker: self.waker,
            group0: self.group0,
            enable0: self.enable0,
            pending0: self.pending0,
            active0: self.active0,
            icfgr0: self.icfgr0,
            icfgr1: self.icfgr1,
            igrpmodr0: self.igrpmodr0,
            priority: self.priority@,
        }
    }
}

impl RedistributorState {
    pub fn new(cpu_id: usize, is_last: bool) -> (r: Self)
        ensures
            r@ == RedistributorModel::reset(cpu_id, is_last),
    {
        let r = RedistributorState {
            cpu_id,
            is_last,
            ctlr: 0,
            waker: 0,
            group0: 0xFFFF_FFFF,
            enable0: 0,
            pending0: 0,
            active0: 0,
            icfgr0: 0,
            icfgr1: 0,
            igrpmodr0: 0,
            priority: [0, 0, 0, 0, 0, 0, 0, 0],
        };
        assert(r.priority@ =~= Seq::new(8, |i: int| 0u32));
        r
    }

    fn register(&self, offset: u64) -> (r: u32)
        ensures
            r == self@.read(offset),
    {
        if offset == GICR_CTLR {
            self.ctlr
        } else if offset == GICR_IIDR {
            GIC_IIDR
        } else if offset == GICR_TYPER {
            let typer: u32 = (self.cpu_id as u32) << 8;
            if self.is_last {
                typer | (1u32 << 4)
            } else {
                typer
            }
        } else if offset == GICR_TYPER_HI {
            self.cpu_id as u32
        } else if offset == GICR_WAKER {
            self.waker
        } else if offset == GICR_PIDR2 {
            GIC_PIDR2_ARCH_GICV3
        } else if offset == GICR_IGROUPR0 {
            self.group0
        } else if offset == GICR_ISENABLER0 || offset == GICR_ICENABLER0 {
            self.enable0
        } else if offset == GICR_ISPENDR0 || offset == GICR_ICPENDR0 {
            self.pending0
        } else if offset == GICR_ISACTIVER0 || offset == GICR_ICACTIVER0 {
            self.active0
        } else if offset == GICR_ICFGR0 {
            self.icfgr0
        } else if offset == GICR_ICFGR1 {
            self.icfgr1
        } else if offset == GICR_IGRPMODR0 {
            self.igrpmodr0
        } else if offset >= GICR_IPRIORITYR && offset < GICR_IPRIORITYR + 32 {
            let idx: usize = ((offset - GICR_IPRIORITYR) / 4) as usize;
            self.priority[idx]
        } else {
            0
        }
    }

    /// Reads a register into `data`, little-endian, as far as `data` reaches.
    pub fn read(&self, offset: u64, data: &mut [u8])
        ensures
            final(data)@ == bytes::overlay(old(data)@, bytes::le_bytes(self@.read(offset) as nat, 4)),
    {
        let value: u32 = self.register(offset);
        write_le_u32(data, value);
    }

    /// Writes the little-endian value in `data` to a register.
    pub fn write(&mut self, offset: u64, data: &[u8])
        ensures
            final(self)@ == old(self)@.write(offset, bytes::le_value(bytes::prefix(data@, 4)) as u32),
    {
        let value: u32 = read_le_u32(data);
        if offset == GICR_CTLR {
            self.ctlr = value;
        } else if offset == GICR_WAKER {
            self.waker = if value & GICR_WAKER_PROCESSOR_SLEEP == 0 {
                value & !GICR_WAKER_CHILDREN_ASLEEP
            } else {
                value
            };
        } else if offset == GICR_IGROUPR0 {
            self.group0 = value;
        } else if offset == GICR_ISENABLER0 {
            self.enable0 = self.enable0 | value;
        } else if offset == GICR_ICENABLER0 {
            self.enable0 = self.enable0 & !value;
        } else if offset == GICR_ISPENDR0 {
            self.pending0 = self.pending0 | value;
        } else if offset == GICR_ICPENDR0 {
            self.pending0 = self.pending0 & !value;
        } else if offset == GICR_ISACTIVER0 {
            self.active0 = self.active0 | value;
        } else if offset == GICR_ICACTIVER0 {
            self.active0 = self.active0 & !value;
        } else if offset == GICR_ICFGR0 {
            self.icfgr0 = value;
        } else if offset == GICR_ICFGR1 {
            self.icfgr1 = value;
        } else if offset == GICR_IGRPMODR0 {
            self.igrpmodr0 = value;
        } else if offset >= GICR_IPRIORITYR && offset < GICR_IPRIORITYR + 32 {
            let idx: usize = ((offset - GICR_IPRIORITYR) / 4) as usize;
            self.priority[idx] = value;
        }
    }

    /// Makes a PPI pending; a number that is no PPI is ignored.
    pub fn set_ppi_pending(&mut self, ppi: u32)
        ensures
            final(self)@ == old(self)@.set_ppi(ppi),
    {
        if ppi < GIC_NR_PPIS {
            let intid: u32 = GIC_NR_SGIS + ppi;
            self.pending0 = self.pending0 | (1u32 << intid);
        }
    }

    /// Withdraws a pending PPI; a number that is no PPI is ignored.
    pub fn clear_ppi_pending(&mut self, ppi: u32)
        ensures
            final(self)@ == old(self)@.clear_ppi(ppi),
    {
        if ppi < GIC_NR_PPIS {
            let intid: u32 = GIC_NR_SGIS + ppi;
            self.pending0 = self.pending0 & !(1u32 << intid);
        }
    }

    /// Withdraws a pending private interrupt of any kind.
    pub fn clear_pending(&mut self, intid: u32)
        requires
            intid < GIC_NR_PRIVATE_IRQS,
        ensures
            final(self)@ == old(self)@.clear_private(intid),
    {
        self.pending0 = self.pending0 & !(1u32 << intid);
    }

    /// Whether a private interrupt is pending and enabled.
    pub fn is_irq_deliverable(&self, intid: u32) -> (r: bool)
        ensures
            r == self@.deliverable(intid),
    {
        if intid >= GIC_NR_PRIVATE_IRQS {
            return false;
        }
        (self.pending0 & self.enable0) & (1u32 << intid) != 0
    }

    /// The priority of a private interrupt.
    pub fn get_irq_priority(&self, intid: u32) -> (r: u8)
        ensures
            r == self@.irq_priority(intid),
    {
        if intid >= GIC_NR_PRIVATE_IRQS {
            return 0xff;
        }
        let shift: u32 = (intid % 4) * 8;
        let reg: u32 = self.priority[(intid / 4) as usize];
        ((reg >> shift) & 0xff) as u8
    }

    /// The private interrupt to deliver next, with its priority.
    pub fn get_highest_priority_pending(&self) -> (r: Option<(u32, u8)>)
        ensures
            self@.next_private(r),
    {
        let mut best: Option<(u32, u8)> = None;
        let mut intid: u32 = 0;
        while intid < GIC_NR_PRIVATE_IRQS
            invariant
                intid <= GIC_NR_PRIVATE_IRQS,
                is_highest(
                    best,
                    intid,
                    |i: u32| self@.deliverable(i),
                    |i: u32| self@.irq_priority(i),
                ),
            decreases GIC_NR_PRIVATE_IRQS - intid,
        {
            if self.is_irq_deliverable(intid) {
                let priority: u8 = self.get_irq_priority(intid);
                match best {
                    None => {
                        best = Some((intid, priority));
                    },
                    Some((_, best_prio)) => {
                        if priority < best_prio {
                            best = Some((intid, priority));
                        }
                    },
                }
            }
            intid = intid + 1;
        }
        best
    }
}

/// The register of a bank that holds `regs` from index `first` on; zero where
/// the bank holds none.
pub open spec fn banked<T>(regs: Seq<T>, first: int, idx: int, none: T) -> T {
    if first <= idx < first + regs.len() {
        regs[idx - first]
    } else {
        none
    }
}

/// A bank after a store of `value` to index `idx`, which is lost where the bank
/// holds no register.
pub open spec fn bank_store<T>(regs: Seq<T>, first: int, idx: int, value: T) -> Seq<T> {
    if first <= idx < first + regs.len() {
        regs.update(idx - first, value)
    } else {
        regs
    }
}

/// A bank after bits of one register were set.
pub open spec fn bank_set(regs: Seq<u32>, first: int, idx: int, bits: u32) -> Seq<u32> {
    bank_store(regs, first, idx, banked(regs, first, idx, 0) | bits)
}

/// A bank after bits of one register were cleared.
pub open spec fn bank_clear(regs: Seq<u32>, first: int, idx: int, bits: u32) -> Seq<u32> {
    bank_store(regs, first, idx, banked(regs, first, idx, 0) & !bits)
}

pub open spec fn within(offset: u64, base: u64, len: int) -> bool {
    base <= offset < base + len
}

/// Index of the 32-bit register at `offset` in the bank at `base`.
pub open spec fn word_index(offset: u64, base: u64) -> int {
    (offset - base) / 4
}

/// The half of a 64-bit route that a 32-bit access at `offset` sees.
pub open spec fn route_half(route: u64, offset: u64) -> u32 {
    if (offset - GICD_IROUTER) % 8 >= 4 {
        (route / 0x1_0000_0000) as u32
    } else {
        (route % 0x1_0000_0000) as u32
    }
}

/// A route with the half that `offset` addresses replaced.
pub open spec fn route_with_half(route: u64, offset: u64, value: u32) -> u64 {
    if (offset - GICD_IROUTER) % 8 >= 4 {
        (route % 0x1_0000_0000 + value * 0x1_0000_0000) as u64
    } else {
        (route / 0x1_0000_0000 * 0x1_0000_0000 + value) as u64
    }
}

/// What the distributor's registers hold. Each bank holds the registers of the
/// SPIs only: those of the private interrupts read as zero and ignore writes.
#[verifier::ext_equal]
pub struct DistributorModel {
    pub ctlr: u32,
    pub num_cpus: usize,
    pub group: Seq<u32>,
    pub enable: Seq<u32>,
    pub pending: Seq<u32>,
    pub active: Seq<u32>,
    pub icfgr: Seq<u32>,
    pub igrpmodr: Seq<u32>,
    pub priority: Seq<u32>,
    pub router: Seq<u64>,
}

impl DistributorModel {
    /// The banks hold the registers of 32 SPIs.
    pub open spec fn wf(self) -> bool {
        &&& self.group.len() == 1
        &&& self.enable.len() == 1
        &&& self.pending.len() == 1
        &&& self.active.len() == 1
        &&& self.icfgr.len() == 2
        &&& self.igrpmodr.len() == 1
        &&& self.priority.len() == 8
        &&& self.router.len() == 32
    }

    /// GICD_TYPER: one block of 32 SPIs, and the number of CPUs less one.
    pub open spec fn typer(self) -> u32 {
        let cpus = self.num_cpus as u32;
        let last: u32 = if cpus == 0 {
            0
        } else {
            (cpus - 1) as u32
        };
        1u32 | (last << 5)
    }

    /// What a read of the register at `offset` returns.
    pub open spec fn read(self, offset: u64) -> u32 {
        if offset == GICD_CTLR {
            self.ctlr
        } else if offset == GICD_TYPER {
            self.typer()
        } else if offset == GICD_IIDR {
            GIC_IIDR
        } else if offset == GICD_PIDR2 {
            GIC_PIDR2_ARCH_GICV3
        } else if within(offset, GICD_IGROUPR, 0x80) {
            banked(self.group, 1, word_index(offset, GICD_IGROUPR), 0)
        } else if within(offset, GICD_ISENABLER, 0x80) {
            banked(self.enable, 1, word_index(offset, GICD_ISENABLER), 0)
        } else if within(offset, GICD_ICENABLER, 0x80) {
            banked(self.enable, 1, word_index(offset, GICD_ICENABLER), 0)
        } else if within(offset, GICD_ISPENDR, 0x80) {
            banked(self.pending, 1, word_index(offset, GICD_ISPENDR), 0)
        } else if within(offset, GICD_ICPENDR, 0x80) {
            banked(self.pending, 1, word_index(offset, GICD_ICPENDR), 0)
        } else if within(offset, GICD_ISACTIVER, 0x80) {
            banked(self.active, 1, word_index(offset, GICD_ISACTIVER), 0)
        } else if within(offset, GICD_ICACTIVER, 0x80) {
            banked(self.active, 1, word_index(offset, GICD_ICACTIVER), 0)
        } else if within(offset, GICD_IPRIORITYR, 0x400) {
            banked(self.priority, 8, word_index(offset, GICD_IPRIORITYR), 0)
        } else if within(offset, GICD_ICFGR, 0x100) {
            banked(self.icfgr, 2, word_index(offset, GICD_ICFGR), 0)
        } else if within(offset, GICD_IGRPMODR, 0x80) {
            banked(self.igrpmodr, 1, word_index(offset, GICD_IGRPMODR), 0)
        } else if within(offset, GICD_IROUTER, 0x2000) {
            let irq = (offset - GICD_IROUTER) / 8;
            route_half(banked(self.router, GIC_SPI_BASE as int, irq, 0), offset)
        } else {
            0
        }
    }

    /// The registers after a write of `value` at `offset`.
    pub open spec fn write(self, offset: u64, value: u32) -> Self {
        if offset == GICD_CTLR {
            DistributorModel { ctlr: (value & GICD_CTLR_WRITABLE) | GICD_CTLR_DS, ..self }
        } else if within(offset, GICD_IGROUPR, 0x80) {
            let i = word_index(offset, GICD_IGROUPR);
            DistributorModel { group: bank_store(self.group, 1, i, value), ..self }
        } else if within(offset, GICD_ISENABLER, 0x80) {
            let i = word_index(offset, GICD_ISENABLER);
            DistributorModel { enable: bank_set(self.enable, 1, i, value), ..self }
        } else if within(offset, GICD_ICENABLER, 0x80) {
            let i = word_index(offset, GICD_ICENABLER);
            DistributorModel { enable: bank_clear(self.enable, 1, i, value), ..self }
        } else if within(offset, GICD_ISPENDR, 0x80) {
            let i = word_index(offset, GICD_ISPENDR);
            DistributorModel { pending: bank_set(self.pending, 1, i, value), ..self }
        } else if within(offset, GICD_ICPENDR, 0x80) {
            let i = word_index(offset, GICD_ICPENDR);
            DistributorModel { pending: bank_clear(self.pending, 1, i, value), ..self }
        } else if within(offset, GICD_ISACTIVER, 0x80) {
            let i = word_index(offset, GICD_ISACTIVER);
            DistributorModel { active: bank_set(self.active, 1, i, value), ..self }
        } else if within(offset, GICD_ICACTIVER, 0x80) {
            let i = word_index(offset, GICD_ICACTIVER);
            DistributorModel { active: bank_clear(self.active, 1, i, value), ..self }
        } else if within(offset, GICD_IPRIORITYR, 0x400) {
            let i = word_index(offset, GICD_IPRIORITYR);
            DistributorModel { priority: bank_store(self.priority, 8, i, value), ..self }
        } else if within(offset, GICD_ICFGR, 0x100) {
            let i = word_index(offset, GICD_ICFGR);
            DistributorModel { icfgr: bank_store(self.icfgr, 2, i, value), ..self }
        } else if within(offset, GICD_IGRPMODR, 0x80) {
            let i = word_index(offset, GICD_IGRPMODR);
            DistributorModel { igrpmodr: bank_store(self.igrpmodr, 1, i, value), ..self }
        } else if within(offset, GICD_IROUTER, 0x2000) {
            let irq = (offset - GICD_IROUTER) / 8;
            let first = GIC_SPI_BASE as int;
            let route = route_with_half(banked(self.router, first, irq, 0), offset, value);
            DistributorModel { router: bank_store(self.router, first, irq, route), ..self }
        } else {
            self
        }
    }

    /// The registers after reset: every SPI in group 1 and disabled, with the
    /// highest priority, routed to the first CPU.
    pub open spec fn reset(num_cpus: usize) -> Self {
        DistributorModel {
            ctlr: GICD_CTLR_DS,
            num_cpus,
            group: seq![0xFFFF_FFFFu32],
            enable: seq![0u32],
            pending: seq![0u32],
            active: seq![0u32],
            icfgr: seq![0u32, 0u32],
            igrpmodr: seq![0u32],
            priority: Seq::new(8, |i: int| 0u32),
            router: Seq::new(32, |i: int| 0u64),
        }
    }

    /// SPI `spi` is pending and enabled.
    pub open spec fn deliverable(self, spi: u32) -> bool {
        spi < GIC_NR_SPIS && bit(self.pending[0] & self.enable[0], spi)
    }

    /// The priority of SPI `spi`; idle for any other number.
    pub open spec fn spi_priority(self, spi: u32) -> u8 {
        if spi < GIC_NR_SPIS {
            priority_byte(self.priority, spi)
        } else {
            0xff
        }
    }

    pub open spec fn set_spi(self, spi: u32) -> Self {
        if spi < GIC_NR_SPIS {
            DistributorModel {
                pending: self.pending.update(0, self.pending[0] | (1u32 << spi)),
                ..self
            }
        } else {
            self
        }
    }

    pub open spec fn clear_spi(self, spi: u32) -> Self {
        if spi < GIC_NR_SPIS {
            DistributorModel {
                pending: self.pending.update(0, self.pending[0] & !(1u32 << spi)),
                ..self
            }
        } else {
            self
        }
    }

    /// `r` is the SPI to deliver next, if any, as an index among the SPIs.
    pub open spec fn next_spi_index(self, r: Option<(u32, u8)>) -> bool {
        is_highest(r, GIC_NR_SPIS, |i: u32| self.deliverable(i), |i: u32| self.spi_priority(i))
    }

    /// `r` is the SPI to deliver next, if any, by its interrupt number.
    pub open spec fn next_spi(self, r: Option<(u32, u8)>) -> bool {
        match r {
            None => self.next_spi_index(None),
            Some((intid, p)) => intid >= GIC_SPI_BASE && self.next_spi_index(
                Some(((intid - GIC_SPI_BASE) as u32, p)),
            ),
        }
    }

    /// Group 1 delivery is enabled.
    pub open spec fn group1(self) -> bool {
        self.ctlr & GICD_CTLR_ENABLE_G1NS != 0
    }
}

/// The distributor.
pub struct DistributorState {
    pub ctlr: u32,
    pub num_cpus: usize,
    pub group: [u32; 1],
    pub enable: [u32; 1],
    pub pending: [u32; 1],
    pub active: [u32; 1],
    pub icfgr: [u32; 2],
    pub igrpmodr: [u32; 1],
    /// Four priorities in each register.
    pub priority: [u32; 8],
    pub router: [u64; 32],
}

impl View for DistributorState {
    type V = DistributorModel;

    open spec fn view(&self) -> DistributorModel {
        DistributorModel {
            ctlr: self.ctlr,
            num_cpus: self.num_cpus,
            group: self.group@,
            enable: self.enable@,
            pending: self.pending@,
            active: self.active@,
            icfgr: self.icfgr@,
            igrpmodr: self.igrpmodr@,
            priority: self.priority@,
            router: self.router@,
        }
    }
}

/// Index of the 32-bit register at `offset` in the bank at `base`.
fn bank_index(offset: u64, base: u64) -> (r: usize)
    requires
        within(offset, base, 0x400),
    ensures
        r == word_index(offset, base),
{
    ((offset - base) / 4) as usize
}

/// Reads a bank that holds one register, at index 1.
fn bank_word(regs: &[u32; 1], offset: u64, base: u64) -> (r: u32)
    requires
        within(offset, base, 0x80),
    ensures
        r == banked(regs@, 1, word_index(offset, base), 0),
{
    if bank_index(offset, base) == 1 {
        regs[0]
    } else {
        0
    }
}

impl DistributorState {
    pub fn new(num_cpus: usize) -> (r: Self)
        ensures
            r@ == DistributorModel::reset(num_cpus),
            r@.wf(),
    {
        let r = DistributorState {
            ctlr: GICD_CTLR_DS,
            num_cpus,
            group: [0xFFFF_FFFF],
            enable: [0],
            pending: [0],
            active: [0],
            icfgr: [0, 0],
            igrpmodr: [0],
            priority: [0, 0, 0, 0, 0, 0, 0, 0],
            router: [0u64; 32],
        };
        assert(r@ =~= DistributorModel::reset(num_cpus));
        r
    }

    fn register(&self, offset: u64) -> (r: u32)
        ensures
            r == self@.read(offset),
    {
        if offset == GICD_CTLR {
            self.ctlr
        } else if offset == GICD_TYPER {
            let cpus: u32 = self.num_cpus as u32;
            let last: u32 = if cpus == 0 {
                0
            } else {
                cpus - 1
            };
            1u32 | (last << 5)
        } else if offset == GICD_TYPER2 {
            0
        } else if offset == GICD_IIDR {
            GIC_IIDR
        } else if offset == GICD_PIDR2 {
            GIC_PIDR2_ARCH_GICV3
        } else if offset >= GICD_IGROUPR && offset < GICD_IGROUPR + 0x80 {
            bank_word(&self.group, offset, GICD_IGROUPR)
        } else if offset >= GICD_ISENABLER && offset < GICD_ISENABLER + 0x80 {
            bank_word(&self.enable, offset, GICD_ISENABLER)
        } else if offset >= GICD_ICENABLER && offset < GICD_ICENABLER + 0x80 {
            bank_word(&self.enable, offset, GICD_ICENABLER)
        } else if offset >= GICD_ISPENDR && offset < GICD_ISPENDR + 0x80 {
            bank_word(&self.pending, offset, GICD_ISPENDR)
        } else if offset >= GICD_ICPENDR && offset < GICD_ICPENDR + 0x80 {
            bank_word(&self.pending, offset, GICD_ICPENDR)
        } else if offset >= GICD_ISACTIVER && offset < GICD_ISACTIVER + 0x80 {
            bank_word(&self.active, offset, GICD_ISACTIVER)
        } else if offset >= GICD_ICACTIVER && offset < GICD_ICACTIVER + 0x80 {
            bank_word(&self.active, offset, GICD_ICACTIVER)
        } else if offset >= GICD_IPRIORITYR && offset < GICD_IPRIORITYR + 0x400 {
            let idx: usize = bank_index(offset, GICD_IPRIORITYR);
            if idx >= 8 && idx < 16 {
                self.priority[idx - 8]
            } else {
                0
            }
        } else if offset >= GICD_ICFGR && offset < GICD_ICFGR + 0x100 {
            let idx: usize = bank_index(offset, GICD_ICFGR);
            if idx >= 2 && idx < 4 {
                self.icfgr[idx - 2]
            } else {
                0
            }
        } else if offset >= GICD_IGRPMODR && offset < GICD_IGRPMODR + 0x80 {
            bank_word(&self.igrpmodr, offset, GICD_IGRPMODR)
        } else if offset >= GICD_IROUTER && offset < GICD_IROUTER + 0x2000 {
            let irq: usize = ((offset - GICD_IROUTER) / 8) as usize;
            if irq >= 32 && irq < 64 {
                let router: u64 = self.router[irq - 32];
                if (offset - GICD_IROUTER) % 8 >= 4 {
                    (router / 0x1_0000_0000) as u32
                } else {
                    (router % 0x1_0000_0000) as u32
                }
            } else {
                0
            }
        } else {
            0
        }
    }

    /// Reads a register into `data`, little-endian, as far as `data` reaches.
    pub fn read(&self, offset: u64, data: &mut [u8])
        ensures
            final(data)@ == bytes::overlay(
                old(data)@,
                bytes::le_bytes(self@.read(offset) as nat, 4),
            ),
    {
        let value: u32 = self.register(offset);
        write_le_u32(data, value);
    }

    /// Writes the little-endian value in `data` to a register.
    pub fn write(&mut self, offset: u64, data: &[u8])
        ensures
            final(self)@ == old(self)@.write(offset, bytes::le_value(bytes::prefix(data@, 4)) as u32),
    {
        let value: u32 = read_le_u32(data);
        if offset == GICD_CTLR {
            self.ctlr = (value & GICD_CTLR_WRITABLE) | GICD_CTLR_DS;
        } else if offset >= GICD_IGROUPR && offset < GICD_IGROUPR + 0x80 {
            if bank_index(offset, GICD_IGROUPR) == 1 {
                self.group[0] = value;
            }
        } else if offset >= GICD_ISENABLER && offset < GICD_ISENABLER + 0x80 {
            if bank_index(offset, GICD_ISENABLER) == 1 {
                self.enable[0] = self.enable[0] | value;
            }
        } else if offset >= GICD_ICENABLER && offset < GICD_ICENABLER + 0x80 {
            if bank_index(offset, GICD_ICENABLER) == 1 {
                self.enable[0] = self.enable[0] & !value;
            }
        } else if offset >= GICD_ISPENDR && offset < GICD_ISPENDR + 0x80 {
            if bank_index(offset, GICD_ISPENDR) == 1 {
                self.pending[0] = self.pending[0] | value;
            }
        } else if offset >= GICD_ICPENDR && offset < GICD_ICPENDR + 0x80 {
            if bank_index(offset, GICD_ICPENDR) == 1 {
                self.pending[0] = self.pending[0] & !value;
            }
        } else if offset >= GICD_ISACTIVER && offset < GICD_ISACTIVER + 0x80 {
            if bank_index(offset, GICD_ISACTIVER) == 1 {
                self.active[0] = self.active[0] | value;
            }
        } else if offset >= GICD_ICACTIVER && offset < GICD_ICACTIVER + 0x80 {
            if bank_index(offset, GICD_ICACTIVER) == 1 {
                self.active[0] = self.active[0] & !value;
            }
        } else if offset >= GICD_IPRIORITYR && offset < GICD_IPRIORITYR + 0x400 {
            let idx: usize = bank_index(offset, GICD_IPRIORITYR);
            if idx >= 8 && idx < 16 {
                self.priority[idx - 8] = value;
            }
        } else if offset >= GICD_ICFGR && offset < GICD_ICFGR + 0x100 {
            let idx: usize = bank_index(offset, GICD_ICFGR);
            if idx >= 2 && idx < 4 {
                self.icfgr[idx - 2] = value;
            }
        } else if offset >= GICD_IGRPMODR && offset < GICD_IGRPMODR + 0x80 {
            if bank_index(offset, GICD_IGRPMODR) == 1 {
                self.igrpmodr[0] = value;
            }
        } else if offset >= GICD_IROUTER && offset < GICD_IROUTER + 0x2000 {
            let irq: usize = ((offset - GICD_IROUTER) / 8) as usize;
            if irq >= 32 && irq < 64 {
                let old_route: u64 = self.router[irq - 32];
                self.router[irq - 32] = if (offset - GICD_IROUTER) % 8 >= 4 {
                    old_route % 0x1_0000_0000 + value as u64 * 0x1_0000_0000
                } else {
                    old_route / 0x1_0000_0000 * 0x1_0000_0000 + value as u64
                };
            }
        }
    }

    /// Makes an SPI pending; a number that is no SPI is ignored.
    pub fn set_spi_pending(&mut self, spi: u32)
        ensures
            final(self)@ == old(self)@.set_spi(spi),
    {
        if spi < GIC_NR_SPIS {
            self.pending[0] = self.pending[0] | (1u32 << spi);
        }
    }

    /// Withdraws a pending SPI; a number that is no SPI is ignored.
    pub fn clear_spi_pending(&mut self, spi: u32)
        ensures
            final(self)@ == old(self)@.clear_spi(spi),
    {
        if spi < GIC_NR_SPIS {
            self.pending[0] = self.pending[0] & !(1u32 << spi);
        }
    }

    /// Whether an SPI is pending and enabled.
    pub fn is_spi_deliverable(&self, spi: u32) -> (r: bool)
        ensures
            r == self@.deliverable(spi),
    {
        if spi >= GIC_NR_SPIS {
            return false;
        }
        (self.pending[0] & self.enable[0]) & (1u32 << spi) != 0
    }

    /// The priority of an SPI.
    pub fn get_spi_priority(&self, spi: u32) -> (r: u8)
        ensures
            r == self@.spi_priority(spi),
    {
        if spi >= GIC_NR_SPIS {
            return 0xff;
        }
        let shift: u32 = (spi % 4) * 8;
        let reg: u32 = self.priority[(spi / 4) as usize];
        ((reg >> shift) & 0xff) as u8
    }

    /// The interrupt number of the SPI to deliver next, with its priority.
    pub fn get_highest_priority_pending_spi(&self) -> (r: Option<(u32, u8)>)
        ensures
            self@.next_spi(r),
    {
        let mut best: Option<(u32, u8)> = None;
        let mut spi: u32 = 0;
        while spi < GIC_NR_SPIS
            invariant
                spi <= GIC_NR_SPIS,
                is_highest(
                    best,
                    spi,
                    |i: u32| self@.deliverable(i),
                    |i: u32| self@.spi_priority(i),
                ),
            decreases GIC_NR_SPIS - spi,
        {
            if self.is_spi_deliverable(spi) {
                let priority: u8 = self.get_spi_priority(spi);
                match best {
                    None => {
                        best = Some((spi, priority));
                    },
                    Some((_, best_prio)) => {
                        if priority < best_prio {
                            best = Some((spi, priority));
                        }
                    },
                }
            }
            spi = spi + 1;
        }
        match best {
            None => None,
            Some((i, p)) => Some((GIC_SPI_BASE + i, p)),
        }
    }

    /// Whether group 1 delivery is enabled.
    pub fn is_group1_enabled(&self) -> (r: bool)
        ensures
            r == self@.group1(),
    {
        self.ctlr & GICD_CTLR_ENABLE_G1NS != 0
    }
}

/// The distributor as a device on the memory bus.
pub struct GicDistributor {
    state: DistributorState,
}

impl GicDistributor {
    /// What the registers hold.
    pub closed spec fn model(self) -> DistributorModel {
        self.state@
    }

    pub fn new(num_cpus: usize) -> (r: Self)
        ensures
            r.model() == DistributorModel::reset(num_cpus),
    {
        GicDistributor { state: DistributorState::new(num_cpus) }
    }

    pub fn state(&self) -> (r: &DistributorState)
        ensures
            r@ == self.model(),
    {
        &self.state
    }

    pub fn state_mut(&mut self) -> (r: &mut DistributorState)
        ensures
            r@ == old(self).model(),
            final(self).model() == final(r)@,
    {
        &mut self.state
    }

    /// The state cannot be saved.
    pub fn snapshot(&mut self) -> (r: Result<Vec<u8>, String>)
        ensures
            r is Err,
            r->Err_0@ == "GicDistributor snapshot not implemented"@,
            *final(self) == *old(self),
    {
        Err("GicDistributor snapshot not implemented".to_owned())
    }

    /// No saved state can be taken back.
    pub fn restore(&mut self, _data: &[u8]) -> (r: Result<(), String>)
        ensures
            r is Err,
            r->Err_0@ == "GicDistributor restore not implemented"@,
            *final(self) == *old(self),
    {
        Err("GicDistributor restore not implemented".to_owned())
    }

    /// Nothing runs that would have to stop.
    pub fn sleep(&mut self) -> (r: Result<(), String>)
        ensures
            r is Ok,
            *final(self) == *old(self),
    {
        Ok(())
    }

    /// Nothing was stopped.
    pub fn wake(&mut self) -> (r: Result<(), String>)
        ensures
            r is Ok,
            *final(self) == *old(self),
    {
        Ok(())
    }

    /// A bus read.
    pub fn read(&mut self, offset: u64, data: &mut [u8])
        ensures
            final(self).model() == old(self).model(),
            final(data)@ == bytes::overlay(
                old(data)@,
                bytes::le_bytes(old(self).model().read(offset) as nat, 4),
            ),
    {
        self.state.read(offset, data);
    }

    /// A bus write.
    pub fn write(&mut self, offset: u64, data: &[u8])
        ensures
            final(self).model() == old(self).model().write(
                offset,
                bytes::le_value(bytes::prefix(data@, 4)) as u32,
            ),
    {
        self.state.write(offset, data);
    }
}

/// A redistributor as a device on the memory bus.
pub struct GicRedistributor {
    state: RedistributorState,
}

impl GicRedistributor {
    /// What the registers hold.
    pub closed spec fn model(self) -> RedistributorModel {
        self.state@
    }

    pub fn new(cpu_id: usize, is_last: bool) -> (r: Self)
        ensures
            r.model() == RedistributorModel::reset(cpu_id, is_last),
    {
        GicRedistributor { state: RedistributorState::new(cpu_id, is_last) }
    }

    pub fn state(&self) -> (r: &RedistributorState)
        ensures
            r@ == self.model(),
    {
        &self.state
    }

    pub fn state_mut(&mut self) -> (r: &mut RedistributorState)
        ensures
            r@ == old(self).model(),
            final(self).model() == final(r)@,
    {
        &mut self.state
    }

    /// The state cannot be saved.
    pub fn snapshot(&mut self) -> (r: Result<Vec<u8>, String>)
        ensures
            r is Err,
            r->Err_0@ == "GicRedistributor snapshot not implemented"@,
            *final(self) == *old(self),
    {
        Err("GicRedistributor snapshot not implemented".to_owned())
    }

    /// No saved state can be taken back.
    pub fn restore(&mut self, _data: &[u8]) -> (r: Result<(), String>)
        ensures
            r is Err,
            r->Err_0@ == "GicRedistributor restore not implemented"@,
            *final(self) == *old(self),
    {
        Err("GicRedistributor restore not implemented".to_owned())
    }

    /// Nothing runs that would have to stop.
    pub fn sleep(&mut self) -> (r: Result<(), String>)
        ensures
            r is Ok,
            *final(self) == *old(self),
    {
        Ok(())
    }

    /// Nothing was stopped.
    pub fn wake(&mut self) -> (r: Result<(), String>)
        ensures
            r is Ok,
            *final(self) == *old(self),
    {
        Ok(())
    }

    /// A bus read.
    pub fn read(&mut self, offset: u64, data: &mut [u8])
        ensures
            final(self).model() == old(self).model(),
            final(data)@ == bytes::overlay(
                old(data)@,
                bytes::le_bytes(old(self).model().read(offset) as nat, 4),
            ),
    {
        self.state.read(offset, data);
    }

    /// A bus write.
    pub fn write(&mut self, offset: u64, data: &[u8])
        ensures
            final(self).model() == old(self).model().write(
                offset,
                bytes::le_value(bytes::prefix(data@, 4)) as u32,
            ),
    {
        self.state.write(offset, data);
    }
}

/// An acknowledged interrupt that is ended leaves an interface that was idle as
/// it was.
pub proof fn acknowledge_then_end(c: GicCpuInterface, intid: u32, priority: u8)
    requires
        c.idle(),
    ensures
        c.after_acknowledge(Some(intid), priority).after_end(
            c.acknowledged(Some(intid), priority),
        ) == c,
{
}

/// While an interrupt is active, no interrupt of the same or a lower priority
/// is taken.
pub proof fn active_interrupt_masks(c: GicCpuInterface, i: u32, p: u8, j: u32, q: u8)
    requires
        c.preempts(p),
        q >= p,
    ensures
        c.after_acknowledge(Some(i), p).acknowledged(Some(j), q) == GIC_SPURIOUS_INTID,
        c.after_acknowledge(Some(i), p).after_acknowledge(Some(j), q) == c.after_acknowledge(
            Some(i),
            p,
        ),
{
}

/// An end of interrupt for a number that is not active changes nothing.
pub proof fn stray_end_is_ignored(c: GicCpuInterface, intid: u32)
    requires
        intid != c.active_intid,
    ensures
        c.after_end(intid) == c,
{
}

/// The interrupt to deliver next is determined.
pub proof fn highest_is_unique(
    a: Option<(u32, u8)>,
    b: Option<(u32, u8)>,
    n: u32,
    deliverable: spec_fn(u32) -> bool,
    priority: spec_fn(u32) -> u8,
)
    requires
        is_highest(a, n, deliverable, priority),
        is_highest(b, n, deliverable, priority),
    ensures
        a == b,
{
    match (a, b) {
        (Some((i, _)), Some((j, _))) => {
            assert(deliverable(i) && deliverable(j));
        },
        (Some((i, _)), None) => {
            assert(deliverable(i));
        },
        (None, Some((j, _))) => {
            assert(deliverable(j));
        },
        (None, None) => {},
    }
}

proof fn single_bit_ops(word: u32, other: u32, i: u32, j: u32)
    by (bit_vector)
    requires
        i < 32,
        j < 32,
    ensures
        ((word | (1u32 << i)) & (1u32 << j) != 0) == (i == j || word & (1u32 << j) != 0),
        ((word & !(1u32 << i)) & (1u32 << j) != 0) == (i != j && word & (1u32 << j) != 0),
        ((word & other) & (1u32 << j) != 0) == (word & (1u32 << j) != 0 && other & (1u32 << j)
            != 0),
        ((word | other) & (1u32 << j) != 0) == (word & (1u32 << j) != 0 || other & (1u32 << j)
            != 0),
        ((word & !other) & (1u32 << j) != 0) == (word & (1u32 << j) != 0 && other & (1u32 << j)
            == 0),
{
}

/// A set-enable write enables exactly the interrupts that were enabled or that
/// it names, a clear-enable write leaves exactly those it does not name.
pub proof fn redistributor_enable_bits(m: RedistributorModel, value: u32, i: u32)
    requires
        i < GIC_NR_PRIVATE_IRQS,
    ensures
        bit(m.write(GICR_ISENABLER0, value).enable0, i) == (bit(m.enable0, i) || bit(value, i)),
        bit(m.write(GICR_ICENABLER0, value).enable0, i) == (bit(m.enable0, i) && !bit(value, i)),
        bit(m.write(GICR_ISPENDR0, value).pending0, i) == (bit(m.pending0, i) || bit(value, i)),
        bit(m.write(GICR_ICPENDR0, value).pending0, i) == (bit(m.pending0, i) && !bit(value, i)),
{
    single_bit_ops(m.enable0, value, i, i);
    single_bit_ops(m.pending0, value, i, i);
}

/// A PPI that is made pending is deliverable exactly when it is enabled, and no
/// other interrupt is affected.
pub proof fn ppi_set_is_deliverable(m: RedistributorModel, ppi: u32, j: u32)
    requires
        ppi < GIC_NR_PPIS,
    ensures
        m.set_ppi(ppi).deliverable((GIC_NR_SGIS + ppi) as u32) == bit(
            m.enable0,
            (GIC_NR_SGIS + ppi) as u32,
        ),
        j != GIC_NR_SGIS + ppi ==> m.set_ppi(ppi).deliverable(j) == m.deliverable(j),
{
    let i = (GIC_NR_SGIS + ppi) as u32;
    let after = m.set_ppi(ppi).pending0;
    single_bit_ops(m.pending0, m.enable0, i, i);
    single_bit_ops(after, m.enable0, i, i);
    if j < 32 {
        single_bit_ops(m.pending0, m.enable0, i, j);
        single_bit_ops(after, m.enable0, i, j);
    }
}

/// A PPI that is withdrawn is not deliverable, and no other interrupt is
/// affected.
pub proof fn ppi_clear_is_not_deliverable(m: RedistributorModel, ppi: u32, j: u32)
    requires
        ppi < GIC_NR_PPIS,
    ensures
        !m.clear_ppi(ppi).deliverable((GIC_NR_SGIS + ppi) as u32),
        j != GIC_NR_SGIS + ppi ==> m.clear_ppi(ppi).deliverable(j) == m.deliverable(j),
{
    let i = (GIC_NR_SGIS + ppi) as u32;
    let after = m.clear_ppi(ppi).pending0;
    single_bit_ops(m.pending0, m.enable0, i, i);
    single_bit_ops(after, m.enable0, i, i);
    if j < 32 {
        single_bit_ops(m.pending0, m.enable0, i, j);
        single_bit_ops(after, m.enable0, i, j);
    }
}

/// A private interrupt that is withdrawn is not deliverable, and no other one is
/// affected.
pub proof fn private_clear_is_not_deliverable(m: RedistributorModel, i: u32, j: u32)
    requires
        i < GIC_NR_PRIVATE_IRQS,
    ensures
        !m.clear_private(i).deliverable(i),
        j != i ==> m.clear_private(i).deliverable(j) == m.deliverable(j),
{
    let after = m.clear_private(i).pending0;
    single_bit_ops(m.pending0, m.enable0, i, i);
    single_bit_ops(after, m.enable0, i, i);
    if j < 32 {
        single_bit_ops(m.pending0, m.enable0, i, j);
        single_bit_ops(after, m.enable0, i, j);
    }
}

/// An SPI that is made pending is deliverable exactly when it is enabled, and
/// no other SPI is affected.
pub proof fn spi_set_is_deliverable(m: DistributorModel, spi: u32, j: u32)
    requires
        m.wf(),
        spi < GIC_NR_SPIS,
    ensures
        m.set_spi(spi).deliverable(spi) == bit(m.enable[0], spi),
        j != spi ==> m.set_spi(spi).deliverable(j) == m.deliverable(j),
{
    let after = m.set_spi(spi).pending[0];
    single_bit_ops(m.pending[0], m.enable[0], spi, spi);
    single_bit_ops(after, m.enable[0], spi, spi);
    if j < 32 {
        single_bit_ops(m.pending[0], m.enable[0], spi, j);
        single_bit_ops(after, m.enable[0], spi, j);
    }
}

/// An SPI that is withdrawn is not deliverable, and no other SPI is affected.
pub proof fn spi_clear_is_not_deliverable(m: DistributorModel, spi: u32, j: u32)
    requires
        m.wf(),
        spi < GIC_NR_SPIS,
    ensures
        !m.clear_spi(spi).deliverable(spi),
        j != spi ==> m.clear_spi(spi).deliverable(j) == m.deliverable(j),
{
    let after = m.clear_spi(spi).pending[0];
    single_bit_ops(m.pending[0], m.enable[0], spi, spi);
    single_bit_ops(after, m.enable[0], spi, spi);
    if j < 32 {
        single_bit_ops(m.pending[0], m.enable[0], spi, j);
        single_bit_ops(after, m.enable[0], spi, j);
    }
}

/// The offset addresses a distributor register that holds what was last
/// written to it: a group, priority, configuration, group modifier or route
/// register of an SPI.
pub open spec fn distributor_storage(offset: u64) -> bool {
    ||| within(offset, 0x84, 4)
    ||| within(offset, 0x420, 32)
    ||| within(offset, 0xC08, 8)
    ||| within(offset, 0xD04, 4)
    ||| within(offset, 0x6100, 0x100)
}

/// A storage register of the distributor reads back what was written to it, and
/// a write to it changes no register at another word.
pub proof fn distributor_read_after_write(m: DistributorModel, a: u64, b: u64, value: u32)
    requires
        m.wf(),
        distributor_storage(a),
    ensures
        a / 4 == b / 4 ==> m.write(a, value).read(b) == value,
        a / 4 != b / 4 ==> m.write(a, value).read(b) == m.read(b),
{
}

/// A storage register of a redistributor reads back what was written to it.
pub proof fn redistributor_read_after_write(m: RedistributorModel, offset: u64, value: u32)
    requires
        m.priority.len() == 8,
        offset == GICR_CTLR || offset == GICR_IGROUPR0 || offset == GICR_ICFGR0 || offset
            == GICR_ICFGR1 || offset == GICR_IGRPMODR0 || GICR_IPRIORITYR <= offset
            < GICR_IPRIORITYR + 32,
    ensures
        m.write(offset, value).read(offset) == value,
{
}

proof fn ds_survives(value: u32)
    by (bit_vector)
    ensures
        ((value & 0x37u32) | 0x40u32) & 0x40u32 != 0,
        0x40u32 & 0x40u32 != 0,
{
}

/// Security stays disabled, and the banks keep their sizes, through any write.
pub proof fn distributor_write_keeps_invariant(m: DistributorModel, offset: u64, value: u32)
    requires
        m.wf(),
        m.ctlr & GICD_CTLR_DS != 0,
    ensures
        m.write(offset, value).wf(),
        m.write(offset, value).ctlr & GICD_CTLR_DS != 0,
        m.write(offset, value).num_cpus == m.num_cpus,
{
    ds_survives(value);
}

/// Security is disabled after reset.
pub proof fn distributor_reset_invariant(num_cpus: usize)
    ensures
        DistributorModel::reset(num_cpus).wf(),
        DistributorModel::reset(num_cpus).ctlr & GICD_CTLR_DS != 0,
{
    ds_survives(0);
}

/// After reset nothing is deliverable.
pub proof fn nothing_deliverable_after_reset(cpu_id: usize, is_last: bool, n: usize, i: u32)
    ensures
        !RedistributorModel::reset(cpu_id, is_last).deliverable(i),
        !DistributorModel::reset(n).deliverable(i),
{
    if i < 32 {
        single_bit_ops(0u32, 0u32, i, i);
        assert(0u32 & (1u32 << i) == 0) by (bit_vector);
    }
}

proof fn word_facts(v: u32)
    by (bit_vector)
    ensures
        (v >> 0u32) & 0xffu32 == v % 0x100,
        (v >> 8u32) & 0xffu32 == v / 0x100 % 0x100,
        (v >> 16u32) & 0xffu32 == v / 0x1_0000 % 0x100,
        (v >> 24u32) & 0xffu32 == v / 0x100_0000,
        v < 0x100_0000 ==> (v << 8) == 256 * v,
        v < 0x100_0000 ==> ((v << 8) | (1u32 << 4)) == 256 * v + 16,
        v < 0x100_0000 ==> (1u32 | (v << 5)) == 1 + 32 * v,
        ((v & 0x37u32) | 0x40u32) & 0x02u32 == v & 0x02u32,
        ((v & 0x37u32) | 0x40u32) & 0x37u32 == v & 0x37u32,
        (v & !0x04u32) & 0x04u32 == 0,
        (v & !0x04u32) & !0x04u32 == v & !0x04u32,
{
}

/// The byte `j` of four bytes is the byte that a register which holds them shows
/// for the interrupt `j` of the four that it serves.
proof fn priority_byte_is_byte(regs: Seq<u32>, i: u32, b: Seq<u8>)
    requires
        b.len() == 4,
        regs[(i / 4) as int] == bytes::le_value(b),
    ensures
        priority_byte(regs, i) == b[(i % 4) as int],
{
    let v = regs[(i / 4) as int];
    bytes::le_value_is_weighted_sum(b);
    word_facts(v);
    assert(v % 0x100 == b[0]);
    assert(v / 0x100 % 0x100 == b[1]);
    assert(v / 0x1_0000 % 0x100 == b[2]);
    assert(v / 0x100_0000 == b[3]);
    assert(i % 4 == 0 || i % 4 == 1 || i % 4 == 2 || i % 4 == 3);
}

/// The priority of an SPI is its byte in the priority registers as they were
/// written: after four bytes went to the register of SPIs `4 * k` to `4 * k + 3`,
/// SPI `4 * k + j` has the priority in byte `j`, and all others keep theirs.
pub proof fn spi_priorities_are_the_bytes_written(
    m: DistributorModel,
    k: u64,
    b: Seq<u8>,
    spi: u32,
)
    requires
        m.wf(),
        k < 8,
        b.len() == 4,
        spi < 32,
    ensures
        ({
            let n = m.write((0x420 + 4 * k) as u64, bytes::le_value(bytes::prefix(b, 4)) as u32);
            &&& spi / 4 == k ==> n.spi_priority(spi) == b[(spi % 4) as int]
            &&& spi / 4 != k ==> n.spi_priority(spi) == m.spi_priority(spi)
        }),
{
    let n = m.write((0x420 + 4 * k) as u64, bytes::le_value(b) as u32);
    bytes::le_field_bounds(b);
    if spi / 4 == k {
        priority_byte_is_byte(n.priority, spi, b);
    }
}

/// The priority of a private interrupt is its byte in the priority registers of
/// the redistributor as they were written.
pub proof fn private_priorities_are_the_bytes_written(
    m: RedistributorModel,
    k: u64,
    b: Seq<u8>,
    intid: u32,
)
    requires
        m.priority.len() == 8,
        k < 8,
        b.len() == 4,
        intid < 32,
    ensures
        ({
            let n = m.write((0x10400 + 4 * k) as u64, bytes::le_value(bytes::prefix(b, 4)) as u32);
            &&& intid / 4 == k ==> n.irq_priority(intid) == b[(intid % 4) as int]
            &&& intid / 4 != k ==> n.irq_priority(intid) == m.irq_priority(intid)
        }),
{
    let n = m.write((0x10400 + 4 * k) as u64, bytes::le_value(b) as u32);
    bytes::le_field_bounds(b);
    if intid / 4 == k {
        priority_byte_is_byte(n.priority, intid, b);
    }
}

/// An SPI can be delivered exactly where its bits in the pending and in the
/// enable register are both set.
pub proof fn spi_deliverable_when_pending_and_enabled(m: DistributorModel, spi: u32)
    requires
        m.wf(),
        spi < 32,
    ensures
        m.deliverable(spi) <==> m.read(0x204) & (1u32 << spi) != 0 && m.read(0x104) & (1u32 << spi)
            != 0,
{
    single_bit_ops(m.pending[0], m.enable[0], spi, spi);
}

/// A private interrupt can be delivered exactly where its bits in the pending
/// and in the enable register are both set.
pub proof fn private_deliverable_when_pending_and_enabled(m: RedistributorModel, intid: u32)
    requires
        intid < 32,
    ensures
        m.deliverable(intid) <==> m.read(0x10200) & (1u32 << intid) != 0 && m.read(0x10100) & (1u32
            << intid) != 0,
{
    single_bit_ops(m.pending0, m.enable0, intid, intid);
}

/// The SPI that is delivered next can be delivered, and none that can be
/// delivered is more urgent: lower values go first, and among equals lower
/// numbers. Where none is delivered there is none that could be.
pub proof fn next_spi_is_the_most_urgent(m: DistributorModel, r: Option<(u32, u8)>, j: u32)
    requires
        m.next_spi(r),
        j < 32,
    ensures
        m.deliverable(j) ==> r is Some,
        r matches Some((intid, p)) ==> {
            &&& 32 <= intid < 64
            &&& m.deliverable((intid - 32) as u32)
            &&& p == m.spi_priority((intid - 32) as u32)
            &&& m.deliverable(j) ==> p <= m.spi_priority(j)
            &&& m.deliverable(j) && p == m.spi_priority(j) ==> intid <= 32 + j
        },
{
    let f = |i: u32| m.deliverable(i);
    assert(m.deliverable(j) ==> f(j));
}

/// The private interrupt that is delivered next can be delivered, and none that
/// can be delivered is more urgent.
pub proof fn next_private_is_the_most_urgent(m: RedistributorModel, r: Option<(u32, u8)>, j: u32)
    requires
        m.next_private(r),
        j < 32,
    ensures
        m.deliverable(j) ==> r is Some,
        r matches Some((intid, p)) ==> {
            &&& intid < 32
            &&& m.deliverable(intid)
            &&& p == m.irq_priority(intid)
            &&& m.deliverable(j) ==> p <= m.irq_priority(j)
            &&& m.deliverable(j) && p == m.irq_priority(j) ==> intid <= j
        },
{
    let f = |i: u32| m.deliverable(i);
    assert(m.deliverable(j) ==> f(j));
}

/// The set registers of the SPIs set the bits that are written as ones, the clear
/// registers clear them, and both show the same bits. Enable, pending and active
/// bits do not affect each other.
pub proof fn spi_bits_are_set_and_cleared(m: DistributorModel, v: u32)
    requires
        m.wf(),
    ensures
        m.write(0x104, v).read(0x104) == m.read(0x104) | v,
        m.write(0x184, v).read(0x104) == m.read(0x104) & !v,
        m.write(0x204, v).read(0x204) == m.read(0x204) | v,
        m.write(0x284, v).read(0x204) == m.read(0x204) & !v,
        m.write(0x304, v).read(0x304) == m.read(0x304) | v,
        m.write(0x384, v).read(0x304) == m.read(0x304) & !v,
        m.read(0x184) == m.read(0x104),
        m.read(0x284) == m.read(0x204),
        m.read(0x384) == m.read(0x304),
        m.write(0x104, v).read(0x204) == m.read(0x204),
        m.write(0x184, v).read(0x204) == m.read(0x204),
        m.write(0x204, v).read(0x104) == m.read(0x104),
        m.write(0x284, v).read(0x104) == m.read(0x104),
        m.write(0x304, v).read(0x104) == m.read(0x104),
        m.write(0x304, v).read(0x204) == m.read(0x204),
        m.write(0x384, v).read(0x104) == m.read(0x104),
        m.write(0x384, v).read(0x204) == m.read(0x204),
{
}

/// The set registers of the private interrupts set the bits that are written as
/// ones, the clear registers clear them, and both show the same bits.
pub proof fn private_bits_are_set_and_cleared(m: RedistributorModel, v: u32)
    ensures
        m.write(0x10100, v).read(0x10100) == m.read(0x10100) | v,
        m.write(0x10180, v).read(0x10100) == m.read(0x10100) & !v,
        m.write(0x10200, v).read(0x10200) == m.read(0x10200) | v,
        m.write(0x10280, v).read(0x10200) == m.read(0x10200) & !v,
        m.write(0x10300, v).read(0x10300) == m.read(0x10300) | v,
        m.write(0x10380, v).read(0x10300) == m.read(0x10300) & !v,
        m.read(0x10180) == m.read(0x10100),
        m.read(0x10280) == m.read(0x10200),
        m.read(0x10380) == m.read(0x10300),
{
}

/// PPI `ppi` is the private interrupt 16 numbers above it: making it pending
/// shows there and nowhere else.
pub proof fn ppis_follow_the_sgis(m: RedistributorModel, ppi: u32, j: u32)
    requires
        ppi < 16,
        j < 32,
    ensures
        m.set_ppi(ppi).read(0x10200) & (1u32 << j) != 0 <==> j == 16 + ppi || m.read(0x10200) & (1u32
            << j) != 0,
        m.clear_ppi(ppi).read(0x10200) & (1u32 << j) != 0 <==> j != 16 + ppi && m.read(0x10200) & (
        1u32 << j) != 0,
{
    single_bit_ops(m.pending0, 0, (16 + ppi) as u32, j);
}

/// An interrupt is taken exactly where its priority is above the running one and
/// passes the mask. It is then the one that runs. Otherwise the answer is the
/// spurious number and nothing changes.
pub proof fn acknowledge_takes_what_preempts(c: GicCpuInterface, intid: u32, p: u8)
    ensures
        p < c.pmr && p < c.running_priority ==> {
            &&& c.acknowledged(Some(intid), p) == intid
            &&& c.after_acknowledge(Some(intid), p).active_intid == intid
            &&& c.after_acknowledge(Some(intid), p).running_priority == p
        },
        p >= c.pmr || p >= c.running_priority ==> {
            &&& c.acknowledged(Some(intid), p) == 1023
            &&& c.after_acknowledge(Some(intid), p) == c
        },
        c.acknowledged(None, p) == 1023,
        c.after_acknowledge(None, p) == c,
        c.after_acknowledge(Some(intid), p).pmr == c.pmr,
        c.after_end(c.active_intid).running_priority == 0xff,
        c.after_end(c.active_intid).active_intid == 1023,
{
}

/// The type registers show how many CPUs and which CPU there is, and the
/// identification registers name a version 3 controller.
pub proof fn type_registers_count_cpus(m: DistributorModel, r: RedistributorModel)
    requires
        1 <= m.num_cpus <= 0x100_0000,
        r.cpu_id < 0x100_0000,
    ensures
        m.read(0x04) == 1 + 32 * (m.num_cpus - 1),
        r.read(0x0c) == r.cpu_id,
        r.is_last ==> r.read(0x08) == 256 * r.cpu_id + 16,
        !r.is_last ==> r.read(0x08) == 256 * r.cpu_id,
        m.read(0xffe8) == 0x30,
        r.read(0xffe8) == 0x30,
{
    word_facts((m.num_cpus - 1) as u32);
    word_facts(r.cpu_id as u32);
}

/// A write of the distributor's control register sets the enables that it can
/// change, and interrupts of group 1 are forwarded exactly where their enable is
/// set.
pub proof fn control_register_enables_groups(m: DistributorModel, v: u32)
    ensures
        m.write(0x00, v).read(0x00) & 0x37 == v & 0x37,
        m.write(0x00, v).read(0x00) & 0x40 != 0,
        m.write(0x00, v).group1() <==> v & 0x02 != 0,
{
    word_facts(v);
    ds_survives(v);
}

/// A redistributor that is not told to sleep shows its children awake, and its
/// waker register else keeps what was written.
pub proof fn waker_wakes_the_children(m: RedistributorModel, v: u32)
    ensures
        v & 0x02 == 0 ==> m.write(0x14, v).read(0x14) & 0x04 == 0,
        v & 0x02 == 0 ==> m.write(0x14, v).read(0x14) & !0x04u32 == v & !0x04u32,
        v & 0x02 != 0 ==> m.write(0x14, v).read(0x14) == v,
{
    word_facts(v);
}

/// The two halves of a route that are written one after the other make up the
/// route of the SPI, low half first, and no other route changes.
pub proof fn route_is_made_of_its_halves(
    m: DistributorModel,
    spi: u64,
    other: int,
    low: u32,
    high: u32,
)
    requires
        m.wf(),
        spi < 32,
        0 <= other < 32,
    ensures
        ({
            let n = m.write((0x6100 + 8 * spi) as u64, low).write((0x6104 + 8 * spi) as u64, high);
            &&& n.router[spi as int] == low + 0x1_0000_0000 * high
            &&& other != spi ==> n.router[other] == m.router[other]
        }),
{
    let one = m.write((0x6100 + 8 * spi) as u64, low);
    assert(((0x6100 + 8 * spi) - 0x6000) / 8 == 32 + spi);
    assert(((0x6104 + 8 * spi) - 0x6000) / 8 == 32 + spi);
    assert(((0x6100 + 8 * spi) - 0x6000) % 8 == 0);
    assert(((0x6104 + 8 * spi) - 0x6000) % 8 == 4);
    assert(one.router[spi as int] == m.router[spi as int] / 0x1_0000_0000 * 0x1_0000_0000 + low);
}

/// Making an SPI pending, or withdrawing it, shows in its bit of the pending
/// registers and in no other bit or register; its priority and all others stay.
pub proof fn pending_spi_changes_one_bit(m: DistributorModel, spi: u32, j: u32, offset: u64)
    requires
        m.wf(),
        spi < 32,
        j < 32,
        offset / 4 != 0x81,
        offset / 4 != 0xa1,
    ensures
        m.set_spi(spi).read(0x204) & (1u32 << j) != 0 <==> j == spi || m.read(0x204) & (1u32 << j)
            != 0,
        m.clear_spi(spi).read(0x204) & (1u32 << j) != 0 <==> j != spi && m.read(0x204) & (1u32
            << j) != 0,
        m.set_spi(spi).read(offset) == m.read(offset),
        m.clear_spi(spi).read(offset) == m.read(offset),
        m.set_spi(spi).spi_priority(j) == m.spi_priority(j),
        m.clear_spi(spi).spi_priority(j) == m.spi_priority(j),
        m.set_spi(spi).router == m.router,
        m.clear_spi(spi).router == m.router,
{
    single_bit_ops(m.pending[0], 0, spi, j);
}

/// Making a private interrupt pending, or withdrawing it, changes no register but
/// the pending ones.
pub proof fn pending_private_changes_one_register(
    m: RedistributorModel,
    ppi: u32,
    intid: u32,
    j: u32,
    offset: u64,
)
    requires
        intid < 32,
        j < 32,
        offset != 0x10200,
        offset != 0x10280,
    ensures
        m.set_ppi(ppi).read(offset) == m.read(offset),
        m.clear_ppi(ppi).read(offset) == m.read(offset),
        m.clear_private(intid).read(offset) == m.read(offset),
        m.clear_private(intid).read(0x10200) & (1u32 << j) != 0 <==> j != intid && m.read(0x10200)
            & (1u32 << j) != 0,
        m.set_ppi(ppi).irq_priority(j) == m.irq_priority(j),
        m.clear_ppi(ppi).irq_priority(j) == m.irq_priority(j),
        m.clear_private(intid).irq_priority(j) == m.irq_priority(j),
        ppi >= 16 ==> m.set_ppi(ppi) == m && m.clear_ppi(ppi) == m,
{
    single_bit_ops(m.pending0, 0, intid, j);
}

/// A write to a set or clear register changes what is read there and at its
/// counterpart, and at no other register; a write of control changes control alone,
/// and one where there is no register changes nothing.
pub proof fn distributor_write_changes_one_register(m: DistributorModel, v: u32, b: u64, a: u64)
    requires
        m.wf(),
    ensures
        b / 4 != 0x41 && b / 4 != 0x61 ==> m.write(0x104, v).read(b) == m.read(b) && m.write(
            0x184,
            v,
        ).read(b) == m.read(b),
        b / 4 != 0x81 && b / 4 != 0xa1 ==> m.write(0x204, v).read(b) == m.read(b) && m.write(
            0x284,
            v,
        ).read(b) == m.read(b),
        b / 4 != 0xc1 && b / 4 != 0xe1 ==> m.write(0x304, v).read(b) == m.read(b) && m.write(
            0x384,
            v,
        ).read(b) == m.read(b),
        b != 0 ==> m.write(0, v).read(b) == m.read(b),
        a != 0 && (a < 0x80 || 0xe00 <= a < 0x6000 || a >= 0x8000) ==> m.write(a, v) == m,
{
}

/// After reset nothing is enabled, pending or active, every interrupt is in group 1
/// with the highest priority, SPIs go to the first CPU, and delivery is off.
pub proof fn reset_leaves_everything_off(n: usize, cpu: usize, last: bool, i: u32)
    requires
        i < 32,
    ensures
        ({
            let d = DistributorModel::reset(n);
            &&& d.read(0x104) == 0 && d.read(0x204) == 0 && d.read(0x304) == 0
            &&& d.read(0x84) == 0xffff_ffff
            &&& d.spi_priority(i) == 0
            &&& d.router[i as int] == 0
            &&& !d.group1()
            &&& d.num_cpus == n
        }),
        ({
            let r = RedistributorModel::reset(cpu, last);
            &&& r.read(0x10100) == 0 && r.read(0x10200) == 0 && r.read(0x10300) == 0
            &&& r.read(0x10080) == 0xffff_ffff
            &&& r.read(0x14) == 0
            &&& r.irq_priority(i) == 0
            &&& r.cpu_id == cpu && r.is_last == last
        }),
{
    word_facts(0);
    idle_word_facts(i);
}

proof fn idle_word_facts(i: u32)
    by (bit_vector)
    requires
        i < 32,
    ensures
        0x40u32 & 0x2u32 == 0,
        (0u32 >> (((i % 4) * 8) as u32)) & 0xffu32 == 0,
{
}

} // verus!
