//! The bus master of the AC'97 audio device.
//!
//! What the registers make the device do (start and stop audio, interrupt the
//! guest) is handed back as a list of actions.
use crate::ac97_regs::{
    Ac97Function, Ac97FunctionRegs, BD_IOC, CR_IOCE, CR_LVBIE, CR_RPBM, CR_RR, CR_VALID_MASK,
    DESCRIPTOR_LENGTH, GLOB_CNT_COLD_RESET, GLOB_CNT_STABLE_BITS, GLOB_CNT_WARM_RESET,
    GLOB_STA_RESET_VAL, GS_MINT, GS_PIINT, GS_POINT, SR_BCIS, SR_CELV, SR_DCH, SR_FIFOE,
    SR_LVBCI, SR_RO_MASK, SR_WCLEAR_MASK,
};
use vstd::prelude::*;

verus! {

/// Frames per second.
pub const DEVICE_SAMPLE_RATE: usize = 48000;

/// What a register access asks the caller to do.
#[derive(Clone, Copy, Debug, PartialEq, Eq, Structural)]
pub enum BusMasterAction {
    /// Nothing.
    NoAction,
    /// Start the audio of a function.
    StartAudio(Ac97Function),
    /// Stop the audio of a function and wait until it has stopped.
    StopAudio(Ac97Function),
    /// Interrupt the guest.
    Interrupt,
}

/// Playback came to the end of the buffers.
#[derive(Clone, Copy, Debug, PartialEq, Eq, Structural)]
pub enum PlaybackError {
    HitEnd,
}

/// The registers of the bus master.
#[derive(Clone, Copy, Debug, PartialEq, Eq, Structural)]
pub struct Ac97BusMaster {
    pub pi_regs: Ac97FunctionRegs,
    pub po_regs: Ac97FunctionRegs,
    pub mc_regs: Ac97FunctionRegs,
    pub glob_cnt: u32,
    pub glob_sta: u32,
    pub acc_sema: u8,
    /// Whether output audio is running.
    pub po_run: bool,
}

/// One copy of samples from guest memory into the host's playback buffer.
#[derive(Clone, Copy, Debug, PartialEq, Eq, Structural)]
pub struct SampleCopy {
    /// Address of the samples in guest memory.
    pub read_pos: u64,
    /// Number of bytes.
    pub length: u64,
    /// Where in the playback buffer the bytes go.
    pub buffer_offset: usize,
}

impl Ac97BusMaster {
    pub open spec fn wf(self) -> bool {
        self.pi_regs.wf() && self.po_regs.wf() && self.mc_regs.wf()
    }

    /// The bus master before the driver has done anything: it is in cold reset.
    pub open spec fn initial() -> Self {
        let regs = Ac97FunctionRegs {
            bdbar: 0,
            civ: 0,
            lvi: 0,
            sr: SR_DCH,
            picb: 0,
            piv: 0,
            cr: 0,
        };
        Ac97BusMaster {
            pi_regs: regs,
            po_regs: regs,
            mc_regs: regs,
            glob_cnt: 0,
            glob_sta: GLOB_STA_RESET_VAL,
            acc_sema: 0,
            po_run: false,
        }
    }

    pub open spec fn regs(self, func: Ac97Function) -> Ac97FunctionRegs {
        match func {
            Ac97Function::Input => self.pi_regs,
            Ac97Function::Output => self.po_regs,
            Ac97Function::Microphone => self.mc_regs,
        }
    }

    pub open spec fn with_regs(self, func: Ac97Function, r: Ac97FunctionRegs) -> Self {
        match func {
            Ac97Function::Input => Ac97BusMaster { pi_regs: r, ..self },
            Ac97Function::Output => Ac97BusMaster { po_regs: r, ..self },
            Ac97Function::Microphone => Ac97BusMaster { mc_regs: r, ..self },
        }
    }

    /// Only output audio runs.
    pub open spec fn stopped(self, func: Ac97Function) -> Self {
        if func == Ac97Function::Output {
            Ac97BusMaster { po_run: false, ..self }
        } else {
            self
        }
    }

    pub open spec fn started(self, func: Ac97Function) -> Self {
        if func == Ac97Function::Output {
            Ac97BusMaster { po_run: true, ..self }
        } else {
            self
        }
    }

    pub open spec fn int_mask(func: Ac97Function) -> u32 {
        match func {
            Ac97Function::Input => GS_PIINT,
            Ac97Function::Output => GS_POINT,
            Ac97Function::Microphone => GS_MINT,
        }
    }

    /// A status value interrupts the guest: it shows a completion whose
    /// interrupt is enabled.
    pub open spec fn interrupts(cr: u8, sr: u16) -> bool {
        (sr & SR_LVBCI != 0 && cr & CR_LVBIE != 0) || (sr & SR_BCIS != 0 && cr & CR_IOCE != 0)
    }

    /// The registers with a new status of one function; global status follows.
    pub open spec fn with_sr(self, func: Ac97Function, sr: u16) -> Self {
        let r = Ac97FunctionRegs { sr, ..self.regs(func) };
        Ac97BusMaster {
            glob_sta: if Self::interrupts(r.cr, sr) {
                self.glob_sta | Self::int_mask(func)
            } else {
                self.glob_sta & !Self::int_mask(func)
            },
            ..self.with_regs(func, r)
        }
    }

    pub open spec fn sr_effects(self, func: Ac97Function, sr: u16) -> Seq<BusMasterAction> {
        if Self::interrupts(self.regs(func).cr, sr) {
            seq![BusMasterAction::Interrupt]
        } else {
            Seq::empty()
        }
    }

    /// The registers after a write of the status register of a function: the
    /// write-one-to-clear bits that are set in `val` are cleared.
    pub open spec fn after_set_sr(self, func: Ac97Function, val: u16) -> Self {
        self.with_sr(func, self.regs(func).sr & !(val & SR_WCLEAR_MASK))
    }

    pub open spec fn set_sr_effects(self, func: Ac97Function, val: u16) -> Seq<BusMasterAction> {
        self.sr_effects(func, self.regs(func).sr & !(val & SR_WCLEAR_MASK))
    }

    /// The registers after a write of the control register of a function.
    pub open spec fn after_set_cr(self, func: Ac97Function, val: u8) -> Self {
        let r = self.regs(func);
        if val & CR_RR != 0 {
            self.stopped(func).with_regs(func, Ac97FunctionRegs::reset_with(r.cr))
        } else if val & CR_RPBM == 0 {
            self.stopped(func).with_regs(
                func,
                Ac97FunctionRegs { sr: r.sr | SR_DCH, cr: val & CR_VALID_MASK, ..r },
            )
        } else if r.cr & CR_RPBM == 0 {
            self.started(func).with_regs(
                func,
                Ac97FunctionRegs {
                    piv: 0,
                    civ: 0,
                    sr: r.sr & !SR_DCH,
                    cr: val & CR_VALID_MASK,
                    ..r
                },
            )
        } else {
            self.with_regs(func, Ac97FunctionRegs { cr: val & CR_VALID_MASK, ..r })
        }
    }

    pub open spec fn set_cr_effects(self, func: Ac97Function, val: u8) -> Seq<BusMasterAction> {
        if val & CR_RR != 0 || val & CR_RPBM == 0 {
            seq![BusMasterAction::StopAudio(func)]
        } else if self.regs(func).cr & CR_RPBM == 0 {
            seq![BusMasterAction::StartAudio(func)]
        } else {
            Seq::empty()
        }
    }

    pub open spec fn stop_all_effects() -> Seq<BusMasterAction> {
        seq![
            BusMasterAction::StopAudio(Ac97Function::Input),
            BusMasterAction::StopAudio(Ac97Function::Output),
            BusMasterAction::StopAudio(Ac97Function::Microphone),
        ]
    }

    /// The registers after a write of global control. Cold reset resets all
    /// functions; warm reset is ignored while output runs, and else clears
    /// itself.
    pub open spec fn after_set_glob_cnt(self, val: u32) -> Self {
        if val & GLOB_CNT_COLD_RESET == 0 {
            Ac97BusMaster {
                pi_regs: Ac97FunctionRegs::reset_with(self.pi_regs.cr),
                po_regs: Ac97FunctionRegs::reset_with(self.po_regs.cr),
                mc_regs: Ac97FunctionRegs::reset_with(self.mc_regs.cr),
                glob_cnt: val & GLOB_CNT_STABLE_BITS,
                glob_sta: self.glob_sta,
                acc_sema: 0,
                po_run: false,
            }
        } else if val & GLOB_CNT_WARM_RESET != 0 && !self.po_run {
            Ac97BusMaster { glob_cnt: val & !GLOB_CNT_WARM_RESET, ..self }
        } else {
            Ac97BusMaster { glob_cnt: val, ..self }
        }
    }

    pub open spec fn set_glob_cnt_effects(self, val: u32) -> Seq<BusMasterAction> {
        if val & GLOB_CNT_COLD_RESET == 0 || (val & GLOB_CNT_WARM_RESET != 0 && !self.po_run) {
            Self::stop_all_effects()
        } else {
            Seq::empty()
        }
    }

    pub open spec fn cold_reset(self) -> bool {
        self.glob_cnt & GLOB_CNT_COLD_RESET == 0
    }

    /// What a byte read returns.
    pub open spec fn byte_at(self, offset: u64) -> u8 {
        if offset == 0x04 {
            self.pi_regs.civ
        } else if offset == 0x05 {
            self.pi_regs.lvi
        } else if offset == 0x06 {
            self.pi_regs.sr as u8
        } else if offset == 0x0a {
            self.pi_regs.piv
        } else if offset == 0x0b {
            self.pi_regs.cr
        } else if offset == 0x14 {
            self.po_regs.civ
        } else if offset == 0x15 {
            self.po_regs.lvi
        } else if offset == 0x16 {
            self.po_regs.sr as u8
        } else if offset == 0x1a {
            self.po_regs.piv
        } else if offset == 0x1b {
            self.po_regs.cr
        } else if offset == 0x24 {
            self.mc_regs.civ
        } else if offset == 0x25 {
            self.mc_regs.lvi
        } else if offset == 0x26 {
            self.mc_regs.sr as u8
        } else if offset == 0x2a {
            self.mc_regs.piv
        } else if offset == 0x2b {
            self.mc_regs.cr
        } else if offset == 0x34 {
            self.acc_sema
        } else {
            0
        }
    }

    /// The samples left in the output buffer, `micros` microseconds after the
    /// registers were last updated: while audio runs, two samples go for each
    /// frame, 48 frames a millisecond.
    pub open spec fn estimated_picb(self, micros: u32) -> u16 {
        let consumed = ((2 * (micros * 48 / 1000)) % 0x1_0000) as u16;
        if !self.po_run {
            self.po_regs.picb
        } else if consumed <= self.po_regs.picb {
            (self.po_regs.picb - consumed) as u16
        } else {
            0
        }
    }

    /// What a word read returns.
    pub open spec fn word_at(self, offset: u64, micros: u32) -> u16 {
        if offset == 0x06 {
            self.pi_regs.sr
        } else if offset == 0x08 {
            self.pi_regs.picb
        } else if offset == 0x16 {
            self.po_regs.sr
        } else if offset == 0x18 {
            self.estimated_picb(micros)
        } else if offset == 0x26 {
            self.mc_regs.sr
        } else if offset == 0x28 {
            self.mc_regs.picb
        } else {
            0
        }
    }

    /// What a double word read returns.
    pub open spec fn long_at(self, offset: u64) -> u32 {
        if offset == 0x00 {
            self.pi_regs.bdbar
        } else if offset == 0x04 {
            self.pi_regs.status_word()
        } else if offset == 0x10 {
            self.po_regs.bdbar
        } else if offset == 0x14 {
            self.po_regs.status_word()
        } else if offset == 0x20 {
            self.mc_regs.bdbar
        } else if offset == 0x24 {
            self.mc_regs.status_word()
        } else if offset == 0x2c {
            self.glob_cnt
        } else if offset == 0x30 {
            self.glob_sta
        } else {
            0
        }
    }

    pub open spec fn with_lvi(self, func: Ac97Function, val: u8) -> Self {
        self.with_regs(func, Ac97FunctionRegs { lvi: val % 32, ..self.regs(func) })
    }

    pub open spec fn with_bdbar(self, func: Ac97Function, val: u32) -> Self {
        self.with_regs(func, Ac97FunctionRegs { bdbar: val & !0x07u32, ..self.regs(func) })
    }

    /// The registers after a byte write.
    pub open spec fn after_writeb(self, offset: u64, val: u8) -> Self {
        if self.cold_reset() {
            self
        } else if offset == 0x05 {
            self.with_lvi(Ac97Function::Input, val)
        } else if offset == 0x0b {
            self.after_set_cr(Ac97Function::Input, val)
        } else if offset == 0x15 {
            self.with_lvi(Ac97Function::Output, val)
        } else if offset == 0x1b {
            self.after_set_cr(Ac97Function::Output, val)
        } else if offset == 0x25 {
            self.with_lvi(Ac97Function::Microphone, val)
        } else if offset == 0x2b {
            self.after_set_cr(Ac97Function::Microphone, val)
        } else if offset == 0x34 {
            Ac97BusMaster { acc_sema: val, ..self }
        } else {
            self
        }
    }

    pub open spec fn writeb_effects(self, offset: u64, val: u8) -> Seq<BusMasterAction> {
        if self.cold_reset() {
            Seq::empty()
        } else if offset == 0x0b {
            self.set_cr_effects(Ac97Function::Input, val)
        } else if offset == 0x1b {
            self.set_cr_effects(Ac97Function::Output, val)
        } else if offset == 0x2b {
            self.set_cr_effects(Ac97Function::Microphone, val)
        } else {
            Seq::empty()
        }
    }

    /// The function whose status register is at `offset`.
    pub open spec fn sr_function(offset: u64) -> Option<Ac97Function> {
        if offset == 0x06 {
            Some(Ac97Function::Input)
        } else if offset == 0x16 {
            Some(Ac97Function::Output)
        } else if offset == 0x26 {
            Some(Ac97Function::Microphone)
        } else {
            None
        }
    }

    /// The registers after a word write.
    pub open spec fn after_writew(self, offset: u64, val: u16) -> Self {
        if self.cold_reset() || Self::sr_function(offset) is None {
            self
        } else {
            self.after_set_sr(Self::sr_function(offset)->0, val)
        }
    }

    pub open spec fn writew_effects(self, offset: u64, val: u16) -> Seq<BusMasterAction> {
        if self.cold_reset() || Self::sr_function(offset) is None {
            Seq::empty()
        } else {
            self.set_sr_effects(Self::sr_function(offset)->0, val)
        }
    }

    /// The registers after a double word write. During cold reset only global
    /// control can be written.
    pub open spec fn after_writel(self, offset: u64, val: u32) -> Self {
        if offset == 0x2c {
            self.after_set_glob_cnt(val)
        } else if self.cold_reset() {
            self
        } else if offset == 0x00 {
            self.with_bdbar(Ac97Function::Input, val)
        } else if offset == 0x10 {
            self.with_bdbar(Ac97Function::Output, val)
        } else if offset == 0x20 {
            self.with_bdbar(Ac97Function::Microphone, val)
        } else {
            self
        }
    }

    pub open spec fn writel_effects(self, offset: u64, val: u32) -> Seq<BusMasterAction> {
        if offset == 0x2c {
            self.set_glob_cnt_effects(val)
        } else {
            Seq::empty()
        }
    }

    /// The current buffer is the last valid one.
    pub open spec fn at_last(self, func: Ac97Function) -> bool {
        self.regs(func).civ == self.regs(func).lvi
    }

    /// The registers once the current buffer is done: at the last valid buffer
    /// the engine halts, else it goes on to the prefetched one.
    pub open spec fn advanced(self, func: Ac97Function) -> Self {
        let r = self.regs(func);
        if self.at_last(func) {
            self.with_sr(func, r.sr | SR_LVBCI | SR_DCH | SR_CELV)
        } else {
            self.with_regs(
                func,
                Ac97FunctionRegs { civ: r.piv, piv: ((r.piv + 1) % 32) as u8, ..r },
            )
        }
    }

    pub open spec fn advance_effects(self, func: Ac97Function) -> Seq<BusMasterAction> {
        if self.at_last(func) {
            self.sr_effects(func, self.regs(func).sr | SR_LVBCI | SR_DCH | SR_CELV)
        } else {
            Seq::empty()
        }
    }

    /// The registers after the current buffer was marked as complete, where its
    /// descriptor asks for that.
    pub open spec fn marked(self, func: Ac97Function, control: u32) -> Self {
        if control & BD_IOC != 0 {
            self.with_sr(func, self.regs(func).sr | SR_BCIS)
        } else {
            self
        }
    }

    pub open spec fn mark_effects(self, func: Ac97Function, control: u32) -> Seq<BusMasterAction> {
        if control & BD_IOC != 0 {
            self.sr_effects(func, self.regs(func).sr | SR_BCIS)
        } else {
            Seq::empty()
        }
    }

    /// Samples that one call for `frames` stereo frames takes from the current
    /// buffer.
    pub open spec fn samples_for(self, frames: usize) -> int {
        if 2 * frames <= self.po_regs.picb {
            2 * frames
        } else {
            self.po_regs.picb as int
        }
    }

    /// The bus master after reset: cold reset is active.
    pub fn new() -> (r: Self)
        ensures
            r == Self::initial(),
            r.wf(),
            r.cold_reset(),
    {
        assert(0u32 & 0x2u32 == 0) by (bit_vector);
        Ac97BusMaster {
            pi_regs: Ac97FunctionRegs::new(),
            po_regs: Ac97FunctionRegs::new(),
            mc_regs: Ac97FunctionRegs::new(),
            glob_cnt: 0,
            glob_sta: GLOB_STA_RESET_VAL,
            acc_sema: 0,
            po_run: false,
        }
    }

    /// The registers of a function.
    pub fn func_regs(&self, func: &Ac97Function) -> (r: &Ac97FunctionRegs)
        ensures
            *r == self.regs(*func),
    {
        match func {
            Ac97Function::Input => &self.pi_regs,
            Ac97Function::Output => &self.po_regs,
            Ac97Function::Microphone => &self.mc_regs,
        }
    }

    fn func_regs_mut(&mut self, func: &Ac97Function) -> (r: &mut Ac97FunctionRegs)
        ensures
            *r == old(self).regs(*func),
            *final(self) == old(self).with_regs(*func, *final(r)),
    {
        match func {
            Ac97Function::Input => &mut self.pi_regs,
            Ac97Function::Output => &mut self.po_regs,
            Ac97Function::Microphone => &mut self.mc_regs,
        }
    }

    /// Whether the interrupt is still due when the guest is done with one: only
    /// output counts.
    pub fn resample(&self) -> (r: bool)
        ensures
            r == (self.po_regs.sr & (SR_LVBCI | SR_BCIS) != 0),
    {
        self.func_regs(&Ac97Function::Output).sr & (SR_LVBCI | SR_BCIS) != 0
    }

    fn set_bdbar(&mut self, func: Ac97Function, val: u32)
        requires
            old(self).wf(),
        ensures
            final(self).wf(),
            *final(self) == old(self).with_bdbar(func, val),
    {
        self.func_regs_mut(&func).bdbar = val & !0x07u32;
    }

    fn set_lvi(&mut self, func: Ac97Function, val: u8)
        requires
            old(self).wf(),
        ensures
            final(self).wf(),
            *final(self) == old(self).with_lvi(func, val),
    {
        self.func_regs_mut(&func).lvi = val % 32;
    }

    fn set_sr(&mut self, func: Ac97Function, val: u16, out: &mut Vec<BusMasterAction>)
        requires
            old(self).wf(),
        ensures
            final(self).wf(),
            *final(self) == old(self).after_set_sr(func, val),
            final(out)@ == old(out)@ + old(self).set_sr_effects(func, val),
    {
        let mut sr: u16 = self.func_regs(&func).sr;
        proof {
            status_clear_steps(sr, val);
        }
        if val & SR_FIFOE != 0 {
            sr = sr & !SR_FIFOE;
        }
        if val & SR_LVBCI != 0 {
            sr = sr & !SR_LVBCI;
        }
        if val & SR_BCIS != 0 {
            sr = sr & !SR_BCIS;
        }
        self.update_sr(&func, sr, out);
    }

    /// Puts a status register in place; global status and the interrupt follow.
    pub fn update_sr(&mut self, func: &Ac97Function, val: u16, out: &mut Vec<BusMasterAction>)
        requires
            old(self).wf(),
        ensures
            final(self).wf(),
            *final(self) == old(self).with_sr(*func, val),
            final(out)@ == old(out)@ + old(self).sr_effects(*func, val),
    {
        let int_mask: u32 = match func {
            Ac97Function::Input => GS_PIINT,
            Ac97Function::Output => GS_POINT,
            Ac97Function::Microphone => GS_MINT,
        };
        let mut interrupt_high: bool = false;
        let cr: u8 = self.func_regs(func).cr;
        self.func_regs_mut(func).sr = val;
        if (val & SR_LVBCI) != 0 && (cr & CR_LVBIE) != 0 {
            interrupt_high = true;
        }
        if (val & SR_BCIS) != 0 && (cr & CR_IOCE) != 0 {
            interrupt_high = true;
        }
        if interrupt_high {
            self.glob_sta = self.glob_sta | int_mask;
            out.push(BusMasterAction::Interrupt);
        } else {
            self.glob_sta = self.glob_sta & !int_mask;
        }
        assert(out@ =~= old(out)@ + old(self).sr_effects(*func, val));
    }

    fn stop_audio(&mut self, func: &Ac97Function, out: &mut Vec<BusMasterAction>)
        ensures
            *final(self) == old(self).stopped(*func),
            final(out)@ == old(out)@.push(BusMasterAction::StopAudio(*func)),
    {
        match func {
            Ac97Function::Output => {
                self.po_run = false;
            },
            _ => {},
        }
        out.push(BusMasterAction::StopAudio(*func));
    }

    fn start_audio(&mut self, func: &Ac97Function, out: &mut Vec<BusMasterAction>)
        ensures
            *final(self) == old(self).started(*func),
            final(out)@ == old(out)@.push(BusMasterAction::StartAudio(*func)),
    {
        match func {
            Ac97Function::Output => {
                self.po_run = true;
            },
            _ => {},
        }
        out.push(BusMasterAction::StartAudio(*func));
    }

    /// Output audio starts: the current buffer, whose descriptor has this
    /// control word, is all to be played. Returns the number of its samples.
    pub fn begin_playback(&mut self, control: u32) -> (r: usize)
        requires
            old(self).wf(),
        ensures
            final(self).wf(),
            r == control % 0x1_0000,
            *final(self) == (Ac97BusMaster {
                po_regs: Ac97FunctionRegs {
                    picb: (control % 0x1_0000) as u16,
                    ..old(self).po_regs
                },
                ..*old(self)
            }),
    {
        let buffer_samples: usize = Self::current_buffer_size(control);
        self.po_regs.picb = buffer_samples as u16;
        buffer_samples
    }

    /// Playback came to its end: output no longer runs.
    pub fn playback_ended(&mut self)
        ensures
            *final(self) == (Ac97BusMaster { po_run: false, ..*old(self) }),
    {
        self.po_run = false;
    }

    fn set_cr(&mut self, func: Ac97Function, val: u8, out: &mut Vec<BusMasterAction>)
        requires
            old(self).wf(),
        ensures
            final(self).wf(),
            *final(self) == old(self).after_set_cr(func, val),
            final(out)@ == old(out)@ + old(self).set_cr_effects(func, val),
    {
        if val & CR_RR != 0 {
            self.stop_audio(&func, out);
            self.func_regs_mut(&func).do_reset();
        } else {
            let cr: u8 = self.func_regs(&func).cr;
            if val & CR_RPBM == 0 {
                self.stop_audio(&func, out);
                let regs = self.func_regs_mut(&func);
                regs.sr = regs.sr | SR_DCH;
            } else if cr & CR_RPBM == 0 {
                let regs = self.func_regs_mut(&func);
                regs.piv = 0;
                regs.civ = 0;
                regs.sr = regs.sr & !SR_DCH;
                self.start_audio(&func, out);
            }
            self.func_regs_mut(&func).cr = val & CR_VALID_MASK;
        }
        assert(out@ =~= old(out)@ + old(self).set_cr_effects(func, val));
    }

    fn stop_all_audio(&mut self, out: &mut Vec<BusMasterAction>)
        ensures
            *final(self) == (Ac97BusMaster { po_run: false, ..*old(self) }),
            final(out)@ == old(out)@ + Self::stop_all_effects(),
    {
        self.stop_audio(&Ac97Function::Input, out);
        self.stop_audio(&Ac97Function::Output, out);
        self.stop_audio(&Ac97Function::Microphone, out);
        assert(out@ =~= old(out)@ + Self::stop_all_effects());
    }

    fn reset_audio_regs(&mut self, out: &mut Vec<BusMasterAction>)
        ensures
            *final(self) == (Ac97BusMaster {
                pi_regs: Ac97FunctionRegs::reset_with(old(self).pi_regs.cr),
                po_regs: Ac97FunctionRegs::reset_with(old(self).po_regs.cr),
                mc_regs: Ac97FunctionRegs::reset_with(old(self).mc_regs.cr),
                po_run: false,
                ..*old(self)
            }),
            final(out)@ == old(out)@ + Self::stop_all_effects(),
    {
        self.stop_all_audio(out);
        self.pi_regs.do_reset();
        self.po_regs.do_reset();
        self.mc_regs.do_reset();
    }

    fn set_glob_cnt(&mut self, new_glob_cnt: u32, out: &mut Vec<BusMasterAction>)
        requires
            old(self).wf(),
        ensures
            final(self).wf(),
            *final(self) == old(self).after_set_glob_cnt(new_glob_cnt),
            final(out)@ == old(out)@ + old(self).set_glob_cnt_effects(new_glob_cnt),
    {
        if new_glob_cnt & GLOB_CNT_COLD_RESET == 0 {
            self.reset_audio_regs(out);
            self.glob_cnt = new_glob_cnt & GLOB_CNT_STABLE_BITS;
            self.acc_sema = 0;
            return ;
        }
        if new_glob_cnt & GLOB_CNT_WARM_RESET != 0 {
            if !self.po_run {
                self.stop_all_audio(out);
                self.glob_cnt = new_glob_cnt & !GLOB_CNT_WARM_RESET;
                return ;
            }
        }
        self.glob_cnt = new_glob_cnt;
        assert(out@ =~= old(out)@ + Seq::<BusMasterAction>::empty());
    }

    /// Address of the current descriptor of a function, where it is below
    /// 4 GiB.
    pub fn descriptor_addr(&self, func: &Ac97Function) -> (r: Option<u32>)
        requires
            self.wf(),
        ensures
            r == (if self.regs(*func).bdbar + self.regs(*func).civ * 8 <= u32::MAX {
                Some((self.regs(*func).bdbar + self.regs(*func).civ * 8) as u32)
            } else {
                None
            }),
    {
        let regs = self.func_regs(func);
        regs.bdbar.checked_add(regs.civ as u32 * DESCRIPTOR_LENGTH as u32)
    }

    /// Samples in a buffer whose descriptor has this control word.
    pub fn current_buffer_size(control: u32) -> (r: usize)
        ensures
            r == control % 0x1_0000,
    {
        (control % 0x1_0000) as usize
    }

    /// Plays from the current buffer, at `buffer_addr` in guest memory, into a
    /// host buffer of `frames` stereo frames, from its start on. Returns the copy to
    /// make, if any, and the number of samples that it sends to the buffer. They fit
    /// into it.
    pub fn play_buffer(&self, buffer_addr: u32, frames: usize) -> (r: (Option<SampleCopy>, usize))
        requires
            frames <= usize::MAX / 4,
        ensures
            r.1 == (if frames == 0 {
                0
            } else {
                self.samples_for(frames)
            }),
            r.0 == (if r.1 == 0 {
                None
            } else {
                Some(
                    SampleCopy {
                        read_pos: buffer_addr as u64,
                        length: (2 * r.1) as u64,
                        buffer_offset: 0,
                    },
                )
            }),
            r.0 matches Some(copy) ==> copy.buffer_offset + copy.length <= 4 * frames,
    {
        let mut copy: Option<SampleCopy> = None;
        let mut samples_written: usize = 0;
        if frames > 0 {
            let samples_remaining: usize = self.po_regs.picb as usize;
            if samples_remaining != 0 {
                let wanted: usize = frames * 2;
                let samples_to_write: usize = if wanted <= samples_remaining {
                    wanted
                } else {
                    samples_remaining
                };
                copy =
                Some(
                    SampleCopy {
                        read_pos: buffer_addr as u64,
                        length: samples_to_write as u64 * 2,
                        buffer_offset: 0,
                    },
                );
                samples_written = samples_to_write;
            }
        }
        (copy, samples_written)
    }

    /// The result of a playback call that took `samples` samples: the number of
    /// frames, or the end of the buffers.
    pub fn playback_result(samples: usize, hit_end: bool) -> (r: Result<usize, PlaybackError>)
        ensures
            r == (if hit_end {
                Err::<usize, PlaybackError>(PlaybackError::HitEnd)
            } else {
                Ok((samples / 2) as usize)
            }),
    {
        if hit_end {
            Err(PlaybackError::HitEnd)
        } else {
            Ok(samples / 2)
        }
    }

    /// The current buffer of a function, whose descriptor has this control
    /// word, is done. Returns whether it was the last valid one.
    pub fn buffer_completed(
        &mut self,
        func: &Ac97Function,
        control: u32,
        out: &mut Vec<BusMasterAction>,
    ) -> (r: bool)
        requires
            old(self).wf(),
        ensures
            final(self).wf(),
            r == old(self).at_last(*func),
            *final(self) == old(self).marked(*func, control).advanced(*func),
            final(out)@ == old(out)@ + old(self).mark_effects(*func, control) + old(self).marked(
                *func,
                control,
            ).advance_effects(*func),
    {
        let ghost o = out@;
        if control & BD_IOC != 0 {
            let new_sr: u16 = self.func_regs(func).sr | SR_BCIS;
            self.update_sr(func, new_sr, out);
        }
        assert(out@ =~= o + old(self).mark_effects(*func, control));
        self.next_buffer_descriptor(func, out)
    }

    /// Goes on to the next buffer. Returns whether there is none.
    pub fn next_buffer_descriptor(&mut self, func: &Ac97Function, out: &mut Vec<BusMasterAction>) -> (r:
        bool)
        requires
            old(self).wf(),
        ensures
            final(self).wf(),
            r == old(self).at_last(*func),
            *final(self) == old(self).advanced(*func),
            final(out)@ == old(out)@ + old(self).advance_effects(*func),
    {
        let civ: u8 = self.func_regs(func).civ;
        let lvi: u8 = self.func_regs(func).lvi;
        if civ == lvi {
            let new_sr: u16 = self.func_regs(func).sr | SR_LVBCI | SR_DCH | SR_CELV;
            self.update_sr(func, new_sr, out);
            true
        } else {
            let regs = self.func_regs_mut(func);
            regs.civ = regs.piv;
            regs.piv = (regs.piv + 1) % 32;
            assert(out@ =~= old(out)@ + Seq::<BusMasterAction>::empty());
            false
        }
    }

    pub fn is_cold_reset(&self) -> (r: bool)
        ensures
            r == self.cold_reset(),
    {
        self.glob_cnt & GLOB_CNT_COLD_RESET == 0
    }

    pub fn readb(&self, offset: u64) -> (r: u8)
        ensures
            r == self.byte_at(offset),
    {
        match offset {
            0x04 => self.pi_regs.civ,
            0x05 => self.pi_regs.lvi,
            0x06 => self.pi_regs.sr as u8,
            0x0a => self.pi_regs.piv,
            0x0b => self.pi_regs.cr,
            0x14 => self.po_regs.civ,
            0x15 => self.po_regs.lvi,
            0x16 => self.po_regs.sr as u8,
            0x1a => self.po_regs.piv,
            0x1b => self.po_regs.cr,
            0x24 => self.mc_regs.civ,
            0x25 => self.mc_regs.lvi,
            0x26 => self.mc_regs.sr as u8,
            0x2a => self.mc_regs.piv,
            0x2b => self.mc_regs.cr,
            0x34 => self.acc_sema,
            _ => 0,
        }
    }

    /// Reads a word, `micros` microseconds after output last made progress, not
    /// counting whole seconds.
    pub fn readw(&self, offset: u64, micros: u32) -> (r: u16)
        requires
            micros < 1_000_000,
        ensures
            r == self.word_at(offset, micros),
    {
        match offset {
            0x06 => self.pi_regs.sr,
            0x08 => self.pi_regs.picb,
            0x16 => self.po_regs.sr,
            0x18 => {
                if !self.po_run {
                    self.po_regs.picb
                } else {
                    let consumed: u32 = micros * 48 / 1000;
                    let samples: u16 = ((2 * consumed) % 0x1_0000) as u16;
                    if samples <= self.po_regs.picb {
                        self.po_regs.picb - samples
                    } else {
                        0
                    }
                }
            },
            0x26 => self.mc_regs.sr,
            0x28 => self.mc_regs.picb,
            _ => 0,
        }
    }

    pub fn readl(&self, offset: u64) -> (r: u32)
        ensures
            r == self.long_at(offset),
    {
        match offset {
            0x00 => self.pi_regs.bdbar,
            0x04 => self.pi_regs.atomic_status_regs(),
            0x10 => self.po_regs.bdbar,
            0x14 => self.po_regs.atomic_status_regs(),
            0x20 => self.mc_regs.bdbar,
            0x24 => self.mc_regs.atomic_status_regs(),
            0x2c => self.glob_cnt,
            0x30 => self.glob_sta,
            _ => 0,
        }
    }

    /// Writes a byte. Nothing can be written during cold reset.
    pub fn writeb(&mut self, offset: u64, val: u8) -> (r: Vec<BusMasterAction>)
        requires
            old(self).wf(),
        ensures
            final(self).wf(),
            *final(self) == old(self).after_writeb(offset, val),
            r@ == old(self).writeb_effects(offset, val),
    {
        let mut out: Vec<BusMasterAction> = Vec::new();
        if self.is_cold_reset() {
            return out;
        }
        match offset {
            0x05 => {
                self.set_lvi(Ac97Function::Input, val);
            },
            0x0b => {
                self.set_cr(Ac97Function::Input, val, &mut out);
            },
            0x15 => {
                self.set_lvi(Ac97Function::Output, val);
            },
            0x1b => {
                self.set_cr(Ac97Function::Output, val, &mut out);
            },
            0x25 => {
                self.set_lvi(Ac97Function::Microphone, val);
            },
            0x2b => {
                self.set_cr(Ac97Function::Microphone, val, &mut out);
            },
            0x34 => {
                self.acc_sema = val;
            },
            _ => {},
        }
        assert(out@ =~= old(self).writeb_effects(offset, val));
        out
    }

    /// Writes a word. Nothing can be written during cold reset.
    pub fn writew(&mut self, offset: u64, val: u16) -> (r: Vec<BusMasterAction>)
        requires
            old(self).wf(),
        ensures
            final(self).wf(),
            *final(self) == old(self).after_writew(offset, val),
            r@ == old(self).writew_effects(offset, val),
    {
        let mut out: Vec<BusMasterAction> = Vec::new();
        if self.is_cold_reset() {
            return out;
        }
        match offset {
            0x06 => {
                self.set_sr(Ac97Function::Input, val, &mut out);
            },
            0x16 => {
                self.set_sr(Ac97Function::Output, val, &mut out);
            },
            0x26 => {
                self.set_sr(Ac97Function::Microphone, val, &mut out);
            },
            _ => {},
        }
        assert(out@ =~= old(self).writew_effects(offset, val));
        out
    }

    /// Writes a double word. During cold reset only global control can be
    /// written.
    pub fn writel(&mut self, offset: u64, val: u32) -> (r: Vec<BusMasterAction>)
        requires
            old(self).wf(),
        ensures
            final(self).wf(),
            *final(self) == old(self).after_writel(offset, val),
            r@ == old(self).writel_effects(offset, val),
    {
        let mut out: Vec<BusMasterAction> = Vec::new();
        if self.is_cold_reset() {
            if offset != 0x2c {
                return out;
            }
        }
        match offset {
            0x00 => {
                self.set_bdbar(Ac97Function::Input, val);
            },
            0x10 => {
                self.set_bdbar(Ac97Function::Output, val);
            },
            0x20 => {
                self.set_bdbar(Ac97Function::Microphone, val);
            },
            0x2c => {
                self.set_glob_cnt(val, &mut out);
            },
            _ => {},
        }
        assert(out@ =~= old(self).writel_effects(offset, val));
        out
    }
}

proof fn status_clear_steps(s: u16, v: u16)
    ensures
        ({
            let s1 = if v & 0x10u16 != 0 {
                s & !0x10u16
            } else {
                s
            };
            let s2 = if v & 0x04u16 != 0 {
                s1 & !0x04u16
            } else {
                s1
            };
            let s3 = if v & 0x08u16 != 0 {
                s2 & !0x08u16
            } else {
                s2
            };
            s3 == s & !(v & (0x10u16 | 0x08u16 | 0x04u16))
        }),
{
    assert({
        let s1 = if v & 0x10u16 != 0 {
            s & !0x10u16
        } else {
            s
        };
        let s2 = if v & 0x04u16 != 0 {
            s1 & !0x04u16
        } else {
            s1
        };
        let s3 = if v & 0x08u16 != 0 {
            s2 & !0x08u16
        } else {
            s2
        };
        s3 == s & !(v & (0x10u16 | 0x08u16 | 0x04u16))
    }) by (bit_vector);
}

/// While cold reset is active, every write but one of global control leaves
/// everything as it is.
pub proof fn cold_reset_blocks_writes(m: Ac97BusMaster, offset: u64, b: u8, w: u16, l: u32)
    requires
        m.cold_reset(),
    ensures
        m.after_writeb(offset, b) == m,
        m.after_writew(offset, w) == m,
        offset != 0x2c ==> m.after_writel(offset, l) == m,
        m.writeb_effects(offset, b) == Seq::<BusMasterAction>::empty(),
        m.writew_effects(offset, w) == Seq::<BusMasterAction>::empty(),
{
}

/// A warm reset while output does not run clears its own bit in global control
/// and changes no other register.
pub proof fn warm_reset_clears_itself(m: Ac97BusMaster, val: u32)
    requires
        !m.po_run,
        val & GLOB_CNT_COLD_RESET != 0,
        val & GLOB_CNT_WARM_RESET != 0,
    ensures
        m.after_writel(0x2c, val) == (Ac97BusMaster { glob_cnt: val & !GLOB_CNT_WARM_RESET, ..m }),
{
}

/// A cold reset resets every function and stops all audio.
pub proof fn cold_reset_resets(m: Ac97BusMaster, val: u32, f: Ac97Function)
    requires
        val & GLOB_CNT_COLD_RESET == 0,
    ensures
        m.after_writel(0x2c, val).regs(f) == Ac97FunctionRegs::reset_with(m.regs(f).cr),
        !m.after_writel(0x2c, val).po_run,
        m.after_writel(0x2c, val).acc_sema == 0,
{
}

/// Accesses to one function leave the registers of the others alone.
pub proof fn functions_are_independent(
    m: Ac97BusMaster,
    f: Ac97Function,
    g: Ac97Function,
    sr: u16,
    cr: u8,
    control: u32,
)
    requires
        f != g,
    ensures
        m.after_set_sr(f, sr).regs(g) == m.regs(g),
        m.after_set_cr(f, cr).regs(g) == m.regs(g),
        m.marked(f, control).advanced(f).regs(g) == m.regs(g),
{
}

proof fn mask_bits(a: u32, b: u32, c: u32)
    by (bit_vector)
    requires
        b == 0x20 || b == 0x40 || b == 0x80,
        c == 0x20 || c == 0x40 || c == 0x80,
    ensures
        (a | b) & b != 0,
        (a & !b) & b == 0,
        b != c ==> (a | b) & c == a & c,
        b != c ==> (a & !b) & c == a & c,
{
}

/// Global status shows the interrupt of a function exactly when its status and
/// its enables call for it, and the bits of other functions stay.
pub proof fn global_status_follows(m: Ac97BusMaster, f: Ac97Function, g: Ac97Function, sr: u16)
    ensures
        (m.with_sr(f, sr).glob_sta & Ac97BusMaster::int_mask(f) != 0) == Ac97BusMaster::interrupts(
            m.regs(f).cr,
            sr,
        ),
        f != g ==> m.with_sr(f, sr).glob_sta & Ac97BusMaster::int_mask(g) == m.glob_sta
            & Ac97BusMaster::int_mask(g),
{
    mask_bits(m.glob_sta, Ac97BusMaster::int_mask(f), Ac97BusMaster::int_mask(g));
}

/// The address of the buffer descriptors can be written and read back outside
/// cold reset, but for the low three bits, which are zero.
pub proof fn descriptor_base_reads_back(m: Ac97BusMaster, offset: u64, val: u32)
    requires
        !m.cold_reset(),
        offset == 0x00 || offset == 0x10 || offset == 0x20,
    ensures
        m.after_writel(offset, val).long_at(offset) == val & !0x07u32,
        m.after_writel(offset, val).long_at(offset) % 8 == 0,
{
    assert((val & !0x07u32) % 8 == 0) by (bit_vector);
}

/// Writing the status register clears those of the interrupt and error bits that
/// are written as ones, and leaves the state of the engine as it is.
pub proof fn status_is_write_one_to_clear(m: Ac97BusMaster, offset: u64, val: u16, micros: u32)
    requires
        !m.cold_reset(),
        offset == 0x06 || offset == 0x16 || offset == 0x26,
    ensures
        m.after_writew(offset, val).word_at(offset, micros) & SR_RO_MASK == m.word_at(
            offset,
            micros,
        ) & SR_RO_MASK,
        m.after_writew(offset, val).word_at(offset, micros) & (val & SR_WCLEAR_MASK) == 0,
        m.after_writew(offset, val).word_at(offset, micros) & !(val & SR_WCLEAR_MASK) == m.word_at(
            offset,
            micros,
        ) & !(val & SR_WCLEAR_MASK),
{
    let sr = m.word_at(offset, micros);
    let clear = val & SR_WCLEAR_MASK;
    assert(SR_WCLEAR_MASK == 0x1c && SR_RO_MASK == 0x03) by (bit_vector);
    assert((sr & !clear) & 0x03u16 == sr & 0x03u16 && (sr & !clear) & clear == 0 && (sr & !clear)
        & !clear == sr & !clear) by (bit_vector)
        requires
            clear == val & 0x1cu16,
    ;
}

proof fn status_bit_facts(a: u16)
    by (bit_vector)
    ensures
        (a | 0x04u16 | 0x01u16 | 0x02u16) & 0x07u16 == 0x07u16,
        (a | 0x04u16 | 0x01u16 | 0x02u16) & 0x04u16 != 0,
        (a | 0x04u16 | 0x01u16 | 0x02u16) & 0x18u16 == a & 0x18u16,
        (a | 0x08u16) & 0x08u16 != 0,
        (a | 0x08u16) & 0x17u16 == a & 0x17u16,
        (a | 0x01u16) & 0x01u16 != 0,
        (a | 0x01u16) & 0x1eu16 == a & 0x1eu16,
        (a & !0x01u16) & 0x01u16 == 0,
        (a & !0x01u16) & 0x1eu16 == a & 0x1eu16,
        0x01u16 & 0x01u16 != 0 && 0x01u16 & 0x1eu16 == 0,
        (a | 0x04u16 | 0x01u16 | 0x02u16) & 0x08u16 == a & 0x08u16,
        ((a | 0x08u16) | 0x04u16 | 0x01u16 | 0x02u16) & 0x08u16 != 0,
        a & 0x0cu16 == 0 ==> a & 0x04u16 == 0 && a & 0x08u16 == 0,
        (a | 0x08u16) & 0x04u16 == a & 0x04u16,
{
}

/// Completing a buffer that is not the last valid one makes the prefetched
/// buffer the current one and prefetches the one after it; after the last of
/// the 32 descriptors comes the first. Nothing else moves, and completing the
/// last valid buffer moves no index at all.
pub proof fn completion_moves_to_the_successor(m: Ac97BusMaster, f: Ac97Function, control: u32)
    requires
        m.wf(),
    ensures
        ({
            let before = m.regs(f);
            let after = m.marked(f, control).advanced(f).regs(f);
            &&& after.lvi == before.lvi && after.bdbar == before.bdbar && after.cr == before.cr
                && after.picb == before.picb
            &&& before.civ != before.lvi ==> {
                &&& after.civ == before.piv
                &&& before.piv < 31 ==> after.piv == before.piv + 1
                &&& before.piv == 31 ==> after.piv == 0
                &&& after.sr & 0x17 == before.sr & 0x17
            }
            &&& before.civ == before.lvi ==> {
                &&& after.civ == before.civ && after.piv == before.piv
                &&& after.sr & 0x07 == 0x07
            }
            &&& control & 0x8000_0000 != 0 ==> after.sr & 0x08 != 0
            &&& control & 0x8000_0000 == 0 ==> after.sr & 0x08 == before.sr & 0x08
        }),
{
    let s = m.regs(f).sr;
    status_bit_facts(s);
    status_bit_facts(s | SR_BCIS);
}

/// The bus master after `n` buffers of `f` were completed whose descriptors have
/// this control word.
pub open spec fn after_completions(
    m: Ac97BusMaster,
    f: Ac97Function,
    control: u32,
    n: nat,
) -> Ac97BusMaster
    decreases n,
{
    if n == 0 {
        m
    } else {
        let before = after_completions(m, f, control, (n - 1) as nat);
        before.marked(f, control).advanced(f)
    }
}

/// From the start of a run on, the current index is zero for the first two
/// buffers and then takes each value up to the last valid one in turn, and the
/// end is reported when the buffer there completes, and not before.
pub proof fn run_plays_every_buffer(
    m: Ac97BusMaster,
    f: Ac97Function,
    control: u32,
    k: nat,
)
    requires
        m.wf(),
        m.regs(f).civ == 0,
        m.regs(f).piv == 0,
        m.regs(f).lvi >= 1,
        k <= m.regs(f).lvi + 1,
    ensures
        ({
            let s = after_completions(m, f, control, k);
            &&& s.wf()
            &&& s.regs(f).lvi == m.regs(f).lvi
            &&& k == 0 ==> s.regs(f).civ == 0
            &&& k >= 1 ==> s.regs(f).civ == k - 1
            &&& s.regs(f).piv == k % 32
            &&& s.at_last(f) <==> k == m.regs(f).lvi + 1
        }),
    decreases k,
{
    if k > 0 {
        run_plays_every_buffer(m, f, control, (k - 1) as nat);
        completion_moves_to_the_successor(
            after_completions(m, f, control, (k - 1) as nat),
            f,
            control,
        );
    }
}

/// Offset of the registers of a function.
pub open spec fn function_base(f: Ac97Function) -> u64 {
    match f {
        Ac97Function::Input => 0x00,
        Ac97Function::Output => 0x10,
        Ac97Function::Microphone => 0x20,
    }
}

/// Bit of global status that shows the interrupt of a function.
pub open spec fn interrupt_bit(f: Ac97Function) -> u32 {
    match f {
        Ac97Function::Input => 0x20,
        Ac97Function::Output => 0x40,
        Ac97Function::Microphone => 0x80,
    }
}

/// The guest is interrupted when a buffer completes that asks for it and its
/// interrupt is enabled, or the last valid buffer completes and that interrupt
/// is enabled. Global status then names the function.
pub proof fn completion_interrupts_the_guest(m: Ac97BusMaster, f: Ac97Function, control: u32)
    requires
        m.wf(),
        m.regs(f).sr & 0x0c == 0,
    ensures
        ({
            let effects = m.mark_effects(f, control) + m.marked(f, control).advance_effects(f);
            let after = m.marked(f, control).advanced(f);
            let cr = m.byte_at((function_base(f) + 0x0b) as u64);
            let asked = control & 0x8000_0000 != 0 && cr & 0x10 != 0;
            let ended = m.regs(f).civ == m.regs(f).lvi && cr & 0x04 != 0;
            &&& effects.contains(BusMasterAction::Interrupt) <==> asked || ended
            &&& asked || ended ==> after.long_at(0x30) & interrupt_bit(f) != 0
        }),
{
    let s = m.regs(f).sr;
    status_bit_facts(s);
    status_bit_facts(s | SR_BCIS);
    mask_bits(m.glob_sta, interrupt_bit(f), interrupt_bit(f));
    mask_bits(m.marked(f, control).glob_sta, interrupt_bit(f), interrupt_bit(f));
    let first = m.mark_effects(f, control);
    let second = m.marked(f, control).advance_effects(f);
    if first.len() > 0 {
        assert((first + second)[0] == BusMasterAction::Interrupt);
    } else if second.len() > 0 {
        assert((first + second)[0] == BusMasterAction::Interrupt);
    }
}

proof fn control_bit_facts(val: u8, cr: u8)
    by (bit_vector)
    ensures
        val & 0x03 == 0x01 ==> val & 0x02 == 0 && val & 0x01 != 0,
        val & 0x03 == 0x00 ==> val & 0x02 == 0 && val & 0x01 == 0,
        cr & (0x10u8 | 0x08u8 | 0x04u8) == cr & 0x1c,
{
}

/// The control register of a function starts and stops its engine. Setting the
/// reset bit clears its registers but for the interrupt enables and stops it;
/// clearing the run bit stops it where it is; setting the run bit of a stopped
/// engine starts it at the first descriptor, and of a running one leaves it
/// running.
pub proof fn control_register_runs_the_engine(m: Ac97BusMaster, f: Ac97Function, val: u8)
    requires
        m.wf(),
        m.long_at(0x2c) & 0x02 != 0,
    ensures
        ({
            let base = function_base(f);
            let cr = m.byte_at((base + 0x0b) as u64);
            let before = m.regs(f);
            let n = m.after_writeb((base + 0x0b) as u64, val);
            let after = n.regs(f);
            let effects = m.writeb_effects((base + 0x0b) as u64, val);
            &&& val & 0x02 != 0 ==> {
                &&& effects == seq![BusMasterAction::StopAudio(f)]
                &&& n.byte_at((base + 0x0b) as u64) == cr & 0x1c
                &&& n.long_at(base) == 0
                &&& after.civ == 0 && after.lvi == 0 && after.piv == 0 && after.picb == 0
                    && after.sr == 0x01
                &&& f == Ac97Function::Output ==> !n.po_run
            }
            &&& val & 0x03 == 0x00 ==> {
                &&& effects == seq![BusMasterAction::StopAudio(f)]
                &&& n.byte_at((base + 0x0b) as u64) == val & 0x1f
                &&& after.sr & 0x01 != 0 && after.sr & 0x1e == before.sr & 0x1e
                &&& after.civ == before.civ && after.piv == before.piv && after.lvi == before.lvi
                    && after.picb == before.picb && after.bdbar == before.bdbar
                &&& f == Ac97Function::Output ==> !n.po_run
            }
            &&& val & 0x03 == 0x01 && cr & 0x01 == 0 ==> {
                &&& effects == seq![BusMasterAction::StartAudio(f)]
                &&& n.byte_at((base + 0x0b) as u64) == val & 0x1f
                &&& after.sr & 0x01 == 0 && after.sr & 0x1e == before.sr & 0x1e
                &&& after.civ == 0 && after.piv == 0 && after.lvi == before.lvi && after.picb
                    == before.picb && after.bdbar == before.bdbar
                &&& f == Ac97Function::Output ==> n.po_run
            }
            &&& val & 0x03 == 0x01 && cr & 0x01 != 0 ==> {
                &&& effects == Seq::<BusMasterAction>::empty()
                &&& n == m.with_regs(f, Ac97FunctionRegs { cr: val & 0x1f, ..before })
            }
        }),
{
    control_bit_facts(val, m.regs(f).cr);
    status_bit_facts(m.regs(f).sr);
}

/// What the guest writes to the last valid index, to the semaphore and, outside
/// reset, to global control is what it reads there. The index counts 32
/// descriptors.
pub proof fn registers_read_back(m: Ac97BusMaster, f: Ac97Function, val: u8, cnt: u32)
    requires
        m.long_at(0x2c) & 0x02 != 0,
    ensures
        m.after_writeb((function_base(f) + 0x05) as u64, val).byte_at(
            (function_base(f) + 0x05) as u64,
        ) == val % 32,
        m.after_writeb(0x34, val).byte_at(0x34) == val,
        cnt & 0x02 != 0 && cnt & 0x04 == 0 ==> m.after_writel(0x2c, cnt).long_at(0x2c) == cnt,
        cnt & 0x02 != 0 && m.po_run ==> m.after_writel(0x2c, cnt).long_at(0x2c) == cnt,
        cnt & 0x02 == 0 ==> m.after_writel(0x2c, cnt).long_at(0x2c) == cnt & 0x7f,
{
}

/// The double word at the current index of a function is made of its current
/// index, its last valid index and its status, low byte first.
pub proof fn status_reads_as_one(m: Ac97BusMaster, f: Ac97Function, micros: u32)
    ensures
        m.long_at((function_base(f) + 0x04) as u64) == m.byte_at((function_base(f) + 0x04) as u64)
            + 0x100 * m.byte_at((function_base(f) + 0x05) as u64) + 0x1_0000 * m.word_at(
            (function_base(f) + 0x06) as u64,
            micros,
        ),
        m.byte_at((function_base(f) + 0x04) as u64) == m.regs(f).civ,
        m.byte_at((function_base(f) + 0x05) as u64) == m.regs(f).lvi,
        m.byte_at((function_base(f) + 0x0a) as u64) == m.regs(f).piv,
        m.byte_at((function_base(f) + 0x0b) as u64) == m.regs(f).cr,
        m.word_at((function_base(f) + 0x06) as u64, micros) == m.regs(f).sr,
        m.long_at(function_base(f)) == m.regs(f).bdbar,
{
    m.regs(f).status_word_is_sum();
}

/// While output runs, 96 samples of the current buffer are gone with each
/// millisecond, until none is left. While it does not run none goes.
pub proof fn position_follows_the_clock(m: Ac97BusMaster, millis: u32, micros: u32)
    requires
        millis < 682,
    ensures
        m.po_run ==> m.word_at(0x18, (1000 * millis) as u32) == if m.po_regs.picb >= 96 * millis {
            m.po_regs.picb - 96 * millis
        } else {
            0
        },
        !m.po_run ==> m.word_at(0x18, micros) == m.po_regs.picb,
{
    assert((1000 * millis) as u32 * 48 / 1000 == 48 * millis);
}

/// A playback call takes all that the host buffer holds, two samples for each
/// frame, or else all that is left in the current buffer.
pub proof fn playback_takes_what_fits(m: Ac97BusMaster, frames: usize)
    ensures
        m.samples_for(frames) <= 2 * frames,
        m.samples_for(frames) <= m.po_regs.picb,
        m.samples_for(frames) == 2 * frames || m.samples_for(frames) == m.po_regs.picb,
{
}

/// A function interrupts the guest where its status shows the end of the last valid
/// buffer, or of a buffer that asked for it, and the interrupt for that is enabled;
/// its bit of global status then is set, and else it is clear.
pub proof fn status_and_enables_decide(m: Ac97BusMaster, f: Ac97Function, sr: u16)
    ensures
        ({
            let cr = m.byte_at((function_base(f) + 0x0b) as u64);
            let high = (sr & 0x04 != 0 && cr & 0x04 != 0) || (sr & 0x08 != 0 && cr & 0x10 != 0);
            &&& m.with_sr(f, sr).long_at(0x30) & interrupt_bit(f) != 0 <==> high
            &&& m.sr_effects(f, sr).contains(BusMasterAction::Interrupt) <==> high
            &&& m.with_sr(f, sr).regs(f).sr == sr
        }),
{
    mask_bits(m.glob_sta, interrupt_bit(f), interrupt_bit(f));
    if m.sr_effects(f, sr).len() > 0 {
        assert(m.sr_effects(f, sr)[0] == BusMasterAction::Interrupt);
    }
}

/// A cold reset, and a warm reset while output does not run, stop all audio; no
/// other write of global control stops any.
pub proof fn resets_stop_all_audio(m: Ac97BusMaster, val: u32, f: Ac97Function)
    ensures
        ({
            let resets = val & 0x02 == 0 || (val & 0x04 != 0 && !m.po_run);
            &&& resets ==> m.writel_effects(0x2c, val).contains(BusMasterAction::StopAudio(f))
            &&& !resets ==> m.writel_effects(0x2c, val).len() == 0
        }),
{
    let effects = Ac97BusMaster::stop_all_effects();
    assert(effects[0] == BusMasterAction::StopAudio(Ac97Function::Input));
    assert(effects[1] == BusMasterAction::StopAudio(Ac97Function::Output));
    assert(effects[2] == BusMasterAction::StopAudio(Ac97Function::Microphone));
}

/// The samples that are left are read behind the status of each function.
pub proof fn position_is_read_behind_the_status(m: Ac97BusMaster, micros: u32)
    ensures
        m.word_at(0x08, micros) == m.pi_regs.picb,
        m.word_at(0x28, micros) == m.mc_regs.picb,
        !m.po_run ==> m.word_at(0x18, micros) == m.po_regs.picb,
{
}

} // verus!
