//! Registers of the AC'97 audio device.
use vstd::prelude::*;

verus! {

/// Size of the mixer's register region.
pub const MIXER_REGS_SIZE: u64 = 0x100;

/// Size of the bus master's register region.
pub const MASTER_REGS_SIZE: u64 = 0x400;

/// Global control: cold reset is active while this bit is zero.
pub const GLOB_CNT_COLD_RESET: u32 = 0x0000_0002;

pub const GLOB_CNT_WARM_RESET: u32 = 0x0000_0004;

/// Bits of global control that a reset does not affect.
pub const GLOB_CNT_STABLE_BITS: u32 = 0x0000_007f;

/// Global status after reset: the primary codec is ready.
pub const GLOB_STA_RESET_VAL: u32 = 0x0000_0100;

pub const GS_MD3: u32 = 0x2_0000;

pub const GS_AD3: u32 = 0x1_0000;

pub const GS_RCS: u32 = 0x8000;

pub const GS_B3S12: u32 = 0x4000;

pub const GS_B2S12: u32 = 0x2000;

pub const GS_B1S12: u32 = 0x1000;

pub const GS_S1R1: u32 = 0x800;

pub const GS_S0R1: u32 = 0x400;

pub const GS_S1CR: u32 = 0x200;

pub const GS_S0CR: u32 = 0x100;

/// Microphone interrupt.
pub const GS_MINT: u32 = 0x80;

/// Output interrupt.
pub const GS_POINT: u32 = 0x40;

/// Input interrupt.
pub const GS_PIINT: u32 = 0x20;

pub const GS_RSRVD: u32 = 0x18;

pub const GS_MOINT: u32 = 0x4;

pub const GS_MIINT: u32 = 0x2;

pub const GS_GSCI: u32 = 0x1;

pub const GS_RO_MASK: u32 = GS_B3S12 | GS_B2S12 | GS_B1S12 | GS_S1CR | GS_S0CR | GS_MINT | GS_POINT
    | GS_PIINT | GS_RSRVD | GS_MOINT | GS_MIINT;

pub const GS_VALID_MASK: u32 = 0x0003_ffff;

pub const GS_WCLEAR_MASK: u32 = GS_RCS | GS_S1R1 | GS_S0R1 | GS_GSCI;

/// The DMA engine is halted.
pub const SR_DCH: u16 = 0x01;

/// The current buffer is the last valid one.
pub const SR_CELV: u16 = 0x02;

/// The last valid buffer was completed.
pub const SR_LVBCI: u16 = 0x04;

/// A buffer was completed that wanted an interrupt.
pub const SR_BCIS: u16 = 0x08;

/// FIFO error.
pub const SR_FIFOE: u16 = 0x10;

pub const SR_VALID_MASK: u16 = 0x1f;

pub const SR_WCLEAR_MASK: u16 = SR_FIFOE | SR_BCIS | SR_LVBCI;

pub const SR_RO_MASK: u16 = SR_DCH | SR_CELV;

pub const SR_INT_MASK: u16 = SR_BCIS | SR_LVBCI;

/// Run.
pub const CR_RPBM: u8 = 0x01;

/// Reset the registers.
pub const CR_RR: u8 = 0x02;

/// Interrupt when the last valid buffer completes.
pub const CR_LVBIE: u8 = 0x04;

/// Interrupt on FIFO error.
pub const CR_FEIE: u8 = 0x08;

/// Interrupt when a buffer completes that asks for it.
pub const CR_IOCE: u8 = 0x10;

pub const CR_VALID_MASK: u8 = 0x1f;

/// Bits of the control register that a reset does not affect.
pub const CR_DONT_CLEAR_MASK: u8 = CR_IOCE | CR_FEIE | CR_LVBIE;

pub const MUTE_REG_BIT: u16 = 0x8000;

pub const VOL_REG_MASK: u16 = 0x003f;

pub const MIXER_VOL_MASK: u16 = 0x001f;

pub const MIXER_VOL_LEFT_SHIFT: usize = 8;

pub const MIXER_MIC_20DB: u16 = 0x0040;

pub const PD_REG_STATUS_MASK: u16 = 0x000f;

pub const PD_REG_OUTPUT_MUTE_MASK: u16 = 0xb200;

pub const PD_REG_INPUT_MUTE_MASK: u16 = 0x0d00;

/// Bytes of a buffer descriptor: address and control.
pub const DESCRIPTOR_LENGTH: usize = 8;

/// Control bit of a buffer that wants an interrupt when it completes.
pub const BD_IOC: u32 = 0x8000_0000;

/// Registers of one audio function.
#[derive(Clone, Copy, Debug, PartialEq, Eq, Structural)]
pub struct Ac97FunctionRegs {
    /// Address of the buffer descriptors.
    pub bdbar: u32,
    /// Current index.
    pub civ: u8,
    /// Last valid index.
    pub lvi: u8,
    pub sr: u16,
    /// Samples left in the current buffer.
    pub picb: u16,
    /// Prefetched index.
    pub piv: u8,
    pub cr: u8,
}

impl Ac97FunctionRegs {
    /// Indices count 32 descriptors.
    pub open spec fn wf(self) -> bool {
        self.civ < 32 && self.lvi < 32 && self.piv < 32
    }

    /// The registers after a reset, with control register `cr` before it.
    pub open spec fn reset_with(cr: u8) -> Self {
        Ac97FunctionRegs {
            bdbar: 0,
            civ: 0,
            lvi: 0,
            sr: SR_DCH,
            picb: 0,
            piv: 0,
            cr: cr & CR_DONT_CLEAR_MASK,
        }
    }

    pub fn new() -> (r: Self)
        ensures
            r == (Ac97FunctionRegs {
                bdbar: 0,
                civ: 0,
                lvi: 0,
                sr: SR_DCH,
                picb: 0,
                piv: 0,
                cr: 0,
            }),
            r.wf(),
    {
        Ac97FunctionRegs { bdbar: 0, civ: 0, lvi: 0, sr: SR_DCH, picb: 0, piv: 0, cr: 0 }
    }

    /// Resets all registers but the interrupt enables.
    pub fn do_reset(&mut self)
        ensures
            *final(self) == Self::reset_with(old(self).cr),
    {
        self.bdbar = 0;
        self.civ = 0;
        self.lvi = 0;
        self.sr = SR_DCH;
        self.picb = 0;
        self.piv = 0;
        self.cr = self.cr & CR_DONT_CLEAR_MASK;
    }

    /// Current index, last valid index and status in one word.
    pub open spec fn status_word(self) -> u32 {
        (self.civ as u32) | ((self.lvi as u32) << 8) | ((self.sr as u32) << 16)
    }

    /// Reads current index, last valid index and status as one 32-bit word,
    /// from the low byte up.
    pub fn atomic_status_regs(&self) -> (r: u32)
        ensures
            r == self.status_word(),
            r == self.civ + 0x100 * self.lvi + 0x1_0000 * self.sr,
    {
        let civ: u32 = self.civ as u32;
        let lvi: u32 = self.lvi as u32;
        let sr: u32 = self.sr as u32;
        proof {
            self.status_word_is_sum();
        }
        civ | (lvi << 8) | (sr << 16)
    }

    /// The bytes of the status word are the current index, the last valid index
    /// and the two bytes of the status, from the low byte up.
    pub proof fn status_word_is_sum(self)
        ensures
            self.status_word() == self.civ + 0x100 * self.lvi + 0x1_0000 * self.sr,
    {
        let civ: u32 = self.civ as u32;
        let lvi: u32 = self.lvi as u32;
        let sr: u32 = self.sr as u32;
        assert(civ < 0x100 && lvi < 0x100 && sr < 0x1_0000 ==> (civ | (lvi << 8) | (sr << 16))
            == civ + 0x100 * lvi + 0x1_0000 * sr) by (bit_vector);
    }
}

/// The audio functions.
#[derive(Clone, Copy, Debug, PartialEq, Eq, Structural)]
pub enum Ac97Function {
    Input,
    Output,
    Microphone,
}

} // verus!
