//! The AC'97 audio device on the PCI bus: a mixer and a bus master behind two
//! memory regions.
use crate::ac97_bus_master::{Ac97BusMaster, BusMasterAction};
use crate::ac97_regs::{MASTER_REGS_SIZE, MIXER_REGS_SIZE};
use crate::bytes;
use vstd::prelude::*;

verus! {

/// Vendor ID of Intel.
pub const PCI_VENDOR_ID_INTEL: u16 = 0x8086;

/// Device ID of the Intel 82801AA audio controller.
pub const PCI_DEVICE_ID_INTEL_82801AA_5: u16 = 0x2415;

/// What an address in the device's regions stands for.
#[derive(Clone, Copy, Debug, PartialEq, Eq, Structural)]
pub enum BarTarget {
    Mixer(u64),
    BusMaster(u64),
    Nothing,
}

/// Why the regions could not be set up.
#[derive(Clone, Copy, Debug, PartialEq, Eq, Structural)]
pub enum IoBarError {
    /// No addresses for a region of this size.
    IoAllocationFailed(u64),
    /// The region at this address could not be registered.
    IoRegistrationFailed(u64),
}

/// The region that an address falls into, given the addresses of the two
/// regions. Where they overlap the mixer goes first.
pub open spec fn target_of(addr: u64, bar0: u32, bar1: u32) -> BarTarget {
    if bar0 <= addr < bar0 + MIXER_REGS_SIZE {
        BarTarget::Mixer((addr - bar0) as u64)
    } else if bar1 <= addr < bar1 + MASTER_REGS_SIZE {
        BarTarget::BusMaster((addr - bar1) as u64)
    } else {
        BarTarget::Nothing
    }
}

/// The region that an address falls into.
pub fn bar_target(addr: u64, bar0: u32, bar1: u32) -> (r: BarTarget)
    ensures
        r == target_of(addr, bar0, bar1),
{
    let b0: u64 = bar0 as u64;
    let b1: u64 = bar1 as u64;
    if addr >= b0 && addr < b0 + MIXER_REGS_SIZE {
        BarTarget::Mixer(addr - b0)
    } else if addr >= b1 && addr < b1 + MASTER_REGS_SIZE {
        BarTarget::BusMaster(addr - b1)
    } else {
        BarTarget::Nothing
    }
}

/// How one region was set up: the address that it got, and whether it could be
/// registered there.
#[derive(Clone, Copy, Debug, PartialEq, Eq, Structural)]
pub struct RegionReply {
    pub addr: Option<u64>,
    pub registered: bool,
}

/// The address of a region, or why it has none.
pub open spec fn region_addr(reply: RegionReply, size: u64) -> Result<u64, IoBarError> {
    match reply.addr {
        None => Err(IoBarError::IoAllocationFailed(size)),
        Some(addr) => if reply.registered {
            Ok(addr)
        } else {
            Err(IoBarError::IoRegistrationFailed(addr))
        },
    }
}

fn region(reply: RegionReply, size: u64) -> (r: Result<u64, IoBarError>)
    ensures
        r == region_addr(reply, size),
{
    match reply.addr {
        None => Err(IoBarError::IoAllocationFailed(size)),
        Some(addr) => {
            if reply.registered {
                Ok(addr)
            } else {
                Err(IoBarError::IoRegistrationFailed(addr))
            }
        },
    }
}

/// The ranges of the mixer and the bus master, in this order, or the first
/// error.
pub fn allocate_io_bars(mixer: RegionReply, master: RegionReply) -> (r: Result<
    Vec<(u64, u64)>,
    IoBarError,
>)
    ensures
        region_addr(mixer, MIXER_REGS_SIZE) is Err ==> r is Err && r->Err_0 == region_addr(
            mixer,
            MIXER_REGS_SIZE,
        )->Err_0,
        region_addr(mixer, MIXER_REGS_SIZE) is Ok && region_addr(master, MASTER_REGS_SIZE) is Err
            ==> r is Err && r->Err_0 == region_addr(master, MASTER_REGS_SIZE)->Err_0,
        region_addr(mixer, MIXER_REGS_SIZE) is Ok && region_addr(master, MASTER_REGS_SIZE) is Ok
            ==> r is Ok && r->Ok_0@ == seq![
            (mixer.addr->0, MIXER_REGS_SIZE),
            (master.addr->0, MASTER_REGS_SIZE),
        ],
{
    let mixer_addr: u64 = match region(mixer, MIXER_REGS_SIZE) {
        Err(e) => {
            return Err(e);
        },
        Ok(a) => a,
    };
    let master_addr: u64 = match region(master, MASTER_REGS_SIZE) {
        Err(e) => {
            return Err(e);
        },
        Ok(a) => a,
    };
    let mut ranges: Vec<(u64, u64)> = Vec::new();
    ranges.push((mixer_addr, MIXER_REGS_SIZE));
    ranges.push((master_addr, MASTER_REGS_SIZE));
    Ok(ranges)
}

impl Ac97BusMaster {
    /// The bus master after bytes were written: one, two or four of them.
    pub open spec fn after_write(self, offset: u64, data: Seq<u8>) -> Self {
        if data.len() == 1 {
            self.after_writeb(offset, data[0])
        } else if data.len() == 2 {
            self.after_writew(offset, bytes::le_value(data) as u16)
        } else if data.len() == 4 {
            self.after_writel(offset, bytes::le_value(data) as u32)
        } else {
            self
        }
    }

    /// What writing bytes sets off.
    pub open spec fn write_effects(self, offset: u64, data: Seq<u8>) -> Seq<BusMasterAction> {
        if data.len() == 1 {
            self.writeb_effects(offset, data[0])
        } else if data.len() == 2 {
            self.writew_effects(offset, bytes::le_value(data) as u16)
        } else if data.len() == 4 {
            self.writel_effects(offset, bytes::le_value(data) as u32)
        } else {
            Seq::empty()
        }
    }
}

/// The audio device behind the regions. The mixer's registers are held by the
/// caller.
#[derive(Clone, Copy, Debug)]
pub struct Ac97 {
    pub bus_master: Ac97BusMaster,
}

impl Ac97 {
    pub fn new() -> (r: Self)
        ensures
            r.bus_master == Ac97BusMaster::initial(),
            r.bus_master.wf(),
            r.bus_master.cold_reset(),
    {
        Ac97 { bus_master: Ac97BusMaster::new() }
    }

    /// Hands a mixer word to the guest. The mixer is read by words only.
    pub fn read_mixer(&self, word: u16, data: &mut [u8])
        ensures
            final(data)@ == (if old(data)@.len() == 2 {
                bytes::le_bytes(word as nat, 2)
            } else {
                old(data)@
            }),
    {
        if data.len() == 2 {
            put_bytes(data, word as u64);
        }
    }

    /// The word that the guest writes to the mixer, which is written by words
    /// only.
    pub fn write_mixer(&self, data: &[u8]) -> (r: Option<u16>)
        ensures
            r == (if data@.len() == 2 {
                Some(bytes::le_value(data@) as u16)
            } else {
                None
            }),
    {
        if data.len() == 2 {
            assert(bytes::field(data@, 0, 2) =~= data@);
            Some(bytes::le_u16_at(data, 0))
        } else {
            None
        }
    }

    /// What the guest reads from the bus master, for each length of access.
    pub open spec fn master_bytes(m: Ac97BusMaster, offset: u64, micros: u32, len: nat) -> Seq<u8> {
        if len == 1 {
            bytes::le_bytes(m.byte_at(offset) as nat, 1)
        } else if len == 2 {
            bytes::le_bytes(m.word_at(offset, micros) as nat, 2)
        } else {
            bytes::le_bytes(m.long_at(offset) as nat, 4)
        }
    }

    /// What the guest reads at an address. `word` is the mixer's word there.
    pub open spec fn bar_bytes(
        self,
        addr: u64,
        bar0: u32,
        bar1: u32,
        micros: u32,
        word: u16,
        before: Seq<u8>,
    ) -> Seq<u8> {
        match target_of(addr, bar0, bar1) {
            BarTarget::Mixer(_) => if before.len() == 2 {
                bytes::le_bytes(word as nat, 2)
            } else {
                before
            },
            BarTarget::BusMaster(offset) => if before.len() == 1 || before.len() == 2
                || before.len() == 4 {
                Self::master_bytes(self.bus_master, offset, micros, before.len())
            } else {
                before
            },
            BarTarget::Nothing => before,
        }
    }

    /// Reads from the region that an address falls into. `word` is the mixer's
    /// word there.
    pub fn read_bar(
        &self,
        addr: u64,
        bar0: u32,
        bar1: u32,
        micros: u32,
        word: u16,
        data: &mut [u8],
    )
        requires
            micros < 1_000_000,
        ensures
            final(data)@ == self.bar_bytes(addr, bar0, bar1, micros, word, old(data)@),
    {
        match bar_target(addr, bar0, bar1) {
            BarTarget::Mixer(_) => {
                self.read_mixer(word, data);
            },
            BarTarget::BusMaster(offset) => {
                self.read_bus_master(offset, micros, data);
            },
            BarTarget::Nothing => {},
        }
    }

    /// Writes to the region that an address falls into. Returns the word to
    /// write to the mixer and its offset, if there is one, and what the bus
    /// master does.
    pub fn write_bar(&mut self, addr: u64, bar0: u32, bar1: u32, data: &[u8]) -> (r: (
        Option<(u64, u16)>,
        Vec<BusMasterAction>,
    ))
        requires
            old(self).bus_master.wf(),
        ensures
            final(self).bus_master.wf(),
            r.0 == (match target_of(addr, bar0, bar1) {
                BarTarget::Mixer(offset) => if data@.len() == 2 {
                    Some((offset, bytes::le_value(data@) as u16))
                } else {
                    None
                },
                _ => None,
            }),
            match target_of(addr, bar0, bar1) {
                BarTarget::BusMaster(offset) => {
                    &&& final(self).bus_master == old(self).bus_master.after_write(offset, data@)
                    &&& r.1@ == old(self).bus_master.write_effects(offset, data@)
                },
                _ => *final(self) == *old(self) && r.1@.len() == 0,
            },
    {
        match bar_target(addr, bar0, bar1) {
            BarTarget::Mixer(offset) => match self.write_mixer(data) {
                Some(word) => (Some((offset, word)), Vec::new()),
                None => (None, Vec::new()),
            },
            BarTarget::BusMaster(offset) => (None, self.write_bus_master(offset, data)),
            BarTarget::Nothing => (None, Vec::new()),
        }
    }

    /// Reads from the bus master by bytes, words or double words.
    pub fn read_bus_master(&self, offset: u64, micros: u32, data: &mut [u8])
        requires
            micros < 1_000_000,
        ensures
            final(data)@ == (if old(data)@.len() == 1 || old(data)@.len() == 2 || old(data)@.len()
                == 4 {
                Self::master_bytes(self.bus_master, offset, micros, old(data)@.len())
            } else {
                old(data)@
            }),
    {
        if data.len() == 1 {
            put_bytes(data, self.bus_master.readb(offset) as u64);
        } else if data.len() == 2 {
            put_bytes(data, self.bus_master.readw(offset, micros) as u64);
        } else if data.len() == 4 {
            put_bytes(data, self.bus_master.readl(offset) as u64);
        }
    }

    /// Writes to the bus master by bytes, words or double words.
    pub fn write_bus_master(&mut self, offset: u64, data: &[u8]) -> (r: Vec<BusMasterAction>)
        requires
            old(self).bus_master.wf(),
        ensures
            final(self).bus_master.wf(),
            final(self).bus_master == old(self).bus_master.after_write(offset, data@),
            r@ == old(self).bus_master.write_effects(offset, data@),
    {
        if data.len() == 1 {
            self.bus_master.writeb(offset, data[0])
        } else if data.len() == 2 {
            assert(bytes::field(data@, 0, 2) =~= data@);
            self.bus_master.writew(offset, bytes::le_u16_at(data, 0))
        } else if data.len() == 4 {
            assert(bytes::field(data@, 0, 4) =~= data@);
            self.bus_master.writel(offset, bytes::le_u32_at(data, 0))
        } else {
            Vec::new()
        }
    }
}

/// Fills `data` with the low bytes of `v`.
fn put_bytes(data: &mut [u8], v: u64)
    requires
        old(data)@.len() <= 8,
    ensures
        final(data)@ == bytes::le_bytes(v as nat, old(data)@.len()),
{
    let enc: Vec<u8> = bytes::le_encode(v, data.len());
    bytes::copy_prefix(data, enc.as_slice());
    assert(data@ =~= enc@);
}

/// Each offset into a region is found at that distance from the region's
/// address, and addresses outside both regions are nobody's.
pub proof fn regions_hold_their_offsets(bar0: u32, bar1: u32, offset: u64, addr: u64)
    requires
        bar0 + 0x100 <= bar1 || bar1 + 0x400 <= bar0,
    ensures
        offset < 0x100 ==> target_of((bar0 + offset) as u64, bar0, bar1) == BarTarget::Mixer(
            offset,
        ),
        offset < 0x400 ==> target_of((bar1 + offset) as u64, bar0, bar1) == BarTarget::BusMaster(
            offset,
        ),
        !(bar0 <= addr < bar0 + 0x100) && !(bar1 <= addr < bar1 + 0x400) ==> target_of(
            addr,
            bar0,
            bar1,
        ) == BarTarget::Nothing,
{
}

/// The guest reads the bytes of a register of the bus master lowest first, by
/// an access of one, two or four bytes, and an access of another length reads
/// nothing.
pub proof fn bus_master_reads_little_endian(
    m: Ac97,
    bar0: u32,
    bar1: u32,
    offset: u64,
    micros: u32,
    word: u16,
    before: Seq<u8>,
)
    requires
        bar0 + 0x100 <= bar1 || bar1 + 0x400 <= bar0,
        offset < 0x400,
    ensures
        ({
            let after = m.bar_bytes((bar1 + offset) as u64, bar0, bar1, micros, word, before);
            &&& before.len() == 1 ==> after.len() == 1 && after[0] == m.bus_master.byte_at(offset)
            &&& before.len() == 2 ==> after.len() == 2 && after[0] + 0x100 * after[1]
                == m.bus_master.word_at(offset, micros)
            &&& before.len() == 4 ==> after.len() == 4 && after[0] + 0x100 * after[1] + 0x1_0000
                * after[2] + 0x100_0000 * after[3] == m.bus_master.long_at(offset)
            &&& before.len() != 1 && before.len() != 2 && before.len() != 4 ==> after == before
        }),
{
    let after = m.bar_bytes((bar1 + offset) as u64, bar0, bar1, micros, word, before);
    bytes::le_bytes_len(m.bus_master.byte_at(offset) as nat, 1);
    bytes::le_bytes_len(m.bus_master.word_at(offset, micros) as nat, 2);
    bytes::le_bytes_len(m.bus_master.long_at(offset) as nat, 4);
    reveal_with_fuel(bytes::pow256, 5);
    bytes::le_round_trip(m.bus_master.byte_at(offset) as nat, 1);
    bytes::le_round_trip(m.bus_master.word_at(offset, micros) as nat, 2);
    bytes::le_round_trip(m.bus_master.long_at(offset) as nat, 4);
    bytes::le_value_is_weighted_sum(after);
}

/// A register of the bus master is written by its bytes, lowest first.
pub proof fn bus_master_writes_little_endian(m: Ac97BusMaster, offset: u64, data: Seq<u8>)
    ensures
        data.len() == 1 ==> m.after_write(offset, data) == m.after_writeb(offset, data[0]),
        data.len() == 2 ==> m.after_write(offset, data) == m.after_writew(
            offset,
            (data[0] + 0x100 * data[1]) as u16,
        ),
        data.len() == 4 ==> m.after_write(offset, data) == m.after_writel(
            offset,
            (data[0] + 0x100 * data[1] + 0x1_0000 * data[2] + 0x100_0000 * data[3]) as u32,
        ),
        data.len() != 1 && data.len() != 2 && data.len() != 4 ==> m.after_write(offset, data) == m,
{
    bytes::le_value_is_weighted_sum(data);
}

/// What a write of bytes sets off is what the register that they make up sets off.
pub proof fn bus_master_effects_follow_the_register(m: Ac97BusMaster, offset: u64, data: Seq<u8>)
    ensures
        data.len() == 1 ==> m.write_effects(offset, data) == m.writeb_effects(offset, data[0]),
        data.len() == 2 ==> m.write_effects(offset, data) == m.writew_effects(
            offset,
            (data[0] + 0x100 * data[1]) as u16,
        ),
        data.len() == 4 ==> m.write_effects(offset, data) == m.writel_effects(
            offset,
            (data[0] + 0x100 * data[1] + 0x1_0000 * data[2] + 0x100_0000 * data[3]) as u32,
        ),
        data.len() != 1 && data.len() != 2 && data.len() != 4 ==> m.write_effects(
            offset,
            data,
        ).len() == 0,
{
    bytes::le_value_is_weighted_sum(data);
}

/// A region has the address that it was given, once it could be registered there.
/// Which of the two failed is told, with the size or with the address.
pub proof fn region_needs_address_and_registration(addr: u64, size: u64, registered: bool)
    ensures
        region_addr(RegionReply { addr: Some(addr), registered: true }, size) == Ok::<
            u64,
            IoBarError,
        >(addr),
        region_addr(RegionReply { addr: Some(addr), registered: false }, size) == Err::<
            u64,
            IoBarError,
        >(IoBarError::IoRegistrationFailed(addr)),
        region_addr(RegionReply { addr: None, registered }, size) == Err::<u64, IoBarError>(
            IoBarError::IoAllocationFailed(size),
        ),
{
}

} // verus!
