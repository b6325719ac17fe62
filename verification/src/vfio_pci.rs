//! A PCI device of the host that is handed through to the guest.
//!
//! The device's configuration space, its regions and the address allocators are
//! reached by the caller; what it reads there comes in as plain values, and what
//! it is to do there goes out as actions.
use crate::bytes;
use vstd::prelude::*;

verus! {

pub const EINVAL: i32 = 22;

pub const VFIO_PCI_BAR0_REGION_INDEX: u32 = 0;

pub const VFIO_PCI_ROM_REGION_INDEX: u32 = 6;

pub const VFIO_PCI_CONFIG_REGION_INDEX: u32 = 7;

/// The region can be mapped into memory.
pub const VFIO_REGION_INFO_FLAG_MMAP: u32 = 4;

pub const PCI_CAPABILITY_LIST: usize = 0x34;

pub const PCI_CAP_ID_MSI: u8 = 0x05;

/// Message control, from the start of the capability.
pub const PCI_MSI_FLAGS: u32 = 0x2;

pub const PCI_MSI_FLAGS_ENABLE: u16 = 0x0001;

pub const PCI_MSI_FLAGS_64BIT: u16 = 0x0080;

pub const PCI_MSI_FLAGS_MASKBIT: u16 = 0x0100;

pub const PCI_MSI_ADDRESS_LO: u32 = 0x4;

pub const PCI_MSI_ADDRESS_HI: u32 = 0x8;

/// Message data of a capability with 32-bit addresses.
pub const PCI_MSI_DATA_32: u32 = 0x8;

/// Message data of a capability with 64-bit addresses.
pub const PCI_MSI_DATA_64: u32 = 0xC;

pub const MSI_LENGTH_32BIT: u32 = 0xA;

pub const MSI_LENGTH_64BIT_WITHOUT_MASK: u32 = 0xE;

pub const MSI_LENGTH_64BIT_WITH_MASK: u32 = 0x18;

/// Configuration space that the capability list can reach.
pub const CONFIG_SPAN: usize = 260;

/// What a write to the MSI capability turns on or off.
#[derive(Clone, Copy, Debug, PartialEq, Eq, Structural)]
pub enum VfioMsiChange {
    Disable,
    Enable,
}

/// The MSI capability of the device and what the guest wrote to it.
#[derive(Clone, Copy, Debug, PartialEq, Eq, Structural)]
pub struct VfioMsiCap {
    /// Offset of the capability in configuration space, zero if there is none.
    pub offset: u32,
    pub size: u32,
    pub ctl: u16,
    pub address: u64,
    pub data: u16,
}

/// The capability list, from the entry at `at`, comes to an MSI capability or
/// to its end in `steps` steps.
pub open spec fn list_ends(config: Seq<u8>, at: int, steps: nat) -> bool
    decreases steps,
{
    ||| at == 0
    ||| config[at] == PCI_CAP_ID_MSI
    ||| steps > 0 && list_ends(config, config[at + 1] as int, (steps - 1) as nat)
}

/// The offset of the first MSI capability from the entry at `at` on, zero if
/// there is none.
pub open spec fn msi_offset(config: Seq<u8>, at: int, steps: nat) -> int
    decreases steps,
{
    if at == 0 || config[at] == PCI_CAP_ID_MSI || steps == 0 {
        at
    } else {
        msi_offset(config, config[at + 1] as int, (steps - 1) as nat)
    }
}

/// The length of an MSI capability by its message control.
pub open spec fn msi_length(ctl: u16) -> u32 {
    if ctl & PCI_MSI_FLAGS_MASKBIT != 0 {
        MSI_LENGTH_64BIT_WITH_MASK
    } else if ctl & PCI_MSI_FLAGS_64BIT != 0 {
        MSI_LENGTH_64BIT_WITHOUT_MASK
    } else {
        MSI_LENGTH_32BIT
    }
}

/// Whether the capability list comes to an end at all.
pub fn capability_list_ends(config: &[u8]) -> (r: bool)
    requires
        config@.len() >= CONFIG_SPAN,
    ensures
        r == list_ends(config@, config@[0x34] as int, 256),
{
    let mut at: usize = config[PCI_CAPABILITY_LIST] as usize;
    let mut steps: usize = 256;
    while at != 0 && config[at] != PCI_CAP_ID_MSI && steps > 0
        invariant
            config@.len() >= CONFIG_SPAN,
            at < 256,
            list_ends(config@, config@[0x34] as int, 256) == list_ends(
                config@,
                at as int,
                steps as nat,
            ),
        decreases steps,
    {
        at = config[at + 1] as usize;
        steps = steps - 1;
    }
    at == 0 || config[at] == PCI_CAP_ID_MSI
}

impl VfioMsiCap {
    /// Finds the MSI capability in configuration space.
    pub fn new(config: &[u8]) -> (r: Self)
        requires
            config@.len() >= CONFIG_SPAN,
            list_ends(config@, config@[0x34] as int, 256),
        ensures
            r.offset == msi_offset(config@, config@[0x34] as int, 256),
            r.size == (if r.offset == 0 {
                MSI_LENGTH_32BIT
            } else {
                msi_length(
                    bytes::le_value(bytes::field(config@, r.offset + PCI_MSI_FLAGS, 2)) as u16,
                )
            }),
            r.ctl == 0,
            r.address == 0,
            r.data == 0,
            r.offset == 0 || config@[r.offset as int] == PCI_CAP_ID_MSI,
    {
        let mut msi_len: u32 = MSI_LENGTH_32BIT;
        let mut cap_next: usize = config[PCI_CAPABILITY_LIST] as usize;
        let mut steps: Ghost<nat> = Ghost(256nat);
        while cap_next != 0
            invariant_except_break
                msi_len == MSI_LENGTH_32BIT,
            invariant
                config@.len() >= CONFIG_SPAN,
                cap_next < 256,
                list_ends(config@, cap_next as int, steps@),
                msi_offset(config@, config@[0x34] as int, 256) == msi_offset(
                    config@,
                    cap_next as int,
                    steps@,
                ),
            ensures
                cap_next == 0 || config@[cap_next as int] == PCI_CAP_ID_MSI,
                cap_next == 0 ==> msi_len == MSI_LENGTH_32BIT,
                cap_next != 0 ==> msi_len == msi_length(
                    bytes::le_value(bytes::field(config@, cap_next + PCI_MSI_FLAGS, 2)) as u16,
                ),
            decreases steps@,
        {
            if config[cap_next] == PCI_CAP_ID_MSI {
                let msi_ctl: u16 = bytes::le_u16_at(config, cap_next + PCI_MSI_FLAGS as usize);
                if msi_ctl & PCI_MSI_FLAGS_64BIT != 0 {
                    msi_len = MSI_LENGTH_64BIT_WITHOUT_MASK;
                }
                if msi_ctl & PCI_MSI_FLAGS_MASKBIT != 0 {
                    msi_len = MSI_LENGTH_64BIT_WITH_MASK;
                }
                break;
            }
            cap_next = config[cap_next + 1] as usize;
            proof {
                steps@ = (steps@ - 1) as nat;
            }
        }
        VfioMsiCap { offset: cap_next as u32, size: msi_len, ctl: 0, address: 0, data: 0 }
    }

    /// The capability fits into configuration space.
    pub open spec fn wf(self) -> bool {
        self.offset < 256 && self.size <= MSI_LENGTH_64BIT_WITH_MASK
    }

    /// `len` bytes at `index` lie within the capability.
    pub open spec fn covers(self, index: u64, len: nat) -> bool {
        self.offset <= index && index + len <= self.offset + self.size
    }

    pub fn is_msi_reg(&self, index: u64, len: usize) -> (r: bool)
        requires
            self.wf(),
        ensures
            r == self.covers(index, len as nat),
    {
        let end: u64 = (self.offset + self.size) as u64;
        index >= self.offset as u64 && index <= end && len as u64 <= end - index
    }

    pub open spec fn enabled(self) -> bool {
        self.ctl & PCI_MSI_FLAGS_ENABLE == PCI_MSI_FLAGS_ENABLE
    }

    /// The capability after a write of `data` at `offset` from its start.
    /// Message control and data are words; an address is a double word, or for
    /// 64-bit addresses one of two double words or a quad word.
    pub open spec fn written(self, offset: int, data: Seq<u8>) -> Self {
        let v = bytes::le_value(data);
        let wide = self.size != MSI_LENGTH_32BIT;
        if data.len() == 2 && offset == PCI_MSI_FLAGS {
            VfioMsiCap { ctl: v as u16, ..self }
        } else if data.len() == 4 && offset == PCI_MSI_ADDRESS_LO && !wide {
            VfioMsiCap { address: v as u64, ..self }
        } else if data.len() == 4 && offset == PCI_MSI_ADDRESS_LO && wide {
            VfioMsiCap {
                address: (self.address / 0x1_0000_0000 * 0x1_0000_0000 + v) as u64,
                ..self
            }
        } else if data.len() == 4 && offset == PCI_MSI_ADDRESS_HI && wide {
            VfioMsiCap {
                address: (self.address % 0x1_0000_0000 + v * 0x1_0000_0000) as u64,
                ..self
            }
        } else if data.len() == 8 && offset == PCI_MSI_ADDRESS_LO && wide {
            VfioMsiCap { address: v as u64, ..self }
        } else if data.len() == 2 && offset == PCI_MSI_DATA_32 && !wide {
            VfioMsiCap { data: v as u16, ..self }
        } else if data.len() == 2 && offset == PCI_MSI_DATA_64 && (self.size
            == MSI_LENGTH_64BIT_WITHOUT_MASK || self.size == MSI_LENGTH_64BIT_WITH_MASK) {
            VfioMsiCap { data: v as u16, ..self }
        } else {
            self
        }
    }

    /// What a change of message control turns on or off.
    pub open spec fn change(before: Self, after: Self) -> Option<VfioMsiChange> {
        if !before.enabled() && after.enabled() {
            Some(VfioMsiChange::Enable)
        } else if before.enabled() && !after.enabled() {
            Some(VfioMsiChange::Disable)
        } else {
            None
        }
    }

    /// The guest writes to the capability.
    pub fn write_msi_reg(&mut self, index: u64, data: &[u8]) -> (r: Option<VfioMsiChange>)
        requires
            old(self).wf(),
            old(self).covers(index, data@.len()),
        ensures
            *final(self) == old(self).written(index - old(self).offset, data@),
            r == Self::change(*old(self), *final(self)),
    {
        let len: usize = data.len();
        let offset: u32 = index as u32 - self.offset;
        let mut ret: Option<VfioMsiChange> = None;
        assert(data@.len() == 2 ==> bytes::field(data@, 0, 2) =~= data@);
        assert(data@.len() == 4 ==> bytes::field(data@, 0, 4) =~= data@);
        assert(data@.len() == 8 ==> bytes::field(data@, 0, 8) =~= data@);
        if len == 2 && offset == PCI_MSI_FLAGS {
            let was_enabled = self.is_msi_enabled();
            self.ctl = bytes::le_u16_at(data, 0);
            let is_enabled = self.is_msi_enabled();
            if !was_enabled && is_enabled {
                ret = Some(VfioMsiChange::Enable);
            } else if was_enabled && !is_enabled {
                ret = Some(VfioMsiChange::Disable);
            }
        } else if len == 4 && offset == PCI_MSI_ADDRESS_LO && self.size == MSI_LENGTH_32BIT {
            self.address = bytes::le_u32_at(data, 0) as u64;
        } else if len == 4 && offset == PCI_MSI_ADDRESS_LO && self.size != MSI_LENGTH_32BIT {
            let low: u64 = bytes::le_u32_at(data, 0) as u64;
            self.address = self.address / 0x1_0000_0000 * 0x1_0000_0000 + low;
        } else if len == 4 && offset == PCI_MSI_ADDRESS_HI && self.size != MSI_LENGTH_32BIT {
            let high: u64 = bytes::le_u32_at(data, 0) as u64;
            self.address = self.address % 0x1_0000_0000 + high * 0x1_0000_0000;
        } else if len == 8 && offset == PCI_MSI_ADDRESS_LO && self.size != MSI_LENGTH_32BIT {
            self.address = bytes::le_u64_at(data, 0);
        } else if len == 2 && offset == PCI_MSI_DATA_32 && self.size == MSI_LENGTH_32BIT {
            self.data = bytes::le_u16_at(data, 0);
        } else if len == 2 && offset == PCI_MSI_DATA_64 && (self.size
            == MSI_LENGTH_64BIT_WITHOUT_MASK || self.size == MSI_LENGTH_64BIT_WITH_MASK) {
            self.data = bytes::le_u16_at(data, 0);
        }
        ret
    }

    pub fn is_msi_enabled(&self) -> (r: bool)
        ensures
            r == self.enabled(),
    {
        self.ctl & PCI_MSI_FLAGS_ENABLE == PCI_MSI_FLAGS_ENABLE
    }

    pub fn get_msi_address(&self) -> (r: u64)
        ensures
            r == self.address,
    {
        self.address
    }

    pub fn get_msi_data(&self) -> (r: u16)
        ensures
            r == self.data,
    {
        self.data
    }
}

/// A memory region of the device in guest memory.
#[derive(Clone, Copy, Debug, PartialEq, Eq, Structural)]
pub struct MmioInfo {
    pub bar_index: u32,
    pub start: u64,
    pub length: u64,
}

impl MmioInfo {
    pub open spec fn contains(self, addr: u64) -> bool {
        self.start <= addr < self.start + self.length
    }
}

/// A port region of the device; it is hidden from the guest.
#[derive(Clone, Copy, Debug, PartialEq, Eq, Structural)]
pub struct IoInfo {
    pub bar_index: u32,
}

/// Two kinds of address allocators.
#[derive(Clone, Copy, Debug, PartialEq, Eq, Structural)]
pub enum AllocatorKind {
    Device,
    Mmio,
}

/// Why an allocator has no address.
#[derive(Clone, Copy, Debug, PartialEq, Eq, Structural)]
pub enum AllocError {
    OutOfSpace,
    /// Any other error, by its number.
    Other(u32),
}

#[derive(Clone, Copy, Debug, PartialEq, Eq, Structural)]
pub enum PciDeviceError {
    IoAllocationFailed(u64, AllocError),
}

/// The allocator to try first for a region.
pub open spec fn first_allocator(region_flags: u32) -> AllocatorKind {
    if region_flags & VFIO_REGION_INFO_FLAG_MMAP != 0 {
        AllocatorKind::Device
    } else {
        AllocatorKind::Mmio
    }
}

pub open spec fn other_allocator(k: AllocatorKind) -> AllocatorKind {
    match k {
        AllocatorKind::Device => AllocatorKind::Mmio,
        AllocatorKind::Mmio => AllocatorKind::Device,
    }
}

/// The allocator to try first for a region: that for devices where the region
/// can be mapped.
pub fn trial_allocator(region_flags: u32) -> (r: AllocatorKind)
    ensures
        r == first_allocator(region_flags),
{
    if region_flags & VFIO_REGION_INFO_FLAG_MMAP != 0 {
        AllocatorKind::Device
    } else {
        AllocatorKind::Mmio
    }
}

/// The allocator to use for a region, given what the first one would do: the
/// other one where the first has no space, or where its address does not fit
/// into 32 bits and has to.
pub open spec fn chosen_allocator(
    region_flags: u32,
    size: u64,
    is_64bit: bool,
    trial: Result<u64, AllocError>,
) -> Result<AllocatorKind, PciDeviceError> {
    match trial {
        Ok(addr) => Ok(
            if addr >= 0x1_0000_0000 && !is_64bit {
                other_allocator(first_allocator(region_flags))
            } else {
                first_allocator(region_flags)
            },
        ),
        Err(AllocError::OutOfSpace) => Ok(other_allocator(first_allocator(region_flags))),
        Err(e) => Err(PciDeviceError::IoAllocationFailed(size, e)),
    }
}

/// The allocator to use for a region, given what the first one would do.
pub fn choose_allocator(
    region_flags: u32,
    size: u64,
    is_64bit: bool,
    trial: Result<u64, AllocError>,
) -> (r: Result<AllocatorKind, PciDeviceError>)
    ensures
        r == chosen_allocator(region_flags, size, is_64bit, trial),
{
    let first = trial_allocator(region_flags);
    let other = match first {
        AllocatorKind::Device => AllocatorKind::Mmio,
        AllocatorKind::Mmio => AllocatorKind::Device,
    };
    match trial {
        Ok(addr) => {
            if addr >= 0x1_0000_0000 && !is_64bit {
                Ok(other)
            } else {
                Ok(first)
            }
        },
        Err(AllocError::OutOfSpace) => Ok(other),
        Err(e) => Err(PciDeviceError::IoAllocationFailed(size, e)),
    }
}

/// The address of a region, given what the first allocator would do, and what
/// each of the two does.
pub fn allocate_bar_addr(
    region_flags: u32,
    size: u64,
    is_64bit: bool,
    trial: Result<u64, AllocError>,
    from_device: Result<u64, AllocError>,
    from_mmio: Result<u64, AllocError>,
) -> (r: Result<u64, PciDeviceError>)
    ensures
        r == (match chosen_allocator(region_flags, size, is_64bit, trial) {
            Err(e) => Err(e),
            Ok(kind) => match (match kind {
                AllocatorKind::Device => from_device,
                AllocatorKind::Mmio => from_mmio,
            }) {
                Ok(addr) => Ok::<u64, PciDeviceError>(addr),
                Err(e) => Err(PciDeviceError::IoAllocationFailed(size, e)),
            },
        }),
{
    let answer = match choose_allocator(region_flags, size, is_64bit, trial) {
        Ok(AllocatorKind::Device) => from_device,
        Ok(AllocatorKind::Mmio) => from_mmio,
        Err(e) => {
            return Err(e);
        },
    };
    match answer {
        Ok(addr) => Ok(addr),
        Err(e) => Err(PciDeviceError::IoAllocationFailed(size, e)),
    }
}

/// A request to map part of a region into guest memory.
#[derive(Clone, Copy, Debug, PartialEq, Eq, Structural)]
pub struct MmapRequest {
    pub size: u64,
    /// Offset in the device file.
    pub offset: u64,
    pub guest_addr: u64,
}

/// What to map of the region at `bar_addr`, if anything. `mmap` is the part of
/// the region that can be mapped: offset and size.
pub fn add_bar_mmap(region_flags: u32, mmap: (u64, u64), region_offset: u64, bar_addr: u64) -> (r:
    Option<MmapRequest>)
    requires
        bar_addr + mmap.0 <= u64::MAX,
        region_offset + mmap.0 <= u64::MAX,
    ensures
        r == (if region_flags & VFIO_REGION_INFO_FLAG_MMAP != 0 && mmap.1 != 0 {
            Some(
                MmapRequest {
                    size: mmap.1,
                    offset: (region_offset + mmap.0) as u64,
                    guest_addr: (bar_addr + mmap.0) as u64,
                },
            )
        } else {
            None
        }),
{
    if region_flags & VFIO_REGION_INFO_FLAG_MMAP != 0 {
        let (mmap_offset, mmap_size) = mmap;
        if mmap_size == 0 {
            return None;
        }
        Some(
            MmapRequest {
                size: mmap_size,
                offset: region_offset + mmap_offset,
                guest_addr: bar_addr + mmap_offset,
            },
        )
    } else {
        None
    }
}

/// The memory slot of a mapped region: that of the machine's answer, where
/// there was one and the mapping for the device succeeded too.
pub fn mmap_slot(answer: Option<u32>, dma_mapped: bool) -> (r: Option<u32>)
    ensures
        r == (if dma_mapped {
            answer
        } else {
            None
        }),
{
    match answer {
        Some(slot) => {
            if dma_mapped {
                Some(slot)
            } else {
                None
            }
        },
        None => None,
    }
}

/// What the machine asks of the device.
#[derive(Clone, Copy, Debug, PartialEq, Eq, Structural)]
pub enum VfioServerRequest {
    DmaMap { iova: u64, size: u64, host_addr: u64 },
    DmaUnmap { iova: u64, size: u64 },
}

#[derive(Clone, Copy, Debug, PartialEq, Eq, Structural)]
pub enum VfioServerResponse {
    Done,
    /// Failed with this error number.
    Failed(i32),
}

/// What can happen to the thread that serves the machine's requests.
#[derive(Clone, Copy, Debug, PartialEq, Eq, Structural)]
pub enum ServerEvent {
    /// Waiting for events failed.
    WaitFailed,
    /// The socket is readable but no request could be received.
    ReceiveFailed,
    Request(VfioServerRequest),
    /// The device has handled a request.
    Handled(bool),
    /// The response was sent.
    Sent,
    /// The response could not be sent.
    SendFailed,
}

/// What that thread does next.
#[derive(Clone, Copy, Debug, PartialEq, Eq, Structural)]
pub enum ServerAction {
    /// Wait for the next event.
    Wait,
    MapDma { iova: u64, size: u64, host_addr: u64 },
    UnmapDma { iova: u64, size: u64 },
    Respond(VfioServerResponse),
    /// No longer watch the socket, then wait.
    Unwatch,
    Exit,
}

/// One step of the thread that serves the machine's requests: it ends when it
/// cannot wait, and stops watching a socket that fails.
pub fn active_thread(event: ServerEvent) -> (r: ServerAction)
    ensures
        r == (match event {
            ServerEvent::WaitFailed => ServerAction::Exit,
            ServerEvent::ReceiveFailed => ServerAction::Unwatch,
            ServerEvent::Request(VfioServerRequest::DmaMap { iova, size, host_addr }) =>
                ServerAction::MapDma { iova, size, host_addr },
            ServerEvent::Request(VfioServerRequest::DmaUnmap { iova, size }) => ServerAction::UnmapDma {
                iova,
                size,
            },
            ServerEvent::Handled(ok) => ServerAction::Respond(
                if ok {
                    VfioServerResponse::Done
                } else {
                    VfioServerResponse::Failed(EINVAL)
                },
            ),
            ServerEvent::Sent => ServerAction::Wait,
            ServerEvent::SendFailed => ServerAction::Unwatch,
        }),
{
    match event {
        ServerEvent::WaitFailed => ServerAction::Exit,
        ServerEvent::ReceiveFailed => ServerAction::Unwatch,
        ServerEvent::Request(VfioServerRequest::DmaMap { iova, size, host_addr }) =>
            ServerAction::MapDma { iova, size, host_addr },
        ServerEvent::Request(VfioServerRequest::DmaUnmap { iova, size }) => ServerAction::UnmapDma {
            iova,
            size,
        },
        ServerEvent::Handled(ok) => ServerAction::Respond(
            if ok {
                VfioServerResponse::Done
            } else {
                VfioServerResponse::Failed(EINVAL)
            },
        ),
        ServerEvent::Sent => ServerAction::Wait,
        ServerEvent::SendFailed => ServerAction::Unwatch,
    }
}

/// What a base address register stands for.
#[derive(Clone, Copy, Debug, PartialEq, Eq, Structural)]
pub enum BarKind {
    Memory,
    Port,
    Absent,
}

/// The configuration register of a region: the six base address registers, and
/// that of the expansion ROM.
pub open spec fn register_of(i: u32) -> u32 {
    if i == VFIO_PCI_ROM_REGION_INDEX {
        0x30
    } else {
        (0x10 + i * 4) as u32
    }
}

/// The low four bits of a register hold flags.
pub open spec fn flags_of(low: u32) -> u32 {
    low & 0xf
}

pub open spec fn is_64bit(low: u32) -> bool {
    flags_of(low) & 0x4 == 0x4
}

/// What a register stands for that reads `low` after all bits were set.
pub open spec fn kind_of(i: u32, low: u32) -> BarKind {
    if (flags_of(low) & 0x1 == 0 || i == VFIO_PCI_ROM_REGION_INDEX) && low != 0 {
        BarKind::Memory
    } else if flags_of(low) & 0x1 == 0x1 {
        BarKind::Port
    } else {
        BarKind::Absent
    }
}

/// The size of a region whose registers read `low` and, for a 64-bit region,
/// `upper` after all bits were set: 2 to the power of 64 less the address bits.
pub open spec fn size_of(low: u32, upper: u32) -> int {
    let high = if is_64bit(low) {
        upper as int
    } else {
        0xffff_ffff
    };
    0x1_0000_0000_0000_0000 - (high * 0x1_0000_0000 + low / 16 * 16)
}

/// The registers of a region at `addr`: the low one with its flags, and for a
/// 64-bit region the high one behind it.
pub open spec fn program_of(i: u32, low: u32, addr: u64) -> Seq<(u32, u32)> {
    let first = (register_of(i), (addr as u32) | flags_of(low));
    if is_64bit(low) {
        seq![first, ((register_of(i) + 4) as u32, (addr / 0x1_0000_0000) as u32)]
    } else {
        seq![first]
    }
}

/// What came back for one register: what it and the next one read after all
/// bits were set, and the address that was allocated for its size.
#[derive(Clone, Copy, Debug)]
pub struct BarAnswer {
    pub low: u32,
    pub upper: u32,
    pub addr: Result<u64, PciDeviceError>,
}

/// What the registers from one on come to.
#[verifier::ext_equal]
pub struct BarsModel {
    pub regions: Seq<MmioInfo>,
    pub ports: Seq<IoInfo>,
    /// Register offsets and values to write.
    pub writes: Seq<(u32, u32)>,
    pub end: Result<(), PciDeviceError>,
}

/// What the registers from `i` on come to. A 64-bit region takes two of them.
pub open spec fn bars_from(i: u32, answers: Seq<BarAnswer>) -> BarsModel
    decreases 8 - i,
{
    if i > VFIO_PCI_ROM_REGION_INDEX {
        BarsModel {
            regions: Seq::empty(),
            ports: Seq::empty(),
            writes: Seq::empty(),
            end: Ok(()),
        }
    } else {
        let a = answers[i as int];
        let next = if is_64bit(a.low) {
            i + 2
        } else {
            i + 1
        };
        let rest = bars_from(next as u32, answers);
        match kind_of(i, a.low) {
            BarKind::Memory => match a.addr {
                Err(e) => BarsModel {
                    regions: Seq::empty(),
                    ports: Seq::empty(),
                    writes: Seq::empty(),
                    end: Err(e),
                },
                Ok(addr) => {
                    let region = MmioInfo {
                        bar_index: i,
                        start: addr,
                        length: size_of(a.low, a.upper) as u64,
                    };
                    BarsModel {
                        regions: seq![region] + rest.regions,
                        writes: program_of(i, a.low, addr) + rest.writes,
                        ..rest
                    }
                },
            },
            BarKind::Port => BarsModel { ports: seq![IoInfo { bar_index: i }] + rest.ports, ..rest },
            BarKind::Absent => rest,
        }
    }
}

/// The addresses and sizes of regions.
pub open spec fn ranges_of(regions: Seq<MmioInfo>) -> Seq<(u64, u64)> {
    Seq::new(regions.len(), |k: int| (regions[k].start, regions[k].length))
}

pub fn bar_register(i: u32) -> (r: u32)
    requires
        i <= VFIO_PCI_ROM_REGION_INDEX,
    ensures
        r == register_of(i),
{
    if i == VFIO_PCI_ROM_REGION_INDEX {
        0x30
    } else {
        0x10 + i * 4
    }
}

/// What a register stands for, and whether it takes the next one too.
pub fn classify_bar(i: u32, low: u32) -> (r: (BarKind, bool))
    ensures
        r == (kind_of(i, low), is_64bit(low)),
{
    let low_flag: u32 = low & 0xf;
    let wide: bool = low_flag & 0x4 == 0x4;
    if (low_flag & 0x1 == 0 || i == VFIO_PCI_ROM_REGION_INDEX) && low != 0 {
        (BarKind::Memory, wide)
    } else if low_flag & 0x1 == 0x1 {
        (BarKind::Port, wide)
    } else {
        (BarKind::Absent, wide)
    }
}

/// The size of a memory region.
pub fn bar_size(low: u32, upper: u32) -> (r: u64)
    requires
        size_of(low, upper) <= u64::MAX,
    ensures
        r == size_of(low, upper),
{
    let high: u64 = if low & 0xf & 0x4 == 0x4 {
        upper as u64
    } else {
        0xffff_ffff
    };
    let mask: u64 = high * 0x1_0000_0000 + (low / 16 * 16) as u64;
    u64::MAX - mask + 1
}

/// What to do with the device when its configuration space is written.
#[derive(Clone, Copy, Debug, PartialEq, Eq, Structural)]
pub enum VfioAction {
    /// Map the regions and start serving the machine's requests.
    Activate,
    /// Turn on MSI and route it to this address and data.
    EnableMsi { virq: u32, address: u64, data: u32 },
    DisableMsi,
    /// Write the data to configuration space at this offset.
    RegionWrite { start: u64 },
}

/// The device.
#[derive(Debug)]
pub struct VfioPciDevice {
    pub pci_bus_dev: Option<(u8, u8)>,
    /// Whether an interrupt event was assigned.
    pub has_interrupt: bool,
    pub mmio_regions: Vec<MmioInfo>,
    pub io_regions: Vec<IoInfo>,
    pub msi_cap: VfioMsiCap,
    pub virq: u32,
    pub active: bool,
}

/// Descriptors of a device that must stay open: its own, those of its interrupt,
/// and its sockets.
pub fn keep_fds(
    device_fds: &[i32],
    interrupt_evt: Option<i32>,
    interrupt_resample_evt: Option<i32>,
    vm_socket: i32,
    server_socket: Option<i32>,
) -> (r: Vec<i32>)
    ensures
        r@ == device_fds@ + optional(interrupt_evt) + optional(interrupt_resample_evt)
            + seq![vm_socket] + optional(server_socket),
{
    let mut fds: Vec<i32> = Vec::new();
    let mut i: usize = 0;
    while i < device_fds.len()
        invariant
            i <= device_fds@.len(),
            fds@ == device_fds@.take(i as int),
        decreases device_fds.len() - i,
    {
        fds.push(device_fds[i]);
        i = i + 1;
        assert(fds@ =~= device_fds@.take(i as int));
    }
    assert(fds@ =~= device_fds@);
    if let Some(fd) = interrupt_evt {
        fds.push(fd);
    }
    if let Some(fd) = interrupt_resample_evt {
        fds.push(fd);
    }
    fds.push(vm_socket);
    if let Some(fd) = server_socket {
        fds.push(fd);
    }
    assert(fds@ =~= device_fds@ + optional(interrupt_evt) + optional(interrupt_resample_evt)
        + seq![vm_socket] + optional(server_socket));
    fds
}

/// The value, if it is there.
pub open spec fn optional(v: Option<i32>) -> Seq<i32> {
    match v {
        Some(x) => seq![x],
        None => Seq::empty(),
    }
}

impl VfioPciDevice {
    /// A device whose configuration space starts with `config`.
    pub fn new(config: &[u8]) -> (r: Self)
        requires
            config@.len() >= CONFIG_SPAN,
            list_ends(config@, config@[0x34] as int, 256),
        ensures
            r.pci_bus_dev is None,
            !r.has_interrupt,
            r.mmio_regions@.len() == 0,
            r.io_regions@.len() == 0,
            r.msi_cap.offset == msi_offset(config@, config@[0x34] as int, 256),
            r.msi_cap.size == (if r.msi_cap.offset == 0 {
                MSI_LENGTH_32BIT
            } else {
                msi_length(
                    bytes::le_value(
                        bytes::field(config@, r.msi_cap.offset + PCI_MSI_FLAGS, 2),
                    ) as u16,
                )
            }),
            r.msi_cap.ctl == 0,
            r.msi_cap.address == 0,
            r.msi_cap.data == 0,
            r.virq == 0,
            !r.active,
            r.msi_cap.wf(),
    {
        let msi_cap = VfioMsiCap::new(config);
        proof {
            msi_offset_bound(config@, config@[0x34] as int, 256);
        }
        VfioPciDevice {
            pci_bus_dev: None,
            has_interrupt: false,
            mmio_regions: Vec::new(),
            io_regions: Vec::new(),
            msi_cap,
            virq: 0,
            active: false,
        }
    }

    /// The first region that an address lies in.
    pub fn find_region(&self, addr: u64) -> (r: Option<MmioInfo>)
        ensures
            r is None ==> forall|k: int|
                0 <= k < self.mmio_regions@.len() ==> !(
                #[trigger] self.mmio_regions@[k]).contains(addr),
            r is Some ==> exists|k: int|
                {
                    &&& 0 <= k < self.mmio_regions@.len()
                    &&& #[trigger] self.mmio_regions@[k] == r->0
                    &&& r->0.contains(addr)
                    &&& forall|j: int|
                        0 <= j < k ==> !(#[trigger] self.mmio_regions@[j]).contains(addr)
                },
    {
        let mut k: usize = 0;
        while k < self.mmio_regions.len()
            invariant
                k <= self.mmio_regions@.len(),
                forall|j: int|
                    0 <= j < k ==> !(#[trigger] self.mmio_regions@[j]).contains(addr),
            decreases self.mmio_regions.len() - k,
        {
            let info: MmioInfo = self.mmio_regions[k];
            if addr >= info.start && addr - info.start < info.length {
                assert(self.mmio_regions@[k as int] == info);
                return Some(info);
            }
            k = k + 1;
        }
        None
    }

    /// Region and offset that an access to `addr` goes to, if any.
    pub fn bar_access(&self, addr: u64) -> (r: Option<(u32, u64)>)
        ensures
            r is None ==> forall|k: int|
                0 <= k < self.mmio_regions@.len() ==> !(
                #[trigger] self.mmio_regions@[k]).contains(addr),
            r is Some ==> exists|k: int|
                {
                    &&& 0 <= k < self.mmio_regions@.len()
                    &&& (#[trigger] self.mmio_regions@[k]).contains(addr)
                    &&& r->0 == (
                        self.mmio_regions@[k].bar_index,
                        (addr - self.mmio_regions@[k].start) as u64,
                    )
                    &&& forall|j: int|
                        0 <= j < k ==> !(#[trigger] self.mmio_regions@[j]).contains(addr)
                },
    {
        match self.find_region(addr) {
            Some(info) => {
                assert(exists|k: int|
                    0 <= k < self.mmio_regions@.len() && #[trigger] self.mmio_regions@[k] == info);
                Some((info.bar_index, addr - info.start))
            },
            None => None,
        }
    }

    pub fn assign_bus_dev(&mut self, bus: u8, device: u8)
        ensures
            *final(self) == (VfioPciDevice { pci_bus_dev: Some((bus, device)), ..*old(self) }),
    {
        self.pci_bus_dev = Some((bus, device));
    }

    /// Assigns an interrupt line. Returns the two bytes that go to the
    /// interrupt line and pin registers, at 0x3c and 0x3d. `pin` counts from
    /// zero.
    pub fn assign_irq(&mut self, irq_num: u32, pin: u8) -> (r: (u8, u8))
        requires
            pin < 4,
        ensures
            r == (irq_num as u8, (pin + 1) as u8),
            *final(self) == (VfioPciDevice { has_interrupt: true, virq: irq_num, ..*old(self) }),
    {
        self.has_interrupt = true;
        self.virq = irq_num;
        (irq_num as u8, pin + 1)
    }

    /// Sets up the regions of the device from what came back for each of its
    /// registers. Returns the ranges in guest memory and the registers to
    /// write, or the error of the first region that got no address; regions
    /// before it stay set up.
    pub fn allocate_io_bars(&mut self, answers: &[BarAnswer]) -> (r: (
        Result<Vec<(u64, u64)>, PciDeviceError>,
        Vec<(u32, u32)>,
    ))
        requires
            answers@.len() == 7,
            forall|i: int|
                0 <= i < 7 && kind_of(i as u32, (#[trigger] answers@[i]).low) == BarKind::Memory
                    ==> size_of(answers@[i].low, answers@[i].upper) <= u64::MAX,
        ensures
            ({
                let m = bars_from(0, answers@);
                &&& final(self).mmio_regions@ == old(self).mmio_regions@ + m.regions
                &&& final(self).io_regions@ == old(self).io_regions@ + m.ports
                &&& *final(self) == (VfioPciDevice {
                    mmio_regions: final(self).mmio_regions,
                    io_regions: final(self).io_regions,
                    ..*old(self)
                })
                &&& r.1@ == m.writes
                &&& m.end matches Err(e) ==> r.0 is Err && r.0->Err_0 == e
                &&& m.end is Ok ==> r.0 is Ok && r.0->Ok_0@ == ranges_of(m.regions)
            }),
    {
        let ghost m = bars_from(0, answers@);
        let ghost regions0 = self.mmio_regions@;
        let ghost ports0 = self.io_regions@;
        let mut ranges: Vec<(u64, u64)> = Vec::new();
        let mut writes: Vec<(u32, u32)> = Vec::new();
        let mut i: u32 = VFIO_PCI_BAR0_REGION_INDEX;
        let ghost mut done: Seq<MmioInfo> = Seq::empty();
        let ghost mut ports: Seq<IoInfo> = Seq::empty();
        proof {
            assert(regions0 + done =~= regions0);
            assert(ports0 + ports =~= ports0);
            assert(done + m.regions =~= m.regions);
            assert(ports + m.ports =~= m.ports);
            assert(writes@ + m.writes =~= m.writes);
            assert(ranges@ =~= ranges_of(done));
        }
        while i <= VFIO_PCI_ROM_REGION_INDEX
            invariant
                answers@.len() == 7,
                forall|i: int|
                    0 <= i < 7 && kind_of(i as u32, (#[trigger] answers@[i]).low)
                        == BarKind::Memory ==> size_of(answers@[i].low, answers@[i].upper)
                        <= u64::MAX,
                m == bars_from(0, answers@),
                i <= 8,
                m.regions == done + bars_from(i, answers@).regions,
                m.ports == ports + bars_from(i, answers@).ports,
                m.writes == writes@ + bars_from(i, answers@).writes,
                m.end == bars_from(i, answers@).end,
                self.mmio_regions@ == regions0 + done,
                self.io_regions@ == ports0 + ports,
                *self == (VfioPciDevice {
                    mmio_regions: self.mmio_regions,
                    io_regions: self.io_regions,
                    ..*old(self)
                }),
                regions0 == old(self).mmio_regions@,
                ports0 == old(self).io_regions@,
                ranges@ == ranges_of(done),
            decreases 8 - i,
        {
            let a: BarAnswer = answers[i as usize];
            let (kind, wide) = classify_bar(i, a.low);
            let next: u32 = if wide {
                i + 2
            } else {
                i + 1
            };
            let ghost rest = bars_from(next, answers@);
            match kind {
                BarKind::Memory => {
                    let size: u64 = bar_size(a.low, a.upper);
                    match a.addr {
                        Err(e) => {
                            proof {
                                assert(m.regions =~= done);
                                assert(m.ports =~= ports);
                                assert(m.writes =~= writes@);
                            }
                            return (Err(e), writes);
                        },
                        Ok(addr) => {
                            let region = MmioInfo { bar_index: i, start: addr, length: size };
                            ranges.push((addr, size));
                            self.mmio_regions.push(region);
                            let ghost w0 = writes@;
                            let offset: u32 = bar_register(i);
                            writes.push((offset, (addr as u32) | (a.low & 0xf)));
                            if wide {
                                writes.push((offset + 4, (addr / 0x1_0000_0000) as u32));
                            }
                            proof {
                                let d0 = done;
                                done = done.push(region);
                                assert(writes@ =~= w0 + program_of(i, a.low, addr));
                                assert(w0 + (program_of(i, a.low, addr) + rest.writes) =~= writes@
                                    + rest.writes);
                                assert(d0 + (seq![region] + rest.regions) =~= done + rest.regions);
                                assert(self.mmio_regions@ =~= regions0 + done);
                                assert(ranges@ =~= ranges_of(done));
                            }
                        },
                    }
                },
                BarKind::Port => {
                    let info = IoInfo { bar_index: i };
                    self.io_regions.push(info);
                    proof {
                        let p0 = ports;
                        ports = ports.push(info);
                        assert(p0 + (seq![info] + rest.ports) =~= ports + rest.ports);
                        assert(self.io_regions@ =~= ports0 + ports);
                    }
                },
                BarKind::Absent => {},
            }
            i = next;
        }
        proof {
            assert(m.regions =~= done);
            assert(m.ports =~= ports);
            assert(m.writes =~= writes@);
        }
        (Ok(ranges), writes)
    }

    /// The register `reg` belongs to a port region.
    pub open spec fn hides(self, reg: u32) -> bool {
        0x10 <= reg <= 0x24 && exists|k: int|
            0 <= k < self.io_regions@.len() && (#[trigger] self.io_regions@[k]).bar_index * 4 + 0x10
                == reg
    }

    /// What the guest reads from a configuration register that the device reads
    /// as `config`: registers of port regions are hidden.
    pub fn read_config_register(&self, reg_idx: usize, config: u32) -> (r: u32)
        requires
            reg_idx * 4 <= usize::MAX,
            forall|k: int|
                0 <= k < self.io_regions@.len() ==> (#[trigger] self.io_regions@[k]).bar_index
                    <= VFIO_PCI_ROM_REGION_INDEX,
        ensures
            r == (if self.hides((reg_idx * 4) as u32) {
                0
            } else {
                config
            }),
    {
        let reg: u32 = (reg_idx * 4) as u32;
        if reg >= 0x10 && reg <= 0x24 {
            let mut k: usize = 0;
            while k < self.io_regions.len()
                invariant
                    k <= self.io_regions@.len(),
                    reg == (reg_idx * 4) as u32,
                    0x10 <= reg <= 0x24,
                    forall|k: int|
                        0 <= k < self.io_regions@.len() ==> (
                        #[trigger] self.io_regions@[k]).bar_index <= VFIO_PCI_ROM_REGION_INDEX,
                    forall|j: int|
                        0 <= j < k ==> (#[trigger] self.io_regions@[j]).bar_index * 4 + 0x10 != reg,
                decreases self.io_regions.len() - k,
            {
                if self.io_regions[k].bar_index * 4 + 0x10 == reg {
                    assert(self.hides(reg));
                    return 0;
                }
                k = k + 1;
            }
        }
        config
    }

    /// The MSI capability takes part in a write of configuration space.
    pub open spec fn msi_written(self, start: u64, data: Seq<u8>) -> VfioMsiCap {
        if self.msi_cap.covers(start, data.len()) && self.has_interrupt {
            self.msi_cap.written(start - self.msi_cap.offset, data)
        } else {
            self.msi_cap
        }
    }

    /// What a write of configuration space makes the device do.
    pub open spec fn config_effects(self, start: u64, data: Seq<u8>) -> Seq<VfioAction> {
        let after = self.msi_written(start, data);
        let activate = if self.active {
            Seq::empty()
        } else {
            seq![VfioAction::Activate]
        };
        let msi = match VfioMsiCap::change(self.msi_cap, after) {
            Some(VfioMsiChange::Enable) => seq![
                VfioAction::EnableMsi {
                    virq: self.virq,
                    address: after.address,
                    data: after.data as u32,
                },
            ],
            Some(VfioMsiChange::Disable) => seq![VfioAction::DisableMsi],
            None => Seq::empty(),
        };
        activate + msi + seq![VfioAction::RegionWrite { start }]
    }

    /// The guest writes `data` at `offset` within configuration register
    /// `reg_idx`. The first write activates the device; without an interrupt
    /// the MSI capability is not followed.
    pub fn write_config_register(&mut self, reg_idx: usize, offset: u64, data: &[u8]) -> (r: Vec<
        VfioAction,
    >)
        requires
            old(self).msi_cap.wf(),
            reg_idx * 4 <= usize::MAX,
            reg_idx * 4 + offset <= u64::MAX,
        ensures
            r@ == old(self).config_effects((reg_idx * 4 + offset) as u64, data@),
            *final(self) == (VfioPciDevice {
                active: true,
                msi_cap: old(self).msi_written((reg_idx * 4 + offset) as u64, data@),
                ..*old(self)
            }),
    {
        let mut out: Vec<VfioAction> = Vec::new();
        if !self.active {
            out.push(VfioAction::Activate);
            self.active = true;
        }
        let start: u64 = (reg_idx * 4) as u64 + offset;
        if self.msi_cap.is_msi_reg(start, data.len()) {
            if self.has_interrupt {
                match self.msi_cap.write_msi_reg(start, data) {
                    Some(VfioMsiChange::Enable) => {
                        out.push(
                            VfioAction::EnableMsi {
                                virq: self.virq,
                                address: self.msi_cap.get_msi_address(),
                                data: self.msi_cap.get_msi_data() as u32,
                            },
                        );
                    },
                    Some(VfioMsiChange::Disable) => {
                        out.push(VfioAction::DisableMsi);
                    },
                    None => {},
                }
            }
        }
        out.push(VfioAction::RegionWrite { start });
        assert(out@ =~= old(self).config_effects(start, data@));
        out
    }
}

proof fn msi_offset_bound(config: Seq<u8>, at: int, steps: nat)
    requires
        0 <= at < 256,
    ensures
        0 <= msi_offset(config, at, steps) < 256,
    decreases steps,
{
    if at != 0 && config[at] != PCI_CAP_ID_MSI && steps > 0 {
        msi_offset_bound(config, config[at + 1] as int, (steps - 1) as nat);
    }
}

/// MSI is turned on and off in turn: writing message control changes something
/// exactly when the enable bit changes.
pub proof fn msi_change_needs_a_toggle(cap: VfioMsiCap, offset: int, data: Seq<u8>)
    ensures
        VfioMsiCap::change(cap, cap.written(offset, data)) is Some <==> cap.enabled()
            != cap.written(offset, data).enabled(),
        offset != PCI_MSI_FLAGS ==> VfioMsiCap::change(cap, cap.written(offset, data)) is None,
{
}

/// A 64-bit message address can be written in two halves, in either order.
#[verifier::spinoff_prover]
pub proof fn msi_address_halves(cap: VfioMsiCap, low: Seq<u8>, high: Seq<u8>)
    requires
        cap.size != MSI_LENGTH_32BIT,
        low.len() == 4,
        high.len() == 4,
    ensures
        cap.written(PCI_MSI_ADDRESS_LO as int, low).written(
            PCI_MSI_ADDRESS_HI as int,
            high,
        ).address == bytes::le_value(low) + bytes::le_value(high) * 0x1_0000_0000,
        cap.written(PCI_MSI_ADDRESS_HI as int, high).written(
            PCI_MSI_ADDRESS_LO as int,
            low,
        ).address == bytes::le_value(low) + bytes::le_value(high) * 0x1_0000_0000,
{
    bytes::le_field_bounds(low);
    bytes::le_field_bounds(high);
    halves_join(cap.address as int, bytes::le_value(low) as int, bytes::le_value(high) as int);
}

/// Replacing the low half and the high half of a 64-bit number, in either order.
proof fn halves_join(a: int, low: int, high: int)
    requires
        0 <= a < 0x1_0000_0000_0000_0000,
        0 <= low < 0x1_0000_0000,
        0 <= high < 0x1_0000_0000,
    ensures
        0 <= a / 0x1_0000_0000 * 0x1_0000_0000 + low < 0x1_0000_0000_0000_0000,
        0 <= a % 0x1_0000_0000 + high * 0x1_0000_0000 < 0x1_0000_0000_0000_0000,
        (a / 0x1_0000_0000 * 0x1_0000_0000 + low) % 0x1_0000_0000 == low,
        (a % 0x1_0000_0000 + high * 0x1_0000_0000) / 0x1_0000_0000 == high,
{
}

proof fn register_bit_facts(low: u32, half: u32, ctl: u32)
    by (bit_vector)
    ensures
        (low & 0xf & 0x4 == 0x4) == (low / 4 % 2 == 1),
        (low & 0xf & 0x1 == 0) == (low % 2 == 0),
        (low & 0xf & 0x1 == 0x1) == (low % 2 == 1),
        half % 16 == 0 ==> (half | (low & 0xf)) == half + low % 16,
        (ctl & 0x1 == 0x1) == (ctl % 2 == 1),
{
}

/// A register stands for memory where its lowest bit is clear, and for ports where
/// it is set; one that reads zero is not there, and the ROM is always memory. A
/// memory region with the third bit set has an address of 64 bits, and takes the
/// next register too.
pub proof fn flags_tell_the_kind(i: u32, low: u32)
    ensures
        is_64bit(low) <==> low % 8 >= 4,
        low == 0 ==> kind_of(i, low) == BarKind::Absent,
        low != 0 && low % 2 == 0 ==> kind_of(i, low) == BarKind::Memory,
        low % 2 == 1 && i != 6 ==> kind_of(i, low) == BarKind::Port,
        low != 0 && i == 6 ==> kind_of(i, low) == BarKind::Memory,
        i < 6 ==> register_of(i) == 0x10 + 4 * i,
        register_of(6) == 0x30,
{
    register_bit_facts(low, 0, 0);
}

/// A region that keeps its low address bits at zero reads, once all bits were set,
/// the number that is its size below zero; so the size is found again, for an
/// address of 32 bits from one register and for one of 64 bits from two.
pub proof fn size_is_found_by_setting_all_bits(low: u32, upper: u32, size: int)
    requires
        size % 16 == 0,
        16 <= size,
    ensures
        low % 8 < 4 && low - low % 16 == 0x1_0000_0000 - size ==> size_of(low, upper) == size,
        low % 8 >= 4 && 0x1_0000_0000 * upper + (low - low % 16) == 0x1_0000_0000_0000_0000 - size
            ==> size_of(low, upper) == size,
{
    register_bit_facts(low, 0, 0);
    assert(low / 16 * 16 == low - low % 16);
}

/// The address of a region goes to its register together with the flags that the
/// register has, and the upper half of an address of 64 bits goes to the next one.
pub proof fn address_is_programmed_with_its_flags(i: u32, low: u32, addr: u64)
    requires
        i <= 6,
        (addr as u32) % 16 == 0,
    ensures
        program_of(i, low, addr).len() == if low % 8 >= 4 {
            2int
        } else {
            1
        },
        program_of(i, low, addr)[0] == (
            register_of(i),
            ((addr as u32) + low % 16) as u32,
        ),
        low % 8 >= 4 ==> program_of(i, low, addr)[1] == (
            (register_of(i) + 4) as u32,
            (addr / 0x1_0000_0000) as u32,
        ),
{
    register_bit_facts(low, addr as u32, 0);
}

/// Every memory region that is set up lies at the address that was allocated for
/// its register, has the size that the register tells, and its register is
/// programmed with the address.
pub proof fn regions_lie_where_they_were_allocated(i: u32, answers: Seq<BarAnswer>, k: int)
    requires
        answers.len() == 7,
        0 <= k < bars_from(i, answers).regions.len(),
    ensures
        ({
            let m = bars_from(i, answers);
            let r = m.regions[k];
            let a = answers[r.bar_index as int];
            &&& i <= r.bar_index <= 6
            &&& kind_of(r.bar_index, a.low) == BarKind::Memory
            &&& a.addr matches Ok(addr) && addr == r.start && m.writes.contains(
                program_of(r.bar_index, a.low, addr)[0],
            )
            &&& r.length == size_of(a.low, a.upper) as u64
        }),
    decreases 8 - i,
{
    if i <= VFIO_PCI_ROM_REGION_INDEX {
        let a = answers[i as int];
        let next = if is_64bit(a.low) {
            (i + 2) as u32
        } else {
            (i + 1) as u32
        };
        let m = bars_from(i, answers);
        let rest = bars_from(next, answers);
        match kind_of(i, a.low) {
            BarKind::Memory => {
                let addr = a.addr->Ok_0;
                let first = program_of(i, a.low, addr);
                if k == 0 {
                    assert(m.writes[0] == first[0]);
                } else {
                    regions_lie_where_they_were_allocated(next, answers, k - 1);
                    let r = rest.regions[k - 1];
                    assert(m.regions[k] == r);
                    let w = program_of(
                        r.bar_index,
                        answers[r.bar_index as int].low,
                        r.start,
                    )[0];
                    let at = choose|at: int| 0 <= at < rest.writes.len() && rest.writes[at] == w;
                    assert(m.writes[first.len() + at] == w);
                }
            },
            _ => {
                regions_lie_where_they_were_allocated(next, answers, k);
            },
        }
    }
}

/// A region that can be mapped is tried where devices are, another where registers
/// are; an address beyond 32 bits is not taken for a region that has no room for
/// it, nor is an allocator without space asked again.
pub proof fn allocator_suits_the_region(
    flags: u32,
    size: u64,
    wide: bool,
    trial: Result<u64, AllocError>,
)
    ensures
        ({
            let first = if flags & 4 != 0 {
                AllocatorKind::Device
            } else {
                AllocatorKind::Mmio
            };
            let other = if flags & 4 != 0 {
                AllocatorKind::Mmio
            } else {
                AllocatorKind::Device
            };
            let chosen = chosen_allocator(flags, size, wide, trial);
            &&& first_allocator(flags) == first
            &&& (trial matches Ok(addr) && (addr < 0x1_0000_0000 || wide)) ==> chosen == Ok::<
                AllocatorKind,
                PciDeviceError,
            >(first)
            &&& (trial matches Ok(addr) && addr >= 0x1_0000_0000 && !wide) ==> chosen == Ok::<
                AllocatorKind,
                PciDeviceError,
            >(other)
            &&& trial == Err::<u64, AllocError>(AllocError::OutOfSpace) ==> chosen == Ok::<
                AllocatorKind,
                PciDeviceError,
            >(other)
            &&& trial matches Err(e) ==> e != AllocError::OutOfSpace ==> chosen == Err::<
                AllocatorKind,
                PciDeviceError,
            >(PciDeviceError::IoAllocationFailed(size, e))
        }),
{
}

/// A capability with 32-bit addresses keeps the message address that is written to
/// its second double word and the data that is written behind it; one with 64-bit
/// addresses keeps a whole address at once, and the data behind that.
pub proof fn message_is_kept_as_written(cap: VfioMsiCap, word: Seq<u8>, long: Seq<u8>, quad: Seq<u8>)
    requires
        word.len() == 2,
        long.len() == 4,
        quad.len() == 8,
    ensures
        cap.size == 0x0a ==> {
            &&& cap.written(4, long).address == bytes::le_value(long)
            &&& cap.written(8, word).data == bytes::le_value(word)
        },
        cap.size == 0x0e || cap.size == 0x18 ==> {
            &&& cap.written(4, quad).address == bytes::le_value(quad)
            &&& cap.written(0x0c, word).data == bytes::le_value(word)
        },
        cap.written(2, word).ctl == bytes::le_value(word),
        cap.written(2, word).address == cap.address,
        cap.written(2, word).data == cap.data,
        cap.size == 0x0a ==> cap.written(8, word).address == cap.address,
        cap.size != 0x0a ==> cap.written(0x0c, word).address == cap.address,
{
    bytes::le_field_bounds(word);
    bytes::le_field_bounds(long);
    bytes::le_field_bounds(quad);
}

/// An MSI capability is the longer the more it has: least with 32-bit addresses,
/// more with 64-bit addresses, and most with masks.
pub proof fn msi_length_by_its_flags(ctl: u16)
    ensures
        ctl & 0x100 != 0 ==> msi_length(ctl) == 0x18,
        ctl & 0x100 == 0 && ctl & 0x80 != 0 ==> msi_length(ctl) == 0x0e,
        ctl & 0x100 == 0 && ctl & 0x80 == 0 ==> msi_length(ctl) == 0x0a,
{
}

/// Setting the lowest bit of message control turns MSI on with the message that the
/// capability holds, and clearing it turns MSI off. A device without an interrupt
/// does neither. Whatever is written goes to the device in the end, and the first
/// write activates it.
pub proof fn guest_switches_msi(d: VfioPciDevice, data: Seq<u8>)
    requires
        data.len() == 2,
        d.msi_cap.wf(),
        d.msi_cap.size >= 4,
    ensures
        ({
            let start = (d.msi_cap.offset + 2) as u64;
            let effects = d.config_effects(start, data);
            let on = d.msi_cap.ctl % 2 == 1;
            &&& effects.len() > 0 && effects.last() == (VfioAction::RegionWrite { start })
            &&& !d.active ==> effects[0] == VfioAction::Activate
            &&& d.active ==> !effects.contains(VfioAction::Activate)
            &&& d.has_interrupt && !on && data[0] % 2 == 1 ==> effects.contains(
                VfioAction::EnableMsi {
                    virq: d.virq,
                    address: d.msi_cap.address,
                    data: d.msi_cap.data as u32,
                },
            )
            &&& d.has_interrupt && on && data[0] % 2 == 0 ==> effects.contains(
                VfioAction::DisableMsi,
            )
            &&& !d.has_interrupt || on == (data[0] % 2 == 1) ==> effects.len() == if d.active {
                1int
            } else {
                2
            }
            &&& d.has_interrupt ==> (d.msi_written(start, data).ctl % 2 == 1) == (data[0] % 2 == 1)
        }),
{
    let start = (d.msi_cap.offset + 2) as u64;
    let effects = d.config_effects(start, data);
    let after = d.msi_written(start, data);
    bytes::le_value_is_weighted_sum(data);
    bytes::le_field_bounds(data);
    register_bit_facts(0, 0, d.msi_cap.ctl as u32);
    register_bit_facts(0, 0, after.ctl as u32);
    let at: int = if d.active {
        0
    } else {
        1
    };
    if d.has_interrupt {
        assert(after.ctl == data[0] + 0x100 * data[1]);
        assert((after.ctl % 2 == 1) == (data[0] % 2 == 1));
        if d.msi_cap.enabled() != after.enabled() {
            assert(effects.contains(effects[at]));
        }
    }
}

/// The registers of a device's port regions are hidden from the guest, and no
/// register but the six of base addresses.
pub proof fn port_regions_are_hidden(d: VfioPciDevice, k: int, reg: u32)
    ensures
        0 <= k < d.io_regions@.len() && d.io_regions@[k].bar_index < 6 ==> d.hides(
            (0x10 + 4 * d.io_regions@[k].bar_index) as u32,
        ),
        d.io_regions@.len() == 0 ==> !d.hides(reg),
        reg < 0x10 || reg > 0x24 ==> !d.hides(reg),
{
}

/// The capability list is followed from entry to entry, each of which names the next
/// in its second byte, up to the first MSI capability or to the end.
pub proof fn list_is_followed_to_the_first_msi(config: Seq<u8>, at: int, steps: nat)
    ensures
        msi_offset(config, 0, steps) == 0,
        at != 0 && config[at] == 5 ==> msi_offset(config, at, steps) == at && list_ends(
            config,
            at,
            steps,
        ),
        at != 0 && config[at] != 5 ==> msi_offset(config, at, steps + 1) == msi_offset(
            config,
            config[at + 1] as int,
            steps,
        ) && (list_ends(config, at, steps + 1) <==> list_ends(
            config,
            config[at + 1] as int,
            steps,
        )),
        list_ends(config, 0, steps),
{
}

/// A write belongs to the capability where all its bytes do, and an address to a
/// region from its start on, as far as it is long.
pub proof fn ranges_are_half_open(cap: VfioMsiCap, region: MmioInfo, index: u64, len: nat, k: u64)
    requires
        len > 0,
    ensures
        cap.covers(index, len) <==> index >= cap.offset && index < cap.offset + cap.size && index
            + len - 1 < cap.offset + cap.size,
        region.start + k <= u64::MAX ==> (region.contains((region.start + k) as u64) <==> k
            < region.length),
        k < region.start ==> !region.contains(k),
{
}

/// The regions of a device are told to the guest with their addresses and sizes, in
/// their order.
pub proof fn ranges_are_those_of_the_regions(regions: Seq<MmioInfo>, k: int)
    requires
        0 <= k < regions.len(),
    ensures
        ranges_of(regions).len() == regions.len(),
        ranges_of(regions)[k] == (regions[k].start, regions[k].length),
{
}

/// Registers are looked at one after the other, but the one behind a 64-bit region
/// belongs to that. Each memory register has a region, in their order, unless one
/// gets no address, which ends the setup with its error; each port register is noted.
pub proof fn every_register_is_looked_at(i: u32, answers: Seq<BarAnswer>)
    requires
        answers.len() == 7,
        i <= 6,
    ensures
        ({
            let a = answers[i as int];
            let next = if a.low / 4 % 2 == 1 {
                (i + 2) as u32
            } else {
                (i + 1) as u32
            };
            let m = bars_from(i, answers);
            let rest = bars_from(next, answers);
            &&& kind_of(i, a.low) == BarKind::Memory && a.addr is Err ==> m.end is Err
                && m.end->Err_0 == a.addr->Err_0 && m.regions.len() == 0
            &&& kind_of(i, a.low) == BarKind::Memory && a.addr is Ok ==> {
                &&& m.regions.len() == rest.regions.len() + 1
                &&& m.regions[0].bar_index == i && m.regions[0].start == a.addr->Ok_0
                &&& m.regions.skip(1) == rest.regions
                &&& m.ports == rest.ports && m.end == rest.end
            }
            &&& kind_of(i, a.low) == BarKind::Port ==> {
                &&& m.ports.len() == rest.ports.len() + 1
                &&& m.ports[0].bar_index == i
                &&& m.regions == rest.regions && m.writes == rest.writes && m.end == rest.end
            }
            &&& kind_of(i, a.low) == BarKind::Absent ==> m == rest
        }),
        bars_from(7, answers).regions.len() == 0,
        bars_from(7, answers).end is Ok,
        bars_from(8, answers).regions.len() == 0,
        bars_from(8, answers).end is Ok,
{
    let a = answers[i as int];
    register_bit_facts(a.low, 0, 0);
    let next = if is_64bit(a.low) {
        (i + 2) as u32
    } else {
        (i + 1) as u32
    };
    let m = bars_from(i, answers);
    assert(kind_of(i, a.low) == BarKind::Memory && a.addr is Ok ==> m.regions.skip(1) =~= bars_from(
        next,
        answers,
    ).regions);
}

} // verus!
