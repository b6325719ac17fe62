//! The PCI transport of virtio devices.
use crate::bytes;
use crate::pci_address::PciAddress;
use crate::pcie_port::PciDeviceError;
use crate::text;
use crate::vfio_pci;
use vstd::prelude::*;

verus! {

pub const ERANGE: i32 = 34;

pub const COMMON_CONFIG_BAR_OFFSET: u64 = 0x0000;

pub const COMMON_CONFIG_SIZE: u64 = 56;

pub const ISR_CONFIG_BAR_OFFSET: u64 = 0x1000;

pub const ISR_CONFIG_SIZE: u64 = 1;

pub const DEVICE_CONFIG_BAR_OFFSET: u64 = 0x2000;

pub const DEVICE_CONFIG_SIZE: u64 = 0x1000;

pub const NOTIFICATION_BAR_OFFSET: u64 = 0x3000;

pub const NOTIFICATION_SIZE: u64 = 0x1000;

pub const MSIX_TABLE_BAR_OFFSET: u64 = 0x6000;

pub const MSIX_TABLE_SIZE: u64 = 0x1000;

pub const MSIX_PBA_BAR_OFFSET: u64 = 0x7000;

pub const MSIX_PBA_SIZE: u64 = 0x1000;

pub const CAPABILITY_BAR_SIZE: u64 = 0x8000;

/// A double word for each notification address.
pub const NOTIFY_OFF_MULTIPLIER: u32 = 4;

pub const VIRTIO_PCI_VENDOR_ID: u16 = 0x1af4;

/// The device type is added to this.
pub const VIRTIO_PCI_DEVICE_ID_BASE: u16 = 0x1040;

pub const VIRTIO_PCI_REVISION_ID: u8 = 1;

pub const TYPE_GPU: u32 = 16;

pub const DEVICE_RESET: u8 = 0;

pub const DEVICE_ACKNOWLEDGE: u8 = 0x01;

pub const DEVICE_DRIVER: u8 = 0x02;

pub const DEVICE_DRIVER_OK: u8 = 0x04;

pub const DEVICE_FEATURES_OK: u8 = 0x08;

pub const DEVICE_FAILED: u8 = 0x80;

/// Status of a driver that is ready.
pub const DEVICE_READY: u8 = 0x0f;

/// What a virtio capability points to.
#[derive(Clone, Copy, Debug, PartialEq, Eq, Structural)]
pub enum PciCapabilityType {
    CommonConfig,
    NotifyConfig,
    IsrConfig,
    DeviceConfig,
    PciConfig,
    SharedMemoryConfig,
}

impl PciCapabilityType {
    pub open spec fn code(self) -> u8 {
        match self {
            PciCapabilityType::CommonConfig => 1,
            PciCapabilityType::NotifyConfig => 2,
            PciCapabilityType::IsrConfig => 3,
            PciCapabilityType::DeviceConfig => 4,
            PciCapabilityType::PciConfig => 5,
            PciCapabilityType::SharedMemoryConfig => 8,
        }
    }

    /// The code of the type in a capability.
    pub fn value(&self) -> (r: u8)
        ensures
            r == self.code(),
    {
        match self {
            PciCapabilityType::CommonConfig => 1,
            PciCapabilityType::NotifyConfig => 2,
            PciCapabilityType::IsrConfig => 3,
            PciCapabilityType::DeviceConfig => 4,
            PciCapabilityType::PciConfig => 5,
            PciCapabilityType::SharedMemoryConfig => 8,
        }
    }
}

/// Subclasses of virtio devices.
#[derive(Clone, Copy, Debug, PartialEq, Eq, Structural)]
pub enum PciVirtioSubclass {
    NonTransitionalBase,
}

impl PciVirtioSubclass {
    pub fn get_register_value(&self) -> (r: u8)
        ensures
            r == 0xff,
    {
        0xff
    }
}

/// A capability that points into a region. Its first two bytes are filled in
/// when it is added to the configuration space.
#[derive(Clone, Copy, Debug, PartialEq, Eq, Structural)]
pub struct VirtioPciCap {
    pub cap_len: u8,
    pub cfg_type: u8,
    pub bar: u8,
    pub id: u8,
    pub offset: u32,
    pub length: u32,
}

impl VirtioPciCap {
    /// The bytes of a capability: two for the list, length, type, region,
    /// number, padding, and then offset and length in little-endian order.
    pub open spec fn encoded(self) -> Seq<u8> {
        seq![0u8, 0u8, self.cap_len, self.cfg_type, self.bar, self.id, 0u8, 0u8]
            + bytes::le_bytes(self.offset as nat, 4) + bytes::le_bytes(self.length as nat, 4)
    }

    pub fn new(cfg_type: PciCapabilityType, bar: u8, offset: u32, length: u32) -> (r: Self)
        ensures
            r == (VirtioPciCap {
                cap_len: 16,
                cfg_type: cfg_type.code(),
                bar,
                id: 0,
                offset,
                length,
            }),
    {
        VirtioPciCap { cap_len: 16, cfg_type: cfg_type.value(), bar, id: 0, offset, length }
    }

    pub fn bytes(&self) -> (r: Vec<u8>)
        ensures
            r@ == self.encoded(),
            r@.len() == 16,
    {
        let mut v: Vec<u8> = Vec::new();
        v.push(0);
        v.push(0);
        v.push(self.cap_len);
        v.push(self.cfg_type);
        v.push(self.bar);
        v.push(self.id);
        v.push(0);
        v.push(0);
        let ghost head = v@;
        assert(head =~= seq![0u8, 0u8, self.cap_len, self.cfg_type, self.bar, self.id, 0u8, 0u8]);
        put_u32(&mut v, self.offset);
        put_u32(&mut v, self.length);
        v
    }
}

fn put_u32(v: &mut Vec<u8>, x: u32)
    ensures
        final(v)@ == old(v)@ + bytes::le_bytes(x as nat, 4),
        final(v)@.len() == old(v)@.len() + 4,
{
    let part: Vec<u8> = bytes::le_encode(x as u64, 4);
    bytes::append_bytes(v, part.as_slice());
}

/// The capability of the notification region.
#[derive(Clone, Copy, Debug, PartialEq, Eq, Structural)]
pub struct VirtioPciNotifyCap {
    pub cap: VirtioPciCap,
    pub notify_off_multiplier: u32,
}

impl VirtioPciNotifyCap {
    pub open spec fn encoded(self) -> Seq<u8> {
        self.cap.encoded() + bytes::le_bytes(self.notify_off_multiplier as nat, 4)
    }

    pub fn new(cfg_type: PciCapabilityType, bar: u8, offset: u32, length: u32, multiplier: u32) -> (r:
        Self)
        ensures
            r == (VirtioPciNotifyCap {
                cap: VirtioPciCap {
                    cap_len: 20,
                    cfg_type: cfg_type.code(),
                    bar,
                    id: 0,
                    offset,
                    length,
                },
                notify_off_multiplier: multiplier,
            }),
    {
        VirtioPciNotifyCap {
            cap: VirtioPciCap {
                cap_len: 20,
                cfg_type: cfg_type.value(),
                bar,
                id: 0,
                offset,
                length,
            },
            notify_off_multiplier: multiplier,
        }
    }

    pub fn bytes(&self) -> (r: Vec<u8>)
        ensures
            r@ == self.encoded(),
            r@.len() == 20,
    {
        let mut v: Vec<u8> = self.cap.bytes();
        put_u32(&mut v, self.notify_off_multiplier);
        v
    }
}

/// The capability of a shared memory region, with 64-bit offset and length.
#[derive(Clone, Copy, Debug, PartialEq, Eq, Structural)]
pub struct VirtioPciShmCap {
    pub cap: VirtioPciCap,
    pub offset_hi: u32,
    pub length_hi: u32,
}

impl VirtioPciShmCap {
    pub open spec fn encoded(self) -> Seq<u8> {
        self.cap.encoded() + bytes::le_bytes(self.offset_hi as nat, 4) + bytes::le_bytes(
            self.length_hi as nat,
            4,
        )
    }

    pub fn new(cfg_type: PciCapabilityType, bar: u8, offset: u64, length: u64, shmid: u8) -> (r: Self)
        ensures
            r == (VirtioPciShmCap {
                cap: VirtioPciCap {
                    cap_len: 24,
                    cfg_type: cfg_type.code(),
                    bar,
                    id: shmid,
                    offset: (offset % 0x1_0000_0000) as u32,
                    length: (length % 0x1_0000_0000) as u32,
                },
                offset_hi: (offset / 0x1_0000_0000) as u32,
                length_hi: (length / 0x1_0000_0000) as u32,
            }),
    {
        VirtioPciShmCap {
            cap: VirtioPciCap {
                cap_len: 24,
                cfg_type: cfg_type.value(),
                bar,
                id: shmid,
                offset: (offset % 0x1_0000_0000) as u32,
                length: (length % 0x1_0000_0000) as u32,
            },
            offset_hi: (offset / 0x1_0000_0000) as u32,
            length_hi: (length / 0x1_0000_0000) as u32,
        }
    }

    pub fn bytes(&self) -> (r: Vec<u8>)
        ensures
            r@ == self.encoded(),
            r@.len() == 24,
    {
        let mut v: Vec<u8> = self.cap.bytes();
        put_u32(&mut v, self.offset_hi);
        put_u32(&mut v, self.length_hi);
        v
    }
}

/// The capabilities that point to the parts of the region in BAR
/// `settings_bar`, in the order of the list.
pub open spec fn settings_caps(settings_bar: u8) -> Seq<Seq<u8>> {
    let plain = |t: PciCapabilityType, bar: u8, offset: u64, length: u64|
        VirtioPciCap {
            cap_len: 16,
            cfg_type: t.code(),
            bar,
            id: 0,
            offset: offset as u32,
            length: length as u32,
        };
    seq![
        plain(
            PciCapabilityType::CommonConfig,
            settings_bar,
            COMMON_CONFIG_BAR_OFFSET,
            COMMON_CONFIG_SIZE,
        ).encoded(),
        plain(
            PciCapabilityType::IsrConfig,
            settings_bar,
            ISR_CONFIG_BAR_OFFSET,
            ISR_CONFIG_SIZE,
        ).encoded(),
        plain(
            PciCapabilityType::DeviceConfig,
            settings_bar,
            DEVICE_CONFIG_BAR_OFFSET,
            DEVICE_CONFIG_SIZE,
        ).encoded(),
        VirtioPciNotifyCap {
            cap: VirtioPciCap {
                cap_len: 20,
                cfg_type: PciCapabilityType::NotifyConfig.code(),
                bar: settings_bar,
                id: 0,
                offset: NOTIFICATION_BAR_OFFSET as u32,
                length: NOTIFICATION_SIZE as u32,
            },
            notify_off_multiplier: NOTIFY_OFF_MULTIPLIER,
        }.encoded(),
        plain(PciCapabilityType::PciConfig, 0, 0, 0).encoded(),
    ]
}

/// One part of a write to a configuration register. Each gets what was written.
#[derive(Clone, Copy, Debug, PartialEq, Eq, Structural)]
pub enum ConfigWrite {
    /// Write to the MSI-X capability.
    MsixCapability,
    /// Tell the device how the MSI-X capability took the write.
    ControlNotify,
    /// Write to the register.
    Register,
}

/// What the MSI-X capability says: how many vectors there are, and where the table
/// and the pending bits lie.
#[derive(Clone, Copy, Debug, PartialEq, Eq, Structural)]
pub struct MsixCapability {
    pub table_bar: u8,
    pub num_vectors: u16,
    pub table_offset: u32,
    pub pba_bar: u8,
    pub pba_offset: u32,
}

/// Class of a device on the bus.
#[derive(Clone, Copy, Debug, PartialEq, Eq, Structural)]
pub enum PciClass {
    /// A display controller of no particular kind.
    Display,
    /// Any other virtio device.
    Virtio(PciVirtioSubclass),
}

/// What a device is on the bus.
#[derive(Clone, Copy, Debug, PartialEq, Eq, Structural)]
pub struct PciIdentity {
    pub vendor_id: u16,
    pub device_id: u16,
    pub class: PciClass,
    pub subsystem_vendor_id: u16,
    pub subsystem_id: u16,
    pub revision_id: u8,
}

/// The identity of a virtio device of a type, of which the low 16 bits count.
pub open spec fn identity_of(device_type: u32) -> PciIdentity {
    let device_id = (VIRTIO_PCI_DEVICE_ID_BASE + device_type % 0x1_0000) as u16;
    PciIdentity {
        vendor_id: VIRTIO_PCI_VENDOR_ID,
        device_id,
        class: if device_type == TYPE_GPU {
            PciClass::Display
        } else {
            PciClass::Virtio(PciVirtioSubclass::NonTransitionalBase)
        },
        subsystem_vendor_id: VIRTIO_PCI_VENDOR_ID,
        subsystem_id: device_id,
        revision_id: VIRTIO_PCI_REVISION_ID,
    }
}

/// A part of the region and the offset in it.
#[derive(Clone, Copy, Debug, PartialEq, Eq, Structural)]
pub enum BarRegion {
    CommonConfig(u64),
    Isr,
    DeviceConfig(u64),
    /// Notifications are taken by events.
    Notification,
    MsixTable(u64),
    MsixPba(u64),
    Nothing,
}

/// The part of the region at an offset.
pub open spec fn region_at(offset: u64) -> BarRegion {
    if offset < COMMON_CONFIG_SIZE {
        BarRegion::CommonConfig(offset)
    } else if offset == ISR_CONFIG_BAR_OFFSET {
        BarRegion::Isr
    } else if DEVICE_CONFIG_BAR_OFFSET <= offset < DEVICE_CONFIG_BAR_OFFSET + DEVICE_CONFIG_SIZE {
        BarRegion::DeviceConfig((offset - DEVICE_CONFIG_BAR_OFFSET) as u64)
    } else if NOTIFICATION_BAR_OFFSET <= offset < NOTIFICATION_BAR_OFFSET + NOTIFICATION_SIZE {
        BarRegion::Notification
    } else if MSIX_TABLE_BAR_OFFSET <= offset < MSIX_TABLE_BAR_OFFSET + MSIX_TABLE_SIZE {
        BarRegion::MsixTable((offset - MSIX_TABLE_BAR_OFFSET) as u64)
    } else if MSIX_PBA_BAR_OFFSET <= offset < MSIX_PBA_BAR_OFFSET + MSIX_PBA_SIZE {
        BarRegion::MsixPba((offset - MSIX_PBA_BAR_OFFSET) as u64)
    } else {
        BarRegion::Nothing
    }
}

/// The part of the region at `bar0` that an access to `addr` goes to.
pub fn bar_region(addr: u64, bar0: u64) -> (r: BarRegion)
    requires
        bar0 <= addr,
    ensures
        r == region_at((addr - bar0) as u64),
{
    let o: u64 = addr - bar0;
    if o < COMMON_CONFIG_BAR_OFFSET + COMMON_CONFIG_SIZE {
        BarRegion::CommonConfig(o)
    } else if ISR_CONFIG_BAR_OFFSET <= o && o < ISR_CONFIG_BAR_OFFSET + ISR_CONFIG_SIZE {
        BarRegion::Isr
    } else if DEVICE_CONFIG_BAR_OFFSET <= o && o < DEVICE_CONFIG_BAR_OFFSET + DEVICE_CONFIG_SIZE {
        BarRegion::DeviceConfig(o - DEVICE_CONFIG_BAR_OFFSET)
    } else if NOTIFICATION_BAR_OFFSET <= o && o < NOTIFICATION_BAR_OFFSET + NOTIFICATION_SIZE {
        BarRegion::Notification
    } else if MSIX_TABLE_BAR_OFFSET <= o && o < MSIX_TABLE_BAR_OFFSET + MSIX_TABLE_SIZE {
        BarRegion::MsixTable(o - MSIX_TABLE_BAR_OFFSET)
    } else if MSIX_PBA_BAR_OFFSET <= o && o < MSIX_PBA_BAR_OFFSET + MSIX_PBA_SIZE {
        BarRegion::MsixPba(o - MSIX_PBA_BAR_OFFSET)
    } else {
        BarRegion::Nothing
    }
}

/// What the transport knows of a queue: whether the driver has marked it as
/// ready, and whether its rings lie within guest memory.
#[derive(Clone, Copy, Debug, PartialEq, Eq, Structural)]
pub struct QueueState {
    pub ready: bool,
    pub valid: bool,
}

/// What an access to the region needs besides the transport itself. Offsets are
/// within the part of the region that is accessed.
#[derive(Clone, Copy, Debug, PartialEq, Eq, Structural)]
pub enum BarAccess {
    /// Access the common configuration, which may change the queues.
    CommonConfig(u64),
    /// Access the configuration of the device.
    DeviceConfig(u64),
    /// Access the MSI-X table. After a write the device is told what changed.
    MsixTable(u64),
    /// Access the MSI-X pending bits.
    MsixPba(u64),
    /// The access is complete.
    Complete,
}

/// What an access to a part of the region needs besides the transport itself.
pub open spec fn access_of(region: BarRegion) -> BarAccess {
    match region {
        BarRegion::CommonConfig(o) => BarAccess::CommonConfig(o),
        BarRegion::DeviceConfig(o) => BarAccess::DeviceConfig(o),
        BarRegion::MsixTable(o) => BarAccess::MsixTable(o),
        BarRegion::MsixPba(o) => BarAccess::MsixPba(o),
        BarRegion::Isr | BarRegion::Notification | BarRegion::Nothing => BarAccess::Complete,
    }
}

fn access_needed(region: BarRegion) -> (r: BarAccess)
    ensures
        r == access_of(region),
{
    match region {
        BarRegion::CommonConfig(o) => BarAccess::CommonConfig(o),
        BarRegion::DeviceConfig(o) => BarAccess::DeviceConfig(o),
        BarRegion::MsixTable(o) => BarAccess::MsixTable(o),
        BarRegion::MsixPba(o) => BarAccess::MsixPba(o),
        BarRegion::Isr | BarRegion::Notification | BarRegion::Nothing => BarAccess::Complete,
    }
}

/// Errors of giving a device its regions.
#[derive(Clone, Copy, Debug, PartialEq, Eq, Structural)]
pub enum BarError {
    /// There are no addresses for a region of this size.
    IoAllocationFailed(u64),
    /// The region at this address could not be registered.
    IoRegistrationFailed(u64),
    /// The capabilities could not be added.
    CapabilitiesSetup,
}

/// A region that a device wants, and what became of it: its address, if there
/// were addresses, and whether it could be registered there.
#[derive(Clone, Copy, Debug, PartialEq, Eq, Structural)]
pub struct DeviceBar {
    pub size: u64,
    pub addr: Option<u64>,
    pub registered: bool,
}

impl DeviceBar {
    /// The range of the region, or why it has none.
    pub open spec fn range(self) -> Result<(u64, u64), BarError> {
        match self.addr {
            None => Err(BarError::IoAllocationFailed(self.size)),
            Some(addr) => if self.registered {
                Ok((addr, self.size))
            } else {
                Err(BarError::IoRegistrationFailed(addr))
            },
        }
    }

    fn take(&self) -> (r: Result<(u64, u64), BarError>)
        ensures
            r == self.range(),
    {
        match self.addr {
            None => Err(BarError::IoAllocationFailed(self.size)),
            Some(addr) => {
                if self.registered {
                    Ok((addr, self.size))
                } else {
                    Err(BarError::IoRegistrationFailed(addr))
                }
            },
        }
    }
}

/// The ranges of the regions in their order, up to the first that has none.
pub open spec fn bar_ranges(bars: Seq<DeviceBar>) -> Seq<(u64, u64)>
    decreases bars.len(),
{
    if bars.len() == 0 {
        Seq::empty()
    } else {
        bar_ranges(bars.drop_last()).push(bars.last().range()->Ok_0)
    }
}

/// Gives a device the regions that it wants of its own. The first that fails
/// decides the error, and those behind it are not asked for.
pub fn allocate_device_bars(bars: &[DeviceBar]) -> (r: Result<Vec<(u64, u64)>, BarError>)
    ensures
        r is Ok <==> forall|i: int| 0 <= i < bars@.len() ==> (#[trigger] bars@[i]).range() is Ok,
        r matches Ok(v) ==> v@ == bar_ranges(bars@),
        r matches Err(e) ==> exists|i: int|
            0 <= i < bars@.len() && (#[trigger] bars@[i]).range() == Err::<(u64, u64), BarError>(e)
                && forall|j: int| 0 <= j < i ==> (#[trigger] bars@[j]).range() is Ok,
{
    let mut ranges: Vec<(u64, u64)> = Vec::new();
    let mut i: usize = 0;
    while i < bars.len()
        invariant
            i <= bars@.len(),
            forall|j: int| 0 <= j < i ==> (#[trigger] bars@[j]).range() is Ok,
            ranges@ == bar_ranges(bars@.take(i as int)),
        decreases bars.len() - i,
    {
        match bars[i].take() {
            Ok(range) => {
                proof {
                    assert(bars@.take(i + 1).drop_last() =~= bars@.take(i as int));
                    assert(bars@.take(i + 1).last() == bars@[i as int]);
                }
                ranges.push(range);
            },
            Err(e) => {
                assert(bars@[i as int].range() == Err::<(u64, u64), BarError>(e));
                return Err(e);
            },
        }
        i = i + 1;
    }
    assert(bars@.take(i as int) =~= bars@);
    Ok(ranges)
}

/// What the transport does at the end of a write.
#[derive(Debug)]
pub struct WriteEnd {
    /// The queues that the device was activated with, if it was.
    pub activated: Option<Vec<usize>>,
    /// Whether the device was asked to reset.
    pub reset: bool,
}

/// Whether the events that an activation hands to the device could be cloned.
#[derive(Clone, Copy, Debug, PartialEq, Eq, Structural)]
pub struct EventClones {
    pub interrupt: bool,
    pub resample: bool,
    pub queues: bool,
}

/// The transport of one device.
#[derive(Debug)]
pub struct VirtioPciDevice {
    pub identity: PciIdentity,
    pub msix_num: u16,
    pub pci_address: Option<PciAddress>,
    pub device_activated: bool,
    pub interrupt_status: usize,
    pub has_interrupt_evt: bool,
    pub has_interrupt_resample_evt: bool,
    pub queues: Vec<QueueState>,
    pub has_mem: bool,
    pub settings_bar: u8,
    pub msix_cap_reg_idx: Option<usize>,
    pub driver_status: u8,
    pub queue_select: u16,
}

/// The indices of the queues that are ready, in their order.
pub open spec fn ready_queues(queues: Seq<QueueState>) -> Seq<usize>
    decreases queues.len(),
{
    if queues.len() == 0 {
        Seq::empty()
    } else {
        let rest = ready_queues(queues.drop_last());
        if queues.last().ready {
            rest.push((queues.len() - 1) as usize)
        } else {
            rest
        }
    }
}

impl VirtioPciDevice {
    /// The transport of a device of a type with `num_queues` queues. Each queue
    /// has an MSI-X vector, and there is one more for configuration changes.
    pub fn new(device_type: u32, num_queues: usize) -> (r: Result<Self, i32>)
        requires
            device_type % 0x1_0000 <= 0xffff - VIRTIO_PCI_DEVICE_ID_BASE,
            num_queues < usize::MAX,
        ensures
            r is Ok <==> num_queues + 1 <= u16::MAX,
            r is Err ==> r->Err_0 == ERANGE,
            r matches Ok(d) ==> {
                &&& d.identity == identity_of(device_type)
                &&& d.msix_num == num_queues + 1
                &&& d.pci_address is None
                &&& !d.device_activated
                &&& d.interrupt_status == 0
                &&& !d.has_interrupt_evt
                &&& !d.has_interrupt_resample_evt
                &&& d.queues@.len() == num_queues
                &&& forall|i: int|
                    0 <= i < num_queues ==> (#[trigger] d.queues@[i]) == (QueueState {
                        ready: false,
                        valid: false,
                    })
                &&& d.has_mem
                &&& d.settings_bar == 0
                &&& d.msix_cap_reg_idx is None
                &&& d.driver_status == 0
                &&& d.queue_select == 0
            },
    {
        let pci_device_id: u16 = VIRTIO_PCI_DEVICE_ID_BASE + (device_type % 0x1_0000) as u16;
        let class = if device_type == TYPE_GPU {
            PciClass::Display
        } else {
            PciClass::Virtio(PciVirtioSubclass::NonTransitionalBase)
        };
        let vectors: usize = num_queues + 1;
        if vectors > 0xffff {
            return Err(ERANGE);
        }
        let mut queues: Vec<QueueState> = Vec::new();
        while queues.len() < num_queues
            invariant
                queues@.len() <= num_queues,
                forall|i: int|
                    0 <= i < queues@.len() ==> (#[trigger] queues@[i]) == (QueueState {
                        ready: false,
                        valid: false,
                    }),
            decreases num_queues - queues@.len(),
        {
            queues.push(QueueState { ready: false, valid: false });
        }
        Ok(
            VirtioPciDevice {
                identity: PciIdentity {
                    vendor_id: VIRTIO_PCI_VENDOR_ID,
                    device_id: pci_device_id,
                    class,
                    subsystem_vendor_id: VIRTIO_PCI_VENDOR_ID,
                    subsystem_id: pci_device_id,
                    revision_id: VIRTIO_PCI_REVISION_ID,
                },
                msix_num: vectors as u16,
                pci_address: None,
                device_activated: false,
                interrupt_status: 0,
                has_interrupt_evt: false,
                has_interrupt_resample_evt: false,
                queues,
                has_mem: true,
                settings_bar: 0,
                msix_cap_reg_idx: None,
                driver_status: 0,
                queue_select: 0,
            },
        )
    }

    pub open spec fn driver_ready(self) -> bool {
        self.driver_status == DEVICE_READY
    }

    /// Whether the driver has set all status bits of a ready driver, and no
    /// other.
    pub fn is_driver_ready(&self) -> (r: bool)
        ensures
            r == self.driver_ready(),
    {
        let status: u8 = self.driver_status;
        assert(0x01u8 | 0x02u8 | 0x04u8 | 0x08u8 == 0x0fu8 && 0x0fu8 & 0x80u8 == 0) by (bit_vector);
        status == (DEVICE_ACKNOWLEDGE | DEVICE_DRIVER | DEVICE_DRIVER_OK | DEVICE_FEATURES_OK)
            && status & DEVICE_FAILED == 0
    }

    /// Whether the driver has asked for a reset.
    pub fn is_reset_requested(&self) -> (r: bool)
        ensures
            r == (self.driver_status == DEVICE_RESET),
    {
        self.driver_status == DEVICE_RESET
    }

    pub open spec fn queues_valid(self) -> bool {
        self.has_mem && forall|i: int|
            0 <= i < self.queues@.len() && (#[trigger] self.queues@[i]).ready
                ==> self.queues@[i].valid
    }

    /// Whether all queues that are ready are valid.
    pub fn are_queues_valid(&self) -> (r: bool)
        ensures
            r == self.queues_valid(),
    {
        if !self.has_mem {
            return false;
        }
        let mut i: usize = 0;
        while i < self.queues.len()
            invariant
                i <= self.queues@.len(),
                forall|j: int|
                    0 <= j < i && (#[trigger] self.queues@[j]).ready ==> self.queues@[j].valid,
            decreases self.queues.len() - i,
        {
            if self.queues[i].ready && !self.queues[i].valid {
                return false;
            }
            i = i + 1;
        }
        true
    }

    /// The address of the device: the one that it has, else the one that was
    /// allocated, if any.
    pub fn allocate_address(&mut self, allocated: Option<PciAddress>) -> (r: Result<
        PciAddress,
        PciDeviceError,
    >)
        ensures
            *final(self) == (VirtioPciDevice {
                pci_address: if old(self).pci_address is Some {
                    old(self).pci_address
                } else {
                    allocated
                },
                ..*old(self)
            }),
            r == (match final(self).pci_address {
                Some(address) => Ok(address),
                None => Err(PciDeviceError::PciAllocationFailed),
            }),
    {
        if self.pci_address.is_none() {
            self.pci_address = allocated;
        }
        match self.pci_address {
            Some(address) => Ok(address),
            None => Err(PciDeviceError::PciAllocationFailed),
        }
    }

    /// Connects the interrupt of the device.
    pub fn assign_irq(&mut self)
        ensures
            *final(self) == (VirtioPciDevice {
                has_interrupt_evt: true,
                has_interrupt_resample_evt: true,
                ..*old(self)
            }),
    {
        self.has_interrupt_evt = true;
        self.has_interrupt_resample_evt = true;
    }

    /// The capabilities that are added for the region in BAR `settings_bar`, and the
    /// MSI-X capability, which comes behind them.
    pub fn add_settings_pci_capabilities(&self, settings_bar: u8) -> (r: (
        Vec<Vec<u8>>,
        MsixCapability,
    ))
        ensures
            r.0@.len() == 5,
            forall|i: int| 0 <= i < 5 ==> (#[trigger] r.0@[i])@ == settings_caps(settings_bar)[i],
            r.1 == (MsixCapability {
                table_bar: settings_bar,
                num_vectors: self.msix_num,
                table_offset: MSIX_TABLE_BAR_OFFSET as u32,
                pba_bar: settings_bar,
                pba_offset: MSIX_PBA_BAR_OFFSET as u32,
            }),
    {
        let mut v: Vec<Vec<u8>> = Vec::new();
        let common = VirtioPciCap::new(
            PciCapabilityType::CommonConfig,
            settings_bar,
            COMMON_CONFIG_BAR_OFFSET as u32,
            COMMON_CONFIG_SIZE as u32,
        );
        v.push(common.bytes());
        let isr = VirtioPciCap::new(
            PciCapabilityType::IsrConfig,
            settings_bar,
            ISR_CONFIG_BAR_OFFSET as u32,
            ISR_CONFIG_SIZE as u32,
        );
        v.push(isr.bytes());
        let device = VirtioPciCap::new(
            PciCapabilityType::DeviceConfig,
            settings_bar,
            DEVICE_CONFIG_BAR_OFFSET as u32,
            DEVICE_CONFIG_SIZE as u32,
        );
        v.push(device.bytes());
        let notify = VirtioPciNotifyCap::new(
            PciCapabilityType::NotifyConfig,
            settings_bar,
            NOTIFICATION_BAR_OFFSET as u32,
            NOTIFICATION_SIZE as u32,
            NOTIFY_OFF_MULTIPLIER,
        );
        v.push(notify.bytes());
        let configuration = VirtioPciCap::new(PciCapabilityType::PciConfig, 0, 0, 0);
        v.push(configuration.bytes());
        let msix = MsixCapability {
            table_bar: settings_bar,
            num_vectors: self.msix_num,
            table_offset: MSIX_TABLE_BAR_OFFSET as u32,
            pba_bar: settings_bar,
            pba_offset: MSIX_PBA_BAR_OFFSET as u32,
        };
        (v, msix)
    }

    /// The capabilities were added: those of the region in BAR `settings_bar`,
    /// and MSI-X at `msix_offset`.
    pub fn set_capabilities(&mut self, settings_bar: u8, msix_offset: usize)
        ensures
            *final(self) == (VirtioPciDevice {
                settings_bar,
                msix_cap_reg_idx: Some((msix_offset / 4) as usize),
                ..*old(self)
            }),
    {
        self.msix_cap_reg_idx = Some(msix_offset / 4);
        self.settings_bar = settings_bar;
    }

    /// Whether a configuration register is that of the MSI-X capability.
    pub fn is_msix_register(&self, reg_idx: usize) -> (r: bool)
        ensures
            r == (self.msix_cap_reg_idx == Some(reg_idx)),
    {
        match self.msix_cap_reg_idx {
            Some(idx) => idx == reg_idx,
            None => false,
        }
    }

    /// The notification address of each queue.
    pub fn ioevents(&self, bar0: u64) -> (r: Vec<u64>)
        requires
            bar0 + NOTIFICATION_BAR_OFFSET + self.queues@.len() * 4 <= u64::MAX,
        ensures
            r@ == Seq::new(
                self.queues@.len(),
                |i: int| (bar0 + NOTIFICATION_BAR_OFFSET + i * NOTIFY_OFF_MULTIPLIER) as u64,
            ),
    {
        let ghost goal = Seq::new(
            self.queues@.len(),
            |i: int| (bar0 + NOTIFICATION_BAR_OFFSET + i * NOTIFY_OFF_MULTIPLIER) as u64,
        );
        let mut out: Vec<u64> = Vec::new();
        let mut i: usize = 0;
        while i < self.queues.len()
            invariant
                i <= self.queues@.len(),
                bar0 + NOTIFICATION_BAR_OFFSET + self.queues@.len() * 4 <= u64::MAX,
                goal == Seq::new(
                    self.queues@.len(),
                    |i: int| (bar0 + NOTIFICATION_BAR_OFFSET + i * NOTIFY_OFF_MULTIPLIER) as u64,
                ),
                out@ == goal.take(i as int),
            decreases self.queues.len() - i,
        {
            let notify_base: u64 = bar0 + NOTIFICATION_BAR_OFFSET;
            out.push(notify_base + i as u64 * NOTIFY_OFF_MULTIPLIER as u64);
            i = i + 1;
            assert(out@ =~= goal.take(i as int));
        }
        assert(out@ =~= goal);
        out
    }

    /// Reads the interrupt status, which clears it. Nothing happens where there
    /// is no room for it.
    pub fn read_isr(&mut self, data: &mut [u8])
        ensures
            old(data)@.len() == 0 ==> final(data)@ == old(data)@ && *final(self) == *old(self),
            old(data)@.len() > 0 ==> {
                &&& final(data)@ == old(data)@.update(0, old(self).interrupt_status as u8)
                &&& *final(self) == (VirtioPciDevice { interrupt_status: 0, ..*old(self) })
            },
    {
        if data.len() > 0 {
            data[0] = self.interrupt_status as u8;
            self.interrupt_status = 0;
        }
    }

    /// Clears bits of the interrupt status.
    pub fn write_isr(&mut self, data: &[u8])
        ensures
            *final(self) == (VirtioPciDevice {
                interrupt_status: if data@.len() > 0 {
                    old(self).interrupt_status & !(data@[0] as usize)
                } else {
                    old(self).interrupt_status
                },
                ..*old(self)
            }),
    {
        if data.len() > 0 {
            self.interrupt_status = self.interrupt_status & !(data[0] as usize);
        }
    }

    /// The label of the device on the bus.
    pub fn debug_label(&self, device_label: &str) -> (r: String)
        ensures
            r@ == "pci"@ + device_label@,
    {
        text::joined("pci", device_label)
    }

    /// Gives the device its region, if there was an address for it and it could
    /// be registered as BAR `settings_bar`. The capabilities are added then,
    /// and MSI-X comes at `msix_offset`, if they could be added.
    pub fn allocate_io_bars(
        &mut self,
        addr: Option<u64>,
        settings_bar: Option<u8>,
        msix_offset: Option<usize>,
    ) -> (r: Result<(u64, u64), BarError>)
        requires
            old(self).pci_address is Some,
        ensures
            r == (match (addr, settings_bar, msix_offset) {
                (None, _, _) => Err(BarError::IoAllocationFailed(CAPABILITY_BAR_SIZE)),
                (Some(a), None, _) => Err(BarError::IoRegistrationFailed(a)),
                (Some(a), Some(_), None) => Err(BarError::CapabilitiesSetup),
                (Some(a), Some(_), Some(_)) => Ok::<(u64, u64), BarError>((a, CAPABILITY_BAR_SIZE)),
            }),
            r is Err ==> *final(self) == *old(self),
            r is Ok ==> *final(self) == (VirtioPciDevice {
                settings_bar: settings_bar->0,
                msix_cap_reg_idx: Some((msix_offset->0 / 4) as usize),
                ..*old(self)
            }),
    {
        let bar = DeviceBar { size: CAPABILITY_BAR_SIZE, addr, registered: settings_bar.is_some() };
        match (bar.take(), settings_bar, msix_offset) {
            (Ok(range), Some(b), Some(o)) => {
                self.set_capabilities(b, o);
                Ok(range)
            },
            (Ok(_), _, _) => Err(BarError::CapabilitiesSetup),
            (Err(e), _, _) => Err(e),
        }
    }

    /// The descriptors that the device needs.
    pub fn keep_rds(
        &self,
        device_rds: &[i32],
        interrupt_evt: Option<i32>,
        interrupt_resample_evt: Option<i32>,
        msi_socket: i32,
    ) -> (r: Vec<i32>)
        ensures
            r@ == device_rds@ + vfio_pci::optional(interrupt_evt) + vfio_pci::optional(interrupt_resample_evt)
                + seq![msi_socket],
    {
        let mut rds: Vec<i32> = Vec::new();
        rds.extend_from_slice(device_rds);
        assert(rds@ =~= device_rds@);
        match interrupt_evt {
            Some(fd) => {
                rds.push(fd);
            },
            None => {},
        }
        assert(rds@ =~= device_rds@ + vfio_pci::optional(interrupt_evt));
        match interrupt_resample_evt {
            Some(fd) => {
                rds.push(fd);
            },
            None => {},
        }
        assert(rds@ =~= device_rds@ + vfio_pci::optional(interrupt_evt) + vfio_pci::optional(interrupt_resample_evt));
        rds.push(msi_socket);
        assert(rds@ =~= device_rds@ + vfio_pci::optional(interrupt_evt) + vfio_pci::optional(interrupt_resample_evt)
            + seq![msi_socket]);
        rds
    }

    /// Writes a configuration register: what is done, in its order. A write to the
    /// MSI-X capability goes there first, and the device is told what became of it.
    pub fn write_config_register(&self, reg_idx: usize) -> (r: Vec<ConfigWrite>)
        ensures
            r@ == (if self.msix_cap_reg_idx == Some(reg_idx) {
                seq![ConfigWrite::MsixCapability, ConfigWrite::ControlNotify, ConfigWrite::Register]
            } else {
                seq![ConfigWrite::Register]
            }),
    {
        let mut r: Vec<ConfigWrite> = Vec::new();
        if self.is_msix_register(reg_idx) {
            r.push(ConfigWrite::MsixCapability);
            r.push(ConfigWrite::ControlNotify);
        }
        r.push(ConfigWrite::Register);
        r
    }

    /// Reads a configuration register. `config` is what it holds, and `msix`
    /// what the MSI-X state makes of that.
    pub fn read_config_register(&self, reg_idx: usize, config: u32, msix: u32) -> (r: u32)
        ensures
            r == (if self.msix_cap_reg_idx == Some(reg_idx) {
                msix
            } else {
                config
            }),
    {
        if self.is_msix_register(reg_idx) {
            msix
        } else {
            config
        }
    }

    /// Reads from the region at `bar0`. What the transport does not know itself
    /// is to be read as the result says.
    pub fn read_bar(&mut self, addr: u64, bar0: u64, data: &mut [u8]) -> (r: BarAccess)
        requires
            bar0 <= addr,
        ensures
            r == access_of(region_at((addr - bar0) as u64)),
            region_at((addr - bar0) as u64) == BarRegion::Isr && old(data)@.len() > 0 ==> {
                &&& final(data)@ == old(data)@.update(0, old(self).interrupt_status as u8)
                &&& *final(self) == (VirtioPciDevice { interrupt_status: 0, ..*old(self) })
            },
            region_at((addr - bar0) as u64) != BarRegion::Isr || old(data)@.len() == 0 ==> {
                &&& final(data)@ == old(data)@
                &&& *final(self) == *old(self)
            },
    {
        let region = bar_region(addr, bar0);
        match region {
            BarRegion::Isr => {
                self.read_isr(data);
            },
            _ => {},
        }
        access_needed(region)
    }

    /// Writes to the region at `bar0`. What the transport does not know itself
    /// is to be written as the result says, and then the write ends with
    /// [`VirtioPciDevice::end_write`].
    pub fn write_bar(&mut self, addr: u64, bar0: u64, data: &[u8]) -> (r: BarAccess)
        requires
            bar0 <= addr,
        ensures
            r == access_of(region_at((addr - bar0) as u64)),
            *final(self) == (VirtioPciDevice {
                interrupt_status: if region_at((addr - bar0) as u64) == BarRegion::Isr
                    && data@.len() > 0 {
                    old(self).interrupt_status & !(data@[0] as usize)
                } else {
                    old(self).interrupt_status
                },
                ..*old(self)
            }),
    {
        let region = bar_region(addr, bar0);
        match region {
            BarRegion::Isr => {
                self.write_isr(data);
            },
            _ => {},
        }
        access_needed(region)
    }

    /// The common configuration was written.
    pub fn common_config_written(
        &mut self,
        driver_status: u8,
        queue_select: u16,
        queues: Vec<QueueState>,
    )
        ensures
            *final(self) == (VirtioPciDevice { driver_status, queue_select, queues, ..*old(self) }),
    {
        self.driver_status = driver_status;
        self.queue_select = queue_select;
        self.queues = queues;
    }

    /// Ends a write: activates the device where it can be, and resets it where
    /// the driver asks for that. `device_reset` is whether the device resets
    /// when it is asked to.
    pub fn end_write(&mut self, clones: EventClones, device_reset: bool) -> (r: WriteEnd)
        ensures
            r.activated is Some <==> old(self).activates() && old(self).has_interrupt_evt
                && old(self).has_interrupt_resample_evt && clones.queues,
            r.activated is Some ==> r.activated->0@ == ready_queues(old(self).queues@),
            r.reset == (old(self).device_activated && old(self).driver_status == DEVICE_RESET),
            final(self).device_activated == ((old(self).device_activated && !(r.reset
                && device_reset)) || r.activated is Some),
            r.reset && device_reset ==> {
                &&& final(self).queue_select == 0
                &&& final(self).queues@.len() == old(self).queues@.len()
                &&& forall|i: int|
                    0 <= i < final(self).queues@.len() ==> (#[trigger] final(self).queues@[i]) == (
                    QueueState { ready: false, valid: false })
            },
            !(r.reset && device_reset) ==> final(self).queues == old(self).queues
                && final(self).queue_select == old(self).queue_select,
            final(self).has_interrupt_evt == (old(self).has_interrupt_evt && (!old(
                self,
            ).activates() || clones.interrupt)),
            final(self).has_interrupt_resample_evt == (old(self).has_interrupt_resample_evt && (!old(
                self,
            ).activates() || !old(self).has_interrupt_evt || clones.resample)),
            *final(self) == (VirtioPciDevice {
                device_activated: final(self).device_activated,
                queue_select: final(self).queue_select,
                queues: final(self).queues,
                has_interrupt_evt: final(self).has_interrupt_evt,
                has_interrupt_resample_evt: final(self).has_interrupt_resample_evt,
                ..*old(self)
            }),
    {
        let activated = self.try_activate(clones);
        let reset = self.wants_reset();
        self.finish_reset(reset && device_reset);
        WriteEnd { activated, reset }
    }

    /// The device can be activated.
    pub open spec fn activates(self) -> bool {
        !self.device_activated && self.driver_ready() && self.queues_valid()
    }

    /// Activates the device after a write, once the driver is ready and the
    /// queues are valid, and the interrupt is connected. Returns the queues
    /// that the device is activated with. An event that cannot be cloned is
    /// gone.
    pub fn try_activate(&mut self, clones: EventClones) -> (r: Option<Vec<usize>>)
        ensures
            r is Some <==> old(self).activates() && old(self).has_interrupt_evt && old(self).has_interrupt_resample_evt && clones.queues,
            r is Some ==> r->0@ == ready_queues(old(self).queues@),
            *final(self) == (VirtioPciDevice {
                device_activated: old(self).device_activated || r is Some,
                has_interrupt_evt: old(self).has_interrupt_evt && (!old(self).activates()
                    || clones.interrupt),
                has_interrupt_resample_evt: old(self).has_interrupt_resample_evt && (!old(self).activates() || !old(self).has_interrupt_evt || clones.resample),
                ..*old(self)
            }),
    {
        if !self.device_activated && self.is_driver_ready() && self.are_queues_valid() {
            if self.has_interrupt_evt {
                self.has_interrupt_evt = clones.interrupt;
                if self.has_interrupt_resample_evt {
                    self.has_interrupt_resample_evt = clones.resample;
                    if self.has_mem {
                        if clones.queues {
                            let queues: Vec<usize> = self.ready_queue_indices();
                            self.device_activated = true;
                            return Some(queues);
                        }
                    }
                }
            }
        }
        None
    }

    fn ready_queue_indices(&self) -> (r: Vec<usize>)
        ensures
            r@ == ready_queues(self.queues@),
    {
        let mut out: Vec<usize> = Vec::new();
        let mut i: usize = 0;
        while i < self.queues.len()
            invariant
                i <= self.queues@.len(),
                out@ == ready_queues(self.queues@.take(i as int)),
            decreases self.queues.len() - i,
        {
            proof {
                assert(self.queues@.take(i + 1).drop_last() =~= self.queues@.take(i as int));
                assert(self.queues@.take(i + 1).last() == self.queues@[i as int]);
            }
            if self.queues[i].ready {
                out.push(i);
            }
            i = i + 1;
        }
        assert(self.queues@.take(i as int) =~= self.queues@);
        out
    }

    /// Whether the device is to be reset after a write.
    pub fn wants_reset(&self) -> (r: bool)
        ensures
            r == (self.device_activated && self.driver_status == DEVICE_RESET),
    {
        self.device_activated && self.is_reset_requested()
    }

    /// The device was reset, if `done`: the queues start anew.
    pub fn finish_reset(&mut self, done: bool)
        ensures
            !done ==> *final(self) == *old(self),
            done ==> {
                &&& !final(self).device_activated
                &&& final(self).queue_select == 0
                &&& final(self).queues@.len() == old(self).queues@.len()
                &&& forall|i: int|
                    0 <= i < final(self).queues@.len() ==> (#[trigger] final(self).queues@[i]) == (
                    QueueState { ready: false, valid: false })
                &&& *final(self) == (VirtioPciDevice {
                    device_activated: false,
                    queue_select: 0,
                    queues: final(self).queues,
                    ..*old(self)
                })
            },
    {
        if done {
            self.device_activated = false;
            let mut i: usize = 0;
            while i < self.queues.len()
                invariant
                    i <= self.queues@.len(),
                    self.queues@.len() == old(self).queues@.len(),
                    forall|j: int|
                        0 <= j < i ==> (#[trigger] self.queues@[j]) == (QueueState {
                            ready: false,
                            valid: false,
                        }),
                    *self == (VirtioPciDevice {
                        device_activated: false,
                        queues: self.queues,
                        ..*old(self)
                    }),
                decreases self.queues.len() - i,
            {
                self.queues.set(i, QueueState { ready: false, valid: false });
                i = i + 1;
            }
            self.queue_select = 0;
        }
    }
}

/// A device that was reset has no queue that is ready, so that it can only be
/// activated again once the driver has set queues up again.
pub proof fn reset_leaves_no_ready_queue(queues: Seq<QueueState>)
    requires
        forall|i: int| 0 <= i < queues.len() ==> !(#[trigger] queues[i]).ready,
    ensures
        ready_queues(queues) == Seq::<usize>::empty(),
    decreases queues.len(),
{
    if queues.len() > 0 {
        assert(!queues[queues.len() - 1].ready);
        let rest = queues.drop_last();
        assert forall|i: int| 0 <= i < rest.len() implies !(#[trigger] rest[i]).ready by {
            assert(rest[i] == queues[i]);
        }
        reset_leaves_no_ready_queue(rest);
    }
}

/// A driver is not ready and asking for a reset at the same time, so no write
/// activates and resets the device.
pub proof fn activation_excludes_reset(d: VirtioPciDevice)
    ensures
        !(d.driver_ready() && d.driver_status == DEVICE_RESET),
{
}

/// Each part of the region is found at its own offset, and an access that the
/// transport does not know itself goes on to that part with the offset in it. What
/// lies between the parts is nobody's.
pub proof fn parts_lie_at_their_offsets(o: u64, between: u64)
    requires
        o < 0x1000,
        56 <= between < 0x1000 || 0x1000 < between < 0x2000 || 0x4000 <= between < 0x6000 || 0x8000
            <= between,
    ensures
        o < 56 ==> access_of(region_at(o)) == BarAccess::CommonConfig(o),
        region_at(0x1000) == BarRegion::Isr,
        access_of(region_at((0x2000 + o) as u64)) == BarAccess::DeviceConfig(o),
        region_at((0x3000 + o) as u64) == BarRegion::Notification,
        access_of(region_at((0x6000 + o) as u64)) == BarAccess::MsixTable(o),
        access_of(region_at((0x7000 + o) as u64)) == BarAccess::MsixPba(o),
        region_at(between) == BarRegion::Nothing,
        access_of(region_at(0x1000)) == BarAccess::Complete,
        access_of(region_at((0x3000 + o) as u64)) == BarAccess::Complete,
        access_of(region_at(between)) == BarAccess::Complete,
{
}

/// A capability holds its length, type, region and number in its third to sixth
/// byte, then at bytes 8 and 12 the offset and the length of what it points to,
/// lowest byte first. The notification and the shared memory capability go on
/// from byte 16 with what they have besides.
pub proof fn capability_fields_at_their_bytes(
    c: VirtioPciCap,
    n: VirtioPciNotifyCap,
    s: VirtioPciShmCap,
)
    ensures
        c.encoded().len() == 16,
        c.encoded()[2] == c.cap_len,
        c.encoded()[3] == c.cfg_type,
        c.encoded()[4] == c.bar,
        c.encoded()[5] == c.id,
        bytes::le_value(bytes::field(c.encoded(), 8, 4)) == c.offset,
        bytes::le_value(bytes::field(c.encoded(), 12, 4)) == c.length,
        n.encoded().len() == 20,
        bytes::field(n.encoded(), 0, 16) == n.cap.encoded(),
        bytes::le_value(bytes::field(n.encoded(), 16, 4)) == n.notify_off_multiplier,
        s.encoded().len() == 24,
        bytes::field(s.encoded(), 0, 16) == s.cap.encoded(),
        bytes::le_value(bytes::field(s.encoded(), 16, 4)) == s.offset_hi,
        bytes::le_value(bytes::field(s.encoded(), 20, 4)) == s.length_hi,
{
    plain_fields(c);
    plain_fields(n.cap);
    plain_fields(s.cap);
    word_bytes(n.notify_off_multiplier);
    word_bytes(s.offset_hi);
    word_bytes(s.length_hi);
    assert(bytes::field(n.encoded(), 0, 16) =~= n.cap.encoded());
    assert(bytes::field(n.encoded(), 16, 4) =~= bytes::le_bytes(n.notify_off_multiplier as nat, 4));
    assert(bytes::field(s.encoded(), 0, 16) =~= s.cap.encoded());
    assert(bytes::field(s.encoded(), 16, 4) =~= bytes::le_bytes(s.offset_hi as nat, 4));
    assert(bytes::field(s.encoded(), 20, 4) =~= bytes::le_bytes(s.length_hi as nat, 4));
}

proof fn word_bytes(v: u32)
    ensures
        bytes::le_bytes(v as nat, 4).len() == 4,
        bytes::le_value(bytes::le_bytes(v as nat, 4)) == v,
{
    reveal_with_fuel(bytes::pow256, 5);
    bytes::le_bytes_len(v as nat, 4);
    bytes::le_round_trip(v as nat, 4);
}

proof fn plain_fields(c: VirtioPciCap)
    ensures
        c.encoded().len() == 16,
        c.encoded()[2] == c.cap_len,
        c.encoded()[3] == c.cfg_type,
        c.encoded()[4] == c.bar,
        c.encoded()[5] == c.id,
        bytes::le_value(bytes::field(c.encoded(), 8, 4)) == c.offset,
        bytes::le_value(bytes::field(c.encoded(), 12, 4)) == c.length,
{
    word_bytes(c.offset);
    word_bytes(c.length);
    assert(bytes::field(c.encoded(), 8, 4) =~= bytes::le_bytes(c.offset as nat, 4));
    assert(bytes::field(c.encoded(), 12, 4) =~= bytes::le_bytes(c.length as nat, 4));
}

/// Each capability that a device gets points to the part of the region that its
/// type stands for: it starts there, and its length is that of the part.
pub proof fn capabilities_point_to_their_parts(bar: u8, i: int)
    requires
        0 <= i < 4,
    ensures
        settings_caps(bar).len() == 5,
        ({
            let cap = settings_caps(bar)[i];
            let start = bytes::le_value(bytes::field(cap, 8, 4)) as u64;
            let len = bytes::le_value(bytes::field(cap, 12, 4));
            &&& cap[2] == cap.len()
            &&& cap[4] == bar
            &&& cap[3] == 1 || cap[3] == 2 || cap[3] == 3 || cap[3] == 4
            &&& i == 0 <==> cap[3] == 1
            &&& i == 1 <==> cap[3] == 3
            &&& i == 2 <==> cap[3] == 4
            &&& i == 3 <==> cap[3] == 2
            &&& cap[3] == 1 ==> region_at(start) == BarRegion::CommonConfig(0) && len == 56
            &&& cap[3] == 3 ==> region_at(start) == BarRegion::Isr && len == 1
            &&& cap[3] == 4 ==> region_at(start) == BarRegion::DeviceConfig(0) && len == 0x1000
            &&& cap[3] == 2 ==> region_at(start) == BarRegion::Notification && start == 0x3000
                && len == 0x1000 && bytes::le_value(bytes::field(cap, 16, 4)) == 4
        }),
        settings_caps(bar)[4][3] == 5,
{
    let common = VirtioPciCap {
        cap_len: 16,
        cfg_type: 1,
        bar,
        id: 0,
        offset: 0,
        length: 56,
    };
    let isr = VirtioPciCap { cfg_type: 3, offset: 0x1000, length: 1, ..common };
    let device = VirtioPciCap { cfg_type: 4, offset: 0x2000, length: 0x1000, ..common };
    let notify = VirtioPciNotifyCap {
        cap: VirtioPciCap { cap_len: 20, cfg_type: 2, offset: 0x3000, length: 0x1000, ..common },
        notify_off_multiplier: 4,
    };
    let config = VirtioPciCap { cfg_type: 5, bar: 0, offset: 0, length: 0, ..common };
    plain_fields(common);
    plain_fields(isr);
    plain_fields(device);
    plain_fields(notify.cap);
    plain_fields(config);
    word_bytes(4);
    assert(bytes::field(notify.encoded(), 8, 4) =~= bytes::field(notify.cap.encoded(), 8, 4));
    assert(bytes::field(notify.encoded(), 12, 4) =~= bytes::field(notify.cap.encoded(), 12, 4));
    assert(bytes::field(notify.encoded(), 16, 4) =~= bytes::le_bytes(4, 4));
    assert(settings_caps(bar)[0] == common.encoded());
    assert(settings_caps(bar)[1] == isr.encoded());
    assert(settings_caps(bar)[2] == device.encoded());
    assert(settings_caps(bar)[3] == notify.encoded());
    assert(settings_caps(bar)[4] == config.encoded());
}

/// A device is activated with just the queues that are ready, each once and in
/// their order.
pub proof fn ready_queues_are_those_marked(queues: Seq<QueueState>, i: usize, a: int, b: int)
    requires
        queues.len() <= usize::MAX,
    ensures
        ready_queues(queues).contains(i) <==> i < queues.len() && queues[i as int].ready,
        0 <= a < b < ready_queues(queues).len() ==> ready_queues(queues)[a] < ready_queues(
            queues,
        )[b],
        0 <= a < ready_queues(queues).len() ==> ready_queues(queues)[a] < queues.len(),
    decreases queues.len(),
{
    if queues.len() > 0 {
        let rest = queues.drop_last();
        let all = ready_queues(queues);
        let few = ready_queues(rest);
        ready_queues_are_those_marked(rest, i, a, b);
        if all.contains(i) {
            let k = choose|k: int| 0 <= k < all.len() && all[k] == i;
            if k < few.len() {
                assert(few[k] == i);
            }
        }
        if i < queues.len() && queues[i as int].ready {
            if i < rest.len() {
                let k = choose|k: int| 0 <= k < few.len() && few[k] == i;
                assert(all[k] == i);
            } else {
                assert(all[few.len() as int] == i);
            }
        }
    }
}

/// A device that does not run is activated exactly once its driver has
/// acknowledged it, knows how to drive it, has settled the features and set it
/// going, without having given up, and no queue that is ready has rings outside of
/// guest memory.
pub proof fn activation_waits_for_driver_and_queues(d: VirtioPciDevice, i: int)
    ensures
        d.activates() ==> d.driver_status == 0x0f && !d.device_activated && d.has_mem,
        d.activates() && 0 <= i < d.queues@.len() && d.queues@[i].ready ==> d.queues@[i].valid,
        d.driver_status == 0x0f && !d.device_activated && d.has_mem && (forall|k: int|
            0 <= k < d.queues@.len() && (#[trigger] d.queues@[k]).ready ==> d.queues@[k].valid)
            ==> d.activates(),
{
}

/// The device ID tells the type of a virtio device, and a display is known by its
/// class too.
pub proof fn identity_tells_the_type(a: u32, b: u32)
    requires
        a < 0xefc0,
        b < 0xefc0,
    ensures
        identity_of(a).device_id == 0x1040 + a,
        identity_of(a).subsystem_id == 0x1040 + a,
        identity_of(a).vendor_id == 0x1af4,
        identity_of(a).subsystem_vendor_id == 0x1af4,
        identity_of(a).class == PciClass::Display <==> a == 16,
        identity_of(a) == identity_of(b) <==> a == b,
{
}

/// Where every region has its address, the ranges are those addresses with the
/// sizes that were asked for, in the same order.
pub proof fn regions_get_their_ranges(bars: Seq<DeviceBar>, i: int)
    requires
        0 <= i < bars.len(),
    ensures
        bar_ranges(bars).len() == bars.len(),
        bars[i].addr is Some && bars[i].registered ==> bar_ranges(bars)[i] == (
            bars[i].addr->0,
            bars[i].size,
        ),
    decreases bars.len(),
{
    reveal_with_fuel(bar_ranges, 2);
    if i < bars.len() - 1 {
        regions_get_their_ranges(bars.drop_last(), i);
    } else if bars.len() > 1 {
        regions_get_their_ranges(bars.drop_last(), 0);
    }
}

} // verus!
