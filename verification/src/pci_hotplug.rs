//! Resources of PCI devices that are plugged in while the guest runs.
use crate::pci_address::PciAddress;
use crate::pcie_port::PciDeviceError;
use vstd::prelude::*;

verus! {

/// Pin of a legacy interrupt.
#[derive(Clone, Copy, Debug, PartialEq, Eq, Structural)]
pub enum PciInterruptPin {
    IntA,
    IntB,
    IntC,
    IntD,
}

/// Descriptors of a level-triggered interrupt: the event that triggers it, and
/// the event that asks for it again.
#[derive(Clone, Copy, Debug, PartialEq, Eq, Structural)]
pub struct IrqLevelEvent {
    pub trigger_evt: i32,
    pub resample_evt: i32,
}

/// Parameters of a legacy interrupt.
#[derive(Clone, Copy, Debug, PartialEq, Eq, Structural)]
pub struct IntxParameter {
    pub irq_evt: IrqLevelEvent,
    pub pin: PciInterruptPin,
    pub irq_num: u32,
}

/// What a device needs so that it can be plugged in: it is configured without
/// an allocator.
pub trait HotPluggable: Sized {
    /// Sets the address of the device.
    fn set_pci_address(&mut self, pci_addr: PciAddress) -> (r: Result<(), PciDeviceError>);

    /// Lays out the I/O regions.
    fn configure_io_bars(&mut self) -> (r: Result<(), PciDeviceError>);

    /// Lays out the regions of the device.
    fn configure_device_bars(&mut self) -> (r: Result<(), PciDeviceError>);
}

/// Where a network device gets its packets from.
#[derive(Debug)]
pub enum NetParametersMode {
    TapName { tap_name: String, mac: Option<[u8; 6]> },
    TapFd { tap_fd: i32, mac: Option<[u8; 6]> },
}

/// Parameters of a network device whose packets the host's kernel moves.
#[derive(Debug)]
pub struct VhostNetParameters {
    /// The path of the kernel's device.
    pub device: String,
}

/// Parameters of a network device.
#[derive(Debug)]
pub struct NetParameters {
    pub mode: NetParametersMode,
    pub vq_pairs: Option<u16>,
    pub vhost_net: Option<VhostNetParameters>,
    pub packed_queue: bool,
    pub pci_address: Option<PciAddress>,
    pub mrg_rxbuf: bool,
}

/// Parameters of a block device.
#[derive(Debug)]
pub struct DiskOption {
    pub path: String,
    pub read_only: bool,
    pub sparse: bool,
    pub block_size: u32,
}

/// The descriptors of an interrupt, if there is one.
pub open spec fn irq_rds(intx: Option<IntxParameter>) -> Seq<i32> {
    match intx {
        Some(p) => seq![p.irq_evt.trigger_evt, p.irq_evt.resample_evt],
        None => Seq::empty(),
    }
}

fn push_irq_rds(rds: &mut Vec<i32>, intx: &Option<IntxParameter>)
    ensures
        final(rds)@ == old(rds)@ + irq_rds(*intx),
{
    if let Some(p) = intx {
        rds.push(p.irq_evt.trigger_evt);
        rds.push(p.irq_evt.resample_evt);
    }
    assert(rds@ =~= old(rds)@ + irq_rds(*intx));
}

/// The address of a device after an attempt to allocate one: the first one that
/// could be reserved stays.
pub open spec fn allocated(
    current: Option<PciAddress>,
    preferred: PciAddress,
    reserved: bool,
) -> Option<PciAddress> {
    if current is None && reserved {
        Some(preferred)
    } else {
        current
    }
}

/// Whether an attempt to allocate an address succeeds.
pub open spec fn allocates(
    current: Option<PciAddress>,
    preferred: PciAddress,
    reserved: bool,
) -> bool {
    match current {
        None => reserved,
        Some(address) => address == preferred,
    }
}

fn allocate(current: &mut Option<PciAddress>, preferred: PciAddress, reserved: bool) -> (r: Result<
    (),
    PciDeviceError,
>)
    ensures
        *final(current) == allocated(*old(current), preferred, reserved),
        r is Ok <==> allocates(*old(current), preferred, reserved),
        r matches Err(e) ==> e is PciAllocationFailed,
{
    match *current {
        None => {
            if reserved {
                *current = Some(preferred);
            } else {
                return Err(PciDeviceError::PciAllocationFailed);
            }
        },
        Some(pci_address) => {
            if pci_address != preferred {
                return Err(PciDeviceError::PciAllocationFailed);
            }
        },
    }
    Ok(())
}

/// Resources of a virtio network device. Tubes are known by descriptors.
#[derive(Debug)]
pub struct NetResourceCarrier {
    pub net_param: NetParameters,
    pub msi_device_tube: i32,
    pub ioevent_vm_memory_client: i32,
    pub pci_address: Option<PciAddress>,
    pub intx_parameter: Option<IntxParameter>,
    pub vm_control_tube: i32,
}

impl NetResourceCarrier {
    pub fn new(
        net_param: NetParameters,
        msi_device_tube: i32,
        ioevent_vm_memory_client: i32,
        vm_control_tube: i32,
    ) -> (r: Self)
        ensures
            r == (NetResourceCarrier {
                net_param,
                msi_device_tube,
                ioevent_vm_memory_client,
                pci_address: None,
                intx_parameter: None,
                vm_control_tube,
            }),
    {
        NetResourceCarrier {
            net_param,
            msi_device_tube,
            ioevent_vm_memory_client,
            pci_address: None,
            intx_parameter: None,
            vm_control_tube,
        }
    }

    pub fn debug_label(&self) -> (r: String)
        ensures
            r@ == "virtio-net"@,
    {
        "virtio-net".to_owned()
    }

    /// Descriptors that must stay open.
    pub open spec fn rds(&self) -> Seq<i32> {
        seq![self.msi_device_tube, self.ioevent_vm_memory_client] + irq_rds(self.intx_parameter)
    }

    pub fn keep_rds(&self) -> (r: Vec<i32>)
        ensures
            r@ == self.rds(),
    {
        let mut keep_rds: Vec<i32> = Vec::new();
        keep_rds.push(self.msi_device_tube);
        keep_rds.push(self.ioevent_vm_memory_client);
        assert(keep_rds@ =~= seq![self.msi_device_tube, self.ioevent_vm_memory_client]);
        push_irq_rds(&mut keep_rds, &self.intx_parameter);
        keep_rds
    }

    /// Takes an address. `reserved` says whether it could be reserved, which is
    /// to be tried where the device has none.
    pub fn allocate_address(&mut self, preferred_address: PciAddress, reserved: bool) -> (r: Result<
        (),
        PciDeviceError,
    >)
        ensures
            r is Ok <==> allocates(old(self).pci_address, preferred_address, reserved),
            r matches Err(e) ==> e is PciAllocationFailed,
            *final(self) == (NetResourceCarrier {
                pci_address: allocated(old(self).pci_address, preferred_address, reserved),
                ..*old(self)
            }),
    {
        allocate(&mut self.pci_address, preferred_address, reserved)
    }

    pub fn assign_irq(&mut self, irq_evt: IrqLevelEvent, pin: PciInterruptPin, irq_num: u32)
        ensures
            *final(self) == (NetResourceCarrier {
                intx_parameter: Some(IntxParameter { irq_evt, pin, irq_num }),
                ..*old(self)
            }),
    {
        self.intx_parameter = Some(IntxParameter { irq_evt, pin, irq_num });
    }
}

/// Resources of a virtio block device.
#[derive(Debug)]
pub struct BlockResourceCarrier {
    pub disk_option: DiskOption,
    pub msi_device_tube: i32,
    pub ioevent_vm_memory_client: i32,
    pub pci_address: Option<PciAddress>,
    pub intx_parameter: Option<IntxParameter>,
    pub vm_control_tube: i32,
}

impl BlockResourceCarrier {
    pub fn new(
        disk_option: DiskOption,
        msi_device_tube: i32,
        ioevent_vm_memory_client: i32,
        vm_control_tube: i32,
    ) -> (r: Self)
        ensures
            r == (BlockResourceCarrier {
                disk_option,
                msi_device_tube,
                ioevent_vm_memory_client,
                pci_address: None,
                intx_parameter: None,
                vm_control_tube,
            }),
    {
        BlockResourceCarrier {
            disk_option,
            msi_device_tube,
            ioevent_vm_memory_client,
            pci_address: None,
            intx_parameter: None,
            vm_control_tube,
        }
    }

    pub fn debug_label(&self) -> (r: String)
        ensures
            r@ == "virtio-block"@,
    {
        "virtio-block".to_owned()
    }

    /// Descriptors that must stay open.
    pub open spec fn rds(&self) -> Seq<i32> {
        seq![self.msi_device_tube, self.ioevent_vm_memory_client] + irq_rds(self.intx_parameter)
    }

    pub fn keep_rds(&self) -> (r: Vec<i32>)
        ensures
            r@ == self.rds(),
    {
        let mut keep_rds: Vec<i32> = Vec::new();
        keep_rds.push(self.msi_device_tube);
        keep_rds.push(self.ioevent_vm_memory_client);
        assert(keep_rds@ =~= seq![self.msi_device_tube, self.ioevent_vm_memory_client]);
        push_irq_rds(&mut keep_rds, &self.intx_parameter);
        keep_rds
    }

    /// Takes an address. `reserved` says whether it could be reserved, which is
    /// to be tried where the device has none.
    pub fn allocate_address(&mut self, preferred_address: PciAddress, reserved: bool) -> (r: Result<
        (),
        PciDeviceError,
    >)
        ensures
            r is Ok <==> allocates(old(self).pci_address, preferred_address, reserved),
            r matches Err(e) ==> e is PciAllocationFailed,
            *final(self) == (BlockResourceCarrier {
                pci_address: allocated(old(self).pci_address, preferred_address, reserved),
                ..*old(self)
            }),
    {
        allocate(&mut self.pci_address, preferred_address, reserved)
    }

    pub fn assign_irq(&mut self, irq_evt: IrqLevelEvent, pin: PciInterruptPin, irq_num: u32)
        ensures
            *final(self) == (BlockResourceCarrier {
                intx_parameter: Some(IntxParameter { irq_evt, pin, irq_num }),
                ..*old(self)
            }),
    {
        self.intx_parameter = Some(IntxParameter { irq_evt, pin, irq_num });
    }
}

/// Resources of a vhost-user block device.
#[derive(Debug)]
pub struct VhostUserBlockResourceCarrier {
    pub socket_path: String,
    pub max_queue_size: Option<u16>,
    pub msi_device_tube: i32,
    pub ioevent_vm_memory_client: i32,
    pub pci_address: Option<PciAddress>,
    pub intx_parameter: Option<IntxParameter>,
    pub vm_control_tube: i32,
    pub vm_evt_wrtube: i32,
}

impl VhostUserBlockResourceCarrier {
    pub fn new(
        socket_path: String,
        max_queue_size: Option<u16>,
        msi_device_tube: i32,
        ioevent_vm_memory_client: i32,
        vm_control_tube: i32,
        vm_evt_wrtube: i32,
    ) -> (r: Self)
        ensures
            r == (VhostUserBlockResourceCarrier {
                socket_path,
                max_queue_size,
                msi_device_tube,
                ioevent_vm_memory_client,
                pci_address: None,
                intx_parameter: None,
                vm_control_tube,
                vm_evt_wrtube,
            }),
    {
        VhostUserBlockResourceCarrier {
            socket_path,
            max_queue_size,
            msi_device_tube,
            ioevent_vm_memory_client,
            pci_address: None,
            intx_parameter: None,
            vm_control_tube,
            vm_evt_wrtube,
        }
    }

    pub fn debug_label(&self) -> (r: String)
        ensures
            r@ == "vhost-user-block"@,
    {
        "vhost-user-block".to_owned()
    }

    /// Descriptors that must stay open.
    pub open spec fn rds(&self) -> Seq<i32> {
        seq![self.msi_device_tube, self.ioevent_vm_memory_client, self.vm_evt_wrtube] + irq_rds(self.intx_parameter)
    }

    pub fn keep_rds(&self) -> (r: Vec<i32>)
        ensures
            r@ == self.rds(),
    {
        let mut keep_rds: Vec<i32> = Vec::new();
        keep_rds.push(self.msi_device_tube);
        keep_rds.push(self.ioevent_vm_memory_client);
        keep_rds.push(self.vm_evt_wrtube);
        assert(keep_rds@ =~= seq![self.msi_device_tube, self.ioevent_vm_memory_client, self.vm_evt_wrtube]);
        push_irq_rds(&mut keep_rds, &self.intx_parameter);
        keep_rds
    }

    /// Takes an address. `reserved` says whether it could be reserved, which is
    /// to be tried where the device has none.
    pub fn allocate_address(&mut self, preferred_address: PciAddress, reserved: bool) -> (r: Result<
        (),
        PciDeviceError,
    >)
        ensures
            r is Ok <==> allocates(old(self).pci_address, preferred_address, reserved),
            r matches Err(e) ==> e is PciAllocationFailed,
            *final(self) == (VhostUserBlockResourceCarrier {
                pci_address: allocated(old(self).pci_address, preferred_address, reserved),
                ..*old(self)
            }),
    {
        allocate(&mut self.pci_address, preferred_address, reserved)
    }

    pub fn assign_irq(&mut self, irq_evt: IrqLevelEvent, pin: PciInterruptPin, irq_num: u32)
        ensures
            *final(self) == (VhostUserBlockResourceCarrier {
                intx_parameter: Some(IntxParameter { irq_evt, pin, irq_num }),
                ..*old(self)
            }),
    {
        self.intx_parameter = Some(IntxParameter { irq_evt, pin, irq_num });
    }
}

/// Moves the resources of a device from one process to another.
#[derive(Debug)]
pub enum ResourceCarrier {
    VirtioNet(NetResourceCarrier),
    VirtioBlock(BlockResourceCarrier),
    VhostUserBlock(VhostUserBlockResourceCarrier),
}

impl ResourceCarrier {
    pub open spec fn label(&self) -> Seq<char> {
        match self {
            ResourceCarrier::VirtioNet(_) => "virtio-net"@,
            ResourceCarrier::VirtioBlock(_) => "virtio-block"@,
            ResourceCarrier::VhostUserBlock(_) => "vhost-user-block"@,
        }
    }

    pub open spec fn rds(&self) -> Seq<i32> {
        match self {
            ResourceCarrier::VirtioNet(c) => c.rds(),
            ResourceCarrier::VirtioBlock(c) => c.rds(),
            ResourceCarrier::VhostUserBlock(c) => c.rds(),
        }
    }

    pub open spec fn address(&self) -> Option<PciAddress> {
        match self {
            ResourceCarrier::VirtioNet(c) => c.pci_address,
            ResourceCarrier::VirtioBlock(c) => c.pci_address,
            ResourceCarrier::VhostUserBlock(c) => c.pci_address,
        }
    }

    /// This carrier with another address.
    pub open spec fn with_address(self, address: Option<PciAddress>) -> ResourceCarrier {
        match self {
            ResourceCarrier::VirtioNet(c) => ResourceCarrier::VirtioNet(
                NetResourceCarrier { pci_address: address, ..c },
            ),
            ResourceCarrier::VirtioBlock(c) => ResourceCarrier::VirtioBlock(
                BlockResourceCarrier { pci_address: address, ..c },
            ),
            ResourceCarrier::VhostUserBlock(c) => ResourceCarrier::VhostUserBlock(
                VhostUserBlockResourceCarrier { pci_address: address, ..c },
            ),
        }
    }

    /// This carrier with an interrupt.
    pub open spec fn with_irq(self, intx: IntxParameter) -> ResourceCarrier {
        match self {
            ResourceCarrier::VirtioNet(c) => ResourceCarrier::VirtioNet(
                NetResourceCarrier { intx_parameter: Some(intx), ..c },
            ),
            ResourceCarrier::VirtioBlock(c) => ResourceCarrier::VirtioBlock(
                BlockResourceCarrier { intx_parameter: Some(intx), ..c },
            ),
            ResourceCarrier::VhostUserBlock(c) => ResourceCarrier::VhostUserBlock(
                VhostUserBlockResourceCarrier { intx_parameter: Some(intx), ..c },
            ),
        }
    }

    /// Name of the device for messages.
    pub fn debug_label(&self) -> (r: String)
        ensures
            r@ == self.label(),
    {
        match self {
            ResourceCarrier::VirtioNet(c) => c.debug_label(),
            ResourceCarrier::VirtioBlock(c) => c.debug_label(),
            ResourceCarrier::VhostUserBlock(c) => c.debug_label(),
        }
    }

    /// Descriptors that must stay open.
    pub fn keep_rds(&self) -> (r: Vec<i32>)
        ensures
            r@ == self.rds(),
    {
        match self {
            ResourceCarrier::VirtioNet(c) => c.keep_rds(),
            ResourceCarrier::VirtioBlock(c) => c.keep_rds(),
            ResourceCarrier::VhostUserBlock(c) => c.keep_rds(),
        }
    }

    /// Whether the device has no address yet, so that one is to be reserved.
    pub fn needs_address(&self) -> (r: bool)
        ensures
            r == self.address() is None,
    {
        match self {
            ResourceCarrier::VirtioNet(c) => c.pci_address.is_none(),
            ResourceCarrier::VirtioBlock(c) => c.pci_address.is_none(),
            ResourceCarrier::VhostUserBlock(c) => c.pci_address.is_none(),
        }
    }

    /// Takes an address. `reserved` says whether it could be reserved, which is
    /// to be tried where the device has none.
    pub fn allocate_address(&mut self, preferred_address: PciAddress, reserved: bool) -> (r: Result<
        (),
        PciDeviceError,
    >)
        ensures
            r is Ok <==> allocates(old(self).address(), preferred_address, reserved),
            r matches Err(e) ==> e is PciAllocationFailed,
            *final(self) == old(self).with_address(
                allocated(old(self).address(), preferred_address, reserved),
            ),
    {
        match self {
            ResourceCarrier::VirtioNet(c) => c.allocate_address(preferred_address, reserved),
            ResourceCarrier::VirtioBlock(c) => c.allocate_address(preferred_address, reserved),
            ResourceCarrier::VhostUserBlock(c) => c.allocate_address(preferred_address, reserved),
        }
    }

    /// Assigns a legacy interrupt.
    pub fn assign_irq(&mut self, irq_evt: IrqLevelEvent, pin: PciInterruptPin, irq_num: u32)
        ensures
            *final(self) == old(self).with_irq(IntxParameter { irq_evt, pin, irq_num }),
    {
        match self {
            ResourceCarrier::VirtioNet(c) => c.assign_irq(irq_evt, pin, irq_num),
            ResourceCarrier::VirtioBlock(c) => c.assign_irq(irq_evt, pin, irq_num),
            ResourceCarrier::VhostUserBlock(c) => c.assign_irq(irq_evt, pin, irq_num),
        }
    }
}

/// Once a device has an address, asking for the same one succeeds without
/// another reservation, and asking for a different one fails.
pub proof fn address_is_reserved_once(first: PciAddress, second: PciAddress, reserved: bool)
    ensures
        ({
            let current = allocated(None, first, true);
            &&& current == Some(first)
            &&& allocates(current, second, reserved) <==> second == first
            &&& allocated(current, second, reserved) == current
        }),
{
}

/// The two descriptors of an interrupt are kept open once it is assigned.
pub proof fn irq_adds_descriptors(c: ResourceCarrier, intx: IntxParameter)
    requires
        c matches ResourceCarrier::VirtioNet(n) ==> n.intx_parameter is None,
        c matches ResourceCarrier::VirtioBlock(n) ==> n.intx_parameter is None,
        c matches ResourceCarrier::VhostUserBlock(n) ==> n.intx_parameter is None,
    ensures
        c.with_irq(intx).rds() == c.rds() + seq![
            intx.irq_evt.trigger_evt,
            intx.irq_evt.resample_evt,
        ],
{
    assert(c.with_irq(intx).rds() =~= c.rds() + seq![
        intx.irq_evt.trigger_evt,
        intx.irq_evt.resample_evt,
    ]);
}

/// A device without an address gets the one that could be reserved for it, and none
/// where it could not, which is an error.
pub proof fn address_needs_a_reservation(preferred: PciAddress)
    ensures
        allocates(None, preferred, true),
        allocated(None, preferred, true) == Some(preferred),
        !allocates(None, preferred, false),
        allocated(None, preferred, false) is None,
{
}

/// An address that a device gets is its address, and neither its name nor its
/// descriptors change with it; nor does an interrupt change its address.
pub proof fn address_is_kept_apart(c: ResourceCarrier, address: Option<PciAddress>, intx: IntxParameter)
    ensures
        c.with_address(address).address() == address,
        c.with_address(address).rds() == c.rds(),
        c.with_address(address).label() == c.label(),
        c.with_irq(intx).address() == c.address(),
        c.with_irq(intx).label() == c.label(),
        c matches ResourceCarrier::VirtioNet(n) ==> c.label() == "virtio-net"@ && c.rds().len() >= 2
            && c.rds()[0] == n.msi_device_tube && c.rds()[1] == n.ioevent_vm_memory_client,
        c matches ResourceCarrier::VirtioBlock(n) ==> c.label() == "virtio-block"@ && c.rds().len()
            >= 2 && c.rds()[0] == n.msi_device_tube && c.rds()[1] == n.ioevent_vm_memory_client,
        c matches ResourceCarrier::VhostUserBlock(n) ==> c.label() == "vhost-user-block"@
            && c.rds().len() >= 3 && c.rds()[0] == n.msi_device_tube && c.rds()[1]
            == n.ioevent_vm_memory_client && c.rds()[2] == n.vm_evt_wrtube,
{
}

} // verus!
