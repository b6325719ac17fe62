use vmm_devices::pci_address::PciAddress;
use vmm_devices::pci_hotplug::{
    BlockResourceCarrier, DiskOption, HotPluggable, IrqLevelEvent, NetParameters,
    NetParametersMode, NetResourceCarrier, PciInterruptPin, ResourceCarrier,
    VhostUserBlockResourceCarrier,
};
use vmm_devices::pcie_port::PciDeviceError;

/// Addresses that are taken.
struct Allocator {
    taken: Vec<PciAddress>,
}

impl Allocator {
    fn new() -> Allocator {
        Allocator { taken: Vec::new() }
    }

    fn reserve_pci(&mut self, addr: PciAddress) -> bool {
        if self.taken.contains(&addr) {
            false
        } else {
            self.taken.push(addr);
            true
        }
    }

    fn release_pci(&mut self, addr: PciAddress) -> bool {
        let before = self.taken.len();
        self.taken.retain(|a| *a != addr);
        self.taken.len() < before
    }
}

fn allocate(
    c: &mut ResourceCarrier,
    addr: PciAddress,
    allocator: &mut Allocator,
) -> Result<(), PciDeviceError> {
    let reserved = c.needs_address() && allocator.reserve_pci(addr);
    c.allocate_address(addr, reserved)
}

fn test_addr() -> PciAddress {
    PciAddress {
        bus: 1,
        dev: 0,
        func: 0,
    }
}

fn new_net_carrier() -> ResourceCarrier {
    let net_param = NetParameters {
        mode: NetParametersMode::TapName {
            tap_name: "t".to_owned(),
            mac: None,
        },
        vq_pairs: None,
        vhost_net: None,
        packed_queue: false,
        pci_address: None,
        mrg_rxbuf: false,
    };
    ResourceCarrier::VirtioNet(NetResourceCarrier::new(net_param, 3, 4, 5))
}

fn new_block_carrier() -> ResourceCarrier {
    let disk_option = DiskOption {
        path: String::new(),
        read_only: false,
        sparse: false,
        block_size: 512,
    };
    ResourceCarrier::VirtioBlock(BlockResourceCarrier::new(disk_option, 6, 7, 8))
}

fn new_vhost_user_block_carrier() -> ResourceCarrier {
    ResourceCarrier::VhostUserBlock(VhostUserBlockResourceCarrier::new(
        "/tmp/test.sock".to_owned(),
        None,
        9,
        10,
        11,
        12,
    ))
}

#[test]
fn debug_labels() {
    assert_eq!(new_net_carrier().debug_label(), "virtio-net");
    assert_eq!(new_block_carrier().debug_label(), "virtio-block");
    assert_eq!(
        new_vhost_user_block_carrier().debug_label(),
        "vhost-user-block"
    );
}

#[test]
fn net_keep_rds_without_irq() {
    assert_eq!(new_net_carrier().keep_rds().len(), 2);
    assert_eq!(new_net_carrier().keep_rds(), vec![3, 4]);
}

#[test]
fn block_keep_rds_without_irq() {
    assert_eq!(new_block_carrier().keep_rds().len(), 2);
    assert_eq!(new_block_carrier().keep_rds(), vec![6, 7]);
}

#[test]
fn vhost_user_block_keep_rds_includes_vm_evt_wrtube() {
    let c = new_vhost_user_block_carrier();
    assert_eq!(c.keep_rds().len(), 3);
    assert_eq!(c.keep_rds(), vec![9, 10, 12]);
}

#[test]
fn keep_rds_includes_irq_after_assign() {
    let mut c = new_vhost_user_block_carrier();
    let pre = c.keep_rds().len();
    let irq_evt = IrqLevelEvent {
        trigger_evt: 20,
        resample_evt: 21,
    };
    c.assign_irq(irq_evt, PciInterruptPin::IntA, 5);
    assert_eq!(c.keep_rds().len(), pre + 2);
    assert_eq!(c.keep_rds(), vec![9, 10, 12, 20, 21]);
}

#[test]
fn allocate_address_reserves_exactly_once() {
    let mut allocator = Allocator::new();
    let addr = test_addr();
    let mut c = new_block_carrier();

    allocate(&mut c, addr, &mut allocator).unwrap();
    allocate(&mut c, addr, &mut allocator).unwrap();
    assert!(!allocator.reserve_pci(addr));
}

#[test]
fn allocate_address_rejects_different_address_after_first() {
    let mut allocator = Allocator::new();
    let first = test_addr();
    let second = PciAddress {
        bus: 1,
        dev: 1,
        func: 0,
    };
    let mut c = new_net_carrier();

    allocate(&mut c, first, &mut allocator).unwrap();
    assert!(matches!(
        allocate(&mut c, second, &mut allocator),
        Err(PciDeviceError::PciAllocationFailed)
    ));
}

#[test]
fn allocate_address_fails_if_slot_taken() {
    let mut allocator = Allocator::new();
    let addr = test_addr();
    assert!(allocator.reserve_pci(addr));

    let mut c = new_vhost_user_block_carrier();
    assert!(matches!(
        allocate(&mut c, addr, &mut allocator),
        Err(PciDeviceError::PciAllocationFailed)
    ));
}

#[test]
fn released_address_is_reusable_by_next_carrier() {
    let mut allocator = Allocator::new();
    let addr = test_addr();

    let mut first = new_net_carrier();
    allocate(&mut first, addr, &mut allocator).unwrap();
    assert!(!allocator.reserve_pci(addr));

    assert!(allocator.release_pci(addr));

    let mut second = new_block_carrier();
    allocate(&mut second, addr, &mut allocator).unwrap();
}

struct Plugged {
    address: Option<PciAddress>,
}

impl HotPluggable for Plugged {
    fn set_pci_address(&mut self, pci_addr: PciAddress) -> Result<(), PciDeviceError> {
        self.address = Some(pci_addr);
        Ok(())
    }
    fn configure_io_bars(&mut self) -> Result<(), PciDeviceError> {
        Ok(())
    }
    fn configure_device_bars(&mut self) -> Result<(), PciDeviceError> {
        Ok(())
    }
}

#[test]
fn hot_pluggable_devices_can_be_written() {
    let mut d = Plugged { address: None };
    d.set_pci_address(test_addr()).unwrap();
    d.configure_io_bars().unwrap();
    d.configure_device_bars().unwrap();
    assert_eq!(d.address, Some(test_addr()));
}
