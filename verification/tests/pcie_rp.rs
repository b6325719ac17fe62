use vmm_devices::pci_address::PciAddress;
use vmm_devices::pcie::{
    PCIE_ROOTSTA_OFFSET, PCIE_ROOTSTA_PME_STATUS,
    PCIE_SLTCTL_ABPE, PCIE_SLTCTL_AIC_OFF, PCIE_SLTCTL_CCIE, PCIE_SLTCTL_HPIE, PCIE_SLTCTL_OFFSET,
    PCIE_SLTCTL_PDCE, PCIE_SLTCTL_PIC_BLINK, PCIE_SLTCTL_PIC_OFF, PCIE_SLTCTL_PIC_ON,
    PCIE_SLTSTA_ABP, PCIE_SLTSTA_PDS,
};
use vmm_devices::pcie_port::{PcieRootCaps, PortAction};
use vmm_devices::pcie_rp::{HotPlugError, HotPlugKey, PcieRootPort};

const ENABLE: u16 = PCIE_SLTCTL_PDCE | PCIE_SLTCTL_ABPE | PCIE_SLTCTL_CCIE | PCIE_SLTCTL_HPIE;

const EVENT: u64 = 9;

struct Root {
    rp: PcieRootPort,
    caps: PcieRootCaps,
    out: Vec<PortAction>,
}

impl Root {
    fn new(bus: u8, slot: bool) -> Root {
        let mut caps = PcieRootCaps::new();
        let rp = PcieRootPort::new(&mut caps, bus, slot);
        Root {
            rp,
            caps,
            out: Vec::new(),
        }
    }

    fn enabled(bus: u8) -> Root {
        let mut root = Root::new(bus, true);
        root.write_sltctl(ENABLE | PCIE_SLTCTL_PIC_OFF | PCIE_SLTCTL_AIC_OFF);
        root
    }

    fn write_sltctl(&mut self, value: u16) {
        self.rp.pcie_port.pcie_config.write_pcie_cap(
            &mut self.caps,
            PCIE_SLTCTL_OFFSET,
            &value.to_le_bytes(),
            &mut self.out,
        );
    }

    fn set_pic_on(&mut self) {
        self.write_sltctl(ENABLE | PCIE_SLTCTL_PIC_ON | PCIE_SLTCTL_AIC_OFF);
    }

    fn set_pic_blink(&mut self) {
        self.write_sltctl(ENABLE | PCIE_SLTCTL_PIC_BLINK | PCIE_SLTCTL_AIC_OFF);
    }

    fn hot_plug(&mut self, addr: PciAddress) -> Result<u64, HotPlugError> {
        self.rp
            .hot_plug(&mut self.caps, addr, Some(EVENT), false, &mut self.out)
    }

    fn hot_unplug(&mut self, addr: PciAddress) -> Result<u64, HotPlugError> {
        self.rp
            .hot_unplug(&mut self.caps, addr, Some(EVENT), true, false, &mut self.out)
    }
}

fn test_device_addr(bus: u8) -> PciAddress {
    PciAddress {
        bus,
        dev: 0,
        func: 0,
    }
}

fn second_addr(bus: u8) -> PciAddress {
    PciAddress {
        bus,
        dev: 0,
        func: 1,
    }
}

fn test_hotplug_key(bus: u8) -> HotPlugKey {
    HotPlugKey::GuestDevice {
        guest_addr: test_device_addr(bus),
    }
}

fn second_key(bus: u8) -> HotPlugKey {
    HotPlugKey::GuestDevice {
        guest_addr: second_addr(bus),
    }
}

#[test]
fn hot_plug_succeeds_with_registered_device() {
    let bus = 10;
    let mut root = Root::enabled(bus);
    root.rp
        .add_hotplug_device(test_hotplug_key(bus), test_device_addr(bus));
    let result = root.hot_plug(test_device_addr(bus));
    assert!(result.is_ok());
    assert_eq!(result.unwrap(), EVENT);
    let status = root.rp.pcie_port.pcie_config.get_slot_status();
    assert_ne!(status & PCIE_SLTSTA_PDS, 0);
    assert_ne!(status & PCIE_SLTSTA_ABP, 0);
}

#[test]
fn hot_plug_fails_when_hpc_pending() {
    let bus = 11;
    let mut root = Root::enabled(bus);
    root.rp
        .add_hotplug_device(test_hotplug_key(bus), test_device_addr(bus));
    let _ = root.hot_plug(test_device_addr(bus)).unwrap();

    root.rp.add_hotplug_device(second_key(bus), second_addr(bus));
    let result = root.hot_plug(second_addr(bus));
    assert!(result.is_err());
    assert_eq!(result, Err(HotPlugError::SlotEventPending));
}

#[test]
fn hot_plug_fails_when_not_hotplug_ready() {
    let bus = 12;
    let mut root = Root::new(bus, true);
    root.rp
        .add_hotplug_device(test_hotplug_key(bus), test_device_addr(bus));
    let result = root.hot_plug(test_device_addr(bus));
    assert!(result.is_err());
    assert_eq!(result, Err(HotPlugError::SlotNotEnabled));
}

#[test]
fn hot_plug_fails_without_registered_device() {
    let bus = 13;
    let mut root = Root::enabled(bus);
    let result = root.hot_plug(test_device_addr(bus));
    assert!(result.is_err());
    assert_eq!(result, Err(HotPlugError::NoDownstreamDevice));
}

#[test]
fn hot_unplug_with_pic_on_sets_abp() {
    let bus = 14;
    let mut root = Root::enabled(bus);
    root.rp
        .add_hotplug_device(test_hotplug_key(bus), test_device_addr(bus));
    root.set_pic_on();

    let result = root.hot_unplug(test_device_addr(bus));
    assert!(result.is_ok());
    assert_eq!(result.unwrap(), EVENT);
    let status = root.rp.pcie_port.pcie_config.get_slot_status();
    assert_ne!(status & PCIE_SLTSTA_ABP, 0);
    assert!(!root.out.contains(&PortAction::Signal(EVENT)));
}

#[test]
fn hot_unplug_with_pic_off_signals_immediately() {
    let bus = 15;
    let mut root = Root::enabled(bus);
    root.rp
        .add_hotplug_device(test_hotplug_key(bus), test_device_addr(bus));
    let result = root.hot_unplug(test_device_addr(bus));
    assert!(result.is_ok());
    assert_eq!(result.unwrap(), EVENT);
    assert!(root.out.contains(&PortAction::Signal(EVENT)));
}

#[test]
fn hot_unplug_with_pic_blink_returns_error() {
    let bus = 16;
    let mut root = Root::enabled(bus);
    root.rp
        .add_hotplug_device(test_hotplug_key(bus), test_device_addr(bus));
    root.set_pic_blink();
    let result = root.hot_unplug(test_device_addr(bus));
    assert!(result.is_err());
    assert_eq!(result, Err(HotPlugError::PowerIndicatorBlinking));
}

#[test]
fn hot_unplug_fails_when_hotplug_out_begin() {
    let bus = 17;
    let mut root = Root::enabled(bus);
    root.rp
        .add_hotplug_device(test_hotplug_key(bus), test_device_addr(bus));
    root.rp.add_hotplug_device(second_key(bus), second_addr(bus));

    let _ = root.hot_unplug(test_device_addr(bus)).unwrap();

    let result = root.hot_unplug(second_addr(bus));
    assert!(result.is_err());
}

#[test]
fn hot_unplug_fails_when_not_hotplug_ready() {
    let bus = 18;
    let mut root = Root::new(bus, true);
    root.rp
        .add_hotplug_device(test_hotplug_key(bus), test_device_addr(bus));
    let result = root.hot_unplug(test_device_addr(bus));
    assert!(result.is_err());
    assert_eq!(result, Err(HotPlugError::SlotNotEnabled));
}

#[test]
fn add_hotplug_device_clears_hotplug_out_begin() {
    let bus = 19;
    let mut root = Root::enabled(bus);
    root.rp
        .add_hotplug_device(test_hotplug_key(bus), test_device_addr(bus));
    let _ = root.hot_unplug(test_device_addr(bus)).unwrap();
    assert!(root.rp.hotplug_out_begin);

    root.rp.add_hotplug_device(second_key(bus), second_addr(bus));
    assert!(!root.rp.hotplug_out_begin);
    assert!(root.rp.removed_downstream.is_empty());
}

#[test]
fn add_hotplug_device_no_op_without_slot() {
    let bus = 20;
    let mut root = Root::new(bus, false);
    root.rp
        .add_hotplug_device(test_hotplug_key(bus), test_device_addr(bus));
    assert!(root.rp.is_empty());
}

#[test]
fn is_empty_reflects_device_state() {
    let bus = 21;
    let mut root = Root::enabled(bus);
    assert!(root.rp.is_empty());
    root.rp
        .add_hotplug_device(test_hotplug_key(bus), test_device_addr(bus));
    assert!(!root.rp.is_empty());
}

#[test]
fn get_hotplug_device_returns_correct_address() {
    let bus = 22;
    let mut root = Root::enabled(bus);
    root.rp
        .add_hotplug_device(test_hotplug_key(bus), test_device_addr(bus));
    assert_eq!(
        root.rp.get_hotplug_device(test_hotplug_key(bus)),
        Some(test_device_addr(bus))
    );
}

#[test]
fn get_hotplug_device_returns_none_for_unknown_key() {
    let bus = 23;
    let root = Root::enabled(bus);
    assert_eq!(root.rp.get_hotplug_device(test_hotplug_key(bus)), None);
}

#[test]
fn get_secondary_bus_number() {
    let bus = 24;
    let root = Root::enabled(bus);
    assert_eq!(root.rp.get_secondary_bus_number(), Some(bus));
}

#[test]
fn get_hotplug_key_returns_none() {
    let bus = 25;
    let root = Root::enabled(bus);
    assert_eq!(root.rp.get_hotplug_key(), None);
}

#[test]
fn hot_plug_fails_without_an_event() {
    let bus = 26;
    let mut root = Root::enabled(bus);
    root.rp
        .add_hotplug_device(test_hotplug_key(bus), test_device_addr(bus));
    let r = root
        .rp
        .hot_plug(&mut root.caps, test_device_addr(bus), None, false, &mut root.out);
    assert_eq!(r, Err(HotPlugError::EventFailed));
}

#[test]
fn devices_are_kept_in_order() {
    let bus = 27;
    let mut root = Root::enabled(bus);
    root.rp.add_hotplug_device(second_key(bus), second_addr(bus));
    root.rp
        .add_hotplug_device(test_hotplug_key(bus), test_device_addr(bus));
    root.rp
        .add_hotplug_device(test_hotplug_key(bus), test_device_addr(bus));
    let addresses: Vec<PciAddress> = root.rp.downstream_devices.iter().map(|d| d.0).collect();
    assert_eq!(addresses, vec![test_device_addr(bus), second_addr(bus)]);
}

#[test]
fn power_events_are_shown_to_the_guest() {
    let mut root = Root::new(1, true);
    root.rp
        .notify_pme(&mut root.caps, 0x0102, &mut root.out);
    let config = &root.rp.pcie_port.pcie_config;
    let mut status = 0;
    config.read_pcie_cap(&root.caps, PCIE_ROOTSTA_OFFSET, &mut status);
    assert_eq!(status & 0xffff, 0x0102);
    assert_ne!(status & PCIE_ROOTSTA_PME_STATUS, 0);
    // A port that is not one of the host is not prepared for a device.
    root.rp
        .notify_gpe(&mut root.caps, false, &mut root.out);
    assert!(!root.rp.pcie_port.prepare_hotplug);
}

#[test]
fn hot_unplug_fails_when_the_signal_fails() {
    let bus = 40;
    let mut root = Root::enabled(bus);
    root.rp
        .add_hotplug_device(test_hotplug_key(bus), test_device_addr(bus));
    let addr = test_device_addr(bus);
    let result = root
        .rp
        .hot_unplug(&mut root.caps, addr, Some(EVENT), false, false, &mut root.out);
    assert_eq!(result, Err(HotPlugError::SignalFailed));
    assert!(!root.out.contains(&PortAction::HostUnplug));
    assert!(root.rp.hotplug_out_begin);
    assert!(root.rp.is_empty());
}
