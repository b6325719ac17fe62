use vmm_devices::pci_address::PciAddress;
use vmm_devices::pcie::{
    PciBridgeBusRange, PcieDevicePortType, PCIE_ROOTCTL_OFFSET, PCIE_ROOTCTL_PME_ENABLE,
    PCIE_ROOTSTA_OFFSET, PCIE_ROOTSTA_PME_PENDING, PCIE_ROOTSTA_PME_STATUS, PCIE_SLTCTL_ABPE,
    PCIE_SLTCTL_AIC_OFF, PCIE_SLTCTL_CCIE, PCIE_SLTCTL_HPIE, PCIE_SLTCTL_OFFSET, PCIE_SLTCTL_PDCE,
    PCIE_SLTCTL_PIC_BLINK, PCIE_SLTCTL_PIC_OFF, PCIE_SLTCTL_PIC_ON, PCIE_SLTSTA_ABP,
    PCIE_SLTSTA_CC, PCIE_SLTSTA_DLLSC, PCIE_SLTSTA_OFFSET, PCIE_SLTSTA_PDC, PCIE_SLTSTA_PDS,
    PCIE_SLTSTA_PFD,
};
use vmm_devices::pcie_port::{
    AddressRequest, HotPlugCompleteSender, PciDeviceError, PcieConfig, PcieHostPort, PciePort,
    PcieRootCap, PcieRootCaps, PortAction,
};

const ENABLE: u16 = PCIE_SLTCTL_PDCE | PCIE_SLTCTL_ABPE | PCIE_SLTCTL_CCIE | PCIE_SLTCTL_HPIE;
const OFF: u16 = ENABLE | PCIE_SLTCTL_PIC_OFF | PCIE_SLTCTL_AIC_OFF;
const ON: u16 = ENABLE | PCIE_SLTCTL_PIC_ON | PCIE_SLTCTL_AIC_OFF;
const BLINK: u16 = ENABLE | PCIE_SLTCTL_PIC_BLINK | PCIE_SLTCTL_AIC_OFF;

const HPC_EVENT: u64 = 77;

/// A capability with its root capability, and what it asked for.
struct Port {
    config: PcieConfig,
    caps: PcieRootCaps,
    out: Vec<PortAction>,
}

impl Port {
    fn with_slot(slot: bool) -> Port {
        let mut caps = PcieRootCaps::new();
        let root_cap = caps.push_pcie_root_cap(PcieRootCap::new(1, 1));
        Port {
            config: PcieConfig::new(root_cap, slot, PcieDevicePortType::RootPort),
            caps,
            out: Vec::new(),
        }
    }

    fn new() -> Port {
        Port::with_slot(true)
    }

    fn write_sltctl(&mut self, value: u16) {
        self.config.write_pcie_cap(
            &mut self.caps,
            PCIE_SLTCTL_OFFSET,
            &value.to_le_bytes(),
            &mut self.out,
        );
    }

    fn write_sltsta(&mut self, value: u16) {
        self.config.write_pcie_cap(
            &mut self.caps,
            PCIE_SLTSTA_OFFSET,
            &value.to_le_bytes(),
            &mut self.out,
        );
    }

    fn set_slot_status(&mut self, flag: u16) {
        self.config.set_slot_status(flag, &mut self.out);
    }

    fn set_hpc_sender(&mut self) {
        self.config.hpc_sender = Some(HotPlugCompleteSender::new(HPC_EVENT));
    }

    fn is_hpc_armed(&self) -> bool {
        match &self.config.hpc_sender {
            Some(sender) => sender.armed,
            None => false,
        }
    }

    fn signalled(&self, event: u64) -> bool {
        self.out.contains(&PortAction::Signal(event))
    }
}

#[test]
fn sltctl_enable_drains_ready_notifications() {
    let mut port = Port::new();
    let event = port.config.get_ready_notification(Ok(5), None, &mut port.out);
    assert_eq!(event, Ok(5));
    assert!(!port.signalled(5));
    assert!(!port.config.is_hotplug_ready());

    port.write_sltctl(OFF);

    assert!(port.config.enabled);
    assert!(port.signalled(5));
    assert!(port.config.is_hotplug_ready());
}

#[test]
fn sltctl_enable_already_ready_signals_immediately() {
    let mut port = Port::new();
    port.write_sltctl(OFF);
    let event = port.config.get_ready_notification(Ok(6), None, &mut port.out);
    assert_eq!(event, Ok(6));
    assert!(port.signalled(6));
}

#[test]
fn power_indicator_off_to_blink_to_on_plug_success() {
    let mut port = Port::new();
    port.write_sltctl(OFF);
    port.set_slot_status(PCIE_SLTSTA_PDS);
    port.write_sltctl(BLINK);
    assert!(port.config.get_slot_status() & PCIE_SLTSTA_CC != 0);

    port.set_hpc_sender();
    port.write_sltctl(ON);
    assert!(port.is_hpc_armed());
    assert!(!port.signalled(HPC_EVENT));

    port.write_sltsta(PCIE_SLTSTA_CC);
    assert!(port.config.hpc_sender.is_none());
    assert!(port.signalled(HPC_EVENT));
}

#[test]
fn power_indicator_off_to_blink_to_off_plug_fail() {
    let mut port = Port::new();
    port.write_sltctl(OFF);
    port.set_slot_status(PCIE_SLTSTA_PDS);
    port.write_sltctl(BLINK);

    port.set_hpc_sender();
    port.write_sltctl(OFF);
    assert!(port.is_hpc_armed());
    assert!(port.config.removed_downstream_valid);
    assert_eq!(port.config.get_slot_status() & PCIE_SLTSTA_PDS, 0);

    port.write_sltsta(PCIE_SLTSTA_CC);
    assert!(port.config.hpc_sender.is_none());
    assert!(port.signalled(HPC_EVENT));
}

#[test]
fn power_indicator_on_to_blink_to_off_unplug() {
    let mut port = Port::new();
    port.write_sltctl(ON);
    port.set_slot_status(PCIE_SLTSTA_PDS);
    port.config.enabled = true;
    port.write_sltctl(BLINK);

    port.set_hpc_sender();
    port.write_sltctl(OFF);
    assert!(port.is_hpc_armed());
    assert!(port.config.removed_downstream_valid);
    assert_eq!(port.config.get_slot_status() & PCIE_SLTSTA_PDS, 0);

    port.write_sltsta(PCIE_SLTSTA_CC);
    assert!(port.config.hpc_sender.is_none());
    assert!(port.signalled(HPC_EVENT));
}

#[test]
fn removed_downstream_valid_set_when_pds_cleared_by_pic_off() {
    let mut port = Port::new();
    port.write_sltctl(ON);
    port.config.enabled = true;
    port.set_slot_status(PCIE_SLTSTA_PDS);
    assert!(!port.config.removed_downstream_valid);

    port.write_sltctl(OFF);
    assert!(port.config.removed_downstream_valid);
    assert_eq!(port.config.get_slot_status() & PCIE_SLTSTA_PDS, 0);
}

#[test]
fn removed_downstream_valid_not_set_when_pds_not_set() {
    let mut port = Port::new();
    port.write_sltctl(ON);
    port.config.enabled = true;

    port.write_sltctl(OFF);
    assert!(!port.config.removed_downstream_valid);
}

#[test]
fn sltsta_w1c_behavior() {
    let mut port = Port::new();
    port.set_slot_status(
        PCIE_SLTSTA_ABP | PCIE_SLTSTA_PFD | PCIE_SLTSTA_PDC | PCIE_SLTSTA_CC | PCIE_SLTSTA_DLLSC,
    );
    assert_ne!(port.config.get_slot_status(), 0);

    port.write_sltsta(PCIE_SLTSTA_ABP);
    assert_eq!(port.config.get_slot_status() & PCIE_SLTSTA_ABP, 0);
    assert_ne!(port.config.get_slot_status() & PCIE_SLTSTA_PFD, 0);
    assert_ne!(port.config.get_slot_status() & PCIE_SLTSTA_PDC, 0);
    assert_ne!(port.config.get_slot_status() & PCIE_SLTSTA_CC, 0);
    assert_ne!(port.config.get_slot_status() & PCIE_SLTSTA_DLLSC, 0);

    port.write_sltsta(PCIE_SLTSTA_PFD);
    assert_eq!(port.config.get_slot_status() & PCIE_SLTSTA_PFD, 0);

    port.write_sltsta(PCIE_SLTSTA_PDC);
    assert_eq!(port.config.get_slot_status() & PCIE_SLTSTA_PDC, 0);

    port.write_sltsta(PCIE_SLTSTA_CC);
    assert_eq!(port.config.get_slot_status() & PCIE_SLTSTA_CC, 0);

    port.write_sltsta(PCIE_SLTSTA_DLLSC);
    assert_eq!(port.config.get_slot_status() & PCIE_SLTSTA_DLLSC, 0);

    assert_eq!(port.config.get_slot_status(), 0);
}

#[test]
fn sltsta_w1c_clears_multiple_bits_at_once() {
    let all =
        PCIE_SLTSTA_ABP | PCIE_SLTSTA_PFD | PCIE_SLTSTA_PDC | PCIE_SLTSTA_CC | PCIE_SLTSTA_DLLSC;
    let mut port = Port::new();
    port.set_slot_status(all);
    port.write_sltsta(all);
    assert_eq!(port.config.get_slot_status() & all, 0);
}

#[test]
fn deferred_hp_interrupt_fires_when_hpie_enabled() {
    let mut port = Port::new();
    port.config.hp_interrupt_pending = true;
    port.write_sltctl(OFF);
    assert!(!port.config.hp_interrupt_pending);
}

#[test]
fn no_slot_impl_sltctl_write_is_noop() {
    let mut port = Port::with_slot(false);
    port.write_sltctl(PCIE_SLTCTL_PDCE | PCIE_SLTCTL_ABPE | PCIE_SLTCTL_CCIE | PCIE_SLTCTL_HPIE);
    assert_eq!(port.config.get_slot_control(), 0);
    assert!(!port.config.enabled);
}

#[test]
fn no_slot_impl_sltsta_write_is_noop() {
    let mut port = Port::with_slot(false);
    port.write_sltsta(PCIE_SLTSTA_ABP);
    assert_eq!(port.config.get_slot_status(), 0);
}

#[test]
fn hpc_sender_not_armed_if_pic_not_transitioning_from_blink() {
    let mut port = Port::new();
    port.write_sltctl(OFF);
    port.config.enabled = true;
    port.set_hpc_sender();
    port.write_sltctl(ON);
    assert!(!port.is_hpc_armed());
}

#[test]
fn sltsta_write_does_not_signal_unarmed_hpc_sender() {
    let mut port = Port::new();
    port.set_hpc_sender();
    port.write_sltsta(PCIE_SLTSTA_CC);
    assert!(port.config.hpc_sender.is_some());
}

#[test]
fn read_sltctl_returns_correct_values() {
    let mut port = Port::new();
    let ctl_value = PCIE_SLTCTL_PDCE | PCIE_SLTCTL_HPIE | PCIE_SLTCTL_PIC_ON;
    port.write_sltctl(ctl_value);
    port.set_slot_status(PCIE_SLTSTA_PDS | PCIE_SLTSTA_ABP);

    let mut data = 0u32;
    port.config
        .read_pcie_cap(&port.caps, PCIE_SLTCTL_OFFSET, &mut data);

    let read_ctl = (data & 0xFFFF) as u16;
    let read_sta = ((data >> 16) & 0xFFFF) as u16;
    assert_eq!(read_ctl, ctl_value);
    assert_eq!(
        read_sta & (PCIE_SLTSTA_PDS | PCIE_SLTSTA_ABP),
        PCIE_SLTSTA_PDS | PCIE_SLTSTA_ABP
    );
}

#[test]
fn removed_downstream_valid_cleared_on_any_write() {
    let mut port = Port::new();
    port.write_sltctl(ON);
    port.config.enabled = true;
    port.set_slot_status(PCIE_SLTSTA_PDS);
    port.write_sltctl(OFF);
    assert!(port.config.removed_downstream_valid);

    port.write_sltctl(OFF);
    assert!(!port.config.removed_downstream_valid);
}

#[test]
fn cc_bit_set_on_slot_control_change() {
    let mut port = Port::new();
    port.write_sltctl(PCIE_SLTCTL_PDCE | PCIE_SLTCTL_PIC_OFF | PCIE_SLTCTL_AIC_OFF);
    assert_ne!(port.config.get_slot_status() & PCIE_SLTSTA_CC, 0);
}

#[test]
fn cc_bit_not_set_on_same_slot_control_write() {
    let mut port = Port::new();
    port.write_sltctl(PCIE_SLTCTL_PIC_OFF | PCIE_SLTCTL_AIC_OFF);
    assert_eq!(port.config.get_slot_status() & PCIE_SLTSTA_CC, 0);
}

#[test]
fn command_completion_interrupts_where_enabled() {
    let mut port = Port::new();
    port.config.msi = Some(3);
    port.write_sltctl(PCIE_SLTCTL_PIC_ON | PCIE_SLTCTL_AIC_OFF);
    assert!(!port.out.contains(&PortAction::TriggerMsi(3)));
    port.write_sltctl(ON);
    assert!(port.out.contains(&PortAction::TriggerMsi(3)));
}

fn root_port(caps: &mut PcieRootCaps, bus: u8) -> PciePort {
    PciePort::new(
        caps,
        0x3420,
        "port".to_owned(),
        0,
        bus,
        true,
        PcieDevicePortType::RootPort,
    )
}

fn root_status(port: &PciePort, caps: &PcieRootCaps) -> u32 {
    let mut data = 0u32;
    port.pcie_config
        .read_pcie_cap(caps, PCIE_ROOTSTA_OFFSET, &mut data);
    data
}

#[test]
fn root_status_holds_one_event_and_queues_another() {
    let mut caps = PcieRootCaps::new();
    let mut port = root_port(&mut caps, 1);
    let mut out: Vec<PortAction> = Vec::new();
    port.clone_interrupt(&mut caps, 8);
    port.pcie_config.write_pcie_cap(
        &mut caps,
        PCIE_ROOTCTL_OFFSET,
        &PCIE_ROOTCTL_PME_ENABLE.to_le_bytes(),
        &mut out,
    );
    assert!(out.is_empty());

    port.inject_pme(&mut caps, 0x100, &mut out);
    assert_eq!(root_status(&port, &caps), 0x100 | PCIE_ROOTSTA_PME_STATUS);
    assert_eq!(out, vec![PortAction::TriggerMsi(8)]);

    port.inject_pme(&mut caps, 0x200, &mut out);
    assert_eq!(
        root_status(&port, &caps),
        0x100 | PCIE_ROOTSTA_PME_STATUS | PCIE_ROOTSTA_PME_PENDING
    );
    assert_eq!(out.len(), 1);

    let clear = PCIE_ROOTSTA_PME_STATUS.to_le_bytes();
    port.pcie_config
        .write_pcie_cap(&mut caps, PCIE_ROOTSTA_OFFSET, &clear, &mut out);
    assert_eq!(root_status(&port, &caps), 0x200 | PCIE_ROOTSTA_PME_STATUS);
    assert_eq!(out.len(), 2);

    port.pcie_config
        .write_pcie_cap(&mut caps, PCIE_ROOTSTA_OFFSET, &clear, &mut out);
    assert_eq!(root_status(&port, &caps), 0x200);
    assert_eq!(out.len(), 2);
}

#[test]
fn ports_behind_a_root_port_use_its_capability() {
    let mut caps = PcieRootCaps::new();
    let first = root_port(&mut caps, 1);
    let second = root_port(&mut caps, 2);
    assert_eq!(first.pcie_config.root_cap, 0);
    assert_eq!(second.pcie_config.root_cap, 1);
    let behind = PciePort::new(
        &mut caps,
        1,
        "upstream".to_owned(),
        2,
        3,
        false,
        PcieDevicePortType::UpstreamPort,
    );
    assert_eq!(behind.pcie_config.root_cap, 1);
    assert_eq!(caps.get_pcie_root_cap(2), Some(1));
    assert_eq!(caps.get_pcie_root_cap(9), None);
}

fn host_port(address: Option<PciAddress>) -> PcieHostPort {
    PcieHostPort {
        device_id: 0x1234,
        name: "0000:00:1c.0".to_owned(),
        address,
        bus_range: PciBridgeBusRange {
            primary: 0,
            secondary: 4,
            subordinate: 5,
        },
        window: (0x10_0000, 0x20_0000),
    }
}

#[test]
fn host_port_is_reserved_at_its_address() {
    let address = PciAddress {
        bus: 0,
        dev: 0x1c,
        func: 0,
    };
    let mut caps = PcieRootCaps::new();
    let mut port = PciePort::new_from_host(
        &mut caps,
        host_port(Some(address)),
        true,
        PcieDevicePortType::RootPort,
    )
    .unwrap();
    assert_eq!(port.get_device_id(), 0x1234);
    assert_eq!(port.debug_label(), "0000:00:1c.0");
    assert_eq!(port.get_bridge_window_size(), (0x10_0000, 0x20_0000));
    assert_eq!(port.address_request(), AddressRequest::Reserve(address));
    assert_eq!(
        port.allocate_address(false, None),
        Err(PciDeviceError::PciAllocationFailed)
    );
    assert_eq!(port.allocate_address(true, None), Ok(address));
    assert_eq!(port.address_request(), AddressRequest::Nothing);
    assert_eq!(port.allocate_address(false, None), Ok(address));
}

#[test]
fn host_port_without_address_is_refused() {
    let mut caps = PcieRootCaps::new();
    let r = PciePort::new_from_host(
        &mut caps,
        host_port(None),
        true,
        PcieDevicePortType::RootPort,
    );
    match r {
        Err(e) => assert_eq!(
            e,
            PciDeviceError::PciAddressParseFailure("0000:00:1c.0".to_owned())
        ),
        Ok(_) => panic!("expected a failure"),
    }
}

#[test]
fn notifications_can_fail() {
    let mut port = Port::new();
    assert_eq!(
        port.config.get_ready_notification(Err(24), None, &mut port.out),
        Err(PciDeviceError::EventCreationFailed(24))
    );
    assert_eq!(
        port.config.get_ready_notification(Ok(5), Some(23), &mut port.out),
        Err(PciDeviceError::EventCloneFailed(23))
    );
    port.write_sltctl(OFF);
    // An event that could not be cloned does not wait.
    assert!(!port.signalled(5));
    assert_eq!(
        port.config.get_ready_notification(Ok(6), Some(5), &mut port.out),
        Err(PciDeviceError::EventSignalFailed(5))
    );
}
