use vmm_devices::pci_address::PciAddress;
use vmm_devices::vfio_pci::{
    active_thread, add_bar_mmap, allocate_bar_addr, bar_register, bar_size, capability_list_ends, choose_allocator,
    classify_bar, keep_fds, mmap_slot, AllocError, AllocatorKind, BarAnswer, BarKind, MmapRequest,
    PciDeviceError, ServerAction, ServerEvent, VfioAction, VfioMsiCap, VfioMsiChange,
    VfioPciDevice, VfioServerRequest, VfioServerResponse, CONFIG_SPAN, EINVAL,
    VFIO_REGION_INFO_FLAG_MMAP,
};
use vmm_devices::virtio_pci_device::{
    allocate_device_bars, bar_region, BarAccess, BarError,
    BarRegion, ConfigWrite, DeviceBar, EventClones, PciCapabilityType,
    PciClass, QueueState, VirtioPciCap, VirtioPciDevice, VirtioPciShmCap, DEVICE_READY,
    DEVICE_RESET, ERANGE, TYPE_GPU,
};

/// A configuration with one capability for MSI at 0x50.
fn config(ctl: u16) -> Vec<u8> {
    let mut c = vec![0u8; CONFIG_SPAN];
    c[0x34] = 0x50;
    c[0x50] = 5;
    c[0x51] = 0;
    c[0x52] = ctl as u8;
    c[0x53] = (ctl >> 8) as u8;
    c
}

#[test]
fn msi_is_found_in_the_capability_list() {
    let c = config(0x80);
    assert!(capability_list_ends(&c));
    let cap = VfioMsiCap::new(&c);
    assert_eq!(cap.offset, 0x50);
    assert_eq!(cap.size, 0xe);
    assert!(cap.is_msi_reg(0x50, 4));
    assert!(!cap.is_msi_reg(0x5e, 2));
    let mut looped = c;
    looped[0x51] = 0x50;
    looped[0x50] = 1;
    assert!(!capability_list_ends(&looped));
}

#[test]
fn msi_is_enabled_by_its_control_word() {
    let mut cap = VfioMsiCap::new(&config(0x80));
    assert!(!cap.is_msi_enabled());
    assert_eq!(cap.write_msi_reg(0x54, &0xfee0_1000u32.to_le_bytes()), None);
    assert_eq!(cap.write_msi_reg(0x58, &1u32.to_le_bytes()), None);
    assert_eq!(cap.write_msi_reg(0x5c, &0x4021u16.to_le_bytes()), None);
    assert_eq!(cap.get_msi_address(), 0x1_fee0_1000);
    assert_eq!(cap.get_msi_data(), 0x4021);
    assert_eq!(
        cap.write_msi_reg(0x52, &0x81u16.to_le_bytes()),
        Some(VfioMsiChange::Enable)
    );
    assert!(cap.is_msi_enabled());
    assert_eq!(cap.write_msi_reg(0x52, &0x81u16.to_le_bytes()), None);
    assert_eq!(
        cap.write_msi_reg(0x52, &0x80u16.to_le_bytes()),
        Some(VfioMsiChange::Disable)
    );
}

#[test]
fn config_writes_activate_the_device() {
    let mut device = VfioPciDevice::new(&config(0));
    device.assign_bus_dev(1, 2);
    assert_eq!(device.pci_bus_dev, Some((1, 2)));
    assert_eq!(device.assign_irq(7, 1), (7, 2));
    let actions = device.write_config_register(1, 0, &[6]);
    assert!(actions.contains(&VfioAction::Activate));
    let actions = device.write_config_register(1, 0, &[6]);
    assert!(!actions.contains(&VfioAction::Activate));
}

#[test]
fn regions_are_kinds_of_memory_or_ports() {
    assert_eq!(classify_bar(0, 0xffff_f000), (BarKind::Memory, false));
    assert_eq!(classify_bar(0, 0xffff_f004), (BarKind::Memory, true));
    assert_eq!(classify_bar(0, 0xffff_ff01).0, BarKind::Port);
    assert_eq!(classify_bar(0, 0).0, BarKind::Absent);
    assert_eq!(bar_size(0xffff_f000, 0xffff_ffff), 0x1000);
    assert_eq!(bar_register(0), 0x10);
    assert_eq!(bar_register(6), 0x30);
}

#[test]
fn regions_of_the_device_are_allocated() {
    let mut device = VfioPciDevice::new(&config(0));
    let absent = BarAnswer {
        low: 0,
        upper: 0,
        addr: Ok(0),
    };
    let mut answers = [absent; 7];
    answers[0] = BarAnswer {
        low: 0xffff_f000,
        upper: 0xffff_ffff,
        addr: Ok(0x8000_0000),
    };
    answers[1] = BarAnswer {
        low: 0xffff_ff01,
        upper: 0,
        addr: Ok(0),
    };
    let (ranges, writes) = device.allocate_io_bars(&answers);
    assert_eq!(ranges.unwrap(), vec![(0x8000_0000, 0x1000)]);
    assert!(writes.contains(&(0x10, 0x8000_0000)));
    assert_eq!(device.io_regions.len(), 1);
    assert_eq!(device.bar_access(0x8000_0010), Some((0, 0x10)));
    assert_eq!(device.bar_access(0x8000_1000), None);
    assert!(device.find_region(0x8000_0fff).is_some());
}

#[test]
fn allocators_are_tried_in_turn() {
    let failed = Err(AllocError::Other(3));
    assert_eq!(
        choose_allocator(0, 0x1000, false, failed),
        Err(PciDeviceError::IoAllocationFailed(
            0x1000,
            AllocError::Other(3)
        ))
    );
    let first = choose_allocator(0, 0x1000, true, Ok(0x1_0000_0000)).unwrap();
    let other = choose_allocator(0, 0x1000, false, Ok(0x1_0000_0000)).unwrap();
    assert_ne!(first, other);
    assert_eq!(
        choose_allocator(0, 0x1000, true, Err(AllocError::OutOfSpace)),
        Ok(other)
    );
    assert!(matches!(
        first,
        AllocatorKind::Device | AllocatorKind::Mmio
    ));
}

#[test]
fn addresses_come_from_the_chosen_allocator() {
    let device = Ok(0x2_0000_0000);
    let mmio = Ok(0x8000_0000);
    let flags = VFIO_REGION_INFO_FLAG_MMAP;
    assert_eq!(
        allocate_bar_addr(flags, 0x1000, true, device, device, mmio),
        device_addr(0x2_0000_0000)
    );
    assert_eq!(
        allocate_bar_addr(flags, 0x1000, false, device, device, mmio),
        device_addr(0x8000_0000)
    );
    assert_eq!(
        allocate_bar_addr(0, 0x1000, false, mmio, device, Err(AllocError::OutOfSpace)),
        Err(PciDeviceError::IoAllocationFailed(
            0x1000,
            AllocError::OutOfSpace
        ))
    );
}

fn device_addr(addr: u64) -> Result<u64, PciDeviceError> {
    Ok(addr)
}

#[test]
fn regions_are_mapped_where_the_device_allows() {
    assert_eq!(
        add_bar_mmap(
            VFIO_REGION_INFO_FLAG_MMAP,
            (0x100, 0x200),
            0x1_0000,
            0x8000_0000
        ),
        Some(MmapRequest {
            size: 0x200,
            offset: 0x1_0100,
            guest_addr: 0x8000_0100
        })
    );
    assert_eq!(add_bar_mmap(0, (0, 0x200), 0, 0), None);
    assert_eq!(
        add_bar_mmap(VFIO_REGION_INFO_FLAG_MMAP, (0, 0), 0, 0),
        None
    );
    assert_eq!(mmap_slot(Some(4), true), Some(4));
    assert_eq!(mmap_slot(Some(4), false), None);
}

#[test]
fn requests_are_answered() {
    let map = VfioServerRequest::DmaMap {
        iova: 1,
        size: 2,
        host_addr: 3,
    };
    assert_eq!(
        active_thread(ServerEvent::Request(map)),
        ServerAction::MapDma {
            iova: 1,
            size: 2,
            host_addr: 3
        }
    );
    assert_eq!(
        active_thread(ServerEvent::Handled(true)),
        ServerAction::Respond(VfioServerResponse::Done)
    );
    assert_eq!(
        active_thread(ServerEvent::Handled(false)),
        ServerAction::Respond(VfioServerResponse::Failed(EINVAL))
    );
    assert_eq!(active_thread(ServerEvent::WaitFailed), ServerAction::Exit);
    assert_eq!(
        active_thread(ServerEvent::ReceiveFailed),
        ServerAction::Unwatch
    );
    assert_eq!(active_thread(ServerEvent::Sent), ServerAction::Wait);
}

#[test]
fn descriptors_are_kept() {
    assert_eq!(
        keep_fds(&[3, 4], Some(5), None, 6, Some(7)),
        vec![3, 4, 5, 6, 7]
    );
}

#[test]
fn capabilities_have_their_layout() {
    let cap = VirtioPciCap::new(PciCapabilityType::CommonConfig, 4, 0x10, 56);
    let b = cap.bytes();
    assert_eq!(b.len(), 16);
    assert_eq!(b[2..5], [16, 1, 4]);
    assert_eq!(b[8..12], [0x10, 0, 0, 0]);
    let shm = VirtioPciShmCap::new(
        PciCapabilityType::SharedMemoryConfig,
        2,
        0x1_0000_0002,
        0x3_0000_0004,
        7,
    );
    assert_eq!((shm.cap.offset, shm.offset_hi), (2, 1));
    assert_eq!((shm.cap.length, shm.length_hi), (4, 3));
    assert_eq!(shm.cap.id, 7);
    let device = VirtioPciDevice::new(2, 3).unwrap();
    let (all, msix) = device.add_settings_pci_capabilities(1);
    assert_eq!(all.len(), 5);
    assert_eq!((msix.table_bar, msix.pba_bar), (1, 1));
    assert_eq!(msix.num_vectors, 4);
    assert_eq!((msix.table_offset, msix.pba_offset), (0x6000, 0x7000));
}

#[test]
fn addresses_fall_into_regions() {
    assert_eq!(bar_region(0x1_0004, 0x1_0000), BarRegion::CommonConfig(4));
    assert_eq!(bar_region(0x1_1000, 0x1_0000), BarRegion::Isr);
    assert_eq!(bar_region(0x1_1001, 0x1_0000), BarRegion::Nothing);
    assert_eq!(bar_region(0x1_2fff, 0x1_0000), BarRegion::DeviceConfig(0xfff));
    assert_eq!(bar_region(0x1_3000, 0x1_0000), BarRegion::Notification);
    assert_eq!(bar_region(0x1_6010, 0x1_0000), BarRegion::MsixTable(0x10));
    assert_eq!(bar_region(0x1_7010, 0x1_0000), BarRegion::MsixPba(0x10));
}

#[test]
fn device_activates_and_resets() {
    let mut device = VirtioPciDevice::new(2, 2).unwrap();
    assert_eq!(device.identity.device_id, 0x1042);
    device.assign_irq();
    device.driver_status = DEVICE_READY;
    device.queues = vec![
        QueueState {
            ready: true,
            valid: true,
        },
        QueueState {
            ready: false,
            valid: true,
        },
    ];
    let clones = EventClones {
        interrupt: true,
        resample: true,
        queues: true,
    };
    assert!(device.is_driver_ready());
    assert_eq!(device.try_activate(clones), Some(vec![0]));
    assert!(device.device_activated);
    assert_eq!(device.try_activate(clones), None);
    device.driver_status = DEVICE_RESET;
    assert!(device.wants_reset());
    device.finish_reset(true);
    assert!(!device.device_activated);
    assert!(device.queues.iter().all(|q| !q.ready));
}

#[test]
fn interrupt_status_is_read_once() {
    let mut device = VirtioPciDevice::new(TYPE_GPU, 1).unwrap();
    assert_eq!(device.identity.class, PciClass::Display);
    device.interrupt_status = 3;
    let mut data = [0u8; 1];
    device.read_isr(&mut data);
    assert_eq!(data, [3]);
    assert_eq!(device.interrupt_status, 0);
    device.interrupt_status = 3;
    device.write_isr(&[1]);
    assert_eq!(device.interrupt_status, 2);
}

#[test]
fn devices_have_limits_and_places() {
    assert_eq!(VirtioPciDevice::new(1, 0x1_0000).err(), Some(ERANGE));
    let mut device = VirtioPciDevice::new(1, 2).unwrap();
    assert_eq!(device.ioevents(0x1_0000), vec![0x1_3000, 0x1_3004]);
    let address = PciAddress {
        bus: 0,
        dev: 3,
        func: 0,
    };
    assert_eq!(
        device.allocate_address(None),
        Err(vmm_devices::pcie_port::PciDeviceError::PciAllocationFailed)
    );
    assert_eq!(device.allocate_address(Some(address)), Ok(address));
    assert_eq!(device.allocate_address(None), Ok(address));
    device.set_capabilities(0, 0x40);
    assert!(device.is_msix_register(0x10));
    assert_eq!(
        device.write_config_register(0x10),
        vec![
            ConfigWrite::MsixCapability,
            ConfigWrite::ControlNotify,
            ConfigWrite::Register
        ]
    );
    assert_eq!(
        device.write_config_register(0x11),
        vec![ConfigWrite::Register]
    );
}

#[test]
fn region_accesses_are_dispatched() {
    let mut device = VirtioPciDevice::new(2, 1).unwrap();
    device.interrupt_status = 1;
    let mut data = [0u8; 1];
    assert_eq!(
        device.read_bar(0x1_1000, 0x1_0000, &mut data),
        BarAccess::Complete
    );
    assert_eq!(data, [1]);
    assert_eq!(device.interrupt_status, 0);
    assert_eq!(
        device.read_bar(0x1_2008, 0x1_0000, &mut data),
        BarAccess::DeviceConfig(8)
    );
    device.interrupt_status = 3;
    assert_eq!(
        device.write_bar(0x1_1000, 0x1_0000, &[2]),
        BarAccess::Complete
    );
    assert_eq!(device.interrupt_status, 1);
    assert_eq!(
        device.write_bar(0x1_0014, 0x1_0000, &[15]),
        BarAccess::CommonConfig(0x14)
    );
}

#[test]
fn writes_end_with_activation_or_reset() {
    let mut device = VirtioPciDevice::new(2, 2).unwrap();
    device.assign_irq();
    let clones = EventClones {
        interrupt: true,
        resample: true,
        queues: true,
    };
    let ready = QueueState {
        ready: true,
        valid: true,
    };
    let end = device.end_write(clones, true);
    assert!(end.activated.is_none() && !end.reset);
    device.common_config_written(DEVICE_READY, 1, vec![ready, ready]);
    let end = device.end_write(clones, true);
    assert_eq!(end.activated, Some(vec![0, 1]));
    assert!(!end.reset);
    device.common_config_written(DEVICE_RESET, 1, vec![ready, ready]);
    let end = device.end_write(clones, false);
    assert!(end.reset);
    assert!(device.device_activated);
    let end = device.end_write(clones, true);
    assert!(end.reset);
    assert!(!device.device_activated);
    assert_eq!(device.queue_select, 0);
    assert!(device.queues.iter().all(|q| !q.ready));
}

#[test]
fn virtio_regions_are_allocated() {
    let mut device = VirtioPciDevice::new(2, 1).unwrap();
    device
        .allocate_address(Some(PciAddress {
            bus: 0,
            dev: 1,
            func: 0,
        }))
        .unwrap();
    assert_eq!(
        device.allocate_io_bars(None, Some(0), Some(0x40)),
        Err(BarError::IoAllocationFailed(0x8000))
    );
    assert_eq!(
        device.allocate_io_bars(Some(0x1000), None, Some(0x40)),
        Err(BarError::IoRegistrationFailed(0x1000))
    );
    assert_eq!(
        device.allocate_io_bars(Some(0x1000), Some(2), None),
        Err(BarError::CapabilitiesSetup)
    );
    assert_eq!(
        device.allocate_io_bars(Some(0x1000), Some(2), Some(0x40)),
        Ok((0x1000, 0x8000))
    );
    assert_eq!(device.settings_bar, 2);
    assert_eq!(device.read_config_register(0x10, 1, 2), 2);
    assert_eq!(device.read_config_register(0x11, 1, 2), 1);
    let good = DeviceBar {
        size: 0x100,
        addr: Some(0x9000),
        registered: true,
    };
    let bad = DeviceBar {
        addr: None,
        ..good
    };
    assert_eq!(
        allocate_device_bars(&[good, good]),
        Ok(vec![(0x9000, 0x100), (0x9000, 0x100)])
    );
    assert_eq!(
        allocate_device_bars(&[good, bad]),
        Err(BarError::IoAllocationFailed(0x100))
    );
    assert_eq!(
        device.keep_rds(&[1, 2], Some(3), None, 4),
        vec![1, 2, 3, 4]
    );
    assert_eq!(device.debug_label("virtio-block"), "pcivirtio-block");
}
