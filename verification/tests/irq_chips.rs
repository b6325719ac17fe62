use vmm_devices::gic::{
    GicCpuInterface, GicDistributor, GicRedistributor, GICD_CTLR, GICD_CTLR_ENABLE_G1NS,
    GICD_ICENABLER, GICD_IGROUPR, GICD_IPRIORITYR, GICD_IROUTER, GICD_ISENABLER, GICD_ISPENDR,
    GICD_PIDR2, GICR_IGROUPR0, GICR_IPRIORITYR, GICR_ISENABLER0, GICR_TYPER, GICR_WAKER,
    GIC_IDLE_PRIORITY, GIC_PIDR2_ARCH_GICV3, GIC_SPURIOUS_INTID, VTIMER_INTID, VTIMER_PPI,
};
use vmm_devices::hvf::{
    default_irq_routing_table, gic_redist_base, DeviceKind, GicDevice, HvfIrqChip,
};
use vmm_devices::irq_route::{
    routes_conflict, IrqRoute, IrqSource, IrqSourceChip, VcpuRunState,
};
use vmm_devices::kvm_irqchip::{
    ioapic_pin_count, kvm_default_irq_routing_table, pit_errno, BusInsert, IrqAction, IrqChipCap,
    KvmKernelIrqChip, KvmSplitIrqChip, PitError,
};

const PIT_EVENT: u64 = 100;

fn get_split_chip() -> KvmSplitIrqChip {
    let (mut chip, _, _) = KvmSplitIrqChip::new(1, 24, PIT_EVENT);
    chip.add_vcpu(0, 1);
    chip
}

#[test]
fn split_irqchip_routes_conflict() {
    let mut chip = get_split_chip();
    let msi = |data| IrqRoute {
        gsi: 5,
        source: IrqSource::Msi {
            address: 4276092928,
            data,
        },
    };
    let routes = chip.route_irq(msi(0));
    assert!(routes.contains(&msi(0)));
    // this second route should replace the first
    let routes = chip.route_irq(msi(32801));
    assert!(routes.contains(&msi(32801)));
    assert!(!routes.contains(&msi(0)));
}

#[test]
fn irq_event_tokens() {
    let mut chip = get_split_chip();
    let tokens = chip.irq_event_tokens();

    // there should be one token on a fresh split irqchip, for the pit
    assert_eq!(tokens.len(), 1);
    assert_eq!(tokens[0].1, 0);

    // register another irq event
    chip.register_edge_irq_event(6, 55);
    let tokens = chip.irq_event_tokens();

    // now there should be two tokens
    assert_eq!(tokens.len(), 2);
    assert_eq!(tokens[0].1, 0);
    assert_eq!(tokens[1].1, 6);
    assert_eq!(tokens[1].2, 55);
}

/// A PIC that keeps the lines that were raised. Its vectors start at zero.
struct Pic {
    requested: Vec<u8>,
}

impl Pic {
    fn serve(&mut self, actions: &[IrqAction]) {
        for action in actions {
            if let IrqAction::Pic { pin, level } = action {
                self.requested.retain(|p| p != pin);
                if *level {
                    self.requested.push(*pin);
                }
            }
        }
    }

    fn interrupt_requested(&self) -> bool {
        !self.requested.is_empty()
    }

    fn get_external_interrupt(&mut self) -> Option<u8> {
        self.requested.pop()
    }
}

#[test]
fn get_external_interrupt() {
    let chip = get_split_chip();
    let mut pic = Pic { requested: vec![] };
    assert!(!chip.interrupt_requested(0, pic.interrupt_requested()));

    pic.serve(&chip.service_irq(0, true));
    assert!(chip.interrupt_requested(0, pic.interrupt_requested()));

    // Should return Some interrupt
    assert_eq!(
        chip.get_external_interrupt(0, pic.get_external_interrupt()),
        Some(0)
    );

    // interrupt is not requested twice
    assert!(!chip.interrupt_requested(0, pic.interrupt_requested()));
}

#[test]
fn only_the_first_vcpu_takes_pic_interrupts() {
    let (chip, _, _) = KvmSplitIrqChip::new(2, 24, PIT_EVENT);
    assert!(!chip.interrupt_requested(1, true));
    assert_eq!(chip.get_external_interrupt(1, Some(8)), None);
}

#[test]
fn lines_reach_pic_and_ioapic() {
    let chip = get_split_chip();
    assert_eq!(
        chip.service_irq(4, true),
        vec![
            IrqAction::Pic {
                pin: 4,
                level: true
            },
            IrqAction::Ioapic {
                pin: 4,
                level: true
            },
        ]
    );
}

#[test]
fn delayed_events_are_served_later() {
    let mut chip = get_split_chip();
    let index = chip.register_edge_irq_event(6, 55).unwrap();
    let actions = chip.service_irq_event(index);
    assert!(actions.contains(&IrqAction::TryIoapic {
        pin: 6,
        pulse: true
    }));
    assert_eq!(chip.delay_irq_event(index), IrqAction::TriggerDelayed);
    assert_eq!(chip.delayed_ioapic_irq_events, vec![index]);
    chip.process_delayed_irq_events(&[true]);
    assert_eq!(chip.delayed_ioapic_irq_events, vec![index]);
    chip.process_delayed_irq_events(&[false]);
    assert!(chip.delayed_ioapic_irq_events.is_empty());
}

#[test]
fn unregistered_events_are_gone() {
    let mut chip = get_split_chip();
    chip.register_level_irq_event(7, 60, 61);
    assert_eq!(chip.resample_events(7), vec![61]);
    chip.unregister_irq_event(7, 60);
    assert_eq!(chip.irq_event_tokens().len(), 1);
    assert!(chip.resample_events(7).is_empty());
}

#[test]
fn kernel_chip_has_the_default_routes() {
    let chip = KvmKernelIrqChip::new(Ok(24), 2).unwrap();
    assert_eq!(chip.routes, kvm_default_irq_routing_table(24));
    assert_eq!(chip.vcpus.len(), 2);
    assert!(KvmKernelIrqChip::new(Err(5), 2).is_err());
    assert!(chip.lapic_vcpu(0).is_err());
    assert!(!chip.pit_uses_speaker_port());
}

#[test]
fn pit_errors_have_numbers() {
    assert_eq!(pit_errno(PitError::CloneEvent(9)), 9);
    assert_eq!(pit_errno(PitError::WaitError(11)), 11);
}

#[test]
fn capabilities() {
    let chip = get_split_chip();
    assert!(chip.check_capability(IrqChipCap::X2Apic, false));
    assert!(chip.check_capability(IrqChipCap::TscDeadlineTimer, true));
    assert!(!chip.check_capability(IrqChipCap::TscDeadlineTimer, false));
}

#[test]
fn conflicts_are_symmetric() {
    let msi = IrqRoute {
        gsi: 1,
        source: IrqSource::Msi {
            address: 2,
            data: 3,
        },
    };
    let line = IrqRoute {
        gsi: 1,
        source: IrqSource::Irqchip {
            chip: IrqSourceChip::Ioapic,
            pin: 1,
        },
    };
    assert_eq!(
        routes_conflict(&msi, &line),
        routes_conflict(&line, &msi)
    );
    assert!(routes_conflict(&msi, &msi));
}

fn write_dist(chip: &mut HvfIrqChip, offset: u64, value: u32) {
    chip.distributor.write(offset, &value.to_le_bytes());
}

fn read_dist(chip: &mut HvfIrqChip, offset: u64) -> u32 {
    let mut data = [0u8; 4];
    chip.distributor.read(offset, &mut data);
    u32::from_le_bytes(data)
}

/// A chip whose interrupts are all enabled in group 1.
fn enabled_chip(cpus: usize) -> HvfIrqChip {
    let mut chip = HvfIrqChip::new(cpus);
    write_dist(&mut chip, GICD_CTLR, GICD_CTLR_ENABLE_G1NS);
    write_dist(&mut chip, GICD_IGROUPR + 4, 0xffff_ffff);
    write_dist(&mut chip, GICD_ISENABLER + 4, 0xffff_ffff);
    for redist in chip.redistributors.iter_mut() {
        redist.write(GICR_IGROUPR0, &0xffff_ffffu32.to_le_bytes());
        redist.write(GICR_ISENABLER0, &0xffff_ffffu32.to_le_bytes());
    }
    for cpu in chip.cpu_interfaces.iter_mut() {
        cpu.write_pmr(0xf0);
        cpu.write_igrpen(1, 1);
    }
    chip
}

#[test]
fn spi_is_delivered_acknowledged_and_ended() {
    let mut chip = enabled_chip(1);
    chip.set_spi_pending(3);
    assert!(chip.should_signal_irq(0));
    let (intid, _) = chip.get_highest_priority_pending(0).unwrap();
    assert_eq!(intid, 35);
    assert_eq!(chip.acknowledge_interrupt(0), 35);
    assert_eq!(chip.cpu_interfaces[0].active_intid, 35);
    assert_eq!(chip.acknowledge_interrupt(0), GIC_SPURIOUS_INTID);
    chip.end_of_interrupt(0, 35);
    assert_eq!(chip.cpu_interfaces[0].active_intid, GIC_SPURIOUS_INTID);
    assert_eq!(chip.cpu_interfaces[0].running_priority, GIC_IDLE_PRIORITY);
}

#[test]
fn lower_priority_values_come_first() {
    let mut chip = enabled_chip(1);
    // The priorities of the first four shared interrupts.
    write_dist(&mut chip, GICD_IPRIORITYR + 32, 0x40_80_20_60);
    chip.set_spi_pending(0);
    chip.set_spi_pending(1);
    chip.set_spi_pending(2);
    assert_eq!(chip.get_highest_priority_pending(0), Some((33, 0x20)));
}

#[test]
fn timer_interrupt_belongs_to_one_cpu() {
    let mut chip = enabled_chip(2);
    chip.set_ppi_pending(1, VTIMER_PPI);
    assert!(!chip.should_signal_irq(0));
    assert!(chip.should_signal_irq(1));
    assert_eq!(chip.acknowledge_interrupt(1), VTIMER_INTID);
    chip.clear_ppi_pending(1, VTIMER_PPI);
    assert!(chip.get_highest_priority_pending(1).is_none());
}

#[test]
fn masked_interrupts_are_diagnosed() {
    let mut chip = enabled_chip(1);
    chip.set_spi_pending(0);
    chip.cpu_interfaces[0].write_pmr(0);
    assert!(!chip.should_signal_irq(0));
    let d = chip.diagnose_irq_delivery(0).unwrap();
    assert_eq!(d.spi_pending, 1);
    let next = d.next.unwrap();
    assert_eq!(next.intid, 32);
    assert!(next.blocked_by_mask);
    assert!(!next.can_preempt);
    assert!(chip.diagnose_irq_delivery(9).is_none());
}

#[test]
fn registers_read_back() {
    let mut chip = HvfIrqChip::new(1);
    assert_eq!(read_dist(&mut chip, GICD_PIDR2), GIC_PIDR2_ARCH_GICV3);
    write_dist(&mut chip, GICD_ISENABLER + 4, 0xf0);
    write_dist(&mut chip, GICD_ISENABLER + 4, 0x0f);
    assert_eq!(read_dist(&mut chip, GICD_ISENABLER + 4), 0xff);
    write_dist(&mut chip, GICD_ICENABLER + 4, 0x3c);
    assert_eq!(read_dist(&mut chip, GICD_ISENABLER + 4), 0xc3);
    write_dist(&mut chip, GICD_ISPENDR + 4, 0x1);
    assert_eq!(read_dist(&mut chip, GICD_ISPENDR + 4), 0x1);
    let mut wide = [0u8; 8];
    chip.distributor
        .write(GICD_IROUTER + 32 * 8, &0x0102u64.to_le_bytes());
    chip.distributor.read(GICD_IROUTER + 32 * 8, &mut wide);
    assert_eq!(u64::from_le_bytes(wide), 0x0102);
}

#[test]
fn redistributors_know_their_place() {
    let mut first = GicRedistributor::new(0, false);
    let mut last = GicRedistributor::new(1, true);
    let mut data = [0u8; 4];
    first.read(GICR_TYPER, &mut data);
    assert_eq!(u32::from_le_bytes(data) & 0x10, 0);
    last.read(GICR_TYPER, &mut data);
    assert_eq!(u32::from_le_bytes(data) & 0x10, 0x10);
    first.write(GICR_IPRIORITYR + 24, &0xa0u32.to_le_bytes());
    assert_eq!(first.state().get_irq_priority(24), 0xa0);
    first.write(GICR_WAKER, &0u32.to_le_bytes());
    first.read(GICR_WAKER, &mut data);
    assert_eq!(u32::from_le_bytes(data) & 0x6, 0);
}

#[test]
fn cpu_interface_masks_by_priority() {
    let mut cpu = GicCpuInterface::new();
    assert!(cpu.can_preempt(0xfe));
    assert!(!cpu.can_preempt(0xff));
    cpu.write_pmr(0x80);
    assert!(cpu.can_preempt(0x10));
    assert!(!cpu.can_preempt(0x80));
    assert_eq!(cpu.acknowledge(Some(40), 0x10), 40);
    assert_eq!(cpu.read_rpr(), 0x10);
    assert!(!cpu.can_preempt(0x10));
    cpu.end_of_interrupt(41);
    assert_eq!(cpu.active_intid, 40);
    cpu.end_of_interrupt(40);
    assert_eq!(cpu.read_rpr(), 0xff);
    cpu.set_irq_pending();
    assert!(cpu.take_irq_pending());
    assert!(!cpu.take_irq_pending());
}

#[test]
fn gic_regions_do_not_overlap() {
    let chip = HvfIrqChip::new(3);
    let ranges = chip.register_devices();
    assert_eq!(ranges.len(), 4);
    assert_eq!(ranges[0].device, GicDevice::Distributor);
    for (i, a) in ranges.iter().enumerate() {
        for b in ranges.iter().skip(i + 1) {
            assert!(a.base + a.len <= b.base || b.base + b.len <= a.base);
        }
    }
    assert_eq!(chip.redistributor_base(), gic_redist_base(3));
    assert_eq!(default_irq_routing_table().len(), 32);
}

#[test]
fn level_events_ask_for_the_line_again() {
    let mut chip = enabled_chip(1);
    let index = chip.register_level_irq_event(2, 70, 71, 1).unwrap();
    assert_eq!(chip.irq_event_tokens().len(), 1);
    chip.service_irq_event(index);
    assert_eq!(chip.acknowledge_interrupt(0), 34);
    chip.service_irq(2, false);
    chip.unregister_irq_event(2);
    assert!(chip.irq_event_tokens().is_empty());
}

#[test]
fn reset_distributor_delivers_nothing() {
    let mut dist = GicDistributor::new(1);
    dist.state_mut().set_spi_pending(0);
    assert!(!dist.state().is_spi_deliverable(0));
    assert!(dist.state().get_highest_priority_pending_spi().is_none());
    assert!(!dist.state().is_group1_enabled());
}

#[test]
fn cpu_interface_registers_read_back() {
    let mut cpu = GicCpuInterface::new();
    assert_eq!(cpu.read_sre(), 7);
    assert_eq!(cpu.read_pmr(), 0xff);
    cpu.write_bpr(1, 0x103);
    assert_eq!(cpu.read_bpr(1), 3);
    assert_eq!(cpu.read_bpr(2), 0);
    cpu.write_ctlr(0x1_0000_0002);
    assert_eq!(cpu.read_ctlr(), 2);
    cpu.write_igrpen(1, 1);
    assert_eq!(cpu.read_igrpen(1), 1);
    assert_eq!(cpu.read_igrpen(0), 0);
    assert!(!cpu.is_irq_pending());
}

#[test]
fn private_interrupts_are_found() {
    let mut chip = enabled_chip(1);
    assert_eq!(chip.get_pending_irq(0), None);
    chip.set_ppi_pending(0, VTIMER_PPI);
    assert_eq!(chip.get_pending_irq(0), Some(VTIMER_INTID));
    assert_eq!(chip.get_pending_irq(9), None);
    assert_eq!(chip.distributor_base(), 0xc200_0000);
    assert_eq!(chip.get_mp_state(0), Err(2));
    assert!(chip.distributor_state().state().is_group1_enabled());
}

#[test]
fn split_chip_injects_for_the_first_vcpu() {
    let chip = get_split_chip();
    assert_eq!(
        chip.inject_interrupts(0, true, true, Some(8), true),
        (Some(8), true)
    );
    assert_eq!(
        chip.inject_interrupts(0, true, false, Some(8), true),
        (None, false)
    );
    assert_eq!(
        chip.inject_interrupts(1, true, true, Some(8), true),
        (None, false)
    );
    assert!(chip.is_ioapic_irq(23));
    assert!(!chip.is_ioapic_irq(24));
    assert_eq!(ioapic_pin_count(Some(30), Ok(24)), Ok(30));
    assert_eq!(ioapic_pin_count(None, Err(5)), Err(5));
    let plan = KvmSplitIrqChip::bus_plan();
    assert!(plan.contains(&BusInsert::PitIo { base: 0x61, len: 1 }));
    assert_eq!(plan.len(), 6);
}

#[test]
fn resample_events_reach_their_lines() {
    let mut chip = get_split_chip();
    chip.register_level_irq_event(5, 60, 61);
    let lines = chip.finalize_devices();
    assert_eq!(lines.len(), 24);
    assert_eq!(lines[5], vec![61]);
    assert!(lines[6].is_empty());
}

#[test]
fn upper_lines_go_to_the_ioapic_only() {
    let routes = kvm_default_irq_routing_table(24);
    assert_eq!(routes.len(), 40);
    for irq in 0..24 {
        let chips: Vec<IrqSourceChip> = routes
            .iter()
            .filter(|r| r.gsi == irq)
            .filter_map(|r| match r.source {
                IrqSource::Irqchip { chip, .. } => Some(chip),
                _ => None,
            })
            .collect();
        let expected = if irq < 8 {
            vec![IrqSourceChip::PicPrimary, IrqSourceChip::Ioapic]
        } else if irq < 16 {
            vec![IrqSourceChip::PicSecondary, IrqSourceChip::Ioapic]
        } else {
            vec![IrqSourceChip::Ioapic]
        };
        assert_eq!(chips, expected);
    }
}

#[test]
fn pending_interrupts_go_by_priority() {
    let mut chip = enabled_chip(1);
    chip.set_spi_pending(0);
    assert_eq!(chip.get_pending_irq(0), Some(32));
    assert_eq!(chip.get_pending_irq(1), None);
    // A private interrupt of the same priority has a lower number.
    chip.set_ppi_pending(0, VTIMER_PPI);
    let timer = chip.redistributors[0].state().get_irq_priority(VTIMER_INTID);
    let lower = timer.saturating_add(1) as u32;
    write_dist(&mut chip, GICD_IPRIORITYR + 32, timer as u32);
    assert_eq!(chip.get_pending_irq(0), Some(VTIMER_INTID));
    // One of a lower priority waits, however low its number.
    let lowest = lower.max(0x80);
    let word = lowest << (8 * (VTIMER_INTID % 4));
    let register = GICR_IPRIORITYR + (VTIMER_INTID / 4 * 4) as u64;
    chip.redistributors[0].write(register, &word.to_le_bytes());
    assert_eq!(chip.get_pending_irq(0), Some(32));
    chip.clear_spi_pending(0);
    assert_eq!(chip.get_pending_irq(0), Some(VTIMER_INTID));
}

#[test]
fn chips_leave_cpus_to_the_hypervisor() {
    let mut chip = HvfIrqChip::new(1);
    assert_eq!(chip.wait_until_runnable(0), VcpuRunState::Runnable);
    assert_eq!(chip.set_mp_state(0, 0), Err(2));
    assert_eq!(chip.get_vgic_version(), DeviceKind::ArmVgicV3);
    assert!(!chip.has_vgic_its());
    let split = get_split_chip();
    assert_eq!(split.wait_until_runnable(0), VcpuRunState::Runnable);
    assert_eq!(
        split.broadcast_eoi(9),
        IrqAction::EndOfInterrupt { vector: 9 }
    );
}

#[test]
fn gic_state_cannot_be_saved() {
    let mut dist = GicDistributor::new(1);
    assert_eq!(
        dist.snapshot(),
        Err("GicDistributor snapshot not implemented".to_owned())
    );
    assert_eq!(
        dist.restore(&[]),
        Err("GicDistributor restore not implemented".to_owned())
    );
    assert_eq!((dist.sleep(), dist.wake()), (Ok(()), Ok(())));
    let mut redist = GicRedistributor::new(0, true);
    assert_eq!(
        redist.snapshot(),
        Err("GicRedistributor snapshot not implemented".to_owned())
    );
}
