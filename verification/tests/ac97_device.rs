use vmm_devices::ac97::{allocate_io_bars, bar_target, Ac97, BarTarget, IoBarError, RegionReply};
use vmm_devices::ac97_bus_master::{Ac97BusMaster, BusMasterAction, PlaybackError};
use vmm_devices::ac97_regs::{Ac97Function, CR_IOCE, CR_RPBM, SR_BCIS, SR_LVBCI};

const GLOB_CNT: u64 = 0x2c;
const PO_BDBAR: u64 = 0x10;
const PO_CIV: u64 = 0x14;
const PO_LVI: u64 = 0x15;
const PO_SR: u64 = 0x16;
const PO_CR: u64 = 0x1b;

#[test]
fn ac97_bus_master_bm_bdbar() {
    let mut ac97 = Ac97BusMaster::new();
    let bdbars = [0x00u64, 0x10, 0x20];

    // Make sure writes have no affect during cold reset.
    ac97.writel(0x00, 0x5555_555f);
    assert_eq!(ac97.readl(0x00), 0x0000_0000);

    // Relesase cold reset.
    ac97.writel(GLOB_CNT, 0x0000_0002);

    // Tests that the base address is writable and that the bottom three bits are read only.
    for bdbar in &bdbars {
        assert_eq!(ac97.readl(*bdbar), 0x0000_0000);
        ac97.writel(*bdbar, 0x5555_555f);
        assert_eq!(ac97.readl(*bdbar), 0x5555_5558);
    }
}

#[test]
fn ac97_bus_master_bm_status_reg() {
    let mut ac97 = Ac97BusMaster::new();
    let sr_addrs = [0x06u64, 0x16, 0x26];

    for sr in &sr_addrs {
        assert_eq!(ac97.readw(*sr, 0), 0x0001);
        ac97.writew(*sr, 0xffff);
        assert_eq!(ac97.readw(*sr, 0), 0x0001);
    }
}

#[test]
fn ac97_bus_master_bm_global_control() {
    let mut ac97 = Ac97BusMaster::new();
    assert_eq!(ac97.readl(GLOB_CNT), 0x0000_0000);

    // Relesase cold reset.
    ac97.writel(GLOB_CNT, 0x0000_0002);

    // Check interrupt enable bits are writable.
    ac97.writel(GLOB_CNT, 0x0000_0072);
    assert_eq!(ac97.readl(GLOB_CNT), 0x0000_0072);

    // A Warm reset should doesn't affect register state and is auto cleared.
    ac97.writel(0x00, 0x5555_5558);
    ac97.writel(GLOB_CNT, 0x0000_0076);
    assert_eq!(ac97.readl(GLOB_CNT), 0x0000_0072);
    assert_eq!(ac97.readl(0x00), 0x5555_5558);
    // Check that a cold reset works, but setting bdbar and checking it is zeroed.
    ac97.writel(0x00, 0x5555_555f);
    ac97.writel(GLOB_CNT, 0x000_0070);
    assert_eq!(ac97.readl(GLOB_CNT), 0x0000_0070);
    assert_eq!(ac97.readl(0x00), 0x0000_0000);
}

fn bm_readl(ac97: &Ac97, offset: u64) -> u32 {
    let mut data = [0u8; 4];
    ac97.read_bus_master(offset, 0, &mut data);
    u32::from_le_bytes(data)
}

fn bm_readw(ac97: &Ac97, offset: u64) -> u16 {
    let mut data = [0u8; 2];
    ac97.read_bus_master(offset, 0, &mut data);
    u16::from_le_bytes(data)
}

fn bm_writel(ac97: &mut Ac97, offset: u64, value: u32) {
    ac97.write_bus_master(offset, &value.to_le_bytes());
}

fn bm_writew(ac97: &mut Ac97, offset: u64, value: u16) {
    ac97.write_bus_master(offset, &value.to_le_bytes());
}

#[test]
fn ac97_bm_bdbar() {
    let mut ac97 = Ac97::new();
    let bdbars = [0x00u64, 0x10, 0x20];

    // Make sure writes have no affect during cold reset.
    bm_writel(&mut ac97, 0x00, 0x5555_555f);
    assert_eq!(bm_readl(&ac97, 0x00), 0x0000_0000);

    // Relesase cold reset.
    bm_writel(&mut ac97, GLOB_CNT, 0x0000_0002);

    // Tests that the base address is writable and that the bottom three bits are read only.
    for bdbar in &bdbars {
        assert_eq!(bm_readl(&ac97, *bdbar), 0x0000_0000);
        bm_writel(&mut ac97, *bdbar, 0x5555_555f);
        assert_eq!(bm_readl(&ac97, *bdbar), 0x5555_5558);
    }
}

#[test]
fn ac97_bm_status_reg() {
    let mut ac97 = Ac97::new();
    let sr_addrs = [0x06u64, 0x16, 0x26];

    for sr in &sr_addrs {
        assert_eq!(bm_readw(&ac97, *sr), 0x0001);
        bm_writew(&mut ac97, *sr, 0xffff);
        assert_eq!(bm_readw(&ac97, *sr), 0x0001);
    }
}

#[test]
fn ac97_bm_global_control() {
    let mut ac97 = Ac97::new();
    assert_eq!(bm_readl(&ac97, GLOB_CNT), 0x0000_0000);

    // Relesase cold reset.
    bm_writel(&mut ac97, GLOB_CNT, 0x0000_0002);

    // Check interrupt enable bits are writable.
    bm_writel(&mut ac97, GLOB_CNT, 0x0000_0072);
    assert_eq!(bm_readl(&ac97, GLOB_CNT), 0x0000_0072);

    // A Warm reset should doesn't affect register state and is auto cleared.
    bm_writel(&mut ac97, 0x00, 0x5555_5558);
    bm_writel(&mut ac97, GLOB_CNT, 0x0000_0076);
    assert_eq!(bm_readl(&ac97, GLOB_CNT), 0x0000_0072);
    assert_eq!(bm_readl(&ac97, 0x00), 0x5555_5558);
    // Check that a cold reset works, but setting bdbar and checking it is zeroed.
    bm_writel(&mut ac97, 0x00, 0x5555_555f);
    bm_writel(&mut ac97, GLOB_CNT, 0x000_0070);
    assert_eq!(bm_readl(&ac97, GLOB_CNT), 0x0000_0070);
    assert_eq!(bm_readl(&ac97, 0x00), 0x0000_0000);
}

/// Output that runs, with two valid buffers.
fn playing() -> Ac97BusMaster {
    let mut ac97 = Ac97BusMaster::new();
    ac97.writel(GLOB_CNT, 0x0000_0002);
    ac97.writel(PO_BDBAR, 0x100_0000);
    ac97.writeb(PO_LVI, 1);
    let actions = ac97.writeb(PO_CR, CR_RPBM | CR_IOCE);
    assert!(actions.contains(&BusMasterAction::StartAudio(Ac97Function::Output)));
    ac97
}

#[test]
fn playback_goes_through_the_buffers() {
    let mut ac97 = playing();
    assert_eq!(ac97.readw(PO_SR, 0) & 1, 0);
    assert_eq!(ac97.descriptor_addr(&Ac97Function::Output), Some(0x100_0000));
    let control = 0x8000_0000 | 100;
    assert_eq!(ac97.begin_playback(control), 100);

    let (copy, samples) = ac97.play_buffer(0x200_0000, 20);
    assert_eq!(samples, 40);
    let copy = copy.unwrap();
    assert_eq!((copy.read_pos, copy.length), (0x200_0000, 80));
    // The samples fill the buffer from its start.
    assert_eq!(copy.buffer_offset, 0);
    assert_eq!(Ac97BusMaster::playback_result(samples, false), Ok(20));

    let mut out: Vec<BusMasterAction> = Vec::new();
    assert!(!ac97.buffer_completed(&Ac97Function::Output, control, &mut out));
    assert_eq!(ac97.readb(PO_CIV), 0);
    assert!(!ac97.buffer_completed(&Ac97Function::Output, 50, &mut out));
    assert_eq!(ac97.readb(PO_CIV), 1);
    assert!(ac97.readw(PO_SR, 0) & SR_BCIS != 0);
    assert!(out.contains(&BusMasterAction::Interrupt));

    // Clear the bit.
    ac97.writew(PO_SR, SR_BCIS);
    assert!(ac97.readw(PO_SR, 0) & SR_BCIS == 0);

    // The last valid buffer.
    assert!(ac97.buffer_completed(&Ac97Function::Output, 50, &mut out));
    assert!(ac97.readw(PO_SR, 0) & SR_LVBCI != 0);
    assert_eq!(ac97.readb(PO_LVI), ac97.readb(PO_CIV));
    assert_eq!(
        Ac97BusMaster::playback_result(0, true),
        Err(PlaybackError::HitEnd)
    );

    // Stop.
    ac97.writeb(PO_CR, 0);
    assert!(ac97.readw(PO_SR, 0) & 0x01 != 0);
}

#[test]
fn regions_are_told_apart() {
    assert_eq!(bar_target(0x1010, 0x1000, 0x2000), BarTarget::Mixer(0x10));
    assert_eq!(
        bar_target(0x2004, 0x1000, 0x2000),
        BarTarget::BusMaster(0x4)
    );
    assert_eq!(bar_target(0x1100, 0x1000, 0x2000), BarTarget::Nothing);
}

#[test]
fn regions_are_allocated() {
    let ok = |addr| RegionReply {
        addr: Some(addr),
        registered: true,
    };
    assert_eq!(
        allocate_io_bars(ok(0x1000), ok(0x2000)),
        Ok(vec![(0x1000, 0x100), (0x2000, 0x400)])
    );
    let none = RegionReply {
        addr: None,
        registered: true,
    };
    assert_eq!(
        allocate_io_bars(ok(0x1000), none),
        Err(IoBarError::IoAllocationFailed(0x400))
    );
    let unregistered = RegionReply {
        addr: Some(0x1000),
        registered: false,
    };
    assert_eq!(
        allocate_io_bars(unregistered, ok(0x2000)),
        Err(IoBarError::IoRegistrationFailed(0x1000))
    );
}

#[test]
fn accesses_reach_mixer_and_bus_master() {
    let mut ac97 = Ac97::new();
    let mut data = [0u8; 2];
    ac97.read_bar(0x1002, 0x1000, 0x2000, 0, 0x8000, &mut data);
    assert_eq!(data, [0x00, 0x80]);
    ac97.read_bar(0x2006, 0x1000, 0x2000, 0, 0x8000, &mut data);
    assert_eq!(data, [1, 0]);
    let (mixer, actions) = ac97.write_bar(0x1004, 0x1000, 0x2000, &[0x34, 0x12]);
    assert_eq!(mixer, Some((4, 0x1234)));
    assert!(actions.is_empty());
    let (mixer, _) = ac97.write_bar(0x202c, 0x1000, 0x2000, &[2, 0, 0, 0]);
    assert_eq!(mixer, None);
    assert_eq!(bm_readl(&ac97, GLOB_CNT), 2);
}
