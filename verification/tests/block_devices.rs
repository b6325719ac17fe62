use vmm_devices::block;
use vmm_devices::block::Block;
use vmm_devices::block_async;
use vmm_devices::block_async::{BlockAsync, DiskState};
use vmm_devices::block_common::{
    check_range, offset_in_range, request_result, resize, split_status, used_length, DiskControlResult, DiskOp,
    DiskParams, ExecuteError, ResizeReplies, WorkerHold, WorkerStop, VIRTIO_BLK_S_IOERR, VIRTIO_BLK_S_OK,
    VIRTIO_BLK_S_UNSUPP, VIRTIO_BLK_T_DISCARD, VIRTIO_BLK_T_FLUSH, VIRTIO_BLK_T_GET_ID,
    VIRTIO_BLK_T_IN, VIRTIO_BLK_T_OUT, VIRTIO_BLK_T_WRITE_ZEROES,
};
use vmm_devices::block_worker::{
    flush_disk, flush_timer, handle_irq_resample, handle_irq_resample_async, handle_queue, handle_queue_async, ChainAction,
    ChainEvent, ControlAction, ControlEvent, ControlTask, DiskControlCommand, FlushAction,
    FlushEvent, OtherError, QueueAction, QueueEvent, ResampleAction, ResampleEvent, TimerError,
};

const IOV_MAX: usize = 1024;

/// The features that all devices have: version 1.
const BASE_FEATURES: u64 = 1 << 32;

fn header(req_type: u32, sector: u64) -> Vec<u8> {
    let mut h = req_type.to_le_bytes().to_vec();
    h.extend(0u32.to_le_bytes());
    h.extend(sector.to_le_bytes());
    h
}

fn segment(sector: u64, num_sectors: u32, flags: u32) -> Vec<u8> {
    let mut s = sector.to_le_bytes().to_vec();
    s.extend(num_sectors.to_le_bytes());
    s.extend(flags.to_le_bytes());
    s
}

#[test]
fn block_read_size() {
    let b = Block::new(Ok(0x1000), true, false, 512, true, IOV_MAX).unwrap();
    let mut num_sectors = [0u8; 4];
    b.read_config(0, &mut num_sectors);
    assert_eq!([0x08, 0x00, 0x00, 0x00], num_sectors);
    let mut msw_sectors = [0u8; 4];
    b.read_config(4, &mut msw_sectors);
    assert_eq!([0x00, 0x00, 0x00, 0x00], msw_sectors);
}

#[test]
fn block_read_block_size() {
    let b = Block::new(Ok(0x1000), true, false, 4096, true, IOV_MAX).unwrap();
    let mut blk_size = [0u8; 4];
    b.read_config(20, &mut blk_size);
    assert_eq!([0x00, 0x10, 0x00, 0x00], blk_size);
}

#[test]
fn block_read_features() {
    let b = Block::new(Ok(0), false, true, 512, true, IOV_MAX).unwrap();
    assert_eq!(0x120007244, b.features());

    let b = Block::new(Ok(0), false, false, 512, true, IOV_MAX).unwrap();
    assert_eq!(0x120005244, b.features());

    let b = Block::new(Ok(0), true, true, 512, true, IOV_MAX).unwrap();
    assert_eq!(0x120001264, b.features());
}

fn rw_disk() -> DiskParams {
    DiskParams {
        read_only: false,
        sparse: true,
        disk_size: 0x1000,
    }
}

fn block_status(disk: &DiskParams, readable: &[u8], available_bytes: usize) -> u8 {
    let plan = block::process_one_request(disk, false, readable, available_bytes).unwrap();
    let results = vec![true; plan.ops.len()];
    block::finish_request(&plan, &results, available_bytes).status
}

#[test]
fn block_read_last_sector() {
    let status = block_status(&rw_disk(), &header(VIRTIO_BLK_T_IN, 7), 512 + 1);
    assert_eq!(status, VIRTIO_BLK_S_OK);
}

#[test]
fn block_read_beyond_last_sector() {
    let status = block_status(&rw_disk(), &header(VIRTIO_BLK_T_IN, 7), 512 * 2 + 1);
    assert_eq!(status, VIRTIO_BLK_S_IOERR);
}

fn new_async(disk_len: u64, read_only: bool, sparse: bool, block_size: u32) -> BlockAsync {
    BlockAsync::new(
        BASE_FEATURES,
        Ok(disk_len),
        read_only,
        sparse,
        block_size,
        None,
        true,
        IOV_MAX,
    )
    .unwrap()
}

#[test]
fn asynchronous_read_size() {
    let b = new_async(0x1000, true, false, 512);
    let mut num_sectors = [0u8; 4];
    b.read_config(0, &mut num_sectors);
    assert_eq!([0x08, 0x00, 0x00, 0x00], num_sectors);
    let mut msw_sectors = [0u8; 4];
    b.read_config(4, &mut msw_sectors);
    assert_eq!([0x00, 0x00, 0x00, 0x00], msw_sectors);
}

#[test]
fn asynchronous_read_block_size() {
    let b = new_async(0x1000, true, false, 4096);
    let mut blk_size = [0u8; 4];
    b.read_config(20, &mut blk_size);
    assert_eq!([0x00, 0x10, 0x00, 0x00], blk_size);
}

#[test]
fn asynchronous_read_features() {
    assert_eq!(0x100007244, new_async(0, false, true, 512).features());
    assert_eq!(0x100005244, new_async(0, false, false, 512).features());
    assert_eq!(0x100001264, new_async(0, true, true, 512).features());
}

fn async_status(disk: &DiskState, readable: &[u8], available_bytes: usize) -> Option<u8> {
    let plan = block_async::process_one_request(disk, false, readable, available_bytes).unwrap();
    let results = vec![true; plan.ops.len()];
    block_async::process_one_chain(Ok((&plan, &results)), available_bytes).0
}

#[test]
fn asynchronous_read_last_sector() {
    let disk = DiskState::new(0x1000, false, true, None);
    let status = async_status(&disk, &header(VIRTIO_BLK_T_IN, 7), 512 + 1);
    assert_eq!(status, Some(VIRTIO_BLK_S_OK));
}

#[test]
fn asynchronous_read_beyond_last_sector() {
    let disk = DiskState::new(0x1000, false, true, None);
    let status = async_status(&disk, &header(VIRTIO_BLK_T_IN, 7), 512 * 2 + 1);
    assert_eq!(status, Some(VIRTIO_BLK_S_IOERR));
}

#[test]
fn get_id() {
    let id = b"a20-byteserialnumber";
    let disk = DiskState::new(0x1000, false, true, Some(*id));
    let request = header(VIRTIO_BLK_T_GET_ID, 0);
    assert_eq!(async_status(&disk, &request, 20 + 1), Some(VIRTIO_BLK_S_OK));
    let plan = block_async::process_one_request(&disk, false, &request, 20 + 1).unwrap();
    // What the guest finds in its buffer once the request is carried out.
    let mut returned_id = [0u8; 20];
    for op in plan.ops.iter() {
        match op {
            DiskOp::WriteId { id } => returned_id.copy_from_slice(id),
            _ => panic!("unexpected step"),
        }
    }
    assert_eq!(returned_id, *id);
}

#[test]
fn test_virtio_block_create() {
    let block_device = new_async(4096, false, true, 512);
    assert_eq!(block_device.device_type(), 2);
    let queue_sizes = block_device.queue_max_sizes();
    assert!(!queue_sizes.is_empty());
    assert_ne!(block_device.features(), 0);
    let mut config_data = [0u8; 8];
    block_device.read_config(0, &mut config_data);
    let capacity = u64::from_le_bytes(config_data);
    assert_eq!(capacity, 8, "Block device capacity should be 8 sectors");
}

#[test]
fn test_virtio_block_read_only() {
    let block_device = new_async(4096, true, false, 512);
    const VIRTIO_BLK_F_RO: u64 = 1 << 5;
    assert!(block_device.features() & VIRTIO_BLK_F_RO != 0);
}

#[test]
fn test_virtio_block_custom_block_size() {
    let block_device = new_async(8192, false, true, 4096);
    const VIRTIO_BLK_F_BLK_SIZE: u64 = 1 << 6;
    assert!(block_device.features() & VIRTIO_BLK_F_BLK_SIZE != 0);
    let mut blk_size_data = [0u8; 4];
    block_device.read_config(20, &mut blk_size_data);
    let blk_size = u32::from_le_bytes(blk_size_data);
    assert_eq!(blk_size, 4096, "Block size in config should be 4096");
}

fn with_queues(queue_size: Option<u16>, num_queues: Option<u16>) -> BlockAsync {
    BlockAsync::with_queues(
        BASE_FEATURES,
        Ok(4096),
        false,
        true,
        512,
        None,
        true,
        IOV_MAX,
        queue_size,
        num_queues,
    )
    .unwrap()
}

#[test]
fn test_block_queue_configuration() {
    let custom_queue_size = 128u16;
    let custom_num_queues = 4u16;
    let block = with_queues(Some(custom_queue_size), Some(custom_num_queues));

    let queue_sizes = block.queue_max_sizes();
    assert_eq!(queue_sizes.len(), custom_num_queues as usize);
    for size in queue_sizes {
        assert_eq!(size, custom_queue_size);
    }
    const VIRTIO_BLK_F_MQ: u64 = 1 << 12;
    assert!(block.features() & VIRTIO_BLK_F_MQ != 0);
}

#[test]
fn test_block_single_queue_no_mq_feature() {
    let block = with_queues(None, Some(1));
    const VIRTIO_BLK_F_MQ: u64 = 1 << 12;
    assert!(block.features() & VIRTIO_BLK_F_MQ == 0);
}

#[test]
fn block_sizes_must_fit_sectors() {
    assert_eq!(
        BlockAsync::new(0, Ok(0), false, false, 513, None, true, IOV_MAX).err(),
        Some(22)
    );
    assert_eq!(Block::new(Ok(0), false, false, 100, true, IOV_MAX).err(), Some(22));
    assert_eq!(Block::new(Err(5), false, false, 512, true, IOV_MAX).err(), Some(5));
}

#[test]
fn writes_arm_the_flush_timer_once() {
    let mut write = header(VIRTIO_BLK_T_OUT, 1);
    write.extend(vec![7u8; 512]);
    let plan = block::process_one_request(&rw_disk(), false, &write, 1).unwrap();
    assert_eq!(
        plan.ops,
        vec![
            DiskOp::WriteFromGuest {
                offset: 512,
                length: 512,
                sector: 1
            },
            DiskOp::ArmFlushTimer { seconds: 60 },
        ]
    );
    let plan = block::process_one_request(&rw_disk(), true, &write, 1).unwrap();
    assert_eq!(plan.ops.len(), 1);

    let mut armed = false;
    block_async::note_step(DiskOp::ArmFlushTimer { seconds: 60 }, &mut armed);
    assert!(armed);
    assert_eq!(flush_disk(FlushEvent::Expired(true), &mut armed), FlushAction::Sync);
    assert!(!armed);
}

#[test]
fn flush_clears_the_timer() {
    let plan =
        block::process_one_request(&rw_disk(), true, &header(VIRTIO_BLK_T_FLUSH, 0), 1).unwrap();
    assert_eq!(plan.ops, vec![DiskOp::Sync, DiskOp::ClearFlushTimer]);
}

#[test]
fn segments_are_checked_against_the_disk() {
    let mut request = header(VIRTIO_BLK_T_DISCARD, 0);
    request.extend(segment(0, 4, 0));
    request.extend(segment(6, 4, 0));
    let plan = block::process_one_request(&rw_disk(), false, &request, 1).unwrap();
    assert_eq!(
        plan.ops,
        vec![DiskOp::PunchHole {
            offset: 0,
            length: 2048
        }]
    );
    assert_eq!(plan.end, Err(ExecuteError::OutOfRange));
    assert_eq!(request_result(&plan, &[true]), Err(ExecuteError::OutOfRange));

    let mut request = header(VIRTIO_BLK_T_WRITE_ZEROES, 0);
    request.extend(segment(1, 2, 2));
    let plan = block::process_one_request(&rw_disk(), false, &request, 1).unwrap();
    assert_eq!(
        plan.end,
        Err(ExecuteError::DiscardWriteZeroes {
            ioerr: false,
            sector: 1,
            num_sectors: 2,
            flags: 2
        })
    );
}

#[test]
fn read_only_disks_refuse_writes() {
    let disk = DiskParams {
        read_only: true,
        ..rw_disk()
    };
    let plan =
        block::process_one_request(&disk, false, &header(VIRTIO_BLK_T_FLUSH, 0), 1).unwrap();
    assert_eq!(plan.ops, vec![]);
    assert_eq!(
        plan.end,
        Err(ExecuteError::ReadOnly {
            request_type: VIRTIO_BLK_T_FLUSH
        })
    );
}

#[test]
fn unknown_requests_are_unsupported() {
    let plan = block::process_one_request(&rw_disk(), false, &header(77, 0), 1).unwrap();
    assert_eq!(plan.end, Err(ExecuteError::Unsupported(77)));
    assert_eq!(
        block::finish_request(&plan, &[], 1).status,
        VIRTIO_BLK_S_UNSUPP
    );
}

#[test]
fn failed_steps_give_errors() {
    let plan =
        block::process_one_request(&rw_disk(), false, &header(VIRTIO_BLK_T_IN, 1), 513).unwrap();
    assert_eq!(
        request_result(&plan, &[false]),
        Err(ExecuteError::ReadIo {
            length: 512,
            sector: 1
        })
    );
}

#[test]
fn short_chains_are_refused() {
    assert_eq!(split_status(0), Err(ExecuteError::MissingStatus));
    assert_eq!(split_status(513), Ok(512));
    assert_eq!(used_length(Err(ExecuteError::MissingStatus)), 0);
    let plan = block::process_one_request(&rw_disk(), false, &[0; 15], 1).unwrap();
    assert_eq!(plan.end, Err(ExecuteError::Read));
}

#[test]
fn ranges_must_lie_on_the_disk() {
    assert_eq!(check_range(0, 4096, 4096), Ok(()));
    assert_eq!(check_range(1, 4096, 4096), Err(ExecuteError::OutOfRange));
    assert_eq!(check_range(u64::MAX, 1, 4096), Err(ExecuteError::OutOfRange));
}

#[test]
fn error_messages() {
    let e = ExecuteError::ReadIo {
        length: 512,
        sector: 7,
    };
    assert_eq!(
        e.message("short"),
        "io error reading 512 bytes from sector 7: short"
    );
    assert_eq!(
        ExecuteError::ReadOnly { request_type: 1 }.message(""),
        "read only; request_type=1"
    );
    assert_eq!(ExecuteError::Unsupported(300).message(""), "unsupported (300)");
    assert_eq!(ExecuteError::OutOfRange.message(""), "out of range");
    let e = ExecuteError::DiscardWriteZeroes {
        ioerr: true,
        sector: 10,
        num_sectors: 0,
        flags: 4294967295,
    };
    assert_eq!(
        e.message("full"),
        "failed to perform discard or write zeroes; sector=10 num_sectors=0 flags=4294967295; full"
    );
    assert_eq!(ExecuteError::Unsupported(1).status(), VIRTIO_BLK_S_UNSUPP);
    assert_eq!(ExecuteError::OutOfRange.status(), VIRTIO_BLK_S_IOERR);
}

#[test]
fn resizing_follows_the_disk() {
    let mut disk = rw_disk();
    let replies = ResizeReplies {
        set_len: true,
        allocate: true,
        len: Some(0x2000),
    };
    assert_eq!(resize(&mut disk, replies), DiskControlResult::Done);
    assert_eq!(disk.disk_size, 0x2000);
    let failed = ResizeReplies {
        set_len: false,
        allocate: true,
        len: Some(0x4000),
    };
    assert!(matches!(
        resize(&mut disk, failed),
        DiskControlResult::Failed(_)
    ));
    assert_eq!(disk.disk_size, 0x2000);
    let mut disk = DiskParams {
        read_only: true,
        ..rw_disk()
    };
    assert!(matches!(
        resize(&mut disk, replies),
        DiskControlResult::Failed(_)
    ));
    assert_eq!(disk.disk_size, 0x1000);
}

#[test]
fn workers_report_the_first_error() {
    assert!(block_async::check_worker(16, 16).is_ok());
    assert_eq!(
        block_async::check_worker(16, 15),
        Err("Number of queues and events must match.".to_owned())
    );
    assert_eq!(
        block_async::worker_result(None, None, Some("c"), Some("r")),
        Err("failed to handle a control request: c".to_owned())
    );
    assert_eq!(
        block_async::worker_result(Some("x"), Some("f"), None, None),
        Err("x".to_owned())
    );
    assert_eq!(
        block_async::worker_result(None, Some("f"), Some("c"), None),
        Err("failed to flush a disk: f".to_owned())
    );
    assert_eq!(block_async::worker_result(None, None, None, None), Ok(()));
}

#[test]
fn queue_tasks_serve_chains() {
    assert_eq!(handle_queue(QueueEvent::Next(true)), QueueAction::Process);
    assert_eq!(handle_queue(QueueEvent::Next(false)), QueueAction::Stop);
    assert_eq!(
        handle_queue(QueueEvent::Handled(Ok(513))),
        QueueAction::Complete { used: 513 }
    );
    assert_eq!(
        handle_queue(QueueEvent::Handled(Err(ExecuteError::MissingStatus))),
        QueueAction::Complete { used: 0 }
    );
    assert_eq!(
        handle_queue_async(ChainEvent::Signalled(true)),
        ChainAction::Pop
    );
    assert_eq!(
        handle_queue_async(ChainEvent::Signalled(false)),
        ChainAction::Wait
    );
    assert_eq!(
        handle_queue_async(ChainEvent::Popped(true)),
        ChainAction::SpawnAndPop
    );
    assert_eq!(
        handle_queue_async(ChainEvent::Popped(false)),
        ChainAction::Wait
    );
}

#[test]
fn control_requests_are_answered() {
    for signals_failures in [true, false] {
        let mut task = ControlTask::new(signals_failures);
        let resize = DiskControlCommand::Resize { new_size: 4096 };
        assert_eq!(
            task.next(ControlEvent::Received(Some(resize))),
            ControlAction::Resize { new_size: 4096 }
        );
        let failed = DiskControlResult::Failed(30);
        assert_eq!(
            task.next(ControlEvent::Resized(failed)),
            ControlAction::Send(failed)
        );
        let told = task.next(ControlEvent::Sent(true));
        assert_eq!(told == ControlAction::SignalConfigChanged, signals_failures);
        task.next(ControlEvent::Resized(DiskControlResult::Done));
        assert_eq!(
            task.next(ControlEvent::Sent(true)),
            ControlAction::SignalConfigChanged
        );
        assert_eq!(
            task.next(ControlEvent::Sent(false)),
            ControlAction::Fail(ExecuteError::SendingResponse)
        );
        assert_eq!(
            task.next(ControlEvent::Received(None)),
            ControlAction::Fail(ExecuteError::ReceivingCommand)
        );
    }
}

#[test]
fn flush_tasks_follow_the_timer() {
    let mut armed = true;
    assert_eq!(
        flush_timer(FlushEvent::Expired(true), &mut armed),
        FlushAction::Sync
    );
    assert!(!armed);
    assert_eq!(
        flush_timer(FlushEvent::Flushed(false), &mut armed),
        FlushAction::Wait
    );
    assert_eq!(
        flush_timer(FlushEvent::Expired(false), &mut armed),
        FlushAction::Stop(None)
    );
    assert_eq!(
        flush_disk(FlushEvent::Expired(true), &mut armed),
        FlushAction::Wait
    );
    assert_eq!(
        flush_disk(FlushEvent::Expired(false), &mut armed),
        FlushAction::Stop(Some(OtherError::FlushTimer))
    );
    assert_eq!(
        flush_disk(FlushEvent::Flushed(false), &mut armed),
        FlushAction::Stop(Some(OtherError::FsyncDisk))
    );
    assert_eq!(
        flush_disk(FlushEvent::Flushed(true), &mut armed),
        FlushAction::Wait
    );
}

#[test]
fn interrupts_are_resampled() {
    let started = |present, cloned, created| {
        handle_irq_resample_async(ResampleEvent::Started {
            present,
            cloned,
            created,
        })
    };
    assert_eq!(started(false, true, true), ResampleAction::Park);
    assert_eq!(
        started(true, false, true),
        ResampleAction::Fail(OtherError::CloneResampleEvent)
    );
    assert_eq!(
        started(true, true, false),
        ResampleAction::Fail(OtherError::AsyncResampleCreate)
    );
    assert_eq!(started(true, true, true), ResampleAction::Wait);
    assert_eq!(
        handle_irq_resample_async(ResampleEvent::Read(true)),
        ResampleAction::Resample
    );
    assert_eq!(
        handle_irq_resample_async(ResampleEvent::Read(false)),
        ResampleAction::Fail(OtherError::ReadResampleEvent)
    );
    assert_eq!(handle_irq_resample(true), ResampleAction::Resample);
    assert_eq!(handle_irq_resample(false), ResampleAction::Stop);
}

#[test]
fn worker_errors_have_messages() {
    assert_eq!(
        OtherError::FsyncDisk.message("full"),
        "failed to fsync the disk: full"
    );
    assert_eq!(
        TimerError::TimerFdCreate.worker_error("none"),
        "Failed to create the flush timer: couldn't create a timer FD: none"
    );
}

#[test]
fn devices_keep_the_common_features() {
    const VIRTIO_F_VERSION_1: u64 = 1 << 32;
    const VIRTIO_F_SUSPEND: u64 = 1 << 42;
    let base = VIRTIO_F_VERSION_1 | VIRTIO_F_SUSPEND;
    for (read_only, sparse) in [(true, true), (false, true), (false, false)] {
        let b = BlockAsync::new(base, Ok(4096), read_only, sparse, 512, None, true, IOV_MAX).unwrap();
        assert_eq!(b.features() & base, base);
    }
}

#[test]
fn offsets_do_not_wrap() {
    // The byte offset of this sector does not fit into 64 bits.
    let huge = 1u64 << 55;
    let refused = Err(ExecuteError::OutOfRange);
    let read = header(VIRTIO_BLK_T_IN, huge);
    let mut write = header(VIRTIO_BLK_T_OUT, huge);
    write.extend(vec![1u8; 512]);
    let disk = DiskState::new(4096, false, true, None);
    for (request, room) in [(&read, 512), (&write, 0)] {
        let plan = Block::execute_request(&rw_disk(), false, request, room);
        assert_eq!((plan.ops.len(), plan.end), (0, refused));
        let plan = BlockAsync::execute_request(&disk, false, request, room);
        assert_eq!((plan.ops.len(), plan.end), (0, refused));
    }
    for req_type in [VIRTIO_BLK_T_DISCARD, VIRTIO_BLK_T_WRITE_ZEROES] {
        let mut request = header(req_type, 0);
        request.extend(segment(huge, 1, 0));
        let plan = Block::execute_request(&rw_disk(), false, &request, 0);
        assert_eq!((plan.ops.len(), plan.end), (0, refused));
        let plan = BlockAsync::execute_request(&disk, false, &request, 0);
        assert_eq!((plan.ops.len(), plan.end), (0, refused));
    }
    assert_eq!(offset_in_range(7, 512, 4096), Ok(3584));
    assert_eq!(offset_in_range(8, 0, 4096), Ok(4096));
    assert_eq!(offset_in_range(8, 1, 4096), refused.map(|_| 0));
}

#[test]
fn asynchronous_errors_have_texts_of_their_own() {
    let e = ExecuteError::WriteIo {
        length: 512,
        sector: 7,
    };
    assert_eq!(e.message("full"), "io error writing 512 bytes to sector 7: full");
    assert_eq!(
        e.message_async("full"),
        "io error writing 512 bytes from sector 7: full"
    );
    let e = |ioerr| ExecuteError::DiscardWriteZeroes {
        ioerr,
        sector: 10,
        num_sectors: 0,
        flags: 2,
    };
    assert_eq!(
        e(false).message_async(""),
        "failed to perform discard or write zeroes; sector=10 num_sectors=0 flags=2; None"
    );
    assert_eq!(
        e(true).message_async("Full"),
        "failed to perform discard or write zeroes; sector=10 num_sectors=0 flags=2; Some(Full)"
    );
    assert_eq!(
        ExecuteError::ReceivingCommand.message_async("gone"),
        "failed to recieve command message: gone"
    );
    assert_eq!(
        ExecuteError::Timer.message_async("none"),
        "couldn't reset the timer: none"
    );
    assert_eq!(
        ExecuteError::Flush.message_async("full"),
        "failed to flush: full"
    );
}

#[test]
fn resizing_shows_in_the_configuration() {
    let replies = ResizeReplies {
        set_len: true,
        allocate: true,
        len: Some(0x2000),
    };
    let mut capacity = [0u8; 8];
    let mut b = Block::new(Ok(0x1000), false, true, 512, true, IOV_MAX).unwrap();
    let mut disk = rw_disk();
    assert_eq!(b.resize(&mut disk, replies), DiskControlResult::Done);
    b.read_config(0, &mut capacity);
    assert_eq!(u64::from_le_bytes(capacity), 16);
    assert_eq!(
        block_status(&disk, &header(VIRTIO_BLK_T_IN, 15), 512 + 1),
        VIRTIO_BLK_S_OK
    );
    let mut b = new_async(0x1000, true, false, 512);
    let mut disk = DiskParams {
        read_only: true,
        sparse: false,
        disk_size: 0x1000,
    };
    assert_eq!(b.resize(&mut disk, replies), DiskControlResult::Failed(30));
    b.read_config(0, &mut capacity);
    assert_eq!(u64::from_le_bytes(capacity), 8);
}

#[test]
fn a_disk_without_length_has_no_device() {
    assert_eq!(
        Block::new(Err(5), false, true, 0, true, IOV_MAX).err(),
        Some(5)
    );
    assert_eq!(
        BlockAsync::new(BASE_FEATURES, Err(5), false, true, 0, None, true, IOV_MAX).err(),
        Some(5)
    );
}

#[test]
fn control_task_starts() {
    let mut task = ControlTask::new(true);
    let mut started = |present, receiver| task.next(ControlEvent::Started { present, receiver });
    assert_eq!(started(false, true), ControlAction::Park);
    assert_eq!(
        started(true, false),
        ControlAction::Fail(ExecuteError::CreatingMessageReceiver)
    );
    assert_eq!(started(true, true), ControlAction::Wait);
}

const STOPPED: WorkerStop = WorkerStop {
    notified: true,
    joined: true,
};

#[test]
fn block_is_activated_and_reset() {
    let mut b = Block::new(Ok(0x1000), false, true, 512, true, IOV_MAX).unwrap();
    assert_eq!(b.keep_fds(&[3, 4], 5), vec![3, 4, 5]);
    // Without a worker there is nothing to reset.
    assert!(!b.reset(STOPPED));
    assert_eq!(b.activate(false, true), None);
    assert_eq!(b.hold, WorkerHold::new(true));
    assert_eq!(b.activate(true, true), Some(rw_disk()));
    assert!(b.keep_fds(&[3, 4], 5).is_empty());
    assert_eq!(b.activate(true, true), None);
    assert!(b.reset(STOPPED));
    assert_eq!(b.keep_fds(&[3, 4], 5), vec![3, 4, 5]);

    b.activate(true, true);
    let deaf = WorkerStop {
        notified: false,
        joined: true,
    };
    assert!(!b.reset(deaf));
    // The event is gone, but the worker can still be joined.
    assert!(b.reset(deaf));

    b.activate(true, true);
    assert!(!b.reset(WorkerStop {
        notified: true,
        joined: false,
    }));
    assert!(b.keep_fds(&[3, 4], 5).is_empty());

    // A device that is not controlled starts no worker.
    let mut b = Block::new(Ok(0x1000), false, true, 512, false, IOV_MAX).unwrap();
    assert_eq!(b.activate(true, true), None);
    assert!(!b.reset(STOPPED));
}

#[test]
fn asynchronous_is_activated_and_reset() {
    let id = *b"a20-byteserialnumber";
    let mut b = BlockAsync::new(
        BASE_FEATURES,
        Ok(0x1000),
        false,
        true,
        512,
        Some(id),
        false,
        IOV_MAX,
    )
    .unwrap();
    let disk = b.activate(true, true).unwrap();
    assert_eq!((disk.params, disk.id), (rw_disk(), Some(id)));
    assert!(b.keep_rds(&[3], 5).is_empty());
    assert!(b.reset(STOPPED));
    assert_eq!(b.keep_rds(&[3], 5), vec![3]);
    // The identification was handed on once.
    assert_eq!(b.activate(true, false).unwrap().id, None);
    assert!(!b.reset(STOPPED));
}
