use vmm_devices::acpi::get_acpi_event_sock;
use vmm_devices::balloon::{
    inflate_pages, process_inflate, Balloon, BalloonControlCommand, BalloonError, PageOutcome,
};
use vmm_devices::bytes::{copy_prefix, le_encode, le_number, read_le_u32, write_le_u32};
use vmm_devices::disk_ops::{
    apply_raw_disk_file_options, open_raw_disk_image, BackingOperation, DiskOperation, FlockOperation, OpProcess,
};
use vmm_devices::fixture::{binary_name, TestVmSys};
use vmm_devices::fuzz_input::{block_input, qcow_input};
use vmm_devices::net::{
    handle_rx_queue, handle_rx_token, merges_rx_buffers, polling_after_queue, polling_after_rx,
    process_mrg_rx, process_rx, process_tx, put_num_buffers, set_num_buffers, validate_and_configure_tap,
    virtio_features_to_tap_offload, FillEvent, IoOutcome, MrgRx, NetError, Rx, RxEvent, RxStep,
    TapPolling, TxEvent, TxStep,
};
use vmm_devices::snd::{
    create_stream_source_generators, set_audio_thread_priority, set_up_async_stream,
    MacosBufferWriter, ParametersError, SndError, StreamSourceBackend,
};
use vmm_devices::text::{label_with_number, same_text, signed_decimal};
use vmm_devices::vsock::{VirtioVsockModule, VsockConfig};

#[test]
fn numbers_are_little_endian() {
    assert_eq!(le_encode(0x0102_0304, 4), vec![4, 3, 2, 1]);
    assert_eq!(le_number(&[4, 3, 2, 1]), 0x0102_0304);
    let mut data = [0u8; 6];
    write_le_u32(&mut data, 0xdead_beef);
    assert_eq!(data, [0xef, 0xbe, 0xad, 0xde, 0, 0]);
    assert_eq!(read_le_u32(&data), 0xdead_beef);
    assert_eq!(read_le_u32(&[1, 2]), 0x0201);
    let mut dst = [9u8; 3];
    copy_prefix(&mut dst, &[1, 2]);
    assert_eq!(dst, [1, 2, 9]);
}

#[test]
fn numbers_as_text() {
    assert_eq!(label_with_number("n=", 0), "n=0");
    assert_eq!(label_with_number("n=", u64::MAX), "n=18446744073709551615");
    assert_eq!(signed_decimal(i32::MIN), "-2147483648");
    assert_eq!(signed_decimal(70), "70");
    assert!(same_text("a", "a"));
    assert!(!same_text("a", "b"));
}

#[test]
fn balloon_configuration_reads_back() {
    let mut balloon = Balloon::new();
    assert_eq!(balloon.device_type(), 5);
    assert_eq!(balloon.queue_max_sizes(), vec![128, 128]);
    balloon.handle_command(BalloonControlCommand::Adjust {
        num_bytes: 3 * 4096 + 5,
    });
    let mut data = [0u8; 8];
    balloon.read_config(0, &mut data);
    assert_eq!(data, [3, 0, 0, 0, 0, 0, 0, 0]);
    // The driver sets the actual size; the target stays.
    balloon.write_config(4, &[2, 0, 0, 0]);
    balloon.write_config(0, &[9, 0, 0, 0]);
    balloon.read_config(0, &mut data);
    assert_eq!(data, [3, 0, 0, 0, 2, 0, 0, 0]);
}

#[test]
fn balloon_takes_pages() {
    assert_eq!(
        inflate_pages(Some(&[1, 0, 0, 0, 0xff, 0xff, 0xff, 0xff])),
        vec![0x1000, 0xffff_ffff_000]
    );
    assert!(inflate_pages(Some(&[1, 0, 0])).is_empty());
    assert!(inflate_pages(None).is_empty());
    assert!(process_inflate(&[PageOutcome::Removed, PageOutcome::Removed]));
    assert!(!process_inflate(&[PageOutcome::Removed, PageOutcome::RemoveFailed]));
    assert!(!process_inflate(&[PageOutcome::ReadFailed]));
}

#[test]
fn balloon_starts_and_stops() {
    let mut balloon = Balloon::new();
    assert!(balloon.accepts_queues(2, 2));
    assert!(!balloon.accepts_queues(1, 2));
    balloon.activate(true);
    assert!(balloon.has_worker);
    assert!(balloon.reset(true, true));
    assert!(!balloon.has_worker);
    assert!(balloon.has_command_socket);
}

#[test]
fn balloon_messages() {
    assert_eq!(BalloonError::NotEnoughPages.message(""), "not enough pages");
    assert_eq!(
        BalloonError::WritingConfigEvent(5).message("io"),
        "failed to write config event: io"
    );
}

#[test]
fn packets_are_delivered_in_parts() {
    let mut rx = MrgRx::new(0);
    let mut packet = [7u8; 100];
    let mut step = |event| process_mrg_rx(&mut rx, &mut packet, event);
    assert_eq!(step(RxEvent::Start), RxStep::ReadTap);
    assert_eq!(
        step(RxEvent::Read(IoOutcome::Moved(100))),
        RxStep::PopLength(100)
    );
    assert_eq!(
        step(RxEvent::Popped(Some(2))),
        RxStep::WriteBuffer { from: 0, to: 100 }
    );
    assert_eq!(
        step(RxEvent::Written(IoOutcome::Moved(60))),
        RxStep::WriteBuffer { from: 60, to: 100 }
    );
    assert_eq!(
        step(RxEvent::Written(IoOutcome::Moved(40))),
        RxStep::AddUsed
    );
    assert_eq!(step(RxEvent::Used), RxStep::ReadTap);
    assert_eq!(
        step(RxEvent::Read(IoOutcome::WouldBlock)),
        RxStep::Finish {
            interrupt: true,
            error: None
        }
    );
    assert_eq!(packet[10..12], 2u16.to_ne_bytes());
}

#[test]
fn packets_are_kept_without_buffers() {
    let mut rx = MrgRx::new(0);
    let mut packet = [7u8; 100];
    process_mrg_rx(&mut rx, &mut packet, RxEvent::Read(IoOutcome::Moved(100)));
    assert_eq!(
        process_mrg_rx(&mut rx, &mut packet, RxEvent::Popped(None)),
        RxStep::Finish {
            interrupt: false,
            error: Some(NetError::RxDescriptorsExhausted)
        }
    );
    let mut again = MrgRx::new(rx.pending);
    assert_eq!(
        process_mrg_rx(&mut again, &mut packet, RxEvent::Start),
        RxStep::PopLength(100)
    );
    assert_eq!(
        process_mrg_rx(
            &mut MrgRx::new(0),
            &mut packet,
            RxEvent::Read(IoOutcome::Failed)
        ),
        RxStep::Finish {
            interrupt: false,
            error: Some(NetError::WriteBuffer)
        }
    );
}

#[test]
fn single_buffers() {
    let mut rx = Rx::new();
    assert_eq!(process_rx(&mut rx, FillEvent::Start), RxStep::FillNext);
    assert_eq!(
        process_rx(&mut rx, FillEvent::Filled(Some(IoOutcome::Moved(10)))),
        RxStep::AddUsed
    );
    assert_eq!(process_rx(&mut rx, FillEvent::Used), RxStep::FillNext);
    assert_eq!(
        process_rx(&mut rx, FillEvent::Filled(Some(IoOutcome::WriteZero))),
        RxStep::Finish {
            interrupt: true,
            error: None
        }
    );
    assert_eq!(
        process_rx(&mut rx, FillEvent::Filled(Some(IoOutcome::Failed))),
        RxStep::Finish {
            interrupt: false,
            error: Some(NetError::WriteBuffer)
        }
    );
    assert_eq!(
        process_rx(&mut rx, FillEvent::Filled(None)),
        RxStep::Finish {
            interrupt: true,
            error: Some(NetError::RxDescriptorsExhausted)
        }
    );
    assert!(merges_rx_buffers(1 << 15));
    assert!(!merges_rx_buffers(1 << 14));
}

#[test]
fn frames_are_sent_whole() {
    assert_eq!(process_tx(TxEvent::Popped(Some(60))), TxStep::Send(60));
    let sent = |outcome| {
        process_tx(TxEvent::Sent {
            outcome,
            expected_count: 60,
        })
    };
    assert_eq!(
        sent(IoOutcome::Moved(60)),
        TxStep::AddUsed { whole: true }
    );
    assert_eq!(
        sent(IoOutcome::Moved(59)),
        TxStep::AddUsed { whole: false }
    );
    assert_eq!(sent(IoOutcome::Failed), TxStep::AddUsed { whole: false });
    assert_eq!(process_tx(TxEvent::Popped(None)), TxStep::TriggerInterrupt);
}

#[test]
fn tap_is_polled_while_there_are_buffers() {
    let exhausted = Err(NetError::RxDescriptorsExhausted);
    assert_eq!(polling_after_rx(exhausted), TapPolling::Disable);
    assert_eq!(polling_after_rx(Ok(())), TapPolling::Keep);
    assert_eq!(handle_rx_token(exhausted, true), Ok(()));
    assert_eq!(
        handle_rx_token(exhausted, false),
        Err(NetError::WaitContextDisableTap)
    );
    assert_eq!(
        handle_rx_token(Err(NetError::WriteBuffer), true),
        Err(NetError::WriteBuffer)
    );
    assert_eq!(polling_after_queue(false), TapPolling::Enable);
    assert_eq!(polling_after_queue(true), TapPolling::Keep);
    assert_eq!(
        handle_rx_queue(false, false),
        Err(NetError::WaitContextEnableTap)
    );
    assert_eq!(handle_rx_queue(true, false), Ok(()));
    assert_eq!(validate_and_configure_tap(2), Ok(()));
    assert_eq!(virtio_features_to_tap_offload(u64::MAX), 0);
}

#[test]
fn bytes_of_a_count_keep_their_order() {
    let mut packet = [7u8; 14];
    put_num_buffers(&mut packet, &[1, 2]);
    assert_eq!(packet[10..12], [1, 2]);
    assert_eq!(packet[..10], [7u8; 10]);
    assert_eq!(packet[12..], [7u8; 2]);
}

#[test]
fn buffer_count_stands_behind_the_header() {
    let mut packet = [7u8; 14];
    set_num_buffers(&mut packet, 0x0102);
    assert_eq!(packet[10..12], 0x0102u16.to_ne_bytes());
    assert_eq!(packet[..10], [7u8; 10]);
    assert_eq!(packet[12..], [7u8; 2]);
}

#[test]
fn sound_backends_have_names() {
    for backend in [StreamSourceBackend::Null, StreamSourceBackend::COREAUDIO] {
        assert_eq!(StreamSourceBackend::try_from(&backend.name()), Ok(backend));
    }
    assert_eq!(
        StreamSourceBackend::try_from("cras"),
        Err(ParametersError::InvalidBackend)
    );
    assert_eq!(
        create_stream_source_generators(StreamSourceBackend::Null, 3),
        vec![StreamSourceBackend::Null; 3]
    );
    assert_eq!(set_audio_thread_priority(), Ok(()));
    assert_eq!(MacosBufferWriter::new(480).endpoint_period_bytes(), 480);
}

#[test]
fn streams_need_a_source() {
    let stream = set_up_async_stream(true, 2, 48000, 1920, 4).unwrap();
    assert_eq!(stream.num_channels, 2);
    assert_eq!(stream.buffer_size, 480);
    assert_eq!(
        set_up_async_stream(false, 2, 48000, 1920, 4),
        Err(SndError::EmptyStreamSource)
    );
}

#[test]
fn sockets_are_not_supported() {
    let module = VirtioVsockModule::new(VsockConfig::new(3));
    assert_eq!(module.config.cid, 3);
    assert_eq!(module.sort_name(), "vsock");
    assert_eq!(
        module.create(),
        Err("virtio-vsock is not supported on macOS".to_owned())
    );
}

struct Direct;

impl OpProcess for Direct {
    fn process_op(&self, op: DiskOperation) -> Result<Vec<BackingOperation>, String> {
        Ok(vec![BackingOperation { fd: 3, op }])
    }
}

#[test]
fn only_reads_are_valid_on_read_only_disks() {
    let read = DiskOperation::Read { offset: 0, len: 1 };
    assert!(read.valid_read_only());
    assert!(!DiskOperation::FSync.valid_read_only());
    assert!(!DiskOperation::PunchHole {
        offset: 0,
        length: 1
    }
    .valid_read_only());
    assert_eq!(Direct.process_op(read).unwrap()[0].op, read);
}

#[test]
fn images_are_locked_as_they_are_used() {
    let plan = open_raw_disk_image(true, true);
    assert!(!plan.write);
    assert_eq!(plan.lock, Some(FlockOperation::LockShared));
    let plan = open_raw_disk_image(false, true);
    assert!(plan.write);
    assert_eq!(plan.lock, Some(FlockOperation::LockExclusive));
    assert_eq!(open_raw_disk_image(false, false).lock, None);
    assert_eq!(apply_raw_disk_file_options(true), Ok(()));
}

#[test]
fn whole_machines_are_not_supported() {
    assert_eq!(binary_name(), "crosvm");
    let message = TestVmSys::new_generic().unwrap_err();
    assert!(message.starts_with("Full e2e test fixture"));
    assert_eq!(TestVmSys::append_config_args(), Err(message));
    assert_eq!(get_acpi_event_sock(), Ok(None));
}

#[test]
fn disk_image_input() {
    let mut data: Vec<u8> = vec![0, 0, 0, 0, 0, 0, 1, 2];
    data.extend([0, 0, 0, 0, 0, 0, 0, 9]);
    data.extend([5, 6]);
    let input = qcow_input(&data).unwrap();
    assert_eq!(input.addr, 0x0102);
    assert_eq!(input.value, 9);
    assert_eq!(input.image, vec![5, 6]);
    assert!(qcow_input(&data[..15]).is_none());
}

#[test]
fn block_device_input() {
    let mut data = 2u64.to_le_bytes().to_vec();
    data.extend(0x1000u64.to_le_bytes());
    data.extend([7; 16]);
    assert!(block_input(&data).is_none());
    data.extend(0x2000u64.to_le_bytes());
    let input = block_input(&data).unwrap();
    assert_eq!(input.command_addr, 0x1000);
    assert_eq!(input.desc_table, 0x2000);
    assert_eq!(input.command, vec![7; 16]);
    assert_eq!(input.descriptors, data[32..]);
    data[15] = 1;
    assert!(block_input(&data).is_none());
}
