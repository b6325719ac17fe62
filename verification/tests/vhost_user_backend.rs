use std::any::TypeId;

use vmm_devices::block_common::WorkerStop;
use vmm_devices::vhost_user_backend::{
    fd_is_socket, parse_wayland_sock, run_gpu_device, run_snd_device, start_fs_device,
    start_net_device, GpuBackend, NetBackend, VhostUserConnectionTrait, VhostUserDevice,
    VhostUserStream, S_IFSOCK,
};
use vmm_devices::vhost_user_blk::{
    vmm_va_to_gpa, BlockSlaveReqHandler, CallEvent, EventWrite, MappingInfo, MemoryRegion,
    ProtocolFeatures, QueueInfo, VhostError, PROTOCOL_FEATURES, VHOST_USER_CONFIG_SIZE,
};

#[test]
fn test_virtio_net_vhost_user_create() {
    // Verify the traits are accessible as objects.
    let _: fn() -> TypeId = || TypeId::of::<dyn VhostUserDevice>();
    let _: fn() -> TypeId = || TypeId::of::<dyn VhostUserConnectionTrait>();
    assert_ne!(
        TypeId::of::<dyn VhostUserDevice>(),
        TypeId::of::<dyn VhostUserConnectionTrait>()
    );
}

#[test]
fn only_sockets_are_connections() {
    assert!(fd_is_socket(Some(S_IFSOCK | 0o644)));
    assert!(!fd_is_socket(Some(0x8000)));
    assert!(!fd_is_socket(None));
    let stream = VhostUserStream::new_socket_from_fd(5, Some(S_IFSOCK), Ok(6)).unwrap();
    assert_eq!(stream.as_raw_descriptor(), 6);
    assert_eq!(
        VhostUserStream::new_socket_from_fd(5, Some(S_IFSOCK), Err("in use".to_owned())),
        Err("in use".to_owned())
    );
    assert_eq!(
        VhostUserStream::new_socket_from_fd(-17, None, Ok(-17)),
        Err("fd -17 is not a socket".to_owned())
    );
}

#[test]
fn unsupported_back_ends_say_so() {
    let tap = "vhost-user net backend is not supported on macOS (no TAP device support)";
    assert_eq!(start_net_device(), Err(tap.to_owned()));
    assert_eq!(NetBackend {}.start_queue(0), Err(tap.to_owned()));
    assert_eq!(
        start_fs_device(),
        Err("vhost-user FS backend is not supported on macOS (requires minijail)".to_owned())
    );
    assert_eq!(
        run_gpu_device(),
        Err("vhost-user GPU backend is not supported on macOS".to_owned())
    );
    assert_eq!(
        GpuBackend {}.start_platform_workers(),
        Err("GPU platform workers not supported on macOS".to_owned())
    );
    assert_eq!(
        run_snd_device(),
        Err("vhost-user snd backend is not supported on macOS".to_owned())
    );
    assert_eq!(
        parse_wayland_sock("/tmp/sock"),
        Err("Wayland is not supported on macOS: /tmp/sock".to_owned())
    );
}

const STOPPED: WorkerStop = WorkerStop {
    notified: true,
    joined: true,
};

#[test]
fn block_back_ends_have_plain_disks() {
    let mut h = handler();
    assert!(!h.block.read_only && !h.block.sparse);
    assert_eq!(h.block.block_size, 512);
    assert_eq!(h.block.id, None);
    assert!(!h.block.hold.has_control);
    // A device that runs is reset before it is started again.
    h.set_owner().unwrap();
    h.set_mem_table(&[region(0x1000, 0x9000, 0x1000)], 1).unwrap();
    h.set_vring_num(0, 8).unwrap();
    h.set_vring_addr(0, 0x9000, 0x9200, 0x9100).unwrap();
    h.block.activate(true, true);
    assert_eq!(h.block.hold.worker, Some(false));
    assert!(h.set_vring_kick(0, Some(50), STOPPED).unwrap().is_none());
    assert_eq!(h.block.hold.worker, Some(false));
    assert!(h.set_vring_call(0, Some(51), STOPPED).unwrap().is_some());
    assert_eq!(h.block.hold.worker, None);
    assert!(h.block.hold.has_disk_image);
}

fn handler() -> BlockSlaveReqHandler {
    BlockSlaveReqHandler::new(1 << 32, 4096, 1024)
}

fn region(guest: u64, user: u64, size: u64) -> MemoryRegion {
    MemoryRegion {
        guest_phys_addr: guest,
        memory_size: size,
        user_addr: user,
        mmap_offset: 0,
    }
}

#[test]
fn owner_is_set_once() {
    let mut h = handler();
    assert_eq!(h.set_owner(), Ok(()));
    assert_eq!(h.set_owner(), Err(VhostError::InvalidOperation));
    h.reset_owner();
    assert_eq!(h.set_owner(), Ok(()));
}

#[test]
fn features_need_an_owner() {
    let mut h = handler();
    let offered = h.get_features();
    assert_eq!(offered & PROTOCOL_FEATURES, PROTOCOL_FEATURES);
    assert_eq!(h.set_features(offered), Err(VhostError::InvalidOperation));
    h.set_owner().unwrap();
    assert_eq!(h.set_features(1 << 63), Err(VhostError::InvalidParam));
    assert_eq!(h.set_features(offered), Ok(()));
    assert_eq!(h.acked_features, offered);
}

#[test]
fn some_protocol_features_are_left_out() {
    let h = handler();
    let defined = ProtocolFeatures {
        all: 0b1111,
        configure_mem_slots: 0b0001,
        inflight_shmfd: 0b0010,
        slave_req: 0b0100,
    };
    assert_eq!(h.get_protocol_features(defined), 0b1000);
}

#[test]
fn addresses_are_translated() {
    let maps = vec![
        MappingInfo {
            vmm_addr: 0x1000,
            guest_phys: 0x8000,
            size: 0x1000,
        },
        MappingInfo {
            vmm_addr: 0x4000,
            guest_phys: 0,
            size: 0x10,
        },
    ];
    assert_eq!(vmm_va_to_gpa(&maps, 0x1008), Ok(0x8008));
    assert_eq!(vmm_va_to_gpa(&maps, 0x400f), Ok(0xf));
    assert_eq!(vmm_va_to_gpa(&maps, 0x4010), Err(VhostError::InvalidMessage));
}

#[test]
fn device_starts_with_ring_and_events() {
    let mut h = handler();
    h.set_owner().unwrap();
    let offered = h.get_features();
    h.set_features(offered).unwrap();
    assert_eq!(h.set_mem_table(&[region(0, 0x1_0000, 0x1_0000)], 0), Err(VhostError::InvalidParam));
    h.set_mem_table(&[region(0, 0x1_0000, 0x1_0000)], 1).unwrap();
    assert_eq!(h.get_queue_num(), 2);
    assert_eq!(h.set_vring_num(0, 0), Err(VhostError::InvalidParam));
    assert_eq!(h.set_vring_num(2, 16), Err(VhostError::InvalidParam));
    h.set_vring_num(0, 16).unwrap();
    h.set_vring_base(0, 4).unwrap();
    assert_eq!(
        h.set_vring_addr(2, 0x1_0000, 0x1_1000, 0x1_2000),
        Err(VhostError::InvalidParam)
    );
    h.set_vring_addr(0, 0x1_0000, 0x1_1000, 0x1_2000).unwrap();
    assert!(h.set_vring_kick(0, Some(50), STOPPED).unwrap().is_none());
    assert!(h.vring_started[0]);
    let start = h.set_vring_call(0, Some(51), STOPPED).unwrap().unwrap();
    assert_eq!(start.kick_events, vec![50]);
    assert_eq!(start.call_events, vec![51]);
    assert_eq!(start.queues.len(), 1);
    assert_eq!(start.queues[0].size, 16);
    assert_eq!(
        start.queues[0].info,
        QueueInfo {
            desc_table: 0,
            avail_ring: 0x2000,
            used_ring: 0x1000,
        }
    );
    assert_eq!(h.set_vring_err(0, Some(52)), Ok(()));
    assert_eq!(h.get_vring_base(0).unwrap().base, 4);
    assert!(!h.vring_started[0]);
}

#[test]
fn configuration_is_read_within_bounds() {
    let h = handler();
    let config = h.get_config(0, 8).unwrap();
    assert_eq!(config, vec![8, 0, 0, 0, 0, 0, 0, 0]);
    assert_eq!(
        h.get_config(VHOST_USER_CONFIG_SIZE, 1),
        Err(VhostError::InvalidParam)
    );
    assert_eq!(h.get_max_mem_slots(), 0);
}

#[test]
fn interrupts_write_the_call_event() {
    let event = CallEvent { event: 9 };
    assert_eq!(event.signal_used_queue(), EventWrite { event: 9, value: 0 });
    assert_eq!(event.signal(2), EventWrite { event: 9, value: 2 });
}

#[test]
fn rings_are_switched_with_protocol_features() {
    let mut h = handler();
    assert_eq!(
        h.set_vring_enable(0, true, STOPPED).err(),
        Some(VhostError::InvalidOperation)
    );
    h.set_owner().unwrap();
    let offered = h.get_features();
    h.set_features(offered).unwrap();
    h.set_protocol_features(8);
    assert_eq!(h.acked_protocol_features, 8);
    assert!(h.set_vring_enable(0, true, STOPPED).unwrap().is_none());
    assert!(h.vring_enabled[0]);
    assert_eq!(
        h.set_vring_enable(2, true, STOPPED).err(),
        Some(VhostError::InvalidParam)
    );
    h.set_slave_req_fd(33);
    assert_eq!(h.vu_req, Some(33));
}

#[test]
fn configuration_writes_are_checked() {
    let h = handler();
    assert_eq!(h.set_config(0x100, &[1]), Ok(()));
    assert_eq!(h.set_config(0, &[1]), Err(VhostError::InvalidParam));
    assert_eq!(h.set_config(0xfff, &[1, 2]), Err(VhostError::InvalidParam));
}
