//! The back end of a vhost-user block device.
use crate::block_async;
use crate::block_async::BlockAsync;
use crate::block_common;
use crate::block_common::WorkerStop;
use crate::virtio;
use vstd::prelude::*;

verus! {

pub const MAX_QUEUE_NUM: usize = 2;

pub const MAX_VRING_NUM: usize = 256;

pub const VIRTIO_TRANSPORT_FEATURES: u64 = 0x1_4000_0000;

/// The feature bit that allows protocol features to be negotiated.
pub const PROTOCOL_FEATURES: u64 = 0x4000_0000;

pub const VHOST_USER_CONFIG_OFFSET: u32 = 0x100;

pub const VHOST_USER_CONFIG_SIZE: u32 = 0x1000;

/// Why a request of the front end is refused.
#[derive(Clone, Copy, Debug, PartialEq, Eq, Structural)]
pub enum VhostError {
    InvalidMessage,
    InvalidOperation,
    InvalidParam,
}

/// A write to an event.
#[derive(Clone, Copy, Debug, PartialEq, Eq, Structural)]
pub struct EventWrite {
    pub event: u64,
    pub value: u64,
}

/// An event that tells the front end to interrupt the guest.
#[derive(Clone, Copy, Debug, PartialEq, Eq, Structural)]
pub struct CallEvent {
    pub event: u64,
}

impl CallEvent {
    /// Delivers an interrupt to the guest.
    pub fn signal(&self, interrupt_status_mask: u32) -> (r: EventWrite)
        ensures
            r == (EventWrite { event: self.event, value: interrupt_status_mask as u64 }),
    {
        EventWrite { event: self.event, value: interrupt_status_mask as u64 }
    }

    /// Tells the driver that buffers have been used.
    pub fn signal_used_queue(&self) -> (r: EventWrite)
        ensures
            r == (EventWrite { event: self.event, value: 0 }),
    {
        self.signal(0)
    }
}

/// Where the rings of a queue are in guest memory.
#[derive(Clone, Copy, Debug, PartialEq, Eq, Structural)]
pub struct QueueInfo {
    pub desc_table: u64,
    pub avail_ring: u64,
    pub used_ring: u64,
}

/// A range of the front end's addresses and the guest address of its start.
#[derive(Clone, Copy, Debug, PartialEq, Eq, Structural)]
pub struct MappingInfo {
    pub vmm_addr: u64,
    pub guest_phys: u64,
    pub size: u64,
}

impl MappingInfo {
    pub open spec fn contains(self, va: u64) -> bool {
        self.vmm_addr <= va < self.vmm_addr + self.size
    }

    /// Whether the sums that a look-up of an address takes have room.
    pub open spec fn has_room(self, va: u64) -> bool {
        &&& self.vmm_addr <= va ==> self.vmm_addr + self.size <= u64::MAX
        &&& self.contains(va) ==> va - self.vmm_addr + self.guest_phys <= u64::MAX
    }
}

/// The guest address that the first range with the address gives it.
pub open spec fn translated(maps: Seq<MappingInfo>, va: u64) -> Option<u64>
    decreases maps.len(),
{
    if maps.len() == 0 {
        None
    } else if maps[0].contains(va) {
        Some((va - maps[0].vmm_addr + maps[0].guest_phys) as u64)
    } else {
        translated(maps.skip(1), va)
    }
}

/// Whether all ranges up to the first one with the address have room.
pub open spec fn look_up_has_room(maps: Seq<MappingInfo>, va: u64) -> bool
    decreases maps.len(),
{
    maps.len() > 0 ==> maps[0].has_room(va) && (!maps[0].contains(va) ==> look_up_has_room(
        maps.skip(1),
        va,
    ))
}

/// The guest address of an address of the front end.
pub fn vmm_va_to_gpa(maps: &Vec<MappingInfo>, vmm_va: u64) -> (r: Result<u64, VhostError>)
    requires
        look_up_has_room(maps@, vmm_va),
    ensures
        match translated(maps@, vmm_va) {
            Some(gpa) => r == Ok::<u64, VhostError>(gpa),
            None => r == Err::<u64, VhostError>(VhostError::InvalidMessage),
        },
{
    let mut i: usize = 0;
    assert(maps@.skip(0) =~= maps@);
    while i < maps.len()
        invariant
            i <= maps@.len(),
            look_up_has_room(maps@.skip(i as int), vmm_va),
            translated(maps@.skip(i as int), vmm_va) == translated(maps@, vmm_va),
        decreases maps.len() - i,
    {
        let ghost left = maps@.skip(i as int);
        assert(left[0] == maps@[i as int]);
        assert(left.skip(1) =~= maps@.skip(i + 1));
        let map = maps[i];
        if vmm_va >= map.vmm_addr && vmm_va < map.vmm_addr + map.size {
            return Ok(vmm_va - map.vmm_addr + map.guest_phys);
        }
        i = i + 1;
    }
    Err(VhostError::InvalidMessage)
}

/// A region of guest memory that the front end shares.
#[derive(Clone, Copy, Debug, PartialEq, Eq, Structural)]
pub struct MemoryRegion {
    pub guest_phys_addr: u64,
    pub memory_size: u64,
    pub user_addr: u64,
    pub mmap_offset: u64,
}

/// Bits of the protocol features, as the protocol defines them.
#[derive(Clone, Copy, Debug, PartialEq, Eq, Structural)]
pub struct ProtocolFeatures {
    pub all: u64,
    pub configure_mem_slots: u64,
    pub inflight_shmfd: u64,
    pub slave_req: u64,
}

/// A queue that the device is started with.
#[derive(Clone, Copy, Debug, PartialEq, Eq, Structural)]
pub struct QueueSetup {
    pub size: u16,
    pub info: QueueInfo,
}

/// What the device is started with, once it was reset.
#[derive(Debug)]
pub struct DeviceStart {
    pub call_events: Vec<u64>,
    pub queues: Vec<QueueSetup>,
    pub kick_events: Vec<u64>,
}

/// State of a ring, as the front end is told.
#[derive(Clone, Copy, Debug, PartialEq, Eq, Structural)]
pub struct VringState {
    pub index: u32,
    pub base: u32,
}

/// The values that are there, in their order.
pub open spec fn present<T>(s: Seq<Option<T>>) -> Seq<T>
    decreases s.len(),
{
    if s.len() == 0 {
        Seq::empty()
    } else {
        let rest = present(s.drop_last());
        match s.last() {
            Some(v) => rest.push(v),
            None => rest,
        }
    }
}

/// The queues that are set up, where the first has the first of the sizes, and
/// so on.
pub open spec fn setups(infos: Seq<QueueInfo>, sizes: Seq<u32>) -> Seq<QueueSetup> {
    Seq::new(infos.len(), |i: int| QueueSetup { size: sizes[i] as u16, info: infos[i] })
}

fn collect_present<T: Copy>(s: &[Option<T>; MAX_QUEUE_NUM]) -> (r: Vec<T>)
    ensures
        r@ == present(s@),
        r@.len() <= MAX_QUEUE_NUM,
{
    let mut out: Vec<T> = Vec::new();
    let mut i: usize = 0;
    while i < MAX_QUEUE_NUM
        invariant
            i <= MAX_QUEUE_NUM,
            s@.len() == MAX_QUEUE_NUM,
            out@ == present(s@.take(i as int)),
            out@.len() <= i,
        decreases MAX_QUEUE_NUM - i,
    {
        proof {
            assert(s@.take(i + 1).drop_last() =~= s@.take(i as int));
            assert(s@.take(i + 1).last() == s@[i as int]);
        }
        match s[i] {
            Some(v) => {
                out.push(v);
            },
            None => {},
        }
        i = i + 1;
    }
    assert(s@.take(i as int) =~= s@);
    out
}

/// The state of the back end.
#[derive(Debug)]
pub struct BlockSlaveReqHandler {
    pub owned: bool,
    pub features_acked: bool,
    pub acked_features: u64,
    pub acked_protocol_features: u64,
    pub queue_num: usize,
    pub vring_num: [u32; MAX_QUEUE_NUM],
    pub vring_base: [u32; MAX_QUEUE_NUM],
    pub queue_info: [Option<QueueInfo>; MAX_QUEUE_NUM],
    pub call_fd: [Option<u64>; MAX_QUEUE_NUM],
    pub kick_fd: [Option<u64>; MAX_QUEUE_NUM],
    pub err_fd: [Option<u64>; MAX_QUEUE_NUM],
    pub vring_started: [bool; MAX_QUEUE_NUM],
    pub vring_enabled: [bool; MAX_QUEUE_NUM],
    pub vu_req: Option<u64>,
    pub vmm_maps: Option<Vec<MappingInfo>>,
    pub block: BlockAsync,
}

impl BlockSlaveReqHandler {
    /// A ring can only be set up once there is guest memory.
    pub open spec fn wf(&self) -> bool {
        &&& self.queue_num <= MAX_QUEUE_NUM
        &&& self.vmm_maps is None ==> present(self.queue_info@).len() == 0
    }

    pub open spec fn queues(&self) -> Seq<QueueInfo> {
        present(self.queue_info@)
    }

    /// Whether all rings that are set up have their events.
    pub open spec fn startable(&self) -> bool {
        let n = self.queues().len();
        n >= 1 && present(self.kick_fd@).len() >= n && present(self.call_fd@).len() >= n
    }

    /// The block device after a reset.
    pub open spec fn reset_block(&self, stop: WorkerStop) -> BlockAsync {
        BlockAsync { hold: self.block.hold.after_reset(stop), ..self.block }
    }

    /// The features that the device offers.
    pub open spec fn offered(&self) -> u64 {
        self.block.avail_features | VIRTIO_TRANSPORT_FEATURES
    }

    /// A back end on a disk of `disk_len` bytes, which is written to and is not
    /// sparse, has blocks of one sector and no identification, and is not
    /// controlled by the monitor. `iov_max` is how many buffers the host takes at
    /// once.
    pub fn new(base_features: u64, disk_len: u64, iov_max: usize) -> (r: Self)
        ensures
            Ok::<BlockAsync, i32>(r.block) == BlockAsync::made(
                base_features,
                Ok(disk_len),
                false,
                false,
                512,
                None,
                false,
                iov_max,
                block_common::QUEUE_SIZE,
                block_async::NUM_QUEUES,
            ),
            r.wf(),
            !r.owned,
            !r.features_acked,
            r.acked_features == 0,
            r.acked_protocol_features == 0,
            r.queue_num == MAX_QUEUE_NUM,
            r.vring_num@ == seq![0u32, 0u32],
            r.vring_base@ == seq![0u32, 0u32],
            r.queue_info@ == seq![None::<QueueInfo>, None::<QueueInfo>],
            r.call_fd@ == seq![None::<u64>, None::<u64>],
            r.kick_fd@ == seq![None::<u64>, None::<u64>],
            r.err_fd@ == seq![None::<u64>, None::<u64>],
            r.vring_started@ == seq![false, false],
            r.vring_enabled@ == seq![false, false],
            r.vu_req is None,
            r.vmm_maps is None,
    {
        let made = BlockAsync::new(
            base_features,
            Ok(disk_len),
            false,
            false,
            512,
            None,
            false,
            iov_max,
        );
        let block = match made {
            Ok(block) => block,
            Err(_) => vstd::pervasive::unreached(),
        };
        let r = BlockSlaveReqHandler {
            owned: false,
            features_acked: false,
            acked_features: 0,
            acked_protocol_features: 0,
            queue_num: MAX_QUEUE_NUM,
            vring_num: [0, 0],
            vring_base: [0, 0],
            queue_info: [None, None],
            call_fd: [None, None],
            kick_fd: [None, None],
            err_fd: [None, None],
            vring_started: [false, false],
            vring_enabled: [false, false],
            vu_req: None,
            vmm_maps: None,
            block,
        };
        proof {
            nothing_present::<QueueInfo>();
            assert(r.vring_num@ =~= seq![0u32, 0u32]);
            assert(r.vring_base@ =~= seq![0u32, 0u32]);
            assert(r.queue_info@ =~= seq![None::<QueueInfo>, None::<QueueInfo>]);
            assert(r.call_fd@ =~= seq![None::<u64>, None::<u64>]);
            assert(r.kick_fd@ =~= seq![None::<u64>, None::<u64>]);
            assert(r.err_fd@ =~= seq![None::<u64>, None::<u64>]);
            assert(r.vring_started@ =~= seq![false, false]);
            assert(r.vring_enabled@ =~= seq![false, false]);
        }
        r
    }

    /// Starts the device, once there is a ring that is set up, and no fewer
    /// events of each kind than rings. It is reset before; `stop` says how a worker
    /// took that.
    pub fn potentially_start_dev(&mut self, stop: WorkerStop) -> (r: Option<DeviceStart>)
        requires
            old(self).wf(),
        ensures
            final(self).wf(),
            r is Some <==> old(self).startable(),
            r is None ==> *final(self) == *old(self),
            r matches Some(s) ==> {
                &&& s.call_events@ == present(old(self).call_fd@)
                &&& s.kick_events@ == present(old(self).kick_fd@)
                &&& s.queues@ == setups(old(self).queues(), old(self).vring_num@)
                &&& final(self).call_fd@ == seq![None::<u64>, None::<u64>]
                &&& final(self).kick_fd@ == seq![None::<u64>, None::<u64>]
                &&& final(self).block == old(self).reset_block(stop)
                &&& *final(self) == (BlockSlaveReqHandler {
                    call_fd: final(self).call_fd,
                    kick_fd: final(self).kick_fd,
                    block: final(self).block,
                    ..*old(self)
                })
            },
    {
        let infos: Vec<QueueInfo> = collect_present(&self.queue_info);
        let num_queues: usize = infos.len();
        if num_queues < 1 {
            return None;
        }
        let kick_events: Vec<u64> = collect_present(&self.kick_fd);
        if kick_events.len() < num_queues {
            return None;
        }
        let call_events: Vec<u64> = collect_present(&self.call_fd);
        if call_events.len() < num_queues {
            return None;
        }
        Some(self.start_block_dev(infos, call_events, kick_events, stop))
    }

    fn start_block_dev(
        &mut self,
        infos: Vec<QueueInfo>,
        call_events: Vec<u64>,
        kick_events: Vec<u64>,
        stop: WorkerStop,
    ) -> (s: DeviceStart)
        requires
            infos@.len() <= MAX_QUEUE_NUM,
        ensures
            s.call_events@ == call_events@,
            s.kick_events@ == kick_events@,
            s.queues@ == setups(infos@, old(self).vring_num@),
            final(self).call_fd@ == seq![None::<u64>, None::<u64>],
            final(self).kick_fd@ == seq![None::<u64>, None::<u64>],
            final(self).block == old(self).reset_block(stop),
            *final(self) == (BlockSlaveReqHandler {
                call_fd: final(self).call_fd,
                kick_fd: final(self).kick_fd,
                block: final(self).block,
                ..*old(self)
            }),
    {
        let mut queues: Vec<QueueSetup> = Vec::new();
        let mut i: usize = 0;
        while i < infos.len()
            invariant
                i <= infos@.len() <= MAX_QUEUE_NUM,
                self.vring_num@.len() == MAX_QUEUE_NUM,
                queues@ == setups(infos@, self.vring_num@).take(i as int),
            decreases infos.len() - i,
        {
            queues.push(QueueSetup { size: self.vring_num[i] as u16, info: infos[i] });
            i = i + 1;
            assert(queues@ =~= setups(infos@, self.vring_num@).take(i as int));
        }
        assert(queues@ =~= setups(infos@, self.vring_num@));
        self.call_fd = [None, None];
        self.kick_fd = [None, None];
        assert(self.call_fd@ =~= seq![None::<u64>, None::<u64>]);
        assert(self.kick_fd@ =~= seq![None::<u64>, None::<u64>]);
        self.block.reset(stop);
        DeviceStart { call_events, queues, kick_events }
    }

    /// Takes the device, which only one front end can do.
    pub fn set_owner(&mut self) -> (r: Result<(), VhostError>)
        ensures
            r == (if old(self).owned {
                Err::<(), VhostError>(VhostError::InvalidOperation)
            } else {
                Ok(())
            }),
            *final(self) == (BlockSlaveReqHandler { owned: true, ..*old(self) }),
    {
        if self.owned {
            return Err(VhostError::InvalidOperation);
        }
        self.owned = true;
        Ok(())
    }

    /// Gives the device up.
    pub fn reset_owner(&mut self)
        ensures
            *final(self) == (BlockSlaveReqHandler {
                owned: false,
                features_acked: false,
                acked_features: 0,
                acked_protocol_features: 0,
                ..*old(self)
            }),
    {
        self.owned = false;
        self.features_acked = false;
        self.acked_features = 0;
        self.acked_protocol_features = 0;
    }

    pub fn get_features(&self) -> (r: u64)
        ensures
            r == self.offered(),
    {
        self.block.features() | VIRTIO_TRANSPORT_FEATURES
    }

    /// Accepts features. The rings start out enabled, unless protocol features
    /// were negotiated.
    pub fn set_features(&mut self, features: u64) -> (r: Result<(), VhostError>)
        ensures
            !old(self).owned ==> r == Err::<(), VhostError>(VhostError::InvalidOperation),
            old(self).owned ==> r == (if features & !old(self).offered() != 0 {
                Err::<(), VhostError>(VhostError::InvalidParam)
            } else {
                Ok(())
            }),
            r is Err ==> *final(self) == *old(self),
            r is Ok ==> {
                &&& final(self).vring_enabled@ == ({
                    let enabled = features & PROTOCOL_FEATURES == 0;
                    seq![enabled, enabled]
                })
                &&& *final(self) == (BlockSlaveReqHandler {
                    acked_features: features,
                    features_acked: true,
                    vring_enabled: final(self).vring_enabled,
                    ..*old(self)
                })
            },
    {
        if !self.owned {
            return Err(VhostError::InvalidOperation);
        } else if (features & !(self.block.features() | VIRTIO_TRANSPORT_FEATURES)) != 0 {
            return Err(VhostError::InvalidParam);
        }
        self.acked_features = features;
        self.features_acked = true;
        let vring_enabled: bool = self.acked_features & PROTOCOL_FEATURES == 0;
        self.vring_enabled = [vring_enabled, vring_enabled];
        assert(self.vring_enabled@ =~= seq![vring_enabled, vring_enabled]);
        Ok(())
    }

    /// All protocol features but those on memory slots, in-flight requests and
    /// requests of the back end.
    pub fn get_protocol_features(&self, defined: ProtocolFeatures) -> (r: u64)
        ensures
            r == defined.all & !defined.configure_mem_slots & !defined.inflight_shmfd
                & !defined.slave_req,
    {
        let mut features: u64 = defined.all;
        features = features & !defined.configure_mem_slots;
        features = features & !defined.inflight_shmfd;
        features = features & !defined.slave_req;
        features
    }

    pub fn set_protocol_features(&mut self, features: u64)
        ensures
            *final(self) == (BlockSlaveReqHandler {
                acked_protocol_features: features,
                ..*old(self)
            }),
    {
        self.acked_protocol_features = features;
    }

    /// Takes the regions of guest memory, each of which comes with a
    /// descriptor.
    pub fn set_mem_table(&mut self, contexts: &[MemoryRegion], fds: usize) -> (r: Result<
        (),
        VhostError,
    >)
        requires
            old(self).wf(),
        ensures
            final(self).wf(),
            r == (if fds != contexts@.len() {
                Err::<(), VhostError>(VhostError::InvalidParam)
            } else {
                Ok(())
            }),
            r is Err ==> *final(self) == *old(self),
            r is Ok ==> {
                &&& final(self).vmm_maps is Some
                &&& final(self).vmm_maps->0@ == contexts@.map(
                    |i: int, c: MemoryRegion|
                        MappingInfo {
                            vmm_addr: c.user_addr,
                            guest_phys: c.guest_phys_addr,
                            size: c.memory_size,
                        },
                )
                &&& *final(self) == (BlockSlaveReqHandler {
                    vmm_maps: final(self).vmm_maps,
                    ..*old(self)
                })
            },
    {
        if fds != contexts.len() {
            return Err(VhostError::InvalidParam);
        }
        let ghost goal = contexts@.map(
            |i: int, c: MemoryRegion|
                MappingInfo {
                    vmm_addr: c.user_addr,
                    guest_phys: c.guest_phys_addr,
                    size: c.memory_size,
                },
        );
        let mut vmm_maps: Vec<MappingInfo> = Vec::new();
        let mut i: usize = 0;
        while i < contexts.len()
            invariant
                i <= contexts@.len(),
                goal == contexts@.map(
                    |i: int, c: MemoryRegion|
                        MappingInfo {
                            vmm_addr: c.user_addr,
                            guest_phys: c.guest_phys_addr,
                            size: c.memory_size,
                        },
                ),
                vmm_maps@ == goal.take(i as int),
            decreases contexts.len() - i,
        {
            let c = contexts[i];
            vmm_maps.push(
                MappingInfo {
                    vmm_addr: c.user_addr,
                    guest_phys: c.guest_phys_addr,
                    size: c.memory_size,
                },
            );
            i = i + 1;
            assert(vmm_maps@ =~= goal.take(i as int));
        }
        assert(vmm_maps@ =~= goal);
        self.vmm_maps = Some(vmm_maps);
        Ok(())
    }

    pub fn get_queue_num(&self) -> (r: u64)
        ensures
            r == MAX_QUEUE_NUM,
    {
        MAX_QUEUE_NUM as u64
    }

    /// Sets the size of a ring.
    pub fn set_vring_num(&mut self, index: u32, num: u32) -> (r: Result<(), VhostError>)
        requires
            old(self).wf(),
        ensures
            final(self).wf(),
            r == (if index >= old(self).queue_num || num == 0 || num > MAX_VRING_NUM {
                Err::<(), VhostError>(VhostError::InvalidParam)
            } else {
                Ok(())
            }),
            r is Err ==> *final(self) == *old(self),
            r is Ok ==> {
                &&& final(self).vring_num@ == old(self).vring_num@.update(index as int, num)
                &&& *final(self) == (BlockSlaveReqHandler {
                    vring_num: final(self).vring_num,
                    ..*old(self)
                })
            },
    {
        if index as usize >= self.queue_num || num == 0 || num as usize > MAX_VRING_NUM {
            return Err(VhostError::InvalidParam);
        }
        self.vring_num[index as usize] = num;
        Ok(())
    }

    /// Sets where the parts of a ring are, which the front end gives by its own
    /// addresses.
    pub fn set_vring_addr(&mut self, index: u32, descriptor: u64, used: u64, available: u64) -> (r:
        Result<(), VhostError>)
        requires
            old(self).wf(),
            index < old(self).queue_num && old(self).vmm_maps is Some ==> {
                let maps = old(self).vmm_maps->0@;
                &&& look_up_has_room(maps, descriptor) && translated(maps, descriptor) is Some
                &&& look_up_has_room(maps, available) && translated(maps, available) is Some
                &&& look_up_has_room(maps, used) && translated(maps, used) is Some
            },
        ensures
            final(self).wf(),
            r == (if index >= old(self).queue_num || old(self).vmm_maps is None {
                Err::<(), VhostError>(VhostError::InvalidParam)
            } else {
                Ok(())
            }),
            r is Err ==> *final(self) == *old(self),
            r is Ok ==> {
                let maps = old(self).vmm_maps->0@;
                &&& final(self).queue_info@ == old(self).queue_info@.update(
                    index as int,
                    Some(
                        QueueInfo {
                            desc_table: translated(maps, descriptor)->0,
                            avail_ring: translated(maps, available)->0,
                            used_ring: translated(maps, used)->0,
                        },
                    ),
                )
                &&& *final(self) == (BlockSlaveReqHandler {
                    queue_info: final(self).queue_info,
                    ..*old(self)
                })
            },
    {
        if index as usize >= self.queue_num {
            return Err(VhostError::InvalidParam);
        }
        let queue: Option<QueueInfo> = match &self.vmm_maps {
            Some(maps) => match (
                vmm_va_to_gpa(maps, descriptor),
                vmm_va_to_gpa(maps, available),
                vmm_va_to_gpa(maps, used),
            ) {
                (Ok(desc_table), Ok(avail_ring), Ok(used_ring)) => Some(
                    QueueInfo { desc_table, avail_ring, used_ring },
                ),
                _ => None,
            },
            None => None,
        };
        match queue {
            Some(q) => {
                self.queue_info[index as usize] = Some(q);
                Ok(())
            },
            None => Err(VhostError::InvalidParam),
        }
    }

    /// Sets where a ring starts.
    pub fn set_vring_base(&mut self, index: u32, base: u32) -> (r: Result<(), VhostError>)
        requires
            old(self).wf(),
        ensures
            final(self).wf(),
            r == (if index >= old(self).queue_num || base >= MAX_VRING_NUM {
                Err::<(), VhostError>(VhostError::InvalidParam)
            } else {
                Ok(())
            }),
            r is Err ==> *final(self) == *old(self),
            r is Ok ==> {
                &&& final(self).vring_base@ == old(self).vring_base@.update(index as int, base)
                &&& *final(self) == (BlockSlaveReqHandler {
                    vring_base: final(self).vring_base,
                    ..*old(self)
                })
            },
    {
        if index as usize >= self.queue_num || base as usize >= MAX_VRING_NUM {
            return Err(VhostError::InvalidParam);
        }
        self.vring_base[index as usize] = base;
        Ok(())
    }

    /// Stops a ring and returns where it starts. The set-up of all rings is
    /// forgotten.
    pub fn get_vring_base(&mut self, index: u32) -> (r: Result<VringState, VhostError>)
        requires
            old(self).wf(),
        ensures
            final(self).wf(),
            r == (if index >= old(self).queue_num {
                Err::<VringState, VhostError>(VhostError::InvalidParam)
            } else {
                Ok(VringState { index, base: old(self).vring_base@[index as int] })
            }),
            r is Err ==> *final(self) == *old(self),
            r is Ok ==> {
                &&& final(self).vring_started@ == old(self).vring_started@.update(
                    index as int,
                    false,
                )
                &&& final(self).call_fd@ == seq![None::<u64>, None::<u64>]
                &&& final(self).kick_fd@ == seq![None::<u64>, None::<u64>]
                &&& final(self).queue_info@ == seq![None::<QueueInfo>, None::<QueueInfo>]
                &&& *final(self) == (BlockSlaveReqHandler {
                    vring_started: final(self).vring_started,
                    call_fd: final(self).call_fd,
                    kick_fd: final(self).kick_fd,
                    queue_info: final(self).queue_info,
                    ..*old(self)
                })
            },
    {
        if index as usize >= self.queue_num {
            return Err(VhostError::InvalidParam);
        }
        self.vring_started[index as usize] = false;
        self.call_fd = [None, None];
        self.kick_fd = [None, None];
        self.queue_info = [None, None];
        proof {
            nothing_present::<QueueInfo>();
            assert(self.call_fd@ =~= seq![None::<u64>, None::<u64>]);
            assert(self.kick_fd@ =~= seq![None::<u64>, None::<u64>]);
            assert(self.queue_info@ =~= seq![None::<QueueInfo>, None::<QueueInfo>]);
        }
        Ok(VringState { index, base: self.vring_base[index as usize] })
    }

    /// The state with the event that starts a ring.
    pub open spec fn kicked(self, index: int, fd: Option<u64>, to: Self) -> bool {
        &&& to.kick_fd@ == self.kick_fd@.update(index, fd)
        &&& to.vring_started@ == self.vring_started@.update(index, true)
        &&& to == (BlockSlaveReqHandler {
            kick_fd: to.kick_fd,
            vring_started: to.vring_started,
            ..self
        })
    }

    /// The device is started from a state, if it can be.
    pub open spec fn started(self, to: Self, s: Option<DeviceStart>, stop: WorkerStop) -> bool {
        &&& s is Some <==> self.startable()
        &&& s is None ==> to == self
        &&& s matches Some(d) ==> {
            &&& d.call_events@ == present(self.call_fd@)
            &&& d.kick_events@ == present(self.kick_fd@)
            &&& d.queues@ == setups(self.queues(), self.vring_num@)
            &&& to.call_fd@ == seq![None::<u64>, None::<u64>]
            &&& to.kick_fd@ == seq![None::<u64>, None::<u64>]
            &&& to == (BlockSlaveReqHandler {
                call_fd: to.call_fd,
                kick_fd: to.kick_fd,
                block: self.reset_block(stop),
                ..self
            })
        }
    }

    /// Sets the event that starts a ring.
    pub fn set_vring_kick(&mut self, index: u8, fd: Option<u64>, stop: WorkerStop) -> (r: Result<
        Option<DeviceStart>,
        VhostError,
    >)
        requires
            old(self).wf(),
        ensures
            final(self).wf(),
            r is Ok <==> index < old(self).queue_num,
            r matches Err(e) ==> e == VhostError::InvalidParam && *final(self) == *old(self),
            r matches Ok(s) ==> exists|mid: Self| #[trigger]
                old(self).kicked(index as int, fd, mid) && mid.started(*final(self), s, stop),
    {
        if index as usize >= self.queue_num || index as usize > self.queue_num {
            return Err(VhostError::InvalidParam);
        }
        self.kick_fd[index as usize] = fd;
        self.vring_started[index as usize] = true;
        assert(old(self).kicked(index as int, fd, *self));
        Ok(self.potentially_start_dev(stop))
    }

    /// The state with the event that interrupts the guest.
    pub open spec fn called(self, index: int, fd: Option<u64>, to: Self) -> bool {
        &&& to.call_fd@ == self.call_fd@.update(index, fd)
        &&& to == (BlockSlaveReqHandler { call_fd: to.call_fd, ..self })
    }

    /// Sets the event that interrupts the guest.
    pub fn set_vring_call(&mut self, index: u8, fd: Option<u64>, stop: WorkerStop) -> (r: Result<
        Option<DeviceStart>,
        VhostError,
    >)
        requires
            old(self).wf(),
        ensures
            final(self).wf(),
            r is Ok <==> index < old(self).queue_num,
            r matches Err(e) ==> e == VhostError::InvalidParam && *final(self) == *old(self),
            r matches Ok(s) ==> exists|mid: Self| #[trigger]
                old(self).called(index as int, fd, mid) && mid.started(*final(self), s, stop),
    {
        if index as usize >= self.queue_num || index as usize > self.queue_num {
            return Err(VhostError::InvalidParam);
        }
        self.call_fd[index as usize] = fd;
        assert(old(self).called(index as int, fd, *self));
        Ok(self.potentially_start_dev(stop))
    }

    /// Sets the event that reports errors.
    pub fn set_vring_err(&mut self, index: u8, fd: Option<u64>) -> (r: Result<(), VhostError>)
        requires
            old(self).wf(),
        ensures
            final(self).wf(),
            r == (if index >= old(self).queue_num {
                Err::<(), VhostError>(VhostError::InvalidParam)
            } else {
                Ok(())
            }),
            r is Err ==> *final(self) == *old(self),
            r is Ok ==> {
                &&& final(self).err_fd@ == old(self).err_fd@.update(index as int, fd)
                &&& *final(self) == (BlockSlaveReqHandler {
                    err_fd: final(self).err_fd,
                    ..*old(self)
                })
            },
    {
        if index as usize >= self.queue_num || index as usize > self.queue_num {
            return Err(VhostError::InvalidParam);
        }
        self.err_fd[index as usize] = fd;
        Ok(())
    }

    /// The state with a ring enabled or disabled.
    pub open spec fn switched(self, index: int, enable: bool, to: Self) -> bool {
        &&& to.vring_enabled@ == self.vring_enabled@.update(index, enable)
        &&& to == (BlockSlaveReqHandler { vring_enabled: to.vring_enabled, ..self })
    }

    /// Enables or disables a ring, which is only allowed once protocol features
    /// were negotiated.
    pub fn set_vring_enable(&mut self, index: u32, enable: bool, stop: WorkerStop) -> (r: Result<
        Option<DeviceStart>,
        VhostError,
    >)
        requires
            old(self).wf(),
        ensures
            final(self).wf(),
            r is Ok <==> old(self).acked_features & PROTOCOL_FEATURES != 0 && index < old(
                self,
            ).queue_num,
            r matches Err(e) ==> {
                &&& e == (if old(self).acked_features & PROTOCOL_FEATURES == 0 {
                    VhostError::InvalidOperation
                } else {
                    VhostError::InvalidParam
                })
                &&& *final(self) == *old(self)
            },
            r matches Ok(s) ==> exists|mid: Self| #[trigger]
                old(self).switched(index as int, enable, mid) && mid.started(*final(self), s, stop),
    {
        if self.acked_features & PROTOCOL_FEATURES == 0 {
            return Err(VhostError::InvalidOperation);
        } else if index as usize >= self.queue_num || index as usize > self.queue_num {
            return Err(VhostError::InvalidParam);
        }
        self.vring_enabled[index as usize] = enable;
        assert(old(self).switched(index as int, enable, *self));
        Ok(self.potentially_start_dev(stop))
    }

    /// Reads from the configuration of the device.
    pub fn get_config(&self, offset: u32, size: u32) -> (r: Result<Vec<u8>, VhostError>)
        requires
            offset < VHOST_USER_CONFIG_SIZE ==> size + offset <= u32::MAX,
        ensures
            r is Ok <==> offset < VHOST_USER_CONFIG_SIZE && size + offset
                <= VHOST_USER_CONFIG_SIZE,
            r matches Err(e) ==> e == VhostError::InvalidParam,
            r matches Ok(data) ==> data@ == virtio::config_copied(
                Seq::new(size as nat, |i: int| 0u8),
                0,
                self.block.config_bytes(),
                offset as int,
            ),
    {
        if offset >= VHOST_USER_CONFIG_SIZE || size + offset > VHOST_USER_CONFIG_SIZE {
            return Err(VhostError::InvalidParam);
        }
        let mut data: Vec<u8> = vec![0; size as usize];
        assert(data@ =~= Seq::new(size as nat, |i: int| 0u8));
        self.block.read_config(offset as u64, data.as_mut_slice());
        Ok(data)
    }

    /// Checks a write to the configuration, which has no effect.
    pub fn set_config(&self, offset: u32, buf: &[u8]) -> (r: Result<(), VhostError>)
        ensures
            r == (if VHOST_USER_CONFIG_OFFSET <= offset < VHOST_USER_CONFIG_SIZE && (
            buf@.len() as u32) + offset <= VHOST_USER_CONFIG_SIZE {
                Ok(())
            } else {
                Err::<(), VhostError>(VhostError::InvalidParam)
            }),
    {
        let size: u32 = buf.len() as u32;
        if offset < VHOST_USER_CONFIG_OFFSET || offset >= VHOST_USER_CONFIG_SIZE || size
            > VHOST_USER_CONFIG_SIZE - VHOST_USER_CONFIG_OFFSET || size + offset
            > VHOST_USER_CONFIG_SIZE {
            return Err(VhostError::InvalidParam);
        }
        Ok(())
    }

    pub fn set_slave_req_fd(&mut self, vu_req: u64)
        ensures
            *final(self) == (BlockSlaveReqHandler { vu_req: Some(vu_req), ..*old(self) }),
    {
        self.vu_req = Some(vu_req);
    }

    /// There are no memory slots.
    pub fn get_max_mem_slots(&self) -> (r: u64)
        ensures
            r == 0,
    {
        0
    }
}

proof fn nothing_present<T>()
    ensures
        present(seq![None::<T>, None::<T>]) == Seq::<T>::empty(),
{
    reveal_with_fuel(present, 3);
    assert(seq![None::<T>, None::<T>].drop_last() =~= seq![None::<T>]);
    assert(seq![None::<T>].drop_last() =~= Seq::<Option<T>>::empty());
}

proof fn joined_features(a: u64, b: u64, x: u64)
    by (bit_vector)
    ensures
        (a | b) & !(a | b) == 0,
        (a | b) & a == a,
        (a | b) & b == b,
        x & a == 0 && x & b == 0 ==> (a | b) & x == 0,
{
}

/// A front end may accept all features that it was offered.
pub proof fn offered_features_are_accepted(h: BlockSlaveReqHandler)
    ensures
        h.offered() & !h.offered() == 0,
{
    joined_features(h.block.avail_features, VIRTIO_TRANSPORT_FEATURES, 0);
}

/// The front end is offered all features of the block device and those of the
/// transport, and no others.
pub proof fn offered_features_are_those_of_the_device(h: BlockSlaveReqHandler, x: u64)
    ensures
        h.offered() & h.block.avail_features == h.block.avail_features,
        h.offered() & VIRTIO_TRANSPORT_FEATURES == VIRTIO_TRANSPORT_FEATURES,
        x & h.block.avail_features == 0 && x & VIRTIO_TRANSPORT_FEATURES == 0 ==> h.offered() & x
            == 0,
{
    joined_features(h.block.avail_features, VIRTIO_TRANSPORT_FEATURES, x);
}

/// The guest address of an address that is shared lies in a guest region that
/// is shared, as far from its start.
pub proof fn translation_stays_in_region(maps: Seq<MappingInfo>, va: u64)
    requires
        translated(maps, va) is Some,
        look_up_has_room(maps, va),
    ensures
        exists|i: int|
            0 <= i < maps.len() && (#[trigger] maps[i]).contains(va) && translated(maps, va)->0
                - maps[i].guest_phys == va - maps[i].vmm_addr,
    decreases maps.len(),
{
    if maps[0].contains(va) {
    } else {
        translation_stays_in_region(maps.skip(1), va);
        let i = choose|i: int|
            0 <= i < maps.skip(1).len() && (#[trigger] maps.skip(1)[i]).contains(va) && translated(
                maps.skip(1),
                va,
            )->0 - maps.skip(1)[i].guest_phys == va - maps.skip(1)[i].vmm_addr;
        assert(maps.skip(1)[i] == maps[i + 1]);
    }
}

/// Once the front end has asked for the base of a ring, the device is not
/// started again before a ring is set up anew.
pub proof fn stopped_device_does_not_start(h: BlockSlaveReqHandler)
    requires
        h.queue_info@ == seq![None::<QueueInfo>, None::<QueueInfo>],
    ensures
        !h.startable(),
{
    nothing_present::<QueueInfo>();
}

/// A device that was started has no events left, so that it is not started
/// twice for the same ones.
pub proof fn started_once(
    before: BlockSlaveReqHandler,
    after: BlockSlaveReqHandler,
    s: DeviceStart,
    stop: WorkerStop,
)
    requires
        before.started(after, Some(s), stop),
    ensures
        !after.startable(),
{
    nothing_present::<u64>();
}

/// An address of the front end has a guest address exactly where a shared region
/// contains it, and then lies as far behind the guest address of the first such
/// region as behind its own start.
pub proof fn first_region_translates(maps: Seq<MappingInfo>, va: u64, i: int)
    requires
        0 <= i < maps.len(),
        maps[i].vmm_addr <= va < maps[i].vmm_addr + maps[i].size,
        forall|j: int|
            0 <= j < i ==> !((#[trigger] maps[j]).vmm_addr <= va < maps[j].vmm_addr + maps[j].size),
        maps[i].guest_phys + (va - maps[i].vmm_addr) <= u64::MAX,
    ensures
        translated(maps, va) is Some,
        translated(maps, va)->0 == maps[i].guest_phys + (va - maps[i].vmm_addr),
    decreases maps.len(),
{
    if i > 0 {
        assert(!maps[0].contains(va));
        let rest = maps.skip(1);
        assert(rest[i - 1] == maps[i]);
        assert forall|j: int| 0 <= j < i - 1 implies !((#[trigger] rest[j]).vmm_addr <= va
            < rest[j].vmm_addr + rest[j].size) by {
            assert(rest[j] == maps[j + 1]);
        }
        first_region_translates(rest, va, i - 1);
    }
}

/// An address outside of all shared regions has no guest address.
pub proof fn unshared_address_has_no_translation(maps: Seq<MappingInfo>, va: u64)
    requires
        forall|j: int|
            0 <= j < maps.len() ==> !((#[trigger] maps[j]).vmm_addr <= va < maps[j].vmm_addr
                + maps[j].size),
    ensures
        translated(maps, va) is None,
    decreases maps.len(),
{
    if maps.len() > 0 {
        assert(!maps[0].contains(va));
        let rest = maps.skip(1);
        assert forall|j: int| 0 <= j < rest.len() implies !((#[trigger] rest[j]).vmm_addr <= va
            < rest[j].vmm_addr + rest[j].size) by {
            assert(rest[j] == maps[j + 1]);
        }
        unshared_address_has_no_translation(rest, va);
    }
}

/// Of two values those that are there are kept, in their order.
pub proof fn present_values_keep_their_order<T>(a: T, b: T)
    ensures
        present(seq![Some(a), Some(b)]) == seq![a, b],
        present(seq![Some(a), None]) == seq![a],
        present(seq![None, Some(b)]) == seq![b],
        present(seq![None::<T>, None::<T>]) == Seq::<T>::empty(),
{
    reveal_with_fuel(present, 3);
    assert(seq![Some(a), Some(b)].drop_last() =~= seq![Some(a)]);
    assert(seq![Some(a), None].drop_last() =~= seq![Some(a)]);
    assert(seq![None, Some(b)].drop_last() =~= seq![None]);
    assert(seq![Some(a)].drop_last() =~= Seq::<Option<T>>::empty());
    assert(seq![None::<T>].drop_last() =~= Seq::<Option<T>>::empty());
    nothing_present::<T>();
    assert(present(seq![Some(a)]) =~= seq![a]);
    assert(present(seq![None::<T>]) =~= Seq::<T>::empty());
    assert(present(seq![Some(a), Some(b)]) =~= seq![a, b]);
    assert(present(seq![None, Some(b)]) =~= seq![b]);
}

/// The device is started as soon as a ring is set up and there are as many events
/// of each kind as rings, and not before. It gets each ring with its size, in their
/// order.
pub proof fn device_starts_with_its_rings(h: BlockSlaveReqHandler, i: int)
    requires
        h.queue_info@.len() == 2,
        h.kick_fd@.len() == 2,
        h.call_fd@.len() == 2,
        h.vring_num@.len() == 2,
    ensures
        ({
            let rings: int = (if h.queue_info@[0] is Some {
                1int
            } else {
                0
            }) + (if h.queue_info@[1] is Some {
                1int
            } else {
                0
            });
            let kicks: int = (if h.kick_fd@[0] is Some {
                1int
            } else {
                0
            }) + (if h.kick_fd@[1] is Some {
                1int
            } else {
                0
            });
            let calls: int = (if h.call_fd@[0] is Some {
                1int
            } else {
                0
            }) + (if h.call_fd@[1] is Some {
                1int
            } else {
                0
            });
            &&& h.startable() <==> rings >= 1 && kicks >= rings && calls >= rings
            &&& h.queues().len() == rings
        }),
        0 <= i < h.queues().len() ==> setups(h.queues(), h.vring_num@)[i].info == h.queues()[i]
            && setups(h.queues(), h.vring_num@)[i].size == h.vring_num@[i] as u16,
        setups(h.queues(), h.vring_num@).len() == h.queues().len(),
{
    count_of_two(h.queue_info@);
    count_of_two(h.kick_fd@);
    count_of_two(h.call_fd@);
}

proof fn count_of_two<T>(s: Seq<Option<T>>)
    requires
        s.len() == 2,
    ensures
        present(s).len() == (if s[0] is Some {
            1int
        } else {
            0
        }) + (if s[1] is Some {
            1int
        } else {
            0
        }),
{
    reveal_with_fuel(present, 3);
    assert(s.drop_last().drop_last() =~= Seq::<Option<T>>::empty());
}

/// An event or a switch of one ring changes nothing of another ring, and neither
/// the other events, the memory nor the device.
pub proof fn rings_are_set_one_by_one(
    h: BlockSlaveReqHandler,
    to: BlockSlaveReqHandler,
    index: int,
    other: int,
    fd: Option<u64>,
    enable: bool,
)
    requires
        0 <= index < 2,
        0 <= other < 2,
        other != index,
        h.kick_fd@.len() == 2,
        h.call_fd@.len() == 2,
        h.vring_enabled@.len() == 2,
        h.vring_started@.len() == 2,
    ensures
        h.kicked(index, fd, to) ==> {
            &&& to.kick_fd@[index] == fd && to.kick_fd@[other] == h.kick_fd@[other]
            &&& to.vring_started@[index] && to.vring_started@[other] == h.vring_started@[other]
            &&& to.call_fd == h.call_fd && to.vring_enabled == h.vring_enabled
            &&& to.block == h.block && to.vmm_maps == h.vmm_maps && to.queue_info == h.queue_info
            &&& to.vring_num == h.vring_num && to.vring_base == h.vring_base
        },
        h.called(index, fd, to) ==> {
            &&& to.call_fd@[index] == fd && to.call_fd@[other] == h.call_fd@[other]
            &&& to.kick_fd == h.kick_fd && to.vring_started == h.vring_started
                && to.vring_enabled == h.vring_enabled
            &&& to.block == h.block && to.vmm_maps == h.vmm_maps && to.queue_info == h.queue_info
            &&& to.vring_num == h.vring_num && to.vring_base == h.vring_base
        },
        h.switched(index, enable, to) ==> {
            &&& to.vring_enabled@[index] == enable && to.vring_enabled@[other]
                == h.vring_enabled@[other]
            &&& to.kick_fd == h.kick_fd && to.call_fd == h.call_fd && to.vring_started
                == h.vring_started
            &&& to.block == h.block && to.vmm_maps == h.vmm_maps && to.queue_info == h.queue_info
            &&& to.vring_num == h.vring_num && to.vring_base == h.vring_base
        },
{
}

/// A start hands over every ring and every event that is there, in the order of the
/// rings, and resets the device, which keeps its disk and its features.
pub proof fn start_hands_everything_over(
    h: BlockSlaveReqHandler,
    to: BlockSlaveReqHandler,
    d: DeviceStart,
    stop: WorkerStop,
    q0: QueueInfo,
    q1: QueueInfo,
    k0: u64,
    k1: u64,
    c0: u64,
    c1: u64,
)
    requires
        h.queue_info@ == seq![Some(q0), Some(q1)],
        h.kick_fd@ == seq![Some(k0), Some(k1)],
        h.call_fd@ == seq![Some(c0), Some(c1)],
        h.started(to, Some(d), stop),
    ensures
        d.kick_events@ == seq![k0, k1],
        d.call_events@ == seq![c0, c1],
        d.queues@.len() == 2,
        d.queues@[0].info == q0 && d.queues@[1].info == q1,
        !to.startable(),
        to.block.disk_size == h.block.disk_size,
        to.block.avail_features == h.block.avail_features,
        to.block.hold == h.block.hold.after_reset(stop),
        to.queue_info == h.queue_info,
        to.vmm_maps == h.vmm_maps,
{
    present_values_keep_their_order(q0, q1);
    present_values_keep_their_order(k0, k1);
    present_values_keep_their_order(c0, c1);
    count_of_two(to.kick_fd@);
}

/// A look-up has room where no range of the host ends, and no address in a range of
/// the guest lies, beyond the largest address.
pub proof fn sound_ranges_have_room(maps: Seq<MappingInfo>, va: u64)
    requires
        forall|i: int|
            0 <= i < maps.len() ==> (#[trigger] maps[i]).vmm_addr + maps[i].size <= u64::MAX
                && maps[i].guest_phys + maps[i].size <= u64::MAX,
    ensures
        look_up_has_room(maps, va),
    decreases maps.len(),
{
    if maps.len() > 0 {
        assert(maps[0].has_room(va));
        let rest = maps.skip(1);
        assert forall|i: int| 0 <= i < rest.len() implies (#[trigger] rest[i]).vmm_addr
            + rest[i].size <= u64::MAX && rest[i].guest_phys + rest[i].size <= u64::MAX by {
            assert(rest[i] == maps[i + 1]);
        }
        sound_ranges_have_room(rest, va);
    }
}

} // verus!
