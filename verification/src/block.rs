//! A virtio block device that executes its requests synchronously.
//!
//! A request is planned from what the guest put into it; the steps of the plan
//! are then performed one after the other until one fails.
use crate::block_common;
use crate::block_common::{
    build_avail_features, build_config_space, offset_in_range, plan_segments,
    request_result, seg_max, split_status, status_byte, used_length, DiskControlResult, DiskOp,
    DiskParams, ExecuteError, PlanModel, RequestPlan, ResizeReplies, WorkerHold, WorkerStop, EINVAL, FLUSH_DELAY_SECS, QUEUE_SIZE,
    SECTOR_SIZE, VIRTIO_BLK_T_DISCARD, VIRTIO_BLK_T_FLUSH, VIRTIO_BLK_T_IN, VIRTIO_BLK_T_OUT,
    VIRTIO_BLK_T_WRITE_ZEROES,
};
use crate::bytes;
use crate::virtio;
use crate::virtio::{copy_config, TYPE_BLOCK, VIRTIO_F_VERSION_1, VIRTIO_RING_F_EVENT_IDX};
use vstd::prelude::*;

verus! {

pub const NUM_QUEUES: u16 = 1;

/// The features that every block device offers, whatever its disk.
pub open spec fn base_features() -> u64 {
    virtio::feature(VIRTIO_RING_F_EVENT_IDX) | virtio::feature(VIRTIO_F_VERSION_1)
}

/// The plan of a request on `readable`, the bytes that the guest sends, with
/// room for `data_len` bytes that it receives. `armed` says whether the flush
/// timer runs.
pub open spec fn request_plan(
    disk: DiskParams,
    armed: bool,
    readable: Seq<u8>,
    data_len: usize,
) -> PlanModel {
    let req_type = block_common::header_type(readable);
    let sector = block_common::header_sector(readable);
    let offset = block_common::sector_offset(sector);
    let body = readable.skip(16);
    if readable.len() < 16 {
        block_common::refused(ExecuteError::Read)
    } else if disk.read_only && req_type != VIRTIO_BLK_T_IN {
        block_common::refused(ExecuteError::ReadOnly { request_type: req_type })
    } else if req_type == VIRTIO_BLK_T_IN {
        if block_common::in_range(offset, data_len as int, disk.disk_size) {
            PlanModel {
                ops: seq![DiskOp::ReadToGuest { offset: offset as u64, length: data_len, sector }],
                end: Ok(()),
            }
        } else {
            block_common::refused(ExecuteError::OutOfRange)
        }
    } else if req_type == VIRTIO_BLK_T_OUT {
        let write = DiskOp::WriteFromGuest {
            offset: offset as u64,
            length: body.len() as usize,
            sector,
        };
        if !block_common::in_range(offset, body.len() as int, disk.disk_size) {
            block_common::refused(ExecuteError::OutOfRange)
        } else if armed {
            PlanModel { ops: seq![write], end: Ok(()) }
        } else {
            PlanModel {
                ops: seq![write, DiskOp::ArmFlushTimer { seconds: FLUSH_DELAY_SECS }],
                end: Ok(()),
            }
        }
    } else if req_type == VIRTIO_BLK_T_DISCARD && !disk.sparse {
        block_common::done()
    } else if req_type == VIRTIO_BLK_T_DISCARD || req_type == VIRTIO_BLK_T_WRITE_ZEROES {
        block_common::segments_plan(req_type, body, disk.disk_size)
    } else if req_type == VIRTIO_BLK_T_FLUSH {
        PlanModel { ops: seq![DiskOp::Sync, DiskOp::ClearFlushTimer], end: Ok(()) }
    } else {
        block_common::refused(ExecuteError::Unsupported(req_type))
    }
}

/// Whether the flush timer runs once a step has come out as `ok`: it is armed
/// and stopped by steps that succeed.
pub open spec fn armed_after(op: DiskOp, ok: bool, armed: bool) -> bool {
    match op {
        DiskOp::ArmFlushTimer { seconds } => armed || ok,
        DiskOp::ClearFlushTimer => armed && !ok,
        _ => armed,
    }
}

/// Keeps track of the flush timer after a step.
pub fn note_step(op: DiskOp, ok: bool, armed: &mut bool)
    ensures
        *final(armed) == armed_after(op, ok, *old(armed)),
{
    match op {
        DiskOp::ArmFlushTimer { seconds: _ } => {
            if ok {
                *armed = true;
            }
        },
        DiskOp::ClearFlushTimer => {
            if ok {
                *armed = false;
            }
        },
        _ => {},
    }
}

/// A finished request: what the guest sees of it.
#[derive(Clone, Copy, Debug, PartialEq, Eq, Structural)]
pub struct RequestDone {
    /// The status byte, at the last writable byte.
    pub status: u8,
    /// The length that the chain is returned with.
    pub used: u32,
}

/// Plans a request whose chain has `available_bytes` writable bytes.
pub fn process_one_request(
    disk: &DiskParams,
    armed: bool,
    readable: &[u8],
    available_bytes: usize,
) -> (r: Result<RequestPlan, ExecuteError>)
    ensures
        r is Ok <==> available_bytes > 0,
        r is Err ==> r->Err_0 == ExecuteError::MissingStatus,
        r is Ok ==> r->Ok_0@ == request_plan(
            *disk,
            armed,
            readable@,
            (available_bytes - 1) as usize,
        ),
{
    match split_status(available_bytes) {
        Err(e) => Err(e),
        Ok(data_len) => Ok(Block::execute_request(disk, armed, readable, data_len)),
    }
}

/// Finishes a planned request, given how each step came out.
pub fn finish_request(plan: &RequestPlan, results: &[bool], available_bytes: usize) -> (r:
    RequestDone)
    requires
        results@.len() == plan@.ops.len(),
    ensures
        r.status == block_common::status_of(block_common::outcome(plan@, results@)),
        r.used == available_bytes as u32,
{
    let result = request_result(plan, results);
    RequestDone { status: status_byte(&result), used: used_length(Ok(available_bytes)) }
}

/// A block device.
#[derive(Debug)]
pub struct Block {
    pub disk_size: u64,
    pub avail_features: u64,
    pub read_only: bool,
    pub sparse: bool,
    pub seg_max: u32,
    pub block_size: u32,
    pub hold: WorkerHold,
}

impl Block {
    /// A device on a disk whose length is `disk_len`, or an error number where
    /// it could not be found out. The block size must be a multiple of the
    /// sector size. `has_control` is whether the monitor can control the device, and
    /// `iov_max` is how many buffers the host takes at once.
    pub fn new(
        disk_len: Result<u64, i32>,
        read_only: bool,
        sparse: bool,
        block_size: u32,
        has_control: bool,
        iov_max: usize,
    ) -> (r: Result<Block, i32>)
        requires
            disk_len is Ok ==> block_size != 0,
        ensures
            block_size % 512 != 0 ==> r == Err::<Block, i32>(EINVAL),
            block_size % 512 == 0 && disk_len is Err ==> r == Err::<Block, i32>(disk_len->Err_0),
            block_size % 512 == 0 && disk_len is Ok ==> r == Ok::<Block, i32>(
                Block {
                    disk_size: disk_len->Ok_0,
                    avail_features: block_common::features_of(
                        base_features(),
                        read_only,
                        sparse,
                        true,
                    ),
                    read_only,
                    sparse,
                    seg_max: block_common::seg_max_of(iov_max),
                    block_size,
                    hold: WorkerHold::idle(has_control),
                },
            ),
    {
        if block_size % SECTOR_SIZE as u32 != 0 {
            return Err(EINVAL);
        }
        let disk_size: u64 = match disk_len {
            Ok(len) => len,
            Err(e) => {
                return Err(e);
            },
        };
        let base: u64 = (1u64 << VIRTIO_RING_F_EVENT_IDX) | (1u64 << VIRTIO_F_VERSION_1);
        Ok(
            Block {
                disk_size,
                avail_features: build_avail_features(base, read_only, sparse, true),
                read_only,
                sparse,
                seg_max: seg_max(iov_max),
                block_size,
                hold: WorkerHold::new(has_control),
            },
        )
    }

    /// Plans one request. `data_len` is the room for data; the status byte is
    /// not counted.
    pub fn execute_request(disk: &DiskParams, armed: bool, readable: &[u8], data_len: usize) -> (r:
        RequestPlan)
        ensures
            r@ == request_plan(*disk, armed, readable@, data_len),
    {
        if readable.len() < 16 {
            return RequestPlan::refused(ExecuteError::Read);
        }
        let req_type: u32 = bytes::le_u32_at(readable, 0);
        let sector: u64 = bytes::le_u64_at(readable, 8);
        let body: &[u8] = vstd::slice::slice_subrange(readable, 16, readable.len());
        assert(body@ =~= readable@.skip(16));
        if disk.read_only && req_type != VIRTIO_BLK_T_IN {
            return RequestPlan::refused(ExecuteError::ReadOnly { request_type: req_type });
        }
        if req_type == VIRTIO_BLK_T_IN {
            match offset_in_range(sector, data_len as u64, disk.disk_size) {
                Err(e) => RequestPlan::refused(e),
                Ok(offset) => {
                    let mut ops: Vec<DiskOp> = Vec::new();
                    ops.push(DiskOp::ReadToGuest { offset, length: data_len, sector });
                    RequestPlan { ops, end: Ok(()) }
                },
            }
        } else if req_type == VIRTIO_BLK_T_OUT {
            let length: usize = body.len();
            match offset_in_range(sector, length as u64, disk.disk_size) {
                Err(e) => RequestPlan::refused(e),
                Ok(offset) => {
                    let mut ops: Vec<DiskOp> = Vec::new();
                    ops.push(DiskOp::WriteFromGuest { offset, length, sector });
                    if !armed {
                        ops.push(DiskOp::ArmFlushTimer { seconds: FLUSH_DELAY_SECS });
                    }
                    RequestPlan { ops, end: Ok(()) }
                },
            }
        } else if req_type == VIRTIO_BLK_T_DISCARD || req_type == VIRTIO_BLK_T_WRITE_ZEROES {
            if req_type == VIRTIO_BLK_T_DISCARD && !disk.sparse {
                return RequestPlan::done();
            }
            plan_segments(req_type, body, disk.disk_size)
        } else if req_type == VIRTIO_BLK_T_FLUSH {
            let mut ops: Vec<DiskOp> = Vec::new();
            ops.push(DiskOp::Sync);
            ops.push(DiskOp::ClearFlushTimer);
            RequestPlan { ops, end: Ok(()) }
        } else {
            RequestPlan::refused(ExecuteError::Unsupported(req_type))
        }
    }

    pub fn features(&self) -> (r: u64)
        ensures
            r == self.avail_features,
    {
        self.avail_features
    }

    pub fn device_type(&self) -> (r: u32)
        ensures
            r == TYPE_BLOCK,
    {
        TYPE_BLOCK
    }

    pub fn queue_max_sizes(&self) -> (r: Vec<u16>)
        ensures
            r@ == seq![QUEUE_SIZE],
    {
        let mut r: Vec<u16> = Vec::new();
        r.push(QUEUE_SIZE);
        r
    }

    /// The configuration space.
    pub open spec fn config_bytes(&self) -> Seq<u8> {
        block_common::config_space(self.disk_size, self.seg_max, self.block_size, NUM_QUEUES)
    }

    /// The disk as a worker starts with it: only a device with its disk and the
    /// control connection starts one.
    pub open spec fn worker_disk(self, kill_evt: bool) -> Option<DiskParams> {
        if kill_evt && self.hold.has_disk_image && self.hold.has_control {
            Some(
                DiskParams {
                    read_only: self.read_only,
                    sparse: self.sparse,
                    disk_size: self.disk_size,
                },
            )
        } else {
            None
        }
    }

    pub open spec fn activated(self, kill_evt: bool, spawned: bool) -> Self {
        if !kill_evt {
            self
        } else {
            Block {
                hold: WorkerHold {
                    has_kill_evt: true,
                    has_disk_image: false,
                    has_control: self.hold.has_control && !self.hold.has_disk_image,
                    worker: if self.worker_disk(kill_evt) is Some && spawned {
                        Some(true)
                    } else {
                        self.hold.worker
                    },
                },
                ..self
            }
        }
    }

    /// Activates the device. `kill_evt` is whether the event that stops a worker
    /// could be made, and `spawned` whether a thread for the worker can be started.
    /// Returns the disk as the worker starts with it, if one is to be started. What
    /// a worker was to get is gone where there is none.
    pub fn activate(&mut self, kill_evt: bool, spawned: bool) -> (r: Option<DiskParams>)
        ensures
            r == old(self).worker_disk(kill_evt),
            *final(self) == old(self).activated(kill_evt, spawned),
    {
        if !kill_evt {
            return None;
        }
        self.hold.has_kill_evt = true;
        if !self.hold.has_disk_image {
            return None;
        }
        self.hold.has_disk_image = false;
        if !self.hold.has_control {
            return None;
        }
        self.hold.has_control = false;
        if spawned {
            self.hold.worker = Some(true);
        }
        Some(
            DiskParams {
                read_only: self.read_only,
                sparse: self.sparse,
                disk_size: self.disk_size,
            },
        )
    }

    /// Resets the device: stops its worker, of which `stop` says how it took it.
    pub fn reset(&mut self, stop: WorkerStop) -> (r: bool)
        ensures
            r == old(self).hold.resets(stop),
            *final(self) == (Block { hold: old(self).hold.after_reset(stop), ..*old(self) }),
    {
        self.hold.reset(stop)
    }

    /// The descriptors that the device needs: those of its disk, `disk_rds`, and
    /// that of the control connection, `control_rd`, as far as it has them.
    pub fn keep_fds(&self, disk_rds: &[i32], control_rd: i32) -> (r: Vec<i32>)
        ensures
            r@ == self.hold.kept(disk_rds@, control_rd),
    {
        self.hold.keep_rds(disk_rds, control_rd)
    }

    /// The device after its disk was resized: its configuration space shows the
    /// size that requests are held to.
    pub open spec fn after_resize(self, disk: DiskParams, replies: ResizeReplies) -> Self {
        Block { disk_size: block_common::resized(disk, replies).disk_size, ..self }
    }

    /// Resizes the disk, of which the running worker knows `disk`.
    pub fn resize(&mut self, disk: &mut DiskParams, replies: ResizeReplies) -> (r:
        DiskControlResult)
        ensures
            r == block_common::resize_answer(*old(disk), replies),
            *final(disk) == block_common::resized(*old(disk), replies),
            *final(self) == old(self).after_resize(*old(disk), replies),
    {
        let r = block_common::resize(disk, replies);
        self.disk_size = disk.disk_size;
        r
    }

    /// Reads from the configuration space.
    pub fn read_config(&self, offset: u64, data: &mut [u8])
        ensures
            final(data)@ == virtio::config_copied(
                old(data)@,
                0,
                self.config_bytes(),
                offset as int,
            ),
    {
        let config: Vec<u8> = build_config_space(
            self.disk_size,
            self.seg_max,
            self.block_size,
            NUM_QUEUES,
        );
        copy_config(data, 0, config.as_slice(), offset);
    }
}

/// Every step of a request stays within the disk.
pub proof fn request_stays_within_disk(disk: DiskParams, armed: bool, readable: Seq<u8>, n: usize)
    requires
        readable.len() <= usize::MAX,
    ensures
        forall|i: int|
            0 <= i < request_plan(disk, armed, readable, n).ops.len() ==> block_common::op_within(
                #[trigger] request_plan(disk, armed, readable, n).ops[i],
                disk.disk_size,
            ),
{
    block_common::segments_within_disk(
        block_common::header_type(readable),
        readable.skip(16),
        disk.disk_size,
    );
}

/// A read, or a write that the disk takes, is refused as out of range if and only if it would leave the
/// disk, however large its sector.
pub proof fn out_of_range_is_beyond_the_disk(
    disk: DiskParams,
    armed: bool,
    request: Seq<u8>,
    n: usize,
)
    requires
        request.len() >= 16,
    ensures
        block_common::header_type(request) == VIRTIO_BLK_T_IN ==> (request_plan(disk, armed, request, n).end == Err::<(), ExecuteError>(
            ExecuteError::OutOfRange,
        ) <==> block_common::header_sector(request) * 512 + n > disk.disk_size),
        block_common::header_type(request) == VIRTIO_BLK_T_OUT && !disk.read_only ==> (request_plan(disk, armed, request, n).end == Err::<(), ExecuteError>(
            ExecuteError::OutOfRange,
        ) <==> block_common::header_sector(request) * 512 + (request.len() - 16)
            > disk.disk_size),
{
}

/// No request changes a read-only disk, and any request but a read is refused.
pub proof fn read_only_disk_is_unchanged(disk: DiskParams, armed: bool, readable: Seq<u8>, n: usize)
    requires
        disk.read_only,
    ensures
        forall|i: int|
            0 <= i < request_plan(disk, armed, readable, n).ops.len()
                ==> !block_common::op_modifies(
                #[trigger] request_plan(disk, armed, readable, n).ops[i],
            ),
        readable.len() >= 16 && block_common::header_type(readable) != VIRTIO_BLK_T_IN
            ==> request_plan(disk, armed, readable, n) == block_common::refused(
            ExecuteError::ReadOnly { request_type: block_common::header_type(readable) },
        ),
{
}

/// The status is "unsupported" only for a request of an unknown type.
pub proof fn only_unknown_requests_are_unsupported(
    disk: DiskParams,
    armed: bool,
    readable: Seq<u8>,
    n: usize,
)
    ensures
        request_plan(disk, armed, readable, n).end matches Err(e) && e is Unsupported ==> {
            let t = block_common::header_type(readable);
            &&& readable.len() >= 16
            &&& t != VIRTIO_BLK_T_IN && t != VIRTIO_BLK_T_OUT && t != VIRTIO_BLK_T_FLUSH && t
                != VIRTIO_BLK_T_DISCARD && t != VIRTIO_BLK_T_WRITE_ZEROES
        },
{
    segments_end(block_common::header_type(readable), readable.skip(16), disk.disk_size);
}

proof fn segments_end(t: u32, body: Seq<u8>, disk_size: u64)
    ensures
        block_common::segments_plan(t, body, disk_size).end matches Err(e) ==> e
            == ExecuteError::OutOfRange || e is DiscardWriteZeroes,
    decreases body.len(),
{
    if body.len() >= 16 {
        segments_end(t, body.skip(16), disk_size);
    }
}

/// What is written to a sector is what is read from it: both requests go to the
/// same place on the disk, and one is carried out where the other is.
pub proof fn reads_see_writes(
    disk: DiskParams,
    armed: bool,
    write: Seq<u8>,
    read: Seq<u8>,
    n: usize,
)
    requires
        !disk.read_only,
        write.len() >= 16,
        read.len() >= 16,
        block_common::header_type(write) == VIRTIO_BLK_T_OUT,
        block_common::header_type(read) == VIRTIO_BLK_T_IN,
        block_common::header_sector(write) == block_common::header_sector(read),
        n == write.len() - 16,
    ensures
        request_plan(disk, armed, write, 0).end == request_plan(disk, armed, read, n).end,
        request_plan(disk, armed, write, 0).ops.len() > 0 <==> request_plan(disk, armed, read, n).ops.len() > 0,
        request_plan(disk, armed, write, 0).ops.len() > 0 ==> {
            &&& request_plan(disk, armed, write, 0).ops[0] matches DiskOp::WriteFromGuest { offset, length, sector }
            &&& request_plan(disk, armed, read, n).ops[0] == (DiskOp::ReadToGuest { offset, length, sector })
        },
{
}

/// A resize shows in the configuration space, and a read is admitted exactly up to
/// the size that stands behind what is shown.
pub proof fn resize_shows_in_config(
    device: Block,
    disk: DiskParams,
    replies: ResizeReplies,
    armed: bool,
    read: Seq<u8>,
    n: usize,
)
    requires
        read.len() >= 16,
        block_common::header_type(read) == VIRTIO_BLK_T_IN,
        !disk.read_only,
        replies.set_len && replies.allocate && replies.len is Some,
    ensures
        device.after_resize(disk, replies).config_bytes() == block_common::config_space(
            replies.len->0,
            device.seg_max,
            device.block_size,
            NUM_QUEUES,
        ),
        request_plan(block_common::resized(disk, replies), armed, read, n).end == Err::<(), ExecuteError>(
            ExecuteError::OutOfRange,
        ) <==> block_common::header_sector(read) * 512 + n > replies.len->0,
{
}

/// A read or write that stays within the disk transfers all its data at 512 times
/// its sector. A write starts the flush timer of one minute where it does not run.
/// A flush writes back what is cached.
pub proof fn requests_go_to_their_sectors(
    disk: DiskParams,
    armed: bool,
    request: Seq<u8>,
    n: usize,
)
    requires
        16 <= request.len() <= usize::MAX,
    ensures
        ({
            let plan = request_plan(disk, armed, request, n);
            let start = block_common::header_sector(request) * 512;
            let len = request.len() - 16;
            &&& block_common::header_type(request) == 0 && start + n <= disk.disk_size ==> {
                &&& plan.end is Ok
                &&& plan.ops.len() == 1
                &&& plan.ops[0] matches DiskOp::ReadToGuest { offset, length, sector } && offset
                    == start && length == n && sector == block_common::header_sector(request)
            }
            &&& block_common::header_type(request) == 1 && !disk.read_only && start + len
                <= disk.disk_size ==> {
                &&& plan.end is Ok
                &&& plan.ops.len() == if armed {
                    1int
                } else {
                    2
                }
                &&& plan.ops[0] matches DiskOp::WriteFromGuest { offset, length, sector } && offset
                    == start && length == len && sector == block_common::header_sector(request)
                &&& !armed ==> plan.ops[1] == (DiskOp::ArmFlushTimer { seconds: 60 })
            }
            &&& block_common::header_type(request) == 4 && !disk.read_only ==> plan.end is Ok
                && plan.ops == seq![DiskOp::Sync, DiskOp::ClearFlushTimer]
        }),
{
}

/// Reads and writes of sectors that lie apart touch bytes that lie apart, and
/// those of sectors that meet touch bytes that meet.
pub proof fn separate_sectors_are_separate_bytes(
    disk: DiskParams,
    armed: bool,
    a: Seq<u8>,
    b: Seq<u8>,
    n: usize,
    m: usize,
)
    requires
        16 <= a.len() <= usize::MAX,
        16 <= b.len() <= usize::MAX,
        block_common::header_type(a) <= 1,
        block_common::header_type(b) <= 1,
        request_plan(disk, armed, a, n).ops.len() > 0,
        request_plan(disk, armed, b, m).ops.len() > 0,
    ensures
        ({
            let x = request_plan(disk, armed, a, n).ops[0];
            let y = request_plan(disk, armed, b, m).ops[0];
            let sectors = block_common::op_len(x) / 512;
            &&& block_common::op_start(y) - block_common::op_start(x) == 512 * (
            block_common::header_sector(b) - block_common::header_sector(a))
            &&& block_common::op_len(x) % 512 == 0 && block_common::header_sector(a) + sectors
                <= block_common::header_sector(b) ==> block_common::op_start(x)
                + block_common::op_len(x) <= block_common::op_start(y)
            &&& block_common::header_type(a) == 0 ==> block_common::op_len(x) == n
            &&& block_common::header_type(a) == 1 ==> block_common::op_len(x) == a.len() - 16
        }),
{
}

/// A discard on a disk that is not sparse is done at once; another discard and a
/// write zeroes request are carried out by their segments, which follow the
/// header.
pub proof fn segments_follow_the_header(
    disk: DiskParams,
    armed: bool,
    request: Seq<u8>,
    n: usize,
)
    requires
        request.len() >= 16,
        !disk.read_only,
        block_common::header_type(request) == 11 || block_common::header_type(request) == 13,
    ensures
        block_common::header_type(request) == 11 && !disk.sparse ==> request_plan(
            disk,
            armed,
            request,
            n,
        ).ops.len() == 0 && request_plan(disk, armed, request, n).end is Ok,
        block_common::header_type(request) == 13 || disk.sparse ==> request_plan(
            disk,
            armed,
            request,
            n,
        ) == block_common::segments_plan(
            block_common::header_type(request),
            request.skip(16),
            disk.disk_size,
        ),
{
}

/// A device that was activated with its disk and its control connection has both
/// again after a reset, as it was before.
pub proof fn reset_undoes_activation(device: Block, stop: WorkerStop)
    requires
        device.hold == WorkerHold::idle(true),
        stop.notified && stop.joined,
    ensures
        device.worker_disk(true) matches Some(d) && d.disk_size == device.disk_size && d.read_only
            == device.read_only && d.sparse == device.sparse,
        device.activated(true, true).hold.worker is Some,
        !device.activated(true, true).hold.has_disk_image,
        device.activated(true, true).hold.resets(stop),
        (Block {
            hold: device.activated(true, true).hold.after_reset(stop),
            ..device.activated(true, true)
        }) == device,
        device.activated(false, true) == device,
        device.worker_disk(false) is None,
{
}

/// The timer runs from the moment that it was started until it was stopped, each
/// where that succeeds, and no other step touches it.
pub proof fn timer_runs_between_write_and_flush(armed: bool, op: DiskOp, ok: bool)
    ensures
        op is ArmFlushTimer ==> armed_after(op, true, armed) && armed_after(op, false, armed)
            == armed,
        op is ClearFlushTimer ==> !armed_after(op, true, armed) && armed_after(op, false, armed)
            == armed,
        !(op is ArmFlushTimer) && !(op is ClearFlushTimer) ==> armed_after(op, ok, armed) == armed,
{
}

/// A device without its disk or without a control connection starts no worker; what
/// it has of the two is gone with the attempt.
pub proof fn activation_needs_disk_and_control(device: Block, spawned: bool)
    ensures
        device.worker_disk(true) is Some <==> device.hold.has_disk_image
            && device.hold.has_control,
        !(device.hold.has_disk_image && device.hold.has_control) ==> device.activated(
            true,
            spawned,
        ).hold.worker == device.hold.worker,
        !device.activated(true, spawned).hold.has_disk_image,
        device.hold.has_disk_image ==> !device.activated(true, spawned).hold.has_control,
        device.activated(true, spawned).disk_size == device.disk_size,
        device.activated(true, spawned).avail_features == device.avail_features,
{
}

} // verus!
