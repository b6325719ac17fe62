//! A virtio block device whose requests run concurrently.
use crate::block_common;
use crate::block_common::{
    build_avail_features, build_config_space, offset_in_range, plan_segments,
    request_result, seg_max, split_status, status_byte, used_length, BlockId, DiskControlResult,
    DiskOp, DiskParams, ExecuteError, PlanModel, RequestPlan, ResizeReplies, WorkerHold, WorkerStop, EINVAL, FLUSH_DELAY_SECS, QUEUE_SIZE,
    SECTOR_SIZE, VIRTIO_BLK_T_DISCARD, VIRTIO_BLK_T_FLUSH, VIRTIO_BLK_T_GET_ID, VIRTIO_BLK_T_IN,
    VIRTIO_BLK_T_OUT, VIRTIO_BLK_T_WRITE_ZEROES,
};
use crate::block::RequestDone;
use crate::bytes;
use crate::virtio;
use crate::virtio::{copy_config, TYPE_BLOCK};
use vstd::prelude::*;
use vstd::string::StringExecFns;

verus! {

pub const NUM_QUEUES: u16 = 16;

/// The state of an asynchronous disk.
#[derive(Clone, Copy, Debug)]
pub struct DiskState {
    pub params: DiskParams,
    pub id: Option<BlockId>,
}

impl DiskState {
    pub fn new(disk_size: u64, read_only: bool, sparse: bool, id: Option<BlockId>) -> (r: DiskState)
        ensures
            r == (DiskState { params: DiskParams { read_only, sparse, disk_size }, id }),
    {
        DiskState { params: DiskParams { read_only, sparse, disk_size }, id }
    }
}

/// The plan of a request on `readable`, the bytes that the guest sends, with
/// room for `data_len` bytes that it receives. A read or write of nothing is
/// done at once.
pub open spec fn request_plan(
    disk: DiskParams,
    id: Option<BlockId>,
    armed: bool,
    readable: Seq<u8>,
    data_len: usize,
) -> PlanModel {
    let req_type = block_common::header_type(readable);
    let sector = block_common::header_sector(readable);
    let offset = block_common::sector_offset(sector);
    let body = readable.skip(16);
    if readable.len() < 16 {
        block_common::refused(ExecuteError::Read)
    } else if disk.read_only && req_type != VIRTIO_BLK_T_IN && req_type != VIRTIO_BLK_T_GET_ID {
        block_common::refused(ExecuteError::ReadOnly { request_type: req_type })
    } else if req_type == VIRTIO_BLK_T_IN {
        if data_len == 0 {
            block_common::done()
        } else if block_common::in_range(offset, data_len as int, disk.disk_size) {
            PlanModel {
                ops: seq![DiskOp::ReadToGuest { offset: offset as u64, length: data_len, sector }],
                end: Ok(()),
            }
        } else {
            block_common::refused(ExecuteError::OutOfRange)
        }
    } else if req_type == VIRTIO_BLK_T_OUT {
        let write = DiskOp::WriteFromGuest {
            offset: offset as u64,
            length: body.len() as usize,
            sector,
        };
        if body.len() == 0 {
            block_common::done()
        } else if !block_common::in_range(offset, body.len() as int, disk.disk_size) {
            block_common::refused(ExecuteError::OutOfRange)
        } else if armed {
            PlanModel { ops: seq![write], end: Ok(()) }
        } else {
            PlanModel {
                ops: seq![write, DiskOp::ArmFlushTimer { seconds: FLUSH_DELAY_SECS }],
                end: Ok(()),
            }
        }
    } else if req_type == VIRTIO_BLK_T_DISCARD && !disk.sparse {
        block_common::done()
    } else if req_type == VIRTIO_BLK_T_DISCARD || req_type == VIRTIO_BLK_T_WRITE_ZEROES {
        block_common::segments_plan(req_type, body, disk.disk_size)
    } else if req_type == VIRTIO_BLK_T_FLUSH {
        PlanModel { ops: seq![DiskOp::Sync], end: Ok(()) }
    } else if req_type == VIRTIO_BLK_T_GET_ID && id is Some {
        PlanModel { ops: seq![DiskOp::WriteId { id: id->0 }], end: Ok(()) }
    } else {
        block_common::refused(ExecuteError::Unsupported(req_type))
    }
}

/// Keeps track of the flush timer: it counts as armed from the moment that it
/// is to be started.
pub fn note_step(op: DiskOp, armed: &mut bool)
    ensures
        *final(armed) == (*old(armed) || op is ArmFlushTimer),
{
    match op {
        DiskOp::ArmFlushTimer { seconds: _ } => {
            *armed = true;
        },
        _ => {},
    }
}

/// Plans a request whose chain has `available_bytes` writable bytes.
pub fn process_one_request(
    disk: &DiskState,
    armed: bool,
    readable: &[u8],
    available_bytes: usize,
) -> (r: Result<RequestPlan, ExecuteError>)
    ensures
        r is Ok <==> available_bytes > 0,
        r is Err ==> r->Err_0 == ExecuteError::MissingStatus,
        r is Ok ==> r->Ok_0@ == request_plan(
            disk.params,
            disk.id,
            armed,
            readable@,
            (available_bytes - 1) as usize,
        ),
{
    match split_status(available_bytes) {
        Err(e) => Err(e),
        Ok(data_len) => Ok(BlockAsync::execute_request(disk, armed, readable, data_len)),
    }
}

/// Finishes the request of a chain: `handled` is its plan with the outcome of
/// each step, or the error that kept it from being planned.
pub fn process_one_chain(
    handled: Result<(&RequestPlan, &[bool]), ExecuteError>,
    available_bytes: usize,
) -> (r: (Option<u8>, u32))
    requires
        handled is Ok ==> handled->Ok_0.1@.len() == handled->Ok_0.0@.ops.len(),
    ensures
        handled is Ok ==> r == (
            Some(
                block_common::status_of(
                    block_common::outcome(handled->Ok_0.0@, handled->Ok_0.1@),
                ),
            ),
            available_bytes as u32,
        ),
        handled is Err ==> r == (None::<u8>, 0u32),
{
    match handled {
        Err(e) => (None, used_length(Err(e))),
        Ok((plan, results)) => {
            let result = request_result(plan, results);
            (Some(status_byte(&result)), used_length(Ok(available_bytes)))
        },
    }
}

/// Why a worker does not start: each queue needs its event.
pub fn check_worker(queues: usize, queue_evts: usize) -> (r: Result<(), String>)
    ensures
        r is Ok <==> queues == queue_evts,
        r is Err ==> r->Err_0@ == "Number of queues and events must match."@,
{
    if queues != queue_evts {
        Err("Number of queues and events must match.".to_owned())
    } else {
        Ok(())
    }
}

/// The result of a worker whose tasks ended: the error of the executor that ran
/// them, else the first error of the flush, the control and the resample task, in
/// this order.
pub fn worker_result(
    executor_err: Option<&str>,
    flush_err: Option<&str>,
    control_err: Option<&str>,
    resample_err: Option<&str>,
) -> (r: Result<(), String>)
    ensures
        executor_err is Some ==> r is Err && r->Err_0@ == executor_err->0@,
        executor_err is None && flush_err is Some ==> r is Err && r->Err_0@
            == "failed to flush a disk: "@ + flush_err->0@,
        executor_err is None && flush_err is None && control_err is Some ==> r is Err
            && r->Err_0@ == "failed to handle a control request: "@ + control_err->0@,
        executor_err is None && flush_err is None && control_err is None && resample_err is Some
            ==> r is Err && r->Err_0@ == "failed to resample a irq value: "@ + resample_err->0@,
        executor_err is None && flush_err is None && control_err is None && resample_err is None
            ==> r is Ok,
{
    if let Some(e) = executor_err {
        return Err(e.to_owned());
    }
    if let Some(e) = flush_err {
        let mut s = "failed to flush a disk: ".to_owned();
        s.append(e);
        return Err(s);
    }
    if let Some(e) = control_err {
        let mut s = "failed to handle a control request: ".to_owned();
        s.append(e);
        return Err(s);
    }
    if let Some(e) = resample_err {
        let mut s = "failed to resample a irq value: ".to_owned();
        s.append(e);
        return Err(s);
    }
    Ok(())
}

/// A block device.
#[derive(Debug)]
pub struct BlockAsync {
    pub disk_size: u64,
    pub avail_features: u64,
    pub read_only: bool,
    pub sparse: bool,
    pub seg_max: u32,
    pub block_size: u32,
    pub id: Option<BlockId>,
    pub queue_size: u16,
    pub num_queues: u16,
    pub hold: WorkerHold,
}

impl BlockAsync {
    /// A device on a disk whose length is `disk_len`, or an error number where
    /// it could not be found out. The block size must be a multiple of the
    /// sector size. `has_control` is whether the monitor can control the device, and
    /// `iov_max` is how many buffers the host takes at once.
    pub fn new(
        base_features: u64,
        disk_len: Result<u64, i32>,
        read_only: bool,
        sparse: bool,
        block_size: u32,
        id: Option<BlockId>,
        has_control: bool,
        iov_max: usize,
    ) -> (r: Result<BlockAsync, i32>)
        requires
            disk_len is Ok ==> block_size != 0,
        ensures
            r == Self::made(
                base_features,
                disk_len,
                read_only,
                sparse,
                block_size,
                id,
                has_control,
                iov_max,
                QUEUE_SIZE,
                NUM_QUEUES,
            ),
    {
        Self::with_queues(
            base_features,
            disk_len,
            read_only,
            sparse,
            block_size,
            id,
            has_control,
            iov_max,
            None,
            None,
        )
    }

    /// The device, or why there is none. Several queues are a feature.
    pub open spec fn made(
        base_features: u64,
        disk_len: Result<u64, i32>,
        read_only: bool,
        sparse: bool,
        block_size: u32,
        id: Option<BlockId>,
        has_control: bool,
        iov_max: usize,
        queue_size: u16,
        num_queues: u16,
    ) -> Result<BlockAsync, i32> {
        if block_size % 512 != 0 {
            Err(EINVAL)
        } else {
            match disk_len {
                Err(e) => Err(e),
                Ok(disk_size) => Ok(
                    BlockAsync {
                        disk_size,
                        avail_features: block_common::features_of(
                            base_features,
                            read_only,
                            sparse,
                            num_queues > 1,
                        ),
                        read_only,
                        sparse,
                        seg_max: block_common::seg_max_of(iov_max),
                        block_size,
                        id,
                        queue_size,
                        num_queues,
                        hold: WorkerHold::idle(has_control),
                    },
                ),
            }
        }
    }

    /// A device with queues of a size and number of its own.
    pub fn with_queues(
        base_features: u64,
        disk_len: Result<u64, i32>,
        read_only: bool,
        sparse: bool,
        block_size: u32,
        id: Option<BlockId>,
        has_control: bool,
        iov_max: usize,
        queue_size: Option<u16>,
        num_queues: Option<u16>,
    ) -> (r: Result<BlockAsync, i32>)
        requires
            disk_len is Ok ==> block_size != 0,
        ensures
            r == Self::made(
                base_features,
                disk_len,
                read_only,
                sparse,
                block_size,
                id,
                has_control,
                iov_max,
                if queue_size is Some {
                    queue_size->0
                } else {
                    QUEUE_SIZE
                },
                if num_queues is Some {
                    num_queues->0
                } else {
                    NUM_QUEUES
                },
            ),
    {
        if block_size % SECTOR_SIZE as u32 != 0 {
            return Err(EINVAL);
        }
        let disk_size: u64 = match disk_len {
            Ok(len) => len,
            Err(e) => {
                return Err(e);
            },
        };
        let queue_size: u16 = match queue_size {
            Some(n) => n,
            None => QUEUE_SIZE,
        };
        let num_queues: u16 = match num_queues {
            Some(n) => n,
            None => NUM_QUEUES,
        };
        Ok(
            BlockAsync {
                disk_size,
                avail_features: build_avail_features(
                    base_features,
                    read_only,
                    sparse,
                    num_queues > 1,
                ),
                read_only,
                sparse,
                seg_max: seg_max(iov_max),
                block_size,
                id,
                queue_size,
                num_queues,
                hold: WorkerHold::new(has_control),
            },
        )
    }

    /// Plans one request. `data_len` is the room for data; the status byte is
    /// not counted.
    pub fn execute_request(disk: &DiskState, armed: bool, readable: &[u8], data_len: usize) -> (r:
        RequestPlan)
        ensures
            r@ == request_plan(disk.params, disk.id, armed, readable@, data_len),
    {
        if readable.len() < 16 {
            return RequestPlan::refused(ExecuteError::Read);
        }
        let req_type: u32 = bytes::le_u32_at(readable, 0);
        let sector: u64 = bytes::le_u64_at(readable, 8);
        let body: &[u8] = vstd::slice::slice_subrange(readable, 16, readable.len());
        assert(body@ =~= readable@.skip(16));
        if disk.params.read_only && req_type != VIRTIO_BLK_T_IN && req_type != VIRTIO_BLK_T_GET_ID {
            return RequestPlan::refused(ExecuteError::ReadOnly { request_type: req_type });
        }
        let disk_size: u64 = disk.params.disk_size;
        if req_type == VIRTIO_BLK_T_IN {
            if data_len == 0 {
                return RequestPlan::done();
            }
            match offset_in_range(sector, data_len as u64, disk_size) {
                Err(e) => RequestPlan::refused(e),
                Ok(offset) => {
                    let mut ops: Vec<DiskOp> = Vec::new();
                    ops.push(DiskOp::ReadToGuest { offset, length: data_len, sector });
                    RequestPlan { ops, end: Ok(()) }
                },
            }
        } else if req_type == VIRTIO_BLK_T_OUT {
            let length: usize = body.len();
            if length == 0 {
                return RequestPlan::done();
            }
            match offset_in_range(sector, length as u64, disk_size) {
                Err(e) => RequestPlan::refused(e),
                Ok(offset) => {
                    let mut ops: Vec<DiskOp> = Vec::new();
                    ops.push(DiskOp::WriteFromGuest { offset, length, sector });
                    if !armed {
                        ops.push(DiskOp::ArmFlushTimer { seconds: FLUSH_DELAY_SECS });
                    }
                    RequestPlan { ops, end: Ok(()) }
                },
            }
        } else if req_type == VIRTIO_BLK_T_DISCARD || req_type == VIRTIO_BLK_T_WRITE_ZEROES {
            if req_type == VIRTIO_BLK_T_DISCARD && !disk.params.sparse {
                return RequestPlan::done();
            }
            plan_segments(req_type, body, disk_size)
        } else if req_type == VIRTIO_BLK_T_FLUSH {
            let mut ops: Vec<DiskOp> = Vec::new();
            ops.push(DiskOp::Sync);
            RequestPlan { ops, end: Ok(()) }
        } else if req_type == VIRTIO_BLK_T_GET_ID {
            match disk.id {
                Some(id) => {
                    let mut ops: Vec<DiskOp> = Vec::new();
                    ops.push(DiskOp::WriteId { id });
                    RequestPlan { ops, end: Ok(()) }
                },
                None => RequestPlan::refused(ExecuteError::Unsupported(req_type)),
            }
        } else {
            RequestPlan::refused(ExecuteError::Unsupported(req_type))
        }
    }

    pub fn features(&self) -> (r: u64)
        ensures
            r == self.avail_features,
    {
        self.avail_features
    }

    pub fn device_type(&self) -> (r: u32)
        ensures
            r == TYPE_BLOCK,
    {
        TYPE_BLOCK
    }

    pub fn queue_max_sizes(&self) -> (r: Vec<u16>)
        ensures
            r@ == Seq::new(self.num_queues as nat, |i: int| self.queue_size),
    {
        let mut r: Vec<u16> = Vec::new();
        while r.len() < self.num_queues as usize
            invariant
                r@.len() <= self.num_queues,
                r@ == Seq::new(r@.len(), |i: int| self.queue_size),
            decreases self.num_queues - r@.len(),
        {
            r.push(self.queue_size);
            assert(r@ =~= Seq::new(r@.len(), |i: int| self.queue_size));
        }
        r
    }

    /// The configuration space.
    pub open spec fn config_bytes(&self) -> Seq<u8> {
        block_common::config_space(self.disk_size, self.seg_max, self.block_size, self.num_queues)
    }

    /// The disk as a worker starts with it: only a device with its disk starts one.
    pub open spec fn worker_disk(self, kill_evt: bool) -> Option<DiskState> {
        if kill_evt && self.hold.has_disk_image {
            Some(
                DiskState {
                    params: DiskParams {
                        read_only: self.read_only,
                        sparse: self.sparse,
                        disk_size: self.disk_size,
                    },
                    id: self.id,
                },
            )
        } else {
            None
        }
    }

    pub open spec fn activated(self, kill_evt: bool, spawned: bool) -> Self {
        if !kill_evt {
            self
        } else {
            BlockAsync {
                id: None,
                hold: WorkerHold {
                    has_kill_evt: true,
                    has_disk_image: false,
                    has_control: self.hold.has_control && !self.hold.has_disk_image,
                    worker: if self.hold.has_disk_image && spawned {
                        Some(self.hold.has_control)
                    } else {
                        self.hold.worker
                    },
                },
                ..self
            }
        }
    }

    /// Activates the device. `kill_evt` is whether the event that stops a worker
    /// could be made, and `spawned` whether a thread for the worker can be started.
    /// Returns the disk as the worker starts with it, if one is to be started. What
    /// a worker was to get is gone where there is none, and the identification is
    /// handed on once.
    pub fn activate(&mut self, kill_evt: bool, spawned: bool) -> (r: Option<DiskState>)
        ensures
            r == old(self).worker_disk(kill_evt),
            *final(self) == old(self).activated(kill_evt, spawned),
    {
        if !kill_evt {
            return None;
        }
        self.hold.has_kill_evt = true;
        let id = self.id;
        self.id = None;
        if !self.hold.has_disk_image {
            return None;
        }
        self.hold.has_disk_image = false;
        let has_control: bool = self.hold.has_control;
        self.hold.has_control = false;
        if spawned {
            self.hold.worker = Some(has_control);
        }
        Some(DiskState::new(self.disk_size, self.read_only, self.sparse, id))
    }

    /// Resets the device: stops its worker, of which `stop` says how it took it.
    pub fn reset(&mut self, stop: WorkerStop) -> (r: bool)
        ensures
            r == old(self).hold.resets(stop),
            *final(self) == (BlockAsync { hold: old(self).hold.after_reset(stop), ..*old(self) }),
    {
        self.hold.reset(stop)
    }

    /// The descriptors that the device needs: those of its disk, `disk_rds`, and
    /// that of the control connection, `control_rd`, as far as it has them.
    pub fn keep_rds(&self, disk_rds: &[i32], control_rd: i32) -> (r: Vec<i32>)
        ensures
            r@ == self.hold.kept(disk_rds@, control_rd),
    {
        self.hold.keep_rds(disk_rds, control_rd)
    }

    /// The device after its disk was resized: its configuration space shows the
    /// size that requests are held to.
    pub open spec fn after_resize(self, disk: DiskParams, replies: ResizeReplies) -> Self {
        BlockAsync { disk_size: block_common::resized(disk, replies).disk_size, ..self }
    }

    /// Resizes the disk, of which the running worker knows `disk`.
    pub fn resize(&mut self, disk: &mut DiskParams, replies: ResizeReplies) -> (r:
        DiskControlResult)
        ensures
            r == block_common::resize_answer(*old(disk), replies),
            *final(disk) == block_common::resized(*old(disk), replies),
            *final(self) == old(self).after_resize(*old(disk), replies),
    {
        let r = block_common::resize(disk, replies);
        self.disk_size = disk.disk_size;
        r
    }

    /// Reads from the configuration space.
    pub fn read_config(&self, offset: u64, data: &mut [u8])
        ensures
            final(data)@ == virtio::config_copied(
                old(data)@,
                0,
                self.config_bytes(),
                offset as int,
            ),
    {
        let config: Vec<u8> = build_config_space(
            self.disk_size,
            self.seg_max,
            self.block_size,
            self.num_queues,
        );
        copy_config(data, 0, config.as_slice(), offset);
    }
}

/// Every step of a request stays within the disk.
pub proof fn request_stays_within_disk(
    disk: DiskParams,
    id: Option<BlockId>,
    armed: bool,
    readable: Seq<u8>,
    n: usize,
)
    requires
        readable.len() <= usize::MAX,
    ensures
        forall|i: int|
            0 <= i < request_plan(disk, id, armed, readable, n).ops.len()
                ==> block_common::op_within(
                #[trigger] request_plan(disk, id, armed, readable, n).ops[i],
                disk.disk_size,
            ),
{
    block_common::segments_within_disk(
        block_common::header_type(readable),
        readable.skip(16),
        disk.disk_size,
    );
}

/// A read, or a write that the disk takes, is refused as out of range if and only if it would leave the
/// disk, however large its sector; one of nothing is never refused so.
pub proof fn out_of_range_is_beyond_the_disk(
    disk: DiskParams,
    id: Option<BlockId>,
    armed: bool,
    request: Seq<u8>,
    n: usize,
)
    requires
        request.len() >= 16,
    ensures
        block_common::header_type(request) == VIRTIO_BLK_T_IN ==> (request_plan(disk, id, armed, request, n).end == Err::<(), ExecuteError>(
            ExecuteError::OutOfRange,
        ) <==> n > 0 && block_common::header_sector(request) * 512 + n > disk.disk_size),
        block_common::header_type(request) == VIRTIO_BLK_T_OUT && !disk.read_only ==> (request_plan(disk, id, armed, request, n).end == Err::<(), ExecuteError>(
            ExecuteError::OutOfRange,
        ) <==> request.len() > 16 && block_common::header_sector(request) * 512 + (request.len() - 16)
            > disk.disk_size),
{
}

/// No request changes a read-only disk; only reads and identification requests
/// are not refused.
pub proof fn read_only_disk_is_unchanged(
    disk: DiskParams,
    id: Option<BlockId>,
    armed: bool,
    readable: Seq<u8>,
    n: usize,
)
    requires
        disk.read_only,
    ensures
        forall|i: int|
            0 <= i < request_plan(disk, id, armed, readable, n).ops.len()
                ==> !block_common::op_modifies(
                #[trigger] request_plan(disk, id, armed, readable, n).ops[i],
            ),
        readable.len() >= 16 && block_common::header_type(readable) != VIRTIO_BLK_T_IN
            && block_common::header_type(readable) != VIRTIO_BLK_T_GET_ID ==> request_plan(
            disk,
            id,
            armed,
            readable,
            n,
        ) == block_common::refused(
            ExecuteError::ReadOnly { request_type: block_common::header_type(readable) },
        ),
{
}

/// A write that is done leaves the flush timer armed.
pub proof fn writes_are_flushed(
    disk: DiskParams,
    id: Option<BlockId>,
    armed: bool,
    readable: Seq<u8>,
    n: usize,
)
    requires
        request_plan(disk, id, armed, readable, n).ops.len() > 0,
        request_plan(disk, id, armed, readable, n).ops[0] is WriteFromGuest,
    ensures
        armed || request_plan(disk, id, armed, readable, n).ops[1] is ArmFlushTimer,
{
    if block_common::header_type(readable) == VIRTIO_BLK_T_DISCARD || block_common::header_type(
        readable,
    ) == VIRTIO_BLK_T_WRITE_ZEROES {
        let body = readable.skip(16);
        assert(body.len() >= 16);
    }
}

/// What is written to a sector is what is read from it: both requests go to the
/// same place on the disk, and one is carried out where the other is.
pub proof fn reads_see_writes(
    disk: DiskParams,
    id: Option<BlockId>,
    armed: bool,
    write: Seq<u8>,
    read: Seq<u8>,
    n: usize,
)
    requires
        !disk.read_only,
        write.len() >= 16,
        read.len() >= 16,
        block_common::header_type(write) == VIRTIO_BLK_T_OUT,
        block_common::header_type(read) == VIRTIO_BLK_T_IN,
        block_common::header_sector(write) == block_common::header_sector(read),
        n == write.len() - 16,
    ensures
        request_plan(disk, id, armed, write, 0).end == request_plan(disk, id, armed, read, n).end,
        request_plan(disk, id, armed, write, 0).ops.len() > 0 <==> request_plan(disk, id, armed, read, n).ops.len() > 0,
        request_plan(disk, id, armed, write, 0).ops.len() > 0 ==> {
            &&& request_plan(disk, id, armed, write, 0).ops[0] matches DiskOp::WriteFromGuest { offset, length, sector }
            &&& request_plan(disk, id, armed, read, n).ops[0] == (DiskOp::ReadToGuest { offset, length, sector })
        },
{
}

/// A resize shows in the configuration space, and a read is admitted exactly up to
/// the size that stands behind what is shown.
pub proof fn resize_shows_in_config(
    device: BlockAsync,
    disk: DiskParams,
    replies: ResizeReplies,
    id: Option<BlockId>,
    armed: bool,
    read: Seq<u8>,
    n: usize,
)
    requires
        read.len() >= 16,
        block_common::header_type(read) == VIRTIO_BLK_T_IN,
        n > 0,
        !disk.read_only,
        replies.set_len && replies.allocate && replies.len is Some,
    ensures
        device.after_resize(disk, replies).config_bytes() == block_common::config_space(
            replies.len->0,
            device.seg_max,
            device.block_size,
            device.num_queues,
        ),
        request_plan(block_common::resized(disk, replies), id, armed, read, n).end == Err::<(), ExecuteError>(
            ExecuteError::OutOfRange,
        ) <==> block_common::header_sector(read) * 512 + n > replies.len->0,
{
}

/// A read or write that stays within the disk transfers all its data at 512 times
/// its sector. A write starts the flush timer of one minute where it does not run.
/// A flush writes back what is cached.
/// The identification is handed over where there is one.
pub proof fn requests_go_to_their_sectors(
    disk: DiskParams,
    id: Option<BlockId>,
    armed: bool,
    request: Seq<u8>,
    n: usize,
)
    requires
        16 <= request.len() <= usize::MAX,
    ensures
        ({
            let plan = request_plan(disk, id, armed, request, n);
            let start = block_common::header_sector(request) * 512;
            let len = request.len() - 16;
            &&& block_common::header_type(request) == 0 && n > 0 && start + n <= disk.disk_size ==> {
                &&& plan.end is Ok
                &&& plan.ops.len() == 1
                &&& plan.ops[0] matches DiskOp::ReadToGuest { offset, length, sector } && offset
                    == start && length == n && sector == block_common::header_sector(request)
            }
            &&& block_common::header_type(request) == 1 && !disk.read_only && request.len() > 16 && start + len
                <= disk.disk_size ==> {
                &&& plan.end is Ok
                &&& plan.ops.len() == if armed {
                    1int
                } else {
                    2
                }
                &&& plan.ops[0] matches DiskOp::WriteFromGuest { offset, length, sector } && offset
                    == start && length == len && sector == block_common::header_sector(request)
                &&& !armed ==> plan.ops[1] == (DiskOp::ArmFlushTimer { seconds: 60 })
            }
            &&& block_common::header_type(request) == 4 && !disk.read_only ==> plan.end is Ok
                && plan.ops == seq![DiskOp::Sync]
            &&& block_common::header_type(request) == 8 && id is Some ==> plan.end is Ok && plan.ops
                == seq![DiskOp::WriteId { id: id->0 }]
            &&& block_common::header_type(request) == 0 && n == 0 ==> plan.end is Ok
                && plan.ops.len() == 0
            &&& block_common::header_type(request) == 1 && request.len() == 16 && !disk.read_only
                ==> plan.end is Ok && plan.ops.len() == 0
        }),
{
}

/// Reads and writes of sectors that lie apart touch bytes that lie apart, and
/// those of sectors that meet touch bytes that meet.
pub proof fn separate_sectors_are_separate_bytes(
    disk: DiskParams,
    id: Option<BlockId>,
    armed: bool,
    a: Seq<u8>,
    b: Seq<u8>,
    n: usize,
    m: usize,
)
    requires
        16 <= a.len() <= usize::MAX,
        16 <= b.len() <= usize::MAX,
        block_common::header_type(a) <= 1,
        block_common::header_type(b) <= 1,
        request_plan(disk, id, armed, a, n).ops.len() > 0,
        request_plan(disk, id, armed, b, m).ops.len() > 0,
    ensures
        ({
            let x = request_plan(disk, id, armed, a, n).ops[0];
            let y = request_plan(disk, id, armed, b, m).ops[0];
            let sectors = block_common::op_len(x) / 512;
            &&& block_common::op_start(y) - block_common::op_start(x) == 512 * (
            block_common::header_sector(b) - block_common::header_sector(a))
            &&& block_common::op_len(x) % 512 == 0 && block_common::header_sector(a) + sectors
                <= block_common::header_sector(b) ==> block_common::op_start(x)
                + block_common::op_len(x) <= block_common::op_start(y)
            &&& block_common::header_type(a) == 0 ==> block_common::op_len(x) == n
            &&& block_common::header_type(a) == 1 ==> block_common::op_len(x) == a.len() - 16
        }),
{
}

/// A discard on a disk that is not sparse is done at once; another discard and a
/// write zeroes request are carried out by their segments, which follow the
/// header.
pub proof fn segments_follow_the_header(
    disk: DiskParams,
    id: Option<BlockId>,
    armed: bool,
    request: Seq<u8>,
    n: usize,
)
    requires
        request.len() >= 16,
        !disk.read_only,
        block_common::header_type(request) == 11 || block_common::header_type(request) == 13,
    ensures
        block_common::header_type(request) == 11 && !disk.sparse ==> request_plan(
            disk,
            id, armed,
            request,
            n,
        ).ops.len() == 0 && request_plan(disk, id, armed, request, n).end is Ok,
        block_common::header_type(request) == 13 || disk.sparse ==> request_plan(
            disk,
            id, armed,
            request,
            n,
        ) == block_common::segments_plan(
            block_common::header_type(request),
            request.skip(16),
            disk.disk_size,
        ),
{
}

/// A device that was activated with its disk has it again after a reset, and its
/// control connection where it had one; the identification went to the worker.
pub proof fn reset_undoes_activation(device: BlockAsync, control: bool, stop: WorkerStop)
    requires
        device.hold == WorkerHold::idle(control),
        stop.notified && stop.joined,
    ensures
        device.worker_disk(true) matches Some(d) && d.params.disk_size == device.disk_size
            && d.params.read_only == device.read_only && d.params.sparse == device.sparse && d.id
            == device.id,
        device.activated(true, true).hold.worker == Some(control),
        !device.activated(true, true).hold.has_disk_image,
        device.activated(true, true).hold.resets(stop),
        (BlockAsync {
            hold: device.activated(true, true).hold.after_reset(stop),
            ..device.activated(true, true)
        }) == (BlockAsync { id: None, ..device }),
        device.activated(false, true) == device,
        device.worker_disk(false) is None,
{
}

/// A device without its disk starts no worker.
pub proof fn activation_needs_the_disk(device: BlockAsync, spawned: bool)
    ensures
        device.worker_disk(true) is Some <==> device.hold.has_disk_image,
        !device.hold.has_disk_image ==> device.activated(true, spawned).hold.worker
            == device.hold.worker,
        !device.activated(true, spawned).hold.has_disk_image,
        device.activated(true, spawned).disk_size == device.disk_size,
        device.activated(true, spawned).avail_features == device.avail_features,
        device.activated(true, spawned).num_queues == device.num_queues,
{
}

/// A device is made where the block size is a multiple of the sector size and the
/// length of the disk is known; it has that length and just what it was made with.
pub proof fn device_is_made_as_asked(
    base: u64,
    disk_len: Result<u64, i32>,
    read_only: bool,
    sparse: bool,
    block_size: u32,
    id: Option<BlockId>,
    control: bool,
    iov_max: usize,
    queue_size: u16,
    num_queues: u16,
)
    ensures
        ({
            let made = BlockAsync::made(
                base,
                disk_len,
                read_only,
                sparse,
                block_size,
                id,
                control,
                iov_max,
                queue_size,
                num_queues,
            );
            &&& made is Ok <==> block_size % 512 == 0 && disk_len is Ok
            &&& block_size % 512 != 0 ==> made == Err::<BlockAsync, i32>(22)
            &&& block_size % 512 == 0 && disk_len is Err ==> made == Err::<BlockAsync, i32>(
                disk_len->Err_0,
            )
            &&& made matches Ok(d) ==> {
                &&& d.disk_size == disk_len->Ok_0 && d.read_only == read_only && d.sparse == sparse
                &&& d.block_size == block_size && d.id == id && d.queue_size == queue_size
                    && d.num_queues == num_queues
                &&& d.hold.has_disk_image && d.hold.has_control == control && d.hold.worker is None
                &&& d.avail_features == block_common::features_of(
                    base,
                    read_only,
                    sparse,
                    num_queues > 1,
                )
            }
        }),
{
}

} // verus!
