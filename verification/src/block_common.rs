//! What the synchronous and the asynchronous block device share: the request
//! format, the features and the configuration space.
use crate::bytes;
use crate::text;
use crate::text::{append_decimal, joined};
use crate::virtio;
use vstd::prelude::*;
use vstd::string::StringExecFns;

verus! {

pub const QUEUE_SIZE: u16 = 256;

pub const SECTOR_SHIFT: u8 = 9;

pub const SECTOR_SIZE: u64 = 512;

pub const MAX_DISCARD_SECTORS: u32 = 0xFFFF_FFFF;

pub const MAX_WRITE_ZEROES_SECTORS: u32 = 0xFFFF_FFFF;

/// Limit on the segments of one discard request.
pub const MAX_DISCARD_SEG: u32 = 32;

/// Limit on the segments of one write zeroes request.
pub const MAX_WRITE_ZEROES_SEG: u32 = 32;

/// 64 KiB in sectors.
pub const DISCARD_SECTOR_ALIGNMENT: u32 = 128;

pub const VIRTIO_BLK_T_IN: u32 = 0;

pub const VIRTIO_BLK_T_OUT: u32 = 1;

pub const VIRTIO_BLK_T_FLUSH: u32 = 4;

pub const VIRTIO_BLK_T_GET_ID: u32 = 8;

pub const VIRTIO_BLK_T_DISCARD: u32 = 11;

pub const VIRTIO_BLK_T_WRITE_ZEROES: u32 = 13;

pub const VIRTIO_BLK_S_OK: u8 = 0;

pub const VIRTIO_BLK_S_IOERR: u8 = 1;

pub const VIRTIO_BLK_S_UNSUPP: u8 = 2;

pub const VIRTIO_BLK_F_SEG_MAX: u32 = 2;

pub const VIRTIO_BLK_F_RO: u32 = 5;

pub const VIRTIO_BLK_F_BLK_SIZE: u32 = 6;

pub const VIRTIO_BLK_F_FLUSH: u32 = 9;

pub const VIRTIO_BLK_F_MQ: u32 = 12;

pub const VIRTIO_BLK_F_DISCARD: u32 = 13;

pub const VIRTIO_BLK_F_WRITE_ZEROES: u32 = 14;

/// The only flag of a write zeroes segment.
pub const VIRTIO_BLK_DISCARD_WRITE_ZEROES_FLAG_UNMAP: u32 = 1;

/// Seconds after a write at which the disk is flushed.
pub const FLUSH_DELAY_SECS: u64 = 60;

/// Size of the configuration space.
pub const CONFIG_SIZE: usize = 60;

pub const EIO: i32 = 5;

pub const EINVAL: i32 = 22;

pub const EROFS: i32 = 30;

/// Identification string of a disk.
pub type BlockId = [u8; 20];

/// Why a request failed.
#[derive(Clone, Copy, Debug, PartialEq, Eq, Structural)]
pub enum ExecuteError {
    CopyId,
    CreatingMessageReceiver,
    Descriptor,
    DiscardWriteZeroes {
        /// Whether the disk failed; else the flags were wrong.
        ioerr: bool,
        sector: u64,
        num_sectors: u32,
        flags: u32,
    },
    Flush,
    MissingStatus,
    OutOfRange,
    Read,
    ReadIo { length: usize, sector: u64 },
    ReadOnly { request_type: u32 },
    ReceivingCommand,
    SendingResponse,
    Timer,
    Unsupported(u32),
    WriteIo { length: usize, sector: u64 },
    WriteStatus,
}

/// The message for a failed request of [`crate::block::Block`]. `cause` is the
/// text of the error below.
pub open spec fn error_message(e: ExecuteError, cause: Seq<char>) -> Seq<char> {
    match e {
        ExecuteError::CopyId => "failed to copy ID string: "@ + cause,
        ExecuteError::CreatingMessageReceiver => "couldn't create a message receiver: "@ + cause,
        ExecuteError::Descriptor => "virtio descriptor error: "@ + cause,
        ExecuteError::DiscardWriteZeroes { ioerr, sector, num_sectors, flags } => {
            let text = "failed to perform discard or write zeroes; sector="@ + text::decimal_text(
                sector as nat,
            ) + " num_sectors="@ + text::decimal_text(num_sectors as nat) + " flags="@
                + text::decimal_text(flags as nat);
            if ioerr {
                text + "; "@ + cause
            } else {
                text
            }
        },
        ExecuteError::Flush => "failed to flush: "@ + cause,
        ExecuteError::MissingStatus => "not enough space in descriptor chain to write status"@,
        ExecuteError::OutOfRange => "out of range"@,
        ExecuteError::Read => "failed to read message: "@ + cause,
        ExecuteError::ReadIo { length, sector } => "io error reading "@ + text::decimal_text(
            length as nat,
        ) + " bytes from sector "@ + text::decimal_text(sector as nat) + ": "@ + cause,
        ExecuteError::ReadOnly { request_type } => "read only; request_type="@
            + text::decimal_text(request_type as nat),
        ExecuteError::ReceivingCommand => "failed to read command message: "@ + cause,
        ExecuteError::SendingResponse => "failed to send command response: "@ + cause,
        ExecuteError::Timer => cause,
        ExecuteError::Unsupported(n) => "unsupported ("@ + text::decimal_text(n as nat) + ")"@,
        ExecuteError::WriteIo { length, sector } => "io error writing "@ + text::decimal_text(
            length as nat,
        ) + " bytes to sector "@ + text::decimal_text(sector as nat) + ": "@ + cause,
        ExecuteError::WriteStatus => "failed to write request status: "@ + cause,
    }
}

/// The message for a failed request of [`crate::block_async::BlockAsync`], as far
/// as it has a text of its own. `cause` is the text of the error below; under a
/// failed discard or write zeroes it is that error's debug text.
pub open spec fn error_message_async(e: ExecuteError, cause: Seq<char>) -> Seq<char> {
    match e {
        ExecuteError::DiscardWriteZeroes { ioerr, sector, num_sectors, flags } => {
            let text = "failed to perform discard or write zeroes; sector="@ + text::decimal_text(
                sector as nat,
            ) + " num_sectors="@ + text::decimal_text(num_sectors as nat) + " flags="@
                + text::decimal_text(flags as nat);
            if ioerr {
                text + "; Some("@ + cause + ")"@
            } else {
                text + "; None"@
            }
        },
        ExecuteError::ReceivingCommand => "failed to recieve command message: "@ + cause,
        ExecuteError::Timer => "couldn't reset the timer: "@ + cause,
        ExecuteError::WriteIo { length, sector } => "io error writing "@ + text::decimal_text(
            length as nat,
        ) + " bytes from sector "@ + text::decimal_text(sector as nat) + ": "@ + cause,
        _ => error_message(e, cause),
    }
}

impl ExecuteError {
    /// The status byte that the guest sees.
    pub fn status(&self) -> (r: u8)
        ensures
            r == (if self is Unsupported {
                VIRTIO_BLK_S_UNSUPP
            } else {
                VIRTIO_BLK_S_IOERR
            }),
    {
        match self {
            ExecuteError::Unsupported(_) => VIRTIO_BLK_S_UNSUPP,
            _ => VIRTIO_BLK_S_IOERR,
        }
    }

    /// The message for the error where [`crate::block::Block`] meets it; `cause` is
    /// the text of the error below.
    pub fn message(&self, cause: &str) -> (r: String)
        ensures
            r@ == error_message(*self, cause@),
    {
        match self {
            ExecuteError::CopyId => joined("failed to copy ID string: ", cause),
            ExecuteError::CreatingMessageReceiver => joined(
                "couldn't create a message receiver: ",
                cause,
            ),
            ExecuteError::Descriptor => joined("virtio descriptor error: ", cause),
            ExecuteError::DiscardWriteZeroes { ioerr, sector, num_sectors, flags } => {
                let mut s = "failed to perform discard or write zeroes; sector=".to_owned();
                append_decimal(&mut s, *sector);
                s.append(" num_sectors=");
                append_decimal(&mut s, *num_sectors as u64);
                s.append(" flags=");
                append_decimal(&mut s, *flags as u64);
                if *ioerr {
                    s.append("; ");
                    s.append(cause);
                }
                s
            },
            ExecuteError::Flush => joined("failed to flush: ", cause),
            ExecuteError::MissingStatus =>
                "not enough space in descriptor chain to write status".to_owned(),
            ExecuteError::OutOfRange => "out of range".to_owned(),
            ExecuteError::Read => joined("failed to read message: ", cause),
            ExecuteError::ReadIo { length, sector } => {
                let mut s = "io error reading ".to_owned();
                append_decimal(&mut s, *length as u64);
                s.append(" bytes from sector ");
                append_decimal(&mut s, *sector);
                s.append(": ");
                s.append(cause);
                s
            },
            ExecuteError::ReadOnly { request_type } => text::label_with_number(
                "read only; request_type=",
                *request_type as u64,
            ),
            ExecuteError::ReceivingCommand => joined("failed to read command message: ", cause),
            ExecuteError::SendingResponse => joined("failed to send command response: ", cause),
            ExecuteError::Timer => cause.to_owned(),
            ExecuteError::Unsupported(n) => {
                let mut s = text::label_with_number("unsupported (", *n as u64);
                s.append(")");
                s
            },
            ExecuteError::WriteIo { length, sector } => {
                let mut s = "io error writing ".to_owned();
                append_decimal(&mut s, *length as u64);
                s.append(" bytes to sector ");
                append_decimal(&mut s, *sector);
                s.append(": ");
                s.append(cause);
                s
            },
            ExecuteError::WriteStatus => joined("failed to write request status: ", cause),
        }
    }

    /// The message for the error where [`crate::block_async::BlockAsync`] meets it;
    /// `cause` is the text of the error below.
    pub fn message_async(&self, cause: &str) -> (r: String)
        ensures
            r@ == error_message_async(*self, cause@),
    {
        match self {
            ExecuteError::DiscardWriteZeroes { ioerr, sector, num_sectors, flags } => {
                let mut s = "failed to perform discard or write zeroes; sector=".to_owned();
                append_decimal(&mut s, *sector);
                s.append(" num_sectors=");
                append_decimal(&mut s, *num_sectors as u64);
                s.append(" flags=");
                append_decimal(&mut s, *flags as u64);
                if *ioerr {
                    s.append("; Some(");
                    s.append(cause);
                    s.append(")");
                } else {
                    s.append("; None");
                }
                s
            },
            ExecuteError::ReceivingCommand => joined("failed to recieve command message: ", cause),
            ExecuteError::Timer => joined("couldn't reset the timer: ", cause),
            ExecuteError::WriteIo { length, sector } => {
                let mut s = "io error writing ".to_owned();
                append_decimal(&mut s, *length as u64);
                s.append(" bytes from sector ");
                append_decimal(&mut s, *sector);
                s.append(": ");
                s.append(cause);
                s
            },
            _ => self.message(cause),
        }
    }
}

/// One step of a request on the disk, the guest's buffers or the flush timer.
#[derive(Clone, Copy, Debug, PartialEq, Eq)]
pub enum DiskOp {
    /// Read from the disk into the guest's data buffer.
    ReadToGuest { offset: u64, length: usize, sector: u64 },
    /// Write the guest's data buffer to the disk.
    WriteFromGuest { offset: u64, length: usize, sector: u64 },
    /// Start the flush timer.
    ArmFlushTimer { seconds: u64 },
    /// Stop the flush timer.
    ClearFlushTimer,
    /// Deallocate a range of the disk, as far as the disk can.
    PunchHole { offset: u64, length: u64 },
    /// Write zeroes to a range of the disk.
    WriteZeroes { offset: u64, length: u64, sector: u64, num_sectors: u32, flags: u32 },
    /// Write back what the disk has cached.
    Sync,
    /// Write the whole identification to the guest's data buffer.
    WriteId { id: BlockId },
}

/// The error of a request whose step failed, if it fails the request.
pub open spec fn op_error(op: DiskOp) -> Option<ExecuteError> {
    match op {
        DiskOp::ReadToGuest { offset, length, sector } => Some(
            ExecuteError::ReadIo { length, sector },
        ),
        DiskOp::WriteFromGuest { offset, length, sector } => Some(
            ExecuteError::WriteIo { length, sector },
        ),
        DiskOp::ArmFlushTimer { seconds } => Some(ExecuteError::Timer),
        DiskOp::ClearFlushTimer => Some(ExecuteError::Timer),
        DiskOp::PunchHole { offset, length } => None,
        DiskOp::WriteZeroes { offset, length, sector, num_sectors, flags } => Some(
            ExecuteError::DiscardWriteZeroes { ioerr: true, sector, num_sectors, flags },
        ),
        DiskOp::Sync => Some(ExecuteError::Flush),
        DiskOp::WriteId { id } => Some(ExecuteError::CopyId),
    }
}

/// What a request comes to: the steps in their order, and the result once all
/// of them are done.
#[verifier::ext_equal]
pub struct PlanModel {
    pub ops: Seq<DiskOp>,
    pub end: Result<(), ExecuteError>,
}

pub open spec fn done() -> PlanModel {
    PlanModel { ops: Seq::empty(), end: Ok(()) }
}

pub open spec fn refused(e: ExecuteError) -> PlanModel {
    PlanModel { ops: Seq::empty(), end: Err(e) }
}

/// The byte offset of a sector.
pub open spec fn sector_offset(sector: u64) -> int {
    sector * 512
}

/// An access stays within the disk.
pub open spec fn in_range(offset: int, length: int, disk_size: u64) -> bool {
    offset + length <= disk_size
}

/// Request type and sector in a header.
pub open spec fn header_type(readable: Seq<u8>) -> u32 {
    bytes::le_value(bytes::field(readable, 0, 4)) as u32
}

pub open spec fn header_sector(readable: Seq<u8>) -> u64 {
    bytes::le_value(bytes::field(readable, 8, 8)) as u64
}

/// Sector, number of sectors and flags in a segment.
pub open spec fn segment_sector(seg: Seq<u8>) -> u64 {
    bytes::le_value(bytes::field(seg, 0, 8)) as u64
}

pub open spec fn segment_num_sectors(seg: Seq<u8>) -> u32 {
    bytes::le_value(bytes::field(seg, 8, 4)) as u32
}

pub open spec fn segment_flags(seg: Seq<u8>) -> u32 {
    bytes::le_value(bytes::field(seg, 12, 4)) as u32
}

pub open spec fn flags_valid(req_type: u32, flags: u32) -> bool {
    if req_type == VIRTIO_BLK_T_WRITE_ZEROES {
        flags & !VIRTIO_BLK_DISCARD_WRITE_ZEROES_FLAG_UNMAP == 0
    } else {
        flags == 0
    }
}

/// The step of one segment.
pub open spec fn segment_op(req_type: u32, seg: Seq<u8>) -> DiskOp {
    let sector = segment_sector(seg);
    let offset = sector_offset(sector) as u64;
    let length = sector_offset(segment_num_sectors(seg) as u64) as u64;
    if req_type == VIRTIO_BLK_T_DISCARD {
        DiskOp::PunchHole { offset, length }
    } else {
        DiskOp::WriteZeroes {
            offset,
            length,
            sector,
            num_sectors: segment_num_sectors(seg),
            flags: segment_flags(seg),
        }
    }
}

/// The steps of a discard or write zeroes request: one for each whole segment,
/// up to the first that is wrong.
pub open spec fn segments_plan(req_type: u32, body: Seq<u8>, disk_size: u64) -> PlanModel
    decreases body.len(),
{
    if body.len() < 16 {
        done()
    } else {
        let seg = body.take(16);
        let sector = segment_sector(seg);
        let num_sectors = segment_num_sectors(seg);
        let flags = segment_flags(seg);
        if !flags_valid(req_type, flags) {
            refused(ExecuteError::DiscardWriteZeroes { ioerr: false, sector, num_sectors, flags })
        } else if !in_range(sector_offset(sector), num_sectors * 512, disk_size) {
            refused(ExecuteError::OutOfRange)
        } else {
            let rest = segments_plan(req_type, body.skip(16), disk_size);
            PlanModel { ops: seq![segment_op(req_type, seg)] + rest.ops, end: rest.end }
        }
    }
}

/// A plan of a request.
#[derive(Debug)]
pub struct RequestPlan {
    pub ops: Vec<DiskOp>,
    pub end: Result<(), ExecuteError>,
}

impl View for RequestPlan {
    type V = PlanModel;

    open spec fn view(&self) -> PlanModel {
        PlanModel { ops: self.ops@, end: self.end }
    }
}

impl RequestPlan {
    pub fn done() -> (r: Self)
        ensures
            r@ == done(),
    {
        RequestPlan { ops: Vec::new(), end: Ok(()) }
    }

    pub fn refused(e: ExecuteError) -> (r: Self)
        ensures
            r@ == refused(e),
    {
        RequestPlan { ops: Vec::new(), end: Err(e) }
    }
}

/// Checks that a request accesses only data within the disk's current size. All
/// parameters are in bytes.
pub fn check_range(io_start: u64, io_length: u64, disk_size: u64) -> (r: Result<(), ExecuteError>)
    ensures
        r == (if in_range(io_start as int, io_length as int, disk_size) {
            Ok::<(), ExecuteError>(())
        } else {
            Err(ExecuteError::OutOfRange)
        }),
{
    match io_start.checked_add(io_length) {
        None => Err(ExecuteError::OutOfRange),
        Some(io_end) => {
            if io_end > disk_size {
                Err(ExecuteError::OutOfRange)
            } else {
                Ok(())
            }
        },
    }
}

/// The byte offset of a sector from which `io_length` bytes are accessed. There is
/// none if the access would leave the disk, however large the sector.
pub fn offset_in_range(sector: u64, io_length: u64, disk_size: u64) -> (r: Result<
    u64,
    ExecuteError,
>)
    ensures
        r == (if in_range(sector_offset(sector), io_length as int, disk_size) {
            Ok::<u64, ExecuteError>(sector_offset(sector) as u64)
        } else {
            Err(ExecuteError::OutOfRange)
        }),
{
    match sector.checked_mul(SECTOR_SIZE) {
        None => Err(ExecuteError::OutOfRange),
        Some(offset) => match check_range(offset, io_length, disk_size) {
            Err(e) => Err(e),
            Ok(()) => Ok(offset),
        },
    }
}

proof fn segment_flag_facts(flags: u32)
    by (bit_vector)
    ensures
        (flags & !0u32 != 0) == (flags != 0),
        (flags & !1u32 == 0) == (flags <= 1),
{
}

/// Plans a discard or write zeroes request on the segments in `body`.
pub fn plan_segments(req_type: u32, body: &[u8], disk_size: u64) -> (r: RequestPlan)
    requires
        req_type == VIRTIO_BLK_T_DISCARD || req_type == VIRTIO_BLK_T_WRITE_ZEROES,
    ensures
        r@ == segments_plan(req_type, body@, disk_size),
{
    let mut ops: Vec<DiskOp> = Vec::new();
    let mut at: usize = 0;
    let ghost goal = segments_plan(req_type, body@, disk_size);
    assert(body@.skip(0) =~= body@);
    assert(Seq::<DiskOp>::empty() + goal.ops =~= goal.ops);
    while body.len() - at >= 16
        invariant
            at <= body@.len(),
            goal == segments_plan(req_type, body@, disk_size),
            req_type == VIRTIO_BLK_T_DISCARD || req_type == VIRTIO_BLK_T_WRITE_ZEROES,
            goal.ops == ops@ + segments_plan(req_type, body@.skip(at as int), disk_size).ops,
            goal.end == segments_plan(req_type, body@.skip(at as int), disk_size).end,
        ensures
            at <= body@.len(),
            body@.len() - at < 16,
            goal.ops == ops@ + segments_plan(req_type, body@.skip(at as int), disk_size).ops,
            goal.end == segments_plan(req_type, body@.skip(at as int), disk_size).end,
        decreases body.len() - at,
    {
        let ghost rest = body@.skip(at as int);
        let ghost seg = rest.take(16);
        proof {
            assert(bytes::field(seg, 0, 8) =~= bytes::field(body@, at as int, 8));
            assert(bytes::field(seg, 8, 4) =~= bytes::field(body@, at + 8, 4));
            assert(bytes::field(seg, 12, 4) =~= bytes::field(body@, at + 12, 4));
            assert(rest.skip(16) =~= body@.skip(at + 16));
        }
        let sector: u64 = bytes::le_u64_at(body, at);
        let num_sectors: u32 = bytes::le_u32_at(body, at + 8);
        let flags: u32 = bytes::le_u32_at(body, at + 12);
        let valid_flags: u32 = if req_type == VIRTIO_BLK_T_WRITE_ZEROES {
            VIRTIO_BLK_DISCARD_WRITE_ZEROES_FLAG_UNMAP
        } else {
            0
        };
        proof {
            segment_flag_facts(flags);
        }
        if (flags & !valid_flags) != 0 {
            assert(goal.ops =~= ops@);
            return RequestPlan {
                ops,
                end: Err(
                    ExecuteError::DiscardWriteZeroes { ioerr: false, sector, num_sectors, flags },
                ),
            };
        }
        let length: u64 = num_sectors as u64 * SECTOR_SIZE;
        let offset: u64 = match offset_in_range(sector, length, disk_size) {
            Err(e) => {
                assert(goal.ops =~= ops@);
                return RequestPlan { ops, end: Err(e) };
            },
            Ok(offset) => offset,
        };
        let op = if req_type == VIRTIO_BLK_T_DISCARD {
            DiskOp::PunchHole { offset, length }
        } else {
            DiskOp::WriteZeroes { offset, length, sector, num_sectors, flags }
        };
        let ghost before = ops@;
        ops.push(op);
        at = at + 16;
        proof {
            let later = segments_plan(req_type, body@.skip(at as int), disk_size).ops;
            assert(op == segment_op(req_type, seg));
            assert(before + (seq![op] + later) =~= ops@ + later);
        }
    }
    assert(goal.ops =~= ops@);
    RequestPlan { ops, end: Ok(()) }
}

/// The result of a plan whose steps came out as `results` says. The first step
/// that fails ends the request, but a failed deallocation is ignored.
pub open spec fn outcome(plan: PlanModel, results: Seq<bool>) -> Result<(), ExecuteError>
    decreases plan.ops.len(),
{
    if plan.ops.len() == 0 {
        plan.end
    } else if !results[0] && op_error(plan.ops[0]) is Some {
        Err(op_error(plan.ops[0])->0)
    } else {
        outcome(PlanModel { ops: plan.ops.skip(1), end: plan.end }, results.skip(1))
    }
}

/// The result of one step.
pub fn step_result(op: DiskOp, ok: bool) -> (r: Result<(), ExecuteError>)
    ensures
        r == (if !ok && op_error(op) is Some {
            Err::<(), ExecuteError>(op_error(op)->0)
        } else {
            Ok(())
        }),
{
    if ok {
        return Ok(());
    }
    match op {
        DiskOp::ReadToGuest { offset: _, length, sector } => Err(
            ExecuteError::ReadIo { length, sector },
        ),
        DiskOp::WriteFromGuest { offset: _, length, sector } => Err(
            ExecuteError::WriteIo { length, sector },
        ),
        DiskOp::ArmFlushTimer { seconds: _ } => Err(ExecuteError::Timer),
        DiskOp::ClearFlushTimer => Err(ExecuteError::Timer),
        DiskOp::PunchHole { offset: _, length: _ } => Ok(()),
        DiskOp::WriteZeroes { offset: _, length: _, sector, num_sectors, flags } => Err(
            ExecuteError::DiscardWriteZeroes { ioerr: true, sector, num_sectors, flags },
        ),
        DiskOp::Sync => Err(ExecuteError::Flush),
        DiskOp::WriteId { id: _ } => Err(ExecuteError::CopyId),
    }
}

/// The result of a request, given how each step came out.
pub fn request_result(plan: &RequestPlan, results: &[bool]) -> (r: Result<(), ExecuteError>)
    requires
        results@.len() == plan@.ops.len(),
    ensures
        r == outcome(plan@, results@),
{
    let mut i: usize = 0;
    assert(plan@.ops.skip(0) =~= plan@.ops);
    assert(results@.skip(0) =~= results@);
    while i < plan.ops.len()
        invariant
            i <= plan@.ops.len(),
            results@.len() == plan@.ops.len(),
            outcome(plan@, results@) == outcome(
                PlanModel { ops: plan@.ops.skip(i as int), end: plan@.end },
                results@.skip(i as int),
            ),
        decreases plan.ops.len() - i,
    {
        proof {
            assert(plan@.ops.skip(i as int).skip(1) =~= plan@.ops.skip(i + 1));
            assert(results@.skip(i as int).skip(1) =~= results@.skip(i + 1));
        }
        match step_result(plan.ops[i], results[i]) {
            Err(e) => {
                return Err(e);
            },
            Ok(()) => {},
        }
        i = i + 1;
    }
    plan.end
}

/// The status byte of a result.
pub open spec fn status_of(r: Result<(), ExecuteError>) -> u8 {
    match r {
        Ok(_) => VIRTIO_BLK_S_OK,
        Err(e) => if e is Unsupported {
            VIRTIO_BLK_S_UNSUPP
        } else {
            VIRTIO_BLK_S_IOERR
        },
    }
}

/// The status byte of a result.
pub fn status_byte(r: &Result<(), ExecuteError>) -> (s: u8)
    ensures
        s == status_of(*r),
{
    match r {
        Ok(()) => VIRTIO_BLK_S_OK,
        Err(e) => e.status(),
    }
}

/// Splits the writable bytes of a request: the last one takes the status, what
/// is before it is data. Returns how many bytes are data.
pub fn split_status(available_bytes: usize) -> (r: Result<usize, ExecuteError>)
    ensures
        r == (if available_bytes == 0 {
            Err::<usize, ExecuteError>(ExecuteError::MissingStatus)
        } else {
            Ok((available_bytes - 1) as usize)
        }),
{
    if available_bytes == 0 {
        Err(ExecuteError::MissingStatus)
    } else {
        Ok(available_bytes - 1)
    }
}

/// The length that a chain is returned to the guest with: all its writable
/// bytes, or none where the request could not be handled.
pub fn used_length(handled: Result<usize, ExecuteError>) -> (r: u32)
    ensures
        r == (match handled {
            Ok(len) => len as u32,
            Err(_) => 0,
        }),
{
    match handled {
        Ok(len) => len as u32,
        Err(_) => 0,
    }
}

/// What a running device knows of its disk.
#[derive(Clone, Copy, Debug, PartialEq, Eq, Structural)]
pub struct DiskParams {
    pub read_only: bool,
    pub sparse: bool,
    pub disk_size: u64,
}

/// How a worker took it that it is to stop: whether its kill event could be
/// written, and whether its thread could be joined.
#[derive(Clone, Copy, Debug, PartialEq, Eq, Structural)]
pub struct WorkerStop {
    pub notified: bool,
    pub joined: bool,
}

/// What a device holds of its worker, and what the worker holds of the device.
#[derive(Clone, Copy, Debug, PartialEq, Eq, Structural)]
pub struct WorkerHold {
    pub has_kill_evt: bool,
    pub has_disk_image: bool,
    pub has_control: bool,
    /// The worker, if there is one: whether it has the control connection. It has
    /// the disk.
    pub worker: Option<bool>,
}

impl WorkerHold {
    /// A device without a worker.
    pub fn new(has_control: bool) -> (r: Self)
        ensures
            r == Self::idle(has_control),
    {
        WorkerHold { has_kill_evt: false, has_disk_image: true, has_control, worker: None }
    }

    pub open spec fn idle(has_control: bool) -> Self {
        WorkerHold { has_kill_evt: false, has_disk_image: true, has_control, worker: None }
    }

    /// A reset succeeds if a worker was told to stop and gave back what it had.
    pub open spec fn resets(self, stop: WorkerStop) -> bool {
        (!self.has_kill_evt || stop.notified) && self.worker is Some && stop.joined
    }

    pub open spec fn after_reset(self, stop: WorkerStop) -> Self {
        if self.has_kill_evt && !stop.notified {
            WorkerHold { has_kill_evt: false, ..self }
        } else if self.worker is Some && stop.joined {
            WorkerHold {
                has_kill_evt: false,
                has_disk_image: true,
                has_control: self.worker->0,
                worker: None,
            }
        } else {
            WorkerHold { has_kill_evt: false, worker: None, ..self }
        }
    }

    /// Stops the worker and takes back what it has. Fails if it cannot be told or
    /// not be joined, and where there is none.
    pub fn reset(&mut self, stop: WorkerStop) -> (r: bool)
        ensures
            r == old(self).resets(stop),
            *final(self) == old(self).after_reset(stop),
    {
        if self.has_kill_evt {
            self.has_kill_evt = false;
            if !stop.notified {
                return false;
            }
        }
        let worker = self.worker;
        self.worker = None;
        match worker {
            Some(has_control) => {
                if !stop.joined {
                    return false;
                }
                self.has_disk_image = true;
                self.has_control = has_control;
                true
            },
            None => false,
        }
    }

    /// The descriptors that are needed: those of the disk and of the control
    /// connection, as far as the device has them.
    pub open spec fn kept(self, disk_rds: Seq<i32>, control_rd: i32) -> Seq<i32> {
        (if self.has_disk_image {
            disk_rds
        } else {
            Seq::empty()
        }) + (if self.has_control {
            seq![control_rd]
        } else {
            Seq::empty()
        })
    }

    pub fn keep_rds(&self, disk_rds: &[i32], control_rd: i32) -> (r: Vec<i32>)
        ensures
            r@ == self.kept(disk_rds@, control_rd),
    {
        let mut rds: Vec<i32> = Vec::new();
        if self.has_disk_image {
            rds.extend_from_slice(disk_rds);
            assert(rds@ =~= disk_rds@);
        }
        if self.has_control {
            rds.push(control_rd);
        }
        assert(rds@ =~= self.kept(disk_rds@, control_rd));
        rds
    }
}

/// The answer to a control command.
#[derive(Clone, Copy, Debug, PartialEq, Eq, Structural)]
pub enum DiskControlResult {
    Done,
    /// Failed with this error number.
    Failed(i32),
}

/// How the disk took the steps of a resize: setting the length, allocating the
/// space, and asking for the length. A step after one that failed is not taken.
#[derive(Clone, Copy, Debug, PartialEq, Eq, Structural)]
pub struct ResizeReplies {
    pub set_len: bool,
    pub allocate: bool,
    pub len: Option<u64>,
}

/// Whether a resize can be tried at all.
pub fn resize_allowed(disk: &DiskParams) -> (r: bool)
    ensures
        r == !disk.read_only,
{
    !disk.read_only
}

/// The answer to a resize.
pub open spec fn resize_answer(disk: DiskParams, replies: ResizeReplies) -> DiskControlResult {
    if disk.read_only {
        DiskControlResult::Failed(EROFS)
    } else if !replies.set_len || !replies.allocate {
        DiskControlResult::Failed(EIO)
    } else {
        DiskControlResult::Done
    }
}

/// The disk after a resize. The whole new size is allocated, so the disk is no
/// longer sparse; the size is what the disk says afterwards, if it says.
pub open spec fn resized(disk: DiskParams, replies: ResizeReplies) -> DiskParams {
    if resize_answer(disk, replies) is Done {
        DiskParams {
            read_only: false,
            sparse: false,
            disk_size: match replies.len {
                Some(len) => len,
                None => disk.disk_size,
            },
        }
    } else {
        disk
    }
}

/// Resizes the disk.
pub fn resize(disk: &mut DiskParams, replies: ResizeReplies) -> (r: DiskControlResult)
    ensures
        r == resize_answer(*old(disk), replies),
        *final(disk) == resized(*old(disk), replies),
{
    if disk.read_only {
        return DiskControlResult::Failed(EROFS);
    }
    if !replies.set_len {
        return DiskControlResult::Failed(EIO);
    }
    if !replies.allocate {
        return DiskControlResult::Failed(EIO);
    }
    disk.sparse = false;
    if let Some(len) = replies.len {
        disk.disk_size = len;
    }
    DiskControlResult::Done
}

/// The features of a block device: `base` and those of its disk.
pub open spec fn features_of(base: u64, read_only: bool, sparse: bool, multi_queue: bool) -> u64 {
    let flush = base | virtio::feature(VIRTIO_BLK_F_FLUSH);
    let access = if read_only {
        flush | virtio::feature(VIRTIO_BLK_F_RO)
    } else if sparse {
        flush | virtio::feature(VIRTIO_BLK_F_DISCARD) | virtio::feature(VIRTIO_BLK_F_WRITE_ZEROES)
    } else {
        flush | virtio::feature(VIRTIO_BLK_F_WRITE_ZEROES)
    };
    let sized = access | virtio::feature(VIRTIO_BLK_F_SEG_MAX) | virtio::feature(
        VIRTIO_BLK_F_BLK_SIZE,
    );
    if multi_queue {
        sized | virtio::feature(VIRTIO_BLK_F_MQ)
    } else {
        sized
    }
}

/// The features of a block device. A disk can be read-only, or can be written
/// with zeroes and, where it is sparse, discarded.
pub fn build_avail_features(base_features: u64, read_only: bool, sparse: bool, multi_queue: bool) -> (r:
    u64)
    ensures
        r == features_of(base_features, read_only, sparse, multi_queue),
{
    let mut avail_features: u64 = base_features | (1u64 << VIRTIO_BLK_F_FLUSH);
    if read_only {
        avail_features = avail_features | (1u64 << VIRTIO_BLK_F_RO);
    } else {
        if sparse {
            avail_features = avail_features | (1u64 << VIRTIO_BLK_F_DISCARD);
        }
        avail_features = avail_features | (1u64 << VIRTIO_BLK_F_WRITE_ZEROES);
    }
    avail_features =
    avail_features | (1u64 << VIRTIO_BLK_F_SEG_MAX) | (1u64 << VIRTIO_BLK_F_BLK_SIZE);
    if multi_queue {
        avail_features = avail_features | (1u64 << VIRTIO_BLK_F_MQ);
    }
    avail_features
}

/// The number of segments in a request: what the host can take, but at least
/// one, and so many that header and status still fit into the queue.
pub open spec fn seg_max_of(iov_max: usize) -> u32 {
    let wanted = if iov_max < 1 {
        1
    } else {
        iov_max as int
    };
    if wanted < QUEUE_SIZE - 2 {
        wanted as u32
    } else {
        (QUEUE_SIZE - 2) as u32
    }
}

pub fn seg_max(iov_max: usize) -> (r: u32)
    ensures
        r == seg_max_of(iov_max),
        1 <= r <= 254,
{
    let limit: usize = (QUEUE_SIZE - 2) as usize;
    if iov_max < 1 {
        1
    } else if iov_max < limit {
        iov_max as u32
    } else {
        limit as u32
    }
}

/// The configuration space: little-endian fields in the order of the virtio
/// block device.
pub open spec fn config_space(disk_size: u64, seg_max: u32, block_size: u32, num_queues: u16) -> Seq<
    u8,
> {
    bytes::le_bytes((disk_size / 512) as nat, 8)  // capacity in sectors
    + bytes::le_bytes(0, 4)  // size_max
    + bytes::le_bytes(seg_max as nat, 4) + bytes::le_bytes(0, 4)  // geometry
    + bytes::le_bytes(block_size as nat, 4) + bytes::le_bytes(0, 8)  // topology
    + bytes::le_bytes(0, 2)  // writeback, unused
    + bytes::le_bytes(num_queues as nat, 2) + bytes::le_bytes(MAX_DISCARD_SECTORS as nat, 4)
        + bytes::le_bytes(MAX_DISCARD_SEG as nat, 4) + bytes::le_bytes(
        DISCARD_SECTOR_ALIGNMENT as nat,
        4,
    ) + bytes::le_bytes(MAX_WRITE_ZEROES_SECTORS as nat, 4) + bytes::le_bytes(
        MAX_WRITE_ZEROES_SEG as nat,
        4,
    ) + bytes::le_bytes(1, 4)  // write_zeroes_may_unmap, unused

}

fn put(out: &mut Vec<u8>, v: u64, n: usize)
    ensures
        final(out)@ == old(out)@ + bytes::le_bytes(v as nat, n as nat),
        final(out)@.len() == old(out)@.len() + n,
{
    let part: Vec<u8> = bytes::le_encode(v, n);
    bytes::append_bytes(out, part.as_slice());
}

/// Builds the configuration space. The tail of an image that is no multiple of
/// the sector size is not exposed.
pub fn build_config_space(disk_size: u64, seg_max: u32, block_size: u32, num_queues: u16) -> (r: Vec<
    u8,
>)
    ensures
        r@ == config_space(disk_size, seg_max, block_size, num_queues),
        r@.len() == CONFIG_SIZE,
{
    let mut out: Vec<u8> = bytes::le_encode(disk_size / 512, 8);
    put(&mut out, 0, 4);
    put(&mut out, seg_max as u64, 4);
    put(&mut out, 0, 4);
    put(&mut out, block_size as u64, 4);
    put(&mut out, 0, 8);
    put(&mut out, 0, 2);
    put(&mut out, num_queues as u64, 2);
    put(&mut out, MAX_DISCARD_SECTORS as u64, 4);
    put(&mut out, MAX_DISCARD_SEG as u64, 4);
    put(&mut out, DISCARD_SECTOR_ALIGNMENT as u64, 4);
    put(&mut out, MAX_WRITE_ZEROES_SECTORS as u64, 4);
    put(&mut out, MAX_WRITE_ZEROES_SEG as u64, 4);
    put(&mut out, 1, 4);
    out
}

/// A step stays within the first `disk_size` bytes of the disk.
pub open spec fn op_within(op: DiskOp, disk_size: u64) -> bool {
    match op {
        DiskOp::ReadToGuest { offset, length, sector } => offset + length <= disk_size,
        DiskOp::WriteFromGuest { offset, length, sector } => offset + length <= disk_size,
        DiskOp::PunchHole { offset, length } => offset + length <= disk_size,
        DiskOp::WriteZeroes { offset, length, sector, num_sectors, flags } => offset + length
            <= disk_size,
        _ => true,
    }
}

/// A step changes what the disk holds.
pub open spec fn op_modifies(op: DiskOp) -> bool {
    op is WriteFromGuest || op is PunchHole || op is WriteZeroes
}

/// Every step of a discard or write zeroes request stays within the disk.
pub proof fn segments_within_disk(req_type: u32, body: Seq<u8>, disk_size: u64)
    ensures
        forall|i: int|
            0 <= i < segments_plan(req_type, body, disk_size).ops.len() ==> op_within(
                #[trigger] segments_plan(req_type, body, disk_size).ops[i],
                disk_size,
            ),
    decreases body.len(),
{
    if body.len() >= 16 {
        let seg = body.take(16);
        segments_within_disk(req_type, body.skip(16), disk_size);
        assert(0 <= sector_offset(segment_num_sectors(seg) as u64) <= disk_size || !in_range(
            sector_offset(segment_sector(seg)),
            segment_num_sectors(seg) * 512,
            disk_size,
        ));
    }
}

/// A request whose every step succeeds ends as planned.
pub proof fn all_steps_done(plan: PlanModel, results: Seq<bool>)
    requires
        results.len() == plan.ops.len(),
        forall|i: int| 0 <= i < results.len() ==> results[i],
    ensures
        outcome(plan, results) == plan.end,
    decreases plan.ops.len(),
{
    if plan.ops.len() > 0 {
        all_steps_done(PlanModel { ops: plan.ops.skip(1), end: plan.end }, results.skip(1));
    }
}

/// A discard never fails because of the disk.
pub proof fn discard_ignores_disk_errors(body: Seq<u8>, disk_size: u64, results: Seq<bool>)
    ensures
        outcome(segments_plan(VIRTIO_BLK_T_DISCARD, body, disk_size), results) == segments_plan(
            VIRTIO_BLK_T_DISCARD,
            body,
            disk_size,
        ).end,
    decreases body.len(),
{
    let plan = segments_plan(VIRTIO_BLK_T_DISCARD, body, disk_size);
    if plan.ops.len() > 0 {
        discard_ignores_disk_errors(body.skip(16), disk_size, results.skip(1));
        assert(plan.ops.skip(1) =~= segments_plan(
            VIRTIO_BLK_T_DISCARD,
            body.skip(16),
            disk_size,
        ).ops);
    }
}

/// Features that are there stay when others are added.
proof fn features_stay(x: u64, base: u64, more: u64)
    requires
        x & base == base,
    ensures
        (x | more) & base == base,
{
    assert((x | more) & base == base) by (bit_vector)
        requires
            x & base == base,
    ;
}

/// A block device has all features that devices have in common, whatever its
/// disk.
pub proof fn base_features_are_kept(base: u64, read_only: bool, sparse: bool, multi_queue: bool)
    ensures
        features_of(base, read_only, sparse, multi_queue) & base == base,
{
    assert(base & base == base) by (bit_vector);
    let flush = base | virtio::feature(VIRTIO_BLK_F_FLUSH);
    features_stay(base, base, virtio::feature(VIRTIO_BLK_F_FLUSH));
    let discard = flush | virtio::feature(VIRTIO_BLK_F_DISCARD);
    features_stay(flush, base, virtio::feature(VIRTIO_BLK_F_RO));
    features_stay(flush, base, virtio::feature(VIRTIO_BLK_F_DISCARD));
    features_stay(flush, base, virtio::feature(VIRTIO_BLK_F_WRITE_ZEROES));
    features_stay(discard, base, virtio::feature(VIRTIO_BLK_F_WRITE_ZEROES));
    let access = if read_only {
        flush | virtio::feature(VIRTIO_BLK_F_RO)
    } else if sparse {
        discard | virtio::feature(VIRTIO_BLK_F_WRITE_ZEROES)
    } else {
        flush | virtio::feature(VIRTIO_BLK_F_WRITE_ZEROES)
    };
    features_stay(access, base, virtio::feature(VIRTIO_BLK_F_SEG_MAX));
    let segs = access | virtio::feature(VIRTIO_BLK_F_SEG_MAX);
    features_stay(segs, base, virtio::feature(VIRTIO_BLK_F_BLK_SIZE));
    let sized = segs | virtio::feature(VIRTIO_BLK_F_BLK_SIZE);
    features_stay(sized, base, virtio::feature(VIRTIO_BLK_F_MQ));
}

/// A reset that succeeds gives the device its disk back and leaves no worker, so
/// that it can be activated again; a second reset fails.
pub proof fn reset_gives_the_disk_back(hold: WorkerHold, stop: WorkerStop, again: WorkerStop)
    requires
        hold.resets(stop),
    ensures
        hold.after_reset(stop).has_disk_image,
        hold.after_reset(stop).worker is None,
        !hold.after_reset(stop).resets(again),
{
}

/// The type of a request stands in the first four bytes of its header, the sector
/// in the last eight, both lowest byte first.
pub proof fn header_fields_are_little_endian(request: Seq<u8>)
    requires
        request.len() >= 16,
    ensures
        header_type(request) == request[0] + 0x100 * request[1] + 0x1_0000 * request[2]
            + 0x100_0000 * request[3],
        header_sector(request) == request[8] + 0x100 * request[9] + 0x1_0000 * request[10]
            + 0x100_0000 * request[11] + 0x1_0000_0000 * request[12] + 0x100_0000_0000
            * request[13] + 0x1_0000_0000_0000 * request[14] + 0x100_0000_0000_0000 * request[15],
{
    bytes::le_value_is_weighted_sum(bytes::field(request, 0, 4));
    bytes::le_value_is_weighted_sum(bytes::field(request, 8, 8));
    bytes::le_field_bounds(bytes::field(request, 0, 4));
    bytes::le_field_bounds(bytes::field(request, 8, 8));
}

/// A segment holds its sector in eight bytes, then the number of sectors and the
/// flags in four each, lowest byte first.
pub proof fn segment_fields_are_little_endian(seg: Seq<u8>)
    requires
        seg.len() >= 16,
    ensures
        segment_sector(seg) == seg[0] + 0x100 * seg[1] + 0x1_0000 * seg[2] + 0x100_0000 * seg[3]
            + 0x1_0000_0000 * seg[4] + 0x100_0000_0000 * seg[5] + 0x1_0000_0000_0000 * seg[6]
            + 0x100_0000_0000_0000 * seg[7],
        segment_num_sectors(seg) == seg[8] + 0x100 * seg[9] + 0x1_0000 * seg[10] + 0x100_0000
            * seg[11],
        segment_flags(seg) == seg[12] + 0x100 * seg[13] + 0x1_0000 * seg[14] + 0x100_0000 * seg[15],
{
    bytes::le_value_is_weighted_sum(bytes::field(seg, 0, 8));
    bytes::le_value_is_weighted_sum(bytes::field(seg, 8, 4));
    bytes::le_value_is_weighted_sum(bytes::field(seg, 12, 4));
    bytes::le_field_bounds(bytes::field(seg, 0, 8));
    bytes::le_field_bounds(bytes::field(seg, 8, 4));
    bytes::le_field_bounds(bytes::field(seg, 12, 4));
}

/// Each step of a discard or write zeroes request is that of its own segment: it
/// deallocates, or fills with zeroes, just the sectors that the segment names. All
/// whole segments have their steps unless one is wrong, because of its flags or
/// because it leaves the disk; the steps then end before the first that is.
pub proof fn segments_have_their_own_steps(req_type: u32, body: Seq<u8>, disk_size: u64, i: int)
    requires
        req_type == 11 || req_type == 13,
    ensures
        ({
            let plan = segments_plan(req_type, body, disk_size);
            let n = plan.ops.len() as int;
            let seg = body.subrange(16 * i, 16 * i + 16);
            let bad = body.subrange(16 * n, 16 * n + 16);
            &&& n <= body.len() / 16
            &&& plan.end is Ok <==> n == body.len() / 16
            &&& 0 <= i < n && req_type == 11 ==> (plan.ops[i] matches DiskOp::PunchHole {
                offset,
                length,
            } && offset == segment_sector(seg) * 512 && length == segment_num_sectors(seg) * 512)
            &&& 0 <= i < n && req_type == 13 ==> (plan.ops[i] matches DiskOp::WriteZeroes {
                offset,
                length,
                sector,
                num_sectors,
                flags,
            } && offset == segment_sector(seg) * 512 && length == segment_num_sectors(seg) * 512
                && sector == segment_sector(seg) && num_sectors == segment_num_sectors(seg)
                && flags == segment_flags(seg))
            &&& 0 <= i < n ==> segment_flags(seg) <= (if req_type == 13 {
                1u32
            } else {
                0u32
            })
            &&& plan.end matches Err(e) ==> {
                &&& e == ExecuteError::OutOfRange ==> segment_sector(bad) * 512
                    + segment_num_sectors(bad) * 512 > disk_size
                &&& e != ExecuteError::OutOfRange ==> segment_flags(bad) > (if req_type == 13 {
                    1u32
                } else {
                    0u32
                })
            }
        }),
    decreases body.len(),
{
    if body.len() >= 16 {
        let plan = segments_plan(req_type, body, disk_size);
        let rest = body.skip(16);
        let seg = body.take(16);
        let later = segments_plan(req_type, rest, disk_size);
        segment_flag_facts(segment_flags(seg));
        segments_have_their_own_steps(req_type, rest, disk_size, i - 1);
        assert(body.subrange(0, 16) =~= seg);
        assert(rest.len() / 16 == body.len() / 16 - 1);
        let n = later.ops.len() as int;
        if 16 * n + 16 <= rest.len() {
            assert(rest.subrange(16 * n, 16 * n + 16) =~= body.subrange(
                16 * (n + 1),
                16 * (n + 1) + 16,
            ));
        }
        if 0 < i && 16 * i + 16 <= body.len() {
            assert(rest.subrange(16 * (i - 1), 16 * (i - 1) + 16) =~= body.subrange(
                16 * i,
                16 * i + 16,
            ));
        }
        if plan.ops.len() > 0 {
            assert(plan.ops == seq![segment_op(req_type, seg)] + later.ops);
            assert(0 <= sector_offset(segment_num_sectors(seg) as u64) <= disk_size);
        }
    }
}

proof fn feature_bits(base: u64, read_only: bool, sparse: bool, multi_queue: bool)
    by (bit_vector)
    requires
        base & 0x7264 == 0,
    ensures
        features_of(base, read_only, sparse, multi_queue) & 0x244 == 0x244,
        (features_of(base, read_only, sparse, multi_queue) & 0x20 != 0) == read_only,
        (features_of(base, read_only, sparse, multi_queue) & 0x1000 != 0) == multi_queue,
        (features_of(base, read_only, sparse, multi_queue) & 0x2000 != 0) == (!read_only && sparse),
        (features_of(base, read_only, sparse, multi_queue) & 0x4000 != 0) == !read_only,
        features_of(base, read_only, sparse, multi_queue) & !0x7264u64 == base,
{
}

/// A block device can be flushed and says how many segments a request can have and
/// how large its blocks are. It is read-only where its disk is; else zeroes can be
/// written to it, and it can be discarded where it is sparse. It has several queues
/// where it is made with them, and besides just the common features.
pub proof fn features_follow_the_disk(base: u64, read_only: bool, sparse: bool, multi_queue: bool)
    requires
        base & 0x7264 == 0,
    ensures
        ({
            let f = features_of(base, read_only, sparse, multi_queue);
            &&& f & 0x244 == 0x244
            &&& f & 0x20 != 0 <==> read_only
            &&& f & 0x1000 != 0 <==> multi_queue
            &&& f & 0x2000 != 0 <==> !read_only && sparse
            &&& f & 0x4000 != 0 <==> !read_only
            &&& f & !0x7264u64 == base
        }),
{
    feature_bits(base, read_only, sparse, multi_queue);
}

/// The configuration space shows, each field at its offset and lowest byte first,
/// the whole sectors of the disk, the limit on segments, the block size, the number
/// of queues, and the limits on discard and write zeroes requests.
pub proof fn config_fields_at_their_offsets(
    disk_size: u64,
    seg_max: u32,
    block_size: u32,
    num_queues: u16,
)
    ensures
        ({
            let c = config_space(disk_size, seg_max, block_size, num_queues);
            &&& c.len() == 60
            &&& bytes::le_value(bytes::field(c, 0, 8)) == disk_size / 512
            &&& bytes::le_value(bytes::field(c, 8, 4)) == 0
            &&& bytes::le_value(bytes::field(c, 12, 4)) == seg_max
            &&& bytes::le_value(bytes::field(c, 20, 4)) == block_size
            &&& bytes::le_value(bytes::field(c, 34, 2)) == num_queues
            &&& bytes::le_value(bytes::field(c, 36, 4)) == 0xffff_ffff
            &&& bytes::le_value(bytes::field(c, 40, 4)) == 32
            &&& bytes::le_value(bytes::field(c, 44, 4)) == 128
            &&& bytes::le_value(bytes::field(c, 48, 4)) == 0xffff_ffff
            &&& bytes::le_value(bytes::field(c, 52, 4)) == 32
            &&& bytes::le_value(bytes::field(c, 56, 4)) == 1
        }),
{
    let c = config_space(disk_size, seg_max, block_size, num_queues);
    let sectors = (disk_size / 512) as nat;
    reveal_with_fuel(bytes::pow256, 9);
    bytes::le_bytes_len(sectors, 8);
    bytes::le_bytes_len(0, 4);
    bytes::le_bytes_len(seg_max as nat, 4);
    bytes::le_bytes_len(block_size as nat, 4);
    bytes::le_bytes_len(0, 8);
    bytes::le_bytes_len(0, 2);
    bytes::le_bytes_len(num_queues as nat, 2);
    bytes::le_bytes_len(0xffff_ffff, 4);
    bytes::le_bytes_len(32, 4);
    bytes::le_bytes_len(128, 4);
    bytes::le_bytes_len(1, 4);
    bytes::le_round_trip(sectors, 8);
    bytes::le_round_trip(0, 4);
    bytes::le_round_trip(seg_max as nat, 4);
    bytes::le_round_trip(block_size as nat, 4);
    bytes::le_round_trip(num_queues as nat, 2);
    bytes::le_round_trip(0xffff_ffff, 4);
    bytes::le_round_trip(32, 4);
    bytes::le_round_trip(128, 4);
    bytes::le_round_trip(1, 4);
    assert(bytes::field(c, 0, 8) =~= bytes::le_bytes(sectors, 8));
    assert(bytes::field(c, 8, 4) =~= bytes::le_bytes(0, 4));
    assert(bytes::field(c, 12, 4) =~= bytes::le_bytes(seg_max as nat, 4));
    assert(bytes::field(c, 20, 4) =~= bytes::le_bytes(block_size as nat, 4));
    assert(bytes::field(c, 34, 2) =~= bytes::le_bytes(num_queues as nat, 2));
    assert(bytes::field(c, 36, 4) =~= bytes::le_bytes(0xffff_ffff, 4));
    assert(bytes::field(c, 40, 4) =~= bytes::le_bytes(32, 4));
    assert(bytes::field(c, 44, 4) =~= bytes::le_bytes(128, 4));
    assert(bytes::field(c, 48, 4) =~= bytes::le_bytes(0xffff_ffff, 4));
    assert(bytes::field(c, 52, 4) =~= bytes::le_bytes(32, 4));
    assert(bytes::field(c, 56, 4) =~= bytes::le_bytes(1, 4));
}

/// A request has as many segments as the host takes, but one at least, and two
/// less than the queue has entries at most.
pub proof fn segment_limit_leaves_room(iov_max: usize)
    ensures
        1 <= seg_max_of(iov_max) <= 254,
        1 <= iov_max <= 254 ==> seg_max_of(iov_max) == iov_max,
        iov_max > 254 ==> seg_max_of(iov_max) == 254,
{
}

/// The first step that fails decides the result of a request, unless it is a
/// deallocation; it names the transfer that failed.
pub proof fn first_failure_decides(plan: PlanModel, results: Seq<bool>, k: int)
    requires
        results.len() == plan.ops.len(),
        0 <= k < results.len(),
        forall|i: int| 0 <= i < k ==> results[i],
        !results[k],
    ensures
        ({
            let r = outcome(plan, results);
            match plan.ops[k] {
                DiskOp::ReadToGuest { offset, length, sector } => r == Err::<(), ExecuteError>(
                    ExecuteError::ReadIo { length, sector },
                ),
                DiskOp::WriteFromGuest { offset, length, sector } => r == Err::<(), ExecuteError>(
                    ExecuteError::WriteIo { length, sector },
                ),
                DiskOp::ArmFlushTimer { seconds } => r == Err::<(), ExecuteError>(
                    ExecuteError::Timer,
                ),
                DiskOp::ClearFlushTimer => r == Err::<(), ExecuteError>(ExecuteError::Timer),
                DiskOp::PunchHole { offset, length } => true,
                DiskOp::WriteZeroes { offset, length, sector, num_sectors, flags } => r == Err::<
                    (),
                    ExecuteError,
                >(ExecuteError::DiscardWriteZeroes { ioerr: true, sector, num_sectors, flags }),
                DiskOp::Sync => r == Err::<(), ExecuteError>(ExecuteError::Flush),
                DiskOp::WriteId { id } => r == Err::<(), ExecuteError>(ExecuteError::CopyId),
            }
        }),
    decreases k,
{
    if k > 0 {
        let rest = PlanModel { ops: plan.ops.skip(1), end: plan.end };
        assert(results[0]);
        first_failure_decides(rest, results.skip(1), k - 1);
        assert(rest.ops[k - 1] == plan.ops[k]);
    }
}

/// The status byte is zero for a request that was carried out, two for one that
/// the device does not know, and one for every other failure.
pub proof fn status_tells_the_result(r: Result<(), ExecuteError>)
    ensures
        status_of(r) == 0 <==> r is Ok,
        status_of(r) == 2 <==> (r matches Err(e) && e is Unsupported),
        status_of(r) == 1 <==> (r matches Err(e) && !(e is Unsupported)),
{
}

/// A disk that takes a resize has the size that it reports afterwards and is no
/// longer sparse; one that is read-only, or fails, stays as it was.
pub proof fn resize_takes_effect_or_fails(disk: DiskParams, replies: ResizeReplies)
    ensures
        ({
            let after = resized(disk, replies);
            let answer = resize_answer(disk, replies);
            &&& disk.read_only ==> answer == DiskControlResult::Failed(30) && after == disk
            &&& !disk.read_only && !(replies.set_len && replies.allocate) ==> answer
                == DiskControlResult::Failed(5) && after == disk
            &&& !disk.read_only && replies.set_len && replies.allocate ==> {
                &&& answer == DiskControlResult::Done
                &&& !after.sparse && !after.read_only
                &&& replies.len matches Some(len) ==> after.disk_size == len
                &&& replies.len is None ==> after.disk_size == disk.disk_size
            }
        }),
{
}

/// A device keeps open what it has at hand: the files of its disk first, then its
/// control connection.
pub proof fn kept_descriptors_are_those_at_hand(hold: WorkerHold, disk_rds: Seq<i32>, control: i32)
    ensures
        hold.has_disk_image && hold.has_control ==> hold.kept(disk_rds, control) == disk_rds.push(
            control,
        ),
        hold.has_disk_image && !hold.has_control ==> hold.kept(disk_rds, control) == disk_rds,
        !hold.has_disk_image && hold.has_control ==> hold.kept(disk_rds, control) == seq![control],
        !hold.has_disk_image && !hold.has_control ==> hold.kept(disk_rds, control).len() == 0,
{
}

/// Where a step starts on the disk.
pub open spec fn op_start(op: DiskOp) -> int {
    match op {
        DiskOp::ReadToGuest { offset, length, sector } => offset as int,
        DiskOp::WriteFromGuest { offset, length, sector } => offset as int,
        DiskOp::PunchHole { offset, length } => offset as int,
        DiskOp::WriteZeroes { offset, length, sector, num_sectors, flags } => offset as int,
        _ => 0,
    }
}

/// How many bytes of the disk a step touches.
pub open spec fn op_len(op: DiskOp) -> int {
    match op {
        DiskOp::ReadToGuest { offset, length, sector } => length as int,
        DiskOp::WriteFromGuest { offset, length, sector } => length as int,
        DiskOp::PunchHole { offset, length } => length as int,
        DiskOp::WriteZeroes { offset, length, sector, num_sectors, flags } => length as int,
        _ => 0,
    }
}

/// A reset fails where the worker cannot be told, which then stays, where it cannot
/// be joined, with which all it had is lost, and where there is none.
pub proof fn failed_reset_gives_nothing_back(hold: WorkerHold, stop: WorkerStop)
    ensures
        hold.has_kill_evt && !stop.notified ==> !hold.resets(stop) && hold.after_reset(stop) == (
        WorkerHold { has_kill_evt: false, ..hold }),
        (!hold.has_kill_evt || stop.notified) && !(hold.worker is Some && stop.joined)
            ==> !hold.resets(stop) && hold.after_reset(stop) == (WorkerHold {
            has_kill_evt: false,
            worker: None,
            ..hold
        }),
        hold.resets(stop) ==> hold.after_reset(stop).has_control == hold.worker->0
            && !hold.after_reset(stop).has_kill_evt,
        hold.resets(stop) <==> (hold.has_kill_evt ==> stop.notified) && hold.worker is Some
            && stop.joined,
{
}

} // verus!
