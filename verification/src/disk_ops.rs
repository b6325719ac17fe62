//! Operations on disks.
use vstd::prelude::*;

verus! {

/// The operations and the data that is needed to start each.
#[derive(Clone, Copy, Debug, PartialEq, Eq, Structural)]
pub enum DiskOperation {
    FSync,
    PunchHole { offset: u64, length: u64 },
    Read { offset: u64, len: u64 },
    Write { offset: u64, len: u64 },
    WriteZeros { sector: u64, num_sectors: u32, flags: u32 },
}

impl DiskOperation {
    /// Whether the operation is allowed on read-only disks, which only reads
    /// are.
    pub fn valid_read_only(&self) -> (r: bool)
        ensures
            r == (self is Read),
    {
        match self {
            DiskOperation::Read { offset, len } => true,
            _ => false,
        }
    }
}

/// An operation on a file behind a disk. There may be several files.
#[derive(Clone, Copy, Debug, PartialEq, Eq, Structural)]
pub struct BackingOperation {
    pub fd: i32,
    pub op: DiskOperation,
}

/// What turns operations on a disk into operations on the files behind it.
pub trait OpProcess {
    fn process_op(&self, op: DiskOperation) -> (r: Result<Vec<BackingOperation>, String>);
}

/// How a disk image is locked.
#[derive(Clone, Copy, Debug, PartialEq, Eq, Structural)]
pub enum FlockOperation {
    LockShared,
    LockExclusive,
}

/// How a disk image is opened.
#[derive(Clone, Copy, Debug, PartialEq, Eq, Structural)]
pub struct RawImagePlan {
    pub read: bool,
    pub write: bool,
    /// The lock to take, which is not waited for.
    pub lock: Option<FlockOperation>,
}

/// How an image is opened.
pub open spec fn image_plan(is_read_only: bool, lock: bool) -> RawImagePlan {
    RawImagePlan {
        read: true,
        write: !is_read_only,
        lock: if !lock {
            None
        } else if is_read_only {
            Some(FlockOperation::LockShared)
        } else {
            Some(FlockOperation::LockExclusive)
        },
    }
}

/// Plans to open a disk image: one that is only read is shared, another one is
/// not.
pub fn open_raw_disk_image(is_read_only: bool, lock: bool) -> (r: RawImagePlan)
    ensures
        r == image_plan(is_read_only, lock),
{
    let lock_op = if lock {
        if is_read_only {
            Some(FlockOperation::LockShared)
        } else {
            Some(FlockOperation::LockExclusive)
        }
    } else {
        None
    };
    RawImagePlan { read: true, write: !is_read_only, lock: lock_op }
}

/// This host has no options to apply to an image that was opened.
pub fn apply_raw_disk_file_options(is_sparse_file: bool) -> (r: Result<(), i32>)
    ensures
        r is Ok,
{
    Ok(())
}

/// Only an image that is written to is locked against others.
pub proof fn readers_share(is_read_only: bool, lock: bool)
    ensures
        image_plan(is_read_only, lock).lock == Some(FlockOperation::LockExclusive)
            ==> image_plan(is_read_only, lock).write,
{
}

/// An image is always read, and written to unless it is read-only. It is locked
/// where that is asked for: together with others that read it, or else for itself.
pub proof fn images_are_opened_as_asked(is_read_only: bool, lock: bool)
    ensures
        image_plan(is_read_only, lock).read,
        image_plan(is_read_only, lock).write <==> !is_read_only,
        image_plan(is_read_only, lock).lock is Some <==> lock,
        image_plan(is_read_only, lock).lock == Some(FlockOperation::LockShared) <==> lock
            && is_read_only,
{
}

} // verus!
