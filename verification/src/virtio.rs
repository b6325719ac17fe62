//! What all virtio devices share.
use vstd::prelude::*;

verus! {

/// Feature bit of devices that follow version 1 of virtio.
pub const VIRTIO_F_VERSION_1: u32 = 32;

/// Feature bit of rings that suppress notifications by index.
pub const VIRTIO_RING_F_EVENT_IDX: u32 = 29;

/// Device type of a block device.
pub const TYPE_BLOCK: u32 = 2;

/// Device type of a memory balloon.
pub const TYPE_BALLOON: u32 = 5;

/// The value of one feature bit.
pub open spec fn feature(n: u32) -> u64 {
    1u64 << n
}

/// What `dst` holds after bytes of `src` from `src_offset` on were copied to it
/// from `dst_offset` on, as far as both reach.
pub open spec fn config_copied(
    dst: Seq<u8>,
    dst_offset: int,
    src: Seq<u8>,
    src_offset: int,
) -> Seq<u8> {
    Seq::new(
        dst.len(),
        |i: int|
            if dst_offset <= i && i - dst_offset + src_offset < src.len() {
                src[i - dst_offset + src_offset]
            } else {
                dst[i]
            },
    )
}

/// Copies between a configuration space and a buffer, as far as both reach.
pub fn copy_config(dst: &mut [u8], dst_offset: u64, src: &[u8], src_offset: u64)
    ensures
        final(dst)@ == config_copied(old(dst)@, dst_offset as int, src@, src_offset as int),
{
    let ghost before = dst@;
    let goal: Ghost<Seq<u8>> = Ghost(
        config_copied(before, dst_offset as int, src@, src_offset as int),
    );
    if dst_offset >= dst.len() as u64 || src_offset >= src.len() as u64 {
        assert(before =~= goal@);
        return ;
    }
    let mut d: usize = dst_offset as usize;
    let mut s: usize = src_offset as usize;
    while d < dst.len() && s < src.len()
        invariant
            dst_offset <= d <= dst@.len(),
            src_offset <= s <= src@.len(),
            d - dst_offset == s - src_offset,
            dst@.len() == before.len(),
            goal@ == config_copied(before, dst_offset as int, src@, src_offset as int),
            forall|i: int| 0 <= i < d ==> dst@[i] == goal@[i],
            forall|i: int| d <= i < dst@.len() ==> dst@[i] == before[i],
        decreases dst.len() - d,
    {
        dst[d] = src[s];
        d = d + 1;
        s = s + 1;
    }
    assert(dst@ =~= goal@);
}

/// Configuration bytes read back at the offset that they were written to.
pub proof fn config_write_then_read(config: Seq<u8>, offset: int, data: Seq<u8>)
    requires
        0 <= offset,
        offset + data.len() <= config.len(),
    ensures
        config_copied(
            data,
            0,
            config_copied(config, offset, data, 0),
            offset,
        ) =~= data,
{
}

/// A read of the configuration shows its bytes from the offset on, as far as it
/// reaches, and leaves the rest of the buffer as it is.
pub proof fn config_reads_from_the_offset(data: Seq<u8>, config: Seq<u8>, offset: int, i: int)
    requires
        0 <= offset,
        0 <= i < data.len(),
    ensures
        config_copied(data, 0, config, offset).len() == data.len(),
        offset + i < config.len() ==> config_copied(data, 0, config, offset)[i] == config[offset
            + i],
        offset + i >= config.len() ==> config_copied(data, 0, config, offset)[i] == data[i],
{
}

} // verus!
