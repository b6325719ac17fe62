//! Inputs of fuzzers.
use crate::bytes;
use byteorder::{BigEndian, LittleEndian, ReadBytesExt};
use vstd::prelude::*;

verus! {

/// Size of the guest's memory.
pub const MEM_SIZE: usize = 0x1000_0000;

/// Bytes in one virtio descriptor.
pub const DESC_SIZE: u64 = 16;

/// Bytes in the command.
pub const CMD_SIZE: usize = 16;

/// Calls `ReadBytesExt::read_u64::<LittleEndian>` of byteorder on a byte slice.
/// The contract claims that it fails where there are fewer than eight bytes, and
/// else returns the number that the first eight stand for in little-endian
/// order.
#[verifier::external_body]
fn read_u64_little(data: &[u8]) -> (r: Option<u64>)
    ensures
        r is Some <==> data@.len() >= 8,
        r is Some ==> r->0 == bytes::le_value(data@.take(8)),
{
    let mut reader = data;
    reader.read_u64::<LittleEndian>().ok()
}

/// Calls `ReadBytesExt::read_u64::<BigEndian>` of byteorder on a byte slice. The
/// contract claims that it fails where there are fewer than eight bytes, and
/// else returns the number that the first eight stand for in big-endian order.
#[verifier::external_body]
fn read_u64_big(data: &[u8]) -> (r: Option<u64>)
    ensures
        r is Some <==> data@.len() >= 8,
        r is Some ==> r->0 == bytes::be_value(data@.take(8)),
{
    let mut reader = data;
    reader.read_u64::<BigEndian>().ok()
}

/// The input of the fuzzer for disk images: a value, where it is written to, and
/// the image.
#[derive(Debug)]
pub struct QcowInput {
    pub addr: u64,
    pub value: u64,
    pub image: Vec<u8>,
}

/// Splits an input: an address and a value, both in big-endian order, and the
/// image. A shorter input is not used.
pub fn qcow_input(data: &[u8]) -> (r: Option<QcowInput>)
    ensures
        r is Some <==> data@.len() >= 16,
        r matches Some(i) ==> {
            &&& i.addr == bytes::be_value(bytes::field(data@, 0, 8))
            &&& i.value == bytes::be_value(bytes::field(data@, 8, 8))
            &&& i.image@ == data@.skip(16)
        },
{
    if data.len() < 16 {
        return None;
    }
    let rest: &[u8] = vstd::slice::slice_subrange(data, 8, data.len());
    assert(data@.take(8) =~= bytes::field(data@, 0, 8));
    assert(rest@.take(8) =~= bytes::field(data@, 8, 8));
    match (read_u64_big(data), read_u64_big(rest)) {
        (Some(addr), Some(value)) => {
            let tail: &[u8] = vstd::slice::slice_subrange(data, 16, data.len());
            let mut image: Vec<u8> = Vec::new();
            bytes::append_bytes(&mut image, tail);
            assert(image@ =~= data@.skip(16));
            Some(QcowInput { addr, value, image })
        },
        _ => None,
    }
}

/// The input of the fuzzer for block devices: a command and where it goes, and
/// the descriptors and where they go.
#[derive(Debug)]
pub struct BlockInput {
    pub command_addr: u64,
    pub command: Vec<u8>,
    pub desc_table: u64,
    pub descriptors: Vec<u8>,
}

/// The number in eight bytes of an input, in little-endian order.
pub open spec fn number_at(data: Seq<u8>, at: int) -> nat {
    bytes::le_value(bytes::field(data, at, 8))
}

/// Whether an input is used: it has a first index and the address of a command,
/// the descriptor of that index is within the input, and the command is within
/// the guest's memory.
pub open spec fn block_input_used(data: Seq<u8>) -> bool {
    &&& data.len() >= 32
    &&& number_at(data, 0) <= MEM_SIZE / 16
    &&& number_at(data, 0) * 16 + 8 <= data.len()
    &&& number_at(data, 8) <= MEM_SIZE - CMD_SIZE
}

fn number_in(data: &[u8], at: usize) -> (r: u64)
    requires
        at + 8 <= data@.len(),
    ensures
        r == number_at(data@, at as int),
{
    let len: usize = data.len();
    let part: &[u8] = vstd::slice::slice_subrange(data, at, len);
    assert(part@.take(8) =~= bytes::field(data@, at as int, 8));
    match read_u64_little(part) {
        Some(v) => v,
        None => 0,
    }
}

/// Takes an input apart: the first index, the address of the command, the
/// command, and the descriptors.
pub fn block_input(data: &[u8]) -> (r: Option<BlockInput>)
    ensures
        r is Some <==> block_input_used(data@),
        r matches Some(i) ==> {
            &&& i.command_addr == number_at(data@, 8)
            &&& i.command@ == bytes::field(data@, 16, 16)
            &&& i.descriptors@ == data@.skip(32)
            &&& i.desc_table == number_at(data@, (number_at(data@, 0) * 16) as int)
        },
{
    if data.len() < 32 {
        return None;
    }
    let first_index: u64 = number_in(data, 0);
    if first_index > MEM_SIZE as u64 / DESC_SIZE {
        return None;
    }
    let first_offset: u64 = first_index * DESC_SIZE;
    if first_offset as usize + 8 > data.len() {
        return None;
    }
    let command_addr: u64 = number_in(data, 8);
    if command_addr > (MEM_SIZE - CMD_SIZE) as u64 {
        return None;
    }
    let desc_table: u64 = number_in(data, first_offset as usize);
    let mut command: Vec<u8> = Vec::new();
    bytes::append_bytes(&mut command, vstd::slice::slice_subrange(data, 16, 32));
    assert(command@ =~= bytes::field(data@, 16, 16));
    let mut descriptors: Vec<u8> = Vec::new();
    bytes::append_bytes(&mut descriptors, vstd::slice::slice_subrange(data, 32, data.len()));
    assert(descriptors@ =~= data@.skip(32));
    Some(BlockInput { command_addr, command, desc_table, descriptors })
}

/// An input is used where it holds an index, an address and a command, the
/// descriptor of the index lies within the input, and the command goes to an
/// address that leaves it within the guest's memory. Numbers are read lowest byte
/// first.
pub proof fn inputs_are_used_within_bounds(data: Seq<u8>, at: int)
    ensures
        0 <= at && at + 8 <= data.len() ==> number_at(data, at) == data[at] + 0x100 * data[at + 1]
            + 0x1_0000 * data[at + 2] + 0x100_0000 * data[at + 3] + 0x1_0000_0000 * data[at + 4]
            + 0x100_0000_0000 * data[at + 5] + 0x1_0000_0000_0000 * data[at + 6]
            + 0x100_0000_0000_0000 * data[at + 7],
        block_input_used(data) <==> data.len() >= 32 && number_at(data, 0) <= 0x100_0000
            && number_at(data, 0) * 16 + 8 <= data.len() && number_at(data, 8) + 16 <= 0x1000_0000,
{
    if 0 <= at && at + 8 <= data.len() {
        bytes::le_value_is_weighted_sum(bytes::field(data, at, 8));
    }
}

} // verus!
