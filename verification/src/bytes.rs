//! Little-endian and big-endian integers in byte sequences.
use vstd::prelude::*;

verus! {

/// The `n`-th power of 256.
pub open spec fn pow256(n: nat) -> nat
    decreases n,
{
    if n == 0 {
        1
    } else {
        256 * pow256((n - 1) as nat)
    }
}

/// The number that a little-endian byte sequence stands for.
pub open spec fn le_value(s: Seq<u8>) -> nat
    decreases s.len(),
{
    if s.len() == 0 {
        0
    } else {
        s[0] as nat + 256 * le_value(s.skip(1))
    }
}

/// The number that a big-endian byte sequence stands for.
pub open spec fn be_value(s: Seq<u8>) -> nat {
    le_value(s.reverse())
}

/// The low `n` bytes of `v`, least significant byte first.
pub open spec fn le_bytes(v: nat, n: nat) -> Seq<u8>
    decreases n,
{
    if n == 0 {
        Seq::empty()
    } else {
        seq![(v % 256) as u8] + le_bytes(v / 256, (n - 1) as nat)
    }
}

/// `n` bytes of `s` starting at `at`.
pub open spec fn field(s: Seq<u8>, at: int, n: int) -> Seq<u8> {
    s.subrange(at, at + n)
}

/// The first `n` bytes of `s`, or all of `s` where it is shorter.
pub open spec fn prefix(s: Seq<u8>, n: int) -> Seq<u8> {
    if s.len() <= n {
        s
    } else {
        s.take(n)
    }
}

/// `dst` with `src` copied over its start, cut off at the end of `dst`.
pub open spec fn overlay(dst: Seq<u8>, src: Seq<u8>) -> Seq<u8> {
    Seq::new(
        dst.len(),
        |i: int|
            if i < src.len() {
                src[i]
            } else {
                dst[i]
            },
    )
}

/// A byte sequence stands for less than 256 to the power of its length.
pub proof fn le_value_bound(s: Seq<u8>)
    ensures
        le_value(s) < pow256(s.len()),
    decreases s.len(),
{
    if s.len() > 0 {
        le_value_bound(s.skip(1));
    }
}

pub proof fn le_bytes_len(v: nat, n: nat)
    ensures
        le_bytes(v, n).len() == n,
    decreases n,
{
    if n > 0 {
        le_bytes_len(v / 256, (n - 1) as nat);
    }
}

/// Reading the bytes of a number gives the number back, as far as it fits.
pub proof fn le_round_trip(v: nat, n: nat)
    requires
        v < pow256(n),
    ensures
        le_value(le_bytes(v, n)) == v,
    decreases n,
{
    if n > 0 {
        let rest = le_bytes(v / 256, (n - 1) as nat);
        le_round_trip(v / 256, (n - 1) as nat);
        assert(le_bytes(v, n).skip(1) =~= rest);
    }
}

/// The bytes of the number that a sequence stands for are that sequence.
pub proof fn le_bytes_of_value(s: Seq<u8>)
    ensures
        le_bytes(le_value(s), s.len()) =~= s,
    decreases s.len(),
{
    if s.len() > 0 {
        let t = s.skip(1);
        le_bytes_of_value(t);
        let v = le_value(s);
        assert(v % 256 == s[0] as nat);
        assert(v / 256 == le_value(t));
        assert(s =~= seq![s[0]] + t);
    }
}

/// Extends a value by one more significant byte at the front of a suffix.
proof fn suffix_step(s: Seq<u8>, i: int)
    requires
        0 <= i < s.len(),
    ensures
        le_value(s.skip(i)) == s[i] as nat + 256 * le_value(s.skip(i + 1)),
{
    assert(s.skip(i).skip(1) =~= s.skip(i + 1));
}

proof fn pow256_mono(a: nat, b: nat)
    requires
        a <= b,
    ensures
        pow256(a) <= pow256(b),
    decreases b,
{
    if a < b {
        pow256_mono(a, (b - 1) as nat);
    }
}

proof fn pow256_8()
    ensures
        pow256(1) == 0x100,
        pow256(2) == 0x1_0000,
        pow256(4) == 0x1_0000_0000,
        pow256(8) == 0x1_0000_0000_0000_0000,
{
    reveal_with_fuel(pow256, 9);
}

/// Reads a little-endian number of at most eight bytes.
pub fn le_number(data: &[u8]) -> (v: u64)
    requires
        data@.len() <= 8,
    ensures
        v == le_value(data@),
{
    let mut acc: u64 = 0;
    let mut i: usize = data.len();
    assert(data@.skip(i as int) =~= Seq::<u8>::empty());
    while i > 0
        invariant
            i <= data@.len() <= 8,
            acc == le_value(data@.skip(i as int)),
        decreases i,
    {
        proof {
            suffix_step(data@, i - 1);
            le_value_bound(data@.skip(i - 1));
            pow256_mono(data@.skip(i - 1).len(), 8);
            pow256_8();
        }
        i = i - 1;
        acc = data[i] as u64 + 256 * acc;
    }
    assert(data@.skip(0) =~= data@);
    acc
}

/// Writes the low `n` bytes of `v`, least significant byte first.
pub fn le_encode(v: u64, n: usize) -> (out: Vec<u8>)
    ensures
        out@ == le_bytes(v as nat, n as nat),
        out@.len() == n,
{
    let mut out: Vec<u8> = Vec::new();
    let mut rest: u64 = v;
    let mut i: usize = 0;
    while i < n
        invariant
            i <= n,
            out@.len() == i,
            out@ + le_bytes(rest as nat, (n - i) as nat) == le_bytes(v as nat, n as nat),
        decreases n - i,
    {
        let ghost before = out@;
        let b: u8 = (rest % 256) as u8;
        out.push(b);
        assert(before + (seq![b] + le_bytes((rest / 256) as nat, (n - i - 1) as nat)) =~= out@
            + le_bytes((rest / 256) as nat, (n - i - 1) as nat));
        rest = rest / 256;
        i = i + 1;
    }
    assert(out@ + Seq::<u8>::empty() =~= out@);
    out
}

/// Copies `src` over the start of `dst`, as far as `dst` reaches.
pub fn copy_prefix(dst: &mut [u8], src: &[u8])
    ensures
        final(dst)@ == overlay(old(dst)@, src@),
{
    let mut i: usize = 0;
    let ghost before = dst@;
    while i < dst.len() && i < src.len()
        invariant
            i <= dst@.len(),
            i <= src@.len(),
            dst@.len() == before.len(),
            forall|j: int| 0 <= j < i ==> dst@[j] == src@[j],
            forall|j: int| i <= j < dst@.len() ==> dst@[j] == before[j],
        decreases dst.len() - i,
    {
        dst[i] = src[i];
        i = i + 1;
    }
    assert(dst@ =~= overlay(before, src@));
}

/// Appends the bytes of `src` to `out`.
pub fn append_bytes(out: &mut Vec<u8>, src: &[u8])
    ensures
        final(out)@ == old(out)@ + src@,
{
    let ghost before = out@;
    let mut i: usize = 0;
    while i < src.len()
        invariant
            i <= src@.len(),
            out@ == before + src@.take(i as int),
        decreases src.len() - i,
    {
        out.push(src[i]);
        i = i + 1;
        assert(out@ =~= before + src@.take(i as int));
    }
    assert(src@.take(i as int) =~= src@);
}

/// Reads a little-endian 32-bit value; bytes that `data` lacks count as zero,
/// bytes beyond the fourth are not read.
pub fn read_le_u32(data: &[u8]) -> (v: u32)
    ensures
        v == le_value(prefix(data@, 4)),
{
    let n: usize = if data.len() < 4 {
        data.len()
    } else {
        4
    };
    let head: &[u8] = vstd::slice::slice_subrange(data, 0, n);
    assert(head@ =~= prefix(data@, 4));
    let v: u64 = le_number(head);
    proof {
        le_value_bound(head@);
        pow256_mono(head@.len(), 4);
        pow256_8();
    }
    v as u32
}

/// Writes a 32-bit value in little-endian order over the start of `data`, as
/// far as `data` reaches.
pub fn write_le_u32(data: &mut [u8], value: u32)
    ensures
        final(data)@ == overlay(old(data)@, le_bytes(value as nat, 4)),
{
    let bytes: Vec<u8> = le_encode(value as u64, 4);
    copy_prefix(data, bytes.as_slice());
}

/// A 32-bit value written to a buffer of at least four bytes reads back.
pub proof fn le_u32_write_then_read(dst: Seq<u8>, value: u32)
    requires
        dst.len() >= 4,
    ensures
        le_value(prefix(overlay(dst, le_bytes(value as nat, 4)), 4)) == value,
{
    le_bytes_len(value as nat, 4);
    pow256_8();
    le_round_trip(value as nat, 4);
    assert(prefix(overlay(dst, le_bytes(value as nat, 4)), 4) =~= le_bytes(value as nat, 4));
}

/// The little-endian 16-bit value at `at`.
pub fn le_u16_at(data: &[u8], at: usize) -> (v: u16)
    requires
        at + 2 <= data@.len(),
    ensures
        v == le_value(field(data@, at as int, 2)),
{
    let len: usize = data.len();
    assert(at + 2 <= len);
    let part: &[u8] = vstd::slice::slice_subrange(data, at, at + 2);
    proof {
        le_value_bound(part@);
        pow256_8();
    }
    le_number(part) as u16
}

/// The little-endian 32-bit value at `at`.
pub fn le_u32_at(data: &[u8], at: usize) -> (v: u32)
    requires
        at + 4 <= data@.len(),
    ensures
        v == le_value(field(data@, at as int, 4)),
{
    let len: usize = data.len();
    assert(at + 4 <= len);
    let part: &[u8] = vstd::slice::slice_subrange(data, at, at + 4);
    proof {
        le_value_bound(part@);
        pow256_8();
    }
    le_number(part) as u32
}

/// The little-endian 64-bit value at `at`.
pub fn le_u64_at(data: &[u8], at: usize) -> (v: u64)
    requires
        at + 8 <= data@.len(),
    ensures
        v == le_value(field(data@, at as int, 8)),
{
    let len: usize = data.len();
    assert(at + 8 <= len);
    le_number(vstd::slice::slice_subrange(data, at, at + 8))
}

/// Two, four and eight bytes stand for values that fit 16, 32 and 64 bits.
pub proof fn le_field_bounds(s: Seq<u8>)
    ensures
        s.len() == 2 ==> le_value(s) <= u16::MAX,
        s.len() == 4 ==> le_value(s) <= u32::MAX,
        s.len() == 8 ==> le_value(s) <= u64::MAX,
{
    le_value_bound(s);
    pow256_8();
}

/// Byte `i` of a little-endian sequence counts for 256 to the power of `i`.
pub proof fn le_value_is_weighted_sum(s: Seq<u8>)
    ensures
        s.len() == 1 ==> le_value(s) == s[0],
        s.len() == 2 ==> le_value(s) == s[0] + 0x100 * s[1],
        s.len() == 4 ==> le_value(s) == s[0] + 0x100 * s[1] + 0x1_0000 * s[2] + 0x100_0000 * s[3],
        s.len() == 8 ==> le_value(s) == s[0] + 0x100 * s[1] + 0x1_0000 * s[2] + 0x100_0000 * s[3]
            + 0x1_0000_0000 * s[4] + 0x100_0000_0000 * s[5] + 0x1_0000_0000_0000 * s[6]
            + 0x100_0000_0000_0000 * s[7],
{
    reveal_with_fuel(le_value, 9);
    assert(s.len() >= 1 ==> s.skip(1).len() == s.len() - 1);
    if s.len() >= 2 {
        assert(s.skip(1).skip(1) =~= s.skip(2));
    }
    if s.len() >= 4 {
        assert(s.skip(2).skip(1) =~= s.skip(3));
        assert(s.skip(3).skip(1) =~= s.skip(4));
    }
    if s.len() >= 8 {
        assert(s.skip(4).skip(1) =~= s.skip(5));
        assert(s.skip(5).skip(1) =~= s.skip(6));
        assert(s.skip(6).skip(1) =~= s.skip(7));
        assert(s.skip(7).skip(1) =~= s.skip(8));
    }
}

/// A big-endian number grows to the right: one more byte multiplies what stands
/// before it by 256.
pub proof fn be_value_grows_to_the_right(s: Seq<u8>, b: u8)
    ensures
        be_value(s.push(b)) == 256 * be_value(s) + b,
        be_value(Seq::<u8>::empty()) == 0,
{
    assert(s.push(b).reverse() =~= seq![b] + s.reverse());
    assert((seq![b] + s.reverse()).skip(1) =~= s.reverse());
}

/// The bytes of a 16, 32 or 64-bit number, lowest first.
pub proof fn le_bytes_are_the_digits(v: nat)
    ensures
        le_bytes(v, 2) =~= seq![(v % 256) as u8, (v / 256 % 256) as u8],
        le_bytes(v, 4) =~= seq![
            (v % 256) as u8,
            (v / 0x100 % 256) as u8,
            (v / 0x1_0000 % 256) as u8,
            (v / 0x100_0000 % 256) as u8,
        ],
{
    reveal_with_fuel(le_bytes, 5);
    assert(v / 256 / 256 == v / 0x1_0000);
    assert(v / 0x1_0000 / 256 == v / 0x100_0000);
}

/// Copying over the start of a buffer shows what was copied, keeps what lies
/// beyond, and keeps the length.
pub proof fn overlay_shows_the_source(dst: Seq<u8>, src: Seq<u8>, i: int)
    ensures
        overlay(dst, src).len() == dst.len(),
        0 <= i < dst.len() && i < src.len() ==> overlay(dst, src)[i] == src[i],
        src.len() <= i < dst.len() ==> overlay(dst, src)[i] == dst[i],
        prefix(src, dst.len() as int).len() <= dst.len(),
        0 <= i < src.len() && i < dst.len() ==> prefix(src, dst.len() as int)[i] == src[i],
{
}

} // verus!
