//! Replies of a debugger stub.
use vstd::prelude::*;

verus! {

/// A source of bytes that is read one byte at a time.
pub trait ByteSource: Sized {
    /// The bytes that are still to come.
    spec fn rest(&self) -> Seq<u8>;

    /// The next byte, or nothing at the end.
    fn next(&mut self) -> (r: Option<u8>)
        ensures
            match r {
                Some(b) => {
                    &&& old(self).rest().len() > 0
                    &&& b == old(self).rest()[0]
                    &&& final(self).rest() == old(self).rest().skip(1)
                },
                None => old(self).rest().len() == 0 && final(self).rest() == old(self).rest(),
            },
    ;
}

/// The ASCII character of a hexadecimal digit, in upper case.
pub open spec fn digit_char(d: u8) -> u8 {
    if d < 10 {
        (0x30 + d) as u8
    } else if d <= 15 {
        (0x41 + d - 10) as u8
    } else {
        0x30
    }
}

/// The sum of bytes, modulo 256, on top of `start`.
pub open spec fn checksum_from(start: u8, data: Seq<u8>) -> u8
    decreases data.len(),
{
    if data.len() == 0 {
        start
    } else {
        checksum_from(((start + data[0]) % 256) as u8, data.skip(1))
    }
}

/// A hash sign and a checksum as two hexadecimal digits.
pub open spec fn trailer(sum: u8) -> Seq<u8> {
    seq![0x23u8, digit_char(sum / 16), digit_char(sum % 16)]
}

/// A packet: a dollar sign, the data, a hash sign and the checksum of the data
/// as two hexadecimal digits.
pub open spec fn packet(data: Seq<u8>) -> Seq<u8> {
    seq![0x24u8] + data + trailer(checksum_from(0, data))
}

/// The character of a hexadecimal digit.
pub fn ascii_byte(digit: u8) -> (r: u8)
    ensures
        r == digit_char(digit),
{
    if digit < 0xa {
        digit + 0x30
    } else if digit <= 0xf {
        digit - 0xa + 0x41
    } else {
        0x30
    }
}

/// The character of the low digit of a byte.
pub fn hex_lsn(num: u8) -> (r: u8)
    ensures
        r == digit_char(num % 16),
{
    assert(num & 0x0f == num % 16) by (bit_vector);
    ascii_byte(num & 0x0f)
}

/// The character of the high digit of a byte.
pub fn hex_msn(num: u8) -> (r: u8)
    ensures
        r == digit_char(num / 16),
{
    assert((num >> 4) & 0x0f == num / 16) by (bit_vector);
    ascii_byte((num >> 4) & 0x0f)
}

#[derive(Clone, Copy, Debug, PartialEq, Eq, Structural)]
enum IterState {
    Start,
    Data,
    Checksum1,
    Checksum2,
    Done,
}

/// A packet around the bytes of a source.
#[derive(Debug)]
pub struct GdbReply<I: ByteSource> {
    data: I,
    checksum: u8,
    state: IterState,
}

impl<I: ByteSource> GdbReply<I> {
    /// The bytes of the packet that are still to come.
    pub closed spec fn remaining(&self) -> Seq<u8> {
        let sum = checksum_from(self.checksum, self.data.rest());
        match self.state {
            IterState::Start => seq![0x24u8] + self.data.rest() + trailer(sum),
            IterState::Data => self.data.rest() + trailer(sum),
            IterState::Checksum1 => seq![
                digit_char(self.checksum / 16),
                digit_char(self.checksum % 16),
            ],
            IterState::Checksum2 => seq![digit_char(self.checksum % 16)],
            IterState::Done => Seq::empty(),
        }
    }

    pub fn from_bytes(data: I) -> (r: Self)
        ensures
            r.remaining() == packet(data.rest()),
    {
        GdbReply { data, state: IterState::Start, checksum: 0 }
    }

    /// The next byte of the packet.
    pub fn next(&mut self) -> (r: Option<u8>)
        ensures
            match r {
                Some(b) => {
                    &&& old(self).remaining().len() > 0
                    &&& b == old(self).remaining()[0]
                    &&& final(self).remaining() == old(self).remaining().skip(1)
                },
                None => {
                    &&& old(self).remaining().len() == 0
                    &&& final(self).remaining() == old(self).remaining()
                },
            },
    {
        let ghost before = self.remaining();
        let ghost data = self.data.rest();
        match self.state {
            IterState::Start => {
                self.state = IterState::Data;
                assert(self.remaining() =~= before.skip(1));
                Some(0x24)
            },
            IterState::Data => match self.data.next() {
                Some(x) => {
                    self.checksum = self.checksum.wrapping_add(x);
                    proof {
                        let sum = self.checksum;
                        assert(sum == ((old(self).checksum + x) % 256) as u8);
                        assert(self.remaining() =~= before.skip(1));
                        assert(before[0] == data[0]);
                    }
                    Some(x)
                },
                None => {
                    self.state = IterState::Checksum1;
                    assert(self.remaining() =~= before.skip(1));
                    Some(0x23)
                },
            },
            IterState::Checksum1 => {
                self.state = IterState::Checksum2;
                assert(self.remaining() =~= before.skip(1));
                Some(hex_msn(self.checksum))
            },
            IterState::Checksum2 => {
                self.state = IterState::Done;
                assert(self.remaining() =~= before.skip(1));
                Some(hex_lsn(self.checksum))
            },
            IterState::Done => None,
        }
    }

    /// All bytes of the packet that are still to come.
    pub fn collect(self) -> (r: Vec<u8>)
        ensures
            r@ == self.remaining(),
    {
        let mut reply = self;
        let mut out: Vec<u8> = Vec::new();
        assert(out@ + reply.remaining() =~= self.remaining());
        loop
            invariant
                out@ + reply.remaining() == self.remaining(),
            decreases reply.remaining().len(),
        {
            let ghost before = reply.remaining();
            let ghost so_far = out@;
            match reply.next() {
                Some(b) => {
                    out.push(b);
                    assert(out@ + reply.remaining() =~= so_far + before);
                },
                None => {
                    assert(out@ =~= self.remaining());
                    return out;
                },
            }
        }
    }
}

/// No bytes.
#[derive(Debug)]
pub struct GdbNoData {}

impl ByteSource for GdbNoData {
    open spec fn rest(&self) -> Seq<u8> {
        Seq::empty()
    }

    fn next(&mut self) -> (r: Option<u8>) {
        None
    }
}

/// The bytes of a vector.
#[derive(Debug)]
pub struct GdbData {
    bytes: Vec<u8>,
    idx: usize,
}

impl GdbData {
    pub fn new(bytes: Vec<u8>) -> (r: Self)
        ensures
            r.rest() == bytes@,
    {
        assert(bytes@.skip(0) =~= bytes@);
        GdbData { bytes, idx: 0 }
    }
}

impl ByteSource for GdbData {
    closed spec fn rest(&self) -> Seq<u8> {
        if self.idx <= self.bytes@.len() {
            self.bytes@.skip(self.idx as int)
        } else {
            Seq::empty()
        }
    }

    fn next(&mut self) -> (r: Option<u8>) {
        if self.idx < self.bytes.len() {
            let b: u8 = self.bytes[self.idx];
            self.idx = self.idx + 1;
            assert(self.rest() =~= old(self).rest().skip(1));
            Some(b)
        } else {
            None
        }
    }
}

/// The reply to a command that is not supported.
pub fn empty() -> (r: GdbReply<GdbNoData>)
    ensures
        r.remaining() == packet(Seq::empty()),
{
    GdbReply::from_bytes(GdbNoData {  })
}

/// What an error reply says: a letter and two hexadecimal digits.
pub open spec fn error_data(errno: u8) -> Seq<u8> {
    seq![0x45u8, digit_char(errno / 16), digit_char(errno % 16)]
}

/// What a reply to a stop says: a letter and two hexadecimal digits.
pub open spec fn signal_data(signal: u8) -> Seq<u8> {
    seq![0x54u8, digit_char(signal / 16), digit_char(signal % 16)]
}

/// What a reply to a command that was carried out says.
pub open spec fn okay_data() -> Seq<u8> {
    seq![0x4fu8, 0x4bu8]
}

/// What is left of `all` behind the first `idx` bytes.
spec fn behind(all: Seq<u8>, idx: usize) -> Seq<u8> {
    if idx <= all.len() {
        all.skip(idx as int)
    } else {
        Seq::empty()
    }
}

fn count_up(idx: usize) -> (r: usize)
    ensures
        r == (if idx < usize::MAX {
            idx + 1
        } else {
            idx as int
        }),
{
    if idx < usize::MAX {
        idx + 1
    } else {
        idx
    }
}

/// The bytes of an error reply.
#[derive(Debug)]
pub struct GdbErrorData {
    errno: u8,
    idx: usize,
}

impl ByteSource for GdbErrorData {
    closed spec fn rest(&self) -> Seq<u8> {
        behind(error_data(self.errno), self.idx)
    }

    fn next(&mut self) -> (r: Option<u8>) {
        let ret: Option<u8> = match self.idx {
            0 => Some(0x45),
            1 => Some(hex_msn(self.errno)),
            2 => Some(hex_lsn(self.errno)),
            _ => None,
        };
        self.idx = count_up(self.idx);
        proof {
            if ret is Some {
                assert(self.rest() =~= old(self).rest().skip(1));
            } else {
                assert(self.rest() =~= old(self).rest());
            }
        }
        ret
    }
}

/// The reply that a command failed.
pub fn error(errno: u8) -> (r: GdbReply<GdbErrorData>)
    ensures
        r.remaining() == packet(error_data(errno)),
{
    let data = GdbErrorData { errno, idx: 0 };
    assert(data.rest() =~= error_data(errno));
    GdbReply::from_bytes(data)
}

/// The bytes of the reply to a command that was carried out.
#[derive(Debug)]
pub struct GdbOkData {
    idx: usize,
}

impl ByteSource for GdbOkData {
    closed spec fn rest(&self) -> Seq<u8> {
        behind(okay_data(), self.idx)
    }

    fn next(&mut self) -> (r: Option<u8>) {
        let ret: Option<u8> = match self.idx {
            0 => Some(0x4f),
            1 => Some(0x4b),
            _ => None,
        };
        self.idx = count_up(self.idx);
        proof {
            if ret is Some {
                assert(self.rest() =~= old(self).rest().skip(1));
            } else {
                assert(self.rest() =~= old(self).rest());
            }
        }
        ret
    }
}

/// The reply that a command was carried out.
pub fn okay() -> (r: GdbReply<GdbOkData>)
    ensures
        r.remaining() == packet(okay_data()),
{
    let data = GdbOkData { idx: 0 };
    assert(data.rest() =~= okay_data());
    GdbReply::from_bytes(data)
}

/// The bytes of the reply that names the signal of a stop.
#[derive(Debug)]
pub struct GdbLastSignal {
    idx: usize,
    signal: u8,
}

impl ByteSource for GdbLastSignal {
    closed spec fn rest(&self) -> Seq<u8> {
        behind(signal_data(self.signal), self.idx)
    }

    fn next(&mut self) -> (r: Option<u8>) {
        let ret: Option<u8> = match self.idx {
            0 => Some(0x54),
            1 => Some(hex_msn(self.signal)),
            2 => Some(hex_lsn(self.signal)),
            _ => None,
        };
        self.idx = count_up(self.idx);
        proof {
            if ret is Some {
                assert(self.rest() =~= old(self).rest().skip(1));
            } else {
                assert(self.rest() =~= old(self).rest());
            }
        }
        ret
    }
}

/// The reply that the target stopped with a signal.
pub fn signal(number: u8) -> (r: GdbReply<GdbLastSignal>)
    ensures
        r.remaining() == packet(signal_data(number)),
{
    let data = GdbLastSignal { idx: 0, signal: number };
    assert(data.rest() =~= signal_data(number));
    GdbReply::from_bytes(data)
}

/// The checksum is the sum of all bytes modulo 256: one byte more counts with its
/// value, and no bytes count nothing.
pub proof fn checksum_adds_every_byte(start: u8, data: Seq<u8>, b: u8)
    ensures
        checksum_from(start, Seq::<u8>::empty()) == start,
        checksum_from(start, data.push(b)) == (checksum_from(start, data) + b) % 256,
    decreases data.len(),
{
    let more = data.push(b);
    if data.len() == 0 {
        assert(more.skip(1) =~= Seq::<u8>::empty());
        assert(checksum_from(((start + b) % 256) as u8, more.skip(1)) == (start + b) % 256);
    } else {
        let next = ((start + data[0]) % 256) as u8;
        assert(more.skip(1) =~= data.skip(1).push(b));
        assert(more[0] == data[0]);
        checksum_adds_every_byte(next, data.skip(1), b);
    }
}

/// Digits below ten are written as the characters from zero on, the others as
/// capital letters from A on.
pub proof fn digits_are_hexadecimal(d: u8)
    ensures
        d < 10 ==> digit_char(d) == 48 + d,
        10 <= d < 16 ==> digit_char(d) == 55 + d,
{
}

/// A packet starts with a dollar sign, then come the data, a hash sign, and the
/// upper and the lower digit of the checksum.
pub proof fn packet_frames_its_data(data: Seq<u8>, i: int)
    ensures
        packet(data).len() == data.len() + 4,
        packet(data)[0] == 36,
        0 <= i < data.len() ==> packet(data)[i + 1] == data[i],
        packet(data)[data.len() as int + 1] == 35,
        packet(data)[data.len() as int + 2] == digit_char(checksum_from(0, data) / 16),
        packet(data)[data.len() as int + 3] == digit_char(checksum_from(0, data) % 16),
{
}

/// An error and a signal are a letter and the two digits of their number, and that
/// all went well is said by two letters.
pub proof fn replies_name_their_numbers(n: u8)
    ensures
        error_data(n) == seq![69u8, digit_char(n / 16), digit_char(n % 16)],
        signal_data(n) == seq![84u8, digit_char(n / 16), digit_char(n % 16)],
        okay_data() == seq![79u8, 75u8],
{
}

} // verus!
