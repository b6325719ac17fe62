//! A stub that serves a remote debugger.
use crate::bytes;
use crate::gdbreply;
use crate::gdbreply::{ByteSource, GdbData, GdbReply};
use vstd::prelude::*;

verus! {

/// A packet that was received.
#[derive(Debug)]
pub struct GdbMessage {
    pub packet_data: Vec<u8>,
}

/// Whether there is enough of a command to handle it: the command letter, and
/// behind an `H` the letter of the operation.
pub open spec fn complete(message: Seq<u8>) -> bool {
    message.len() > 0 && (message[0] == 0x48 ==> message.len() > 1)
}

impl GdbMessage {
    /// Whether there is enough of the command to handle it.
    pub fn is_complete(&self) -> (r: bool)
        ensures
            r == complete(self.packet_data@),
    {
        self.packet_data.len() > 0 && (self.packet_data[0] != 0x48 || self.packet_data.len() > 1)
    }
}

/// Why a packet is refused.
#[derive(Clone, Copy, Debug, PartialEq, Eq, Structural)]
pub enum ReceiveError {
    /// The checksum that was sent, and that of the data.
    ChecksumMismatch(u8, u8),
    InvalidDigit,
}

pub type ReceiveResult<T> = Result<T, ReceiveError>;

/// What became of a packet.
pub enum Received {
    Message(Seq<u8>),
    Refused(ReceiveError),
}

/// The view of what a reader returned.
pub open spec fn received(r: Option<ReceiveResult<GdbMessage>>) -> Option<Received> {
    match r {
        None => None,
        Some(Ok(m)) => Some(Received::Message(m.packet_data@)),
        Some(Err(e)) => Some(Received::Refused(e)),
    }
}

/// What a reader waits for.
#[derive(Clone, Copy, Debug, PartialEq, Eq, Structural)]
pub enum MessageState {
    Idle,
    ReceivePacket,
    ReceiveChecksum,
}

/// Model of a reader.
#[verifier::ext_equal]
pub struct ReaderModel {
    pub state: MessageState,
    pub sum: u8,
    pub data: Seq<u8>,
    pub msn: Option<u8>,
}

/// The value of a hexadecimal digit, in upper or lower case.
pub open spec fn digit_value(c: u8) -> Option<u8> {
    if 0x30 <= c <= 0x39 {
        Some((c - 0x30) as u8)
    } else if 0x61 <= c <= 0x66 {
        Some((c - 0x61 + 10) as u8)
    } else if 0x41 <= c <= 0x46 {
        Some((c - 0x41 + 10) as u8)
    } else {
        None
    }
}

/// The value of a digit of a checksum, where anything else counts as zero.
pub open spec fn digit_or_zero(c: u8) -> u8 {
    match digit_value(c) {
        Some(v) => v,
        None => 0,
    }
}

/// The checksum that two characters stand for.
pub open spec fn sent_checksum(msn: u8, lsn: u8) -> u8 {
    (16 * digit_or_zero(msn) + digit_or_zero(lsn)) as u8
}

impl ReaderModel {
    /// A reader that waits for a packet.
    pub open spec fn start() -> ReaderModel {
        ReaderModel { state: MessageState::Idle, sum: 0, data: Seq::empty(), msn: None }
    }

    /// The reader after one more byte, and what became of the packet, if this
    /// was its last byte.
    pub open spec fn step(self, byte: u8) -> (ReaderModel, Option<Received>) {
        match self.state {
            MessageState::Idle => if byte == 0x24 {
                (
                    ReaderModel {
                        state: MessageState::ReceivePacket,
                        sum: 0,
                        data: Seq::empty(),
                        msn: None,
                    },
                    None,
                )
            } else {
                (self, None)
            },
            MessageState::ReceivePacket => if byte == 0x23 {
                (ReaderModel { state: MessageState::ReceiveChecksum, ..self }, None)
            } else {
                (
                    ReaderModel {
                        sum: ((self.sum + byte) % 256) as u8,
                        data: self.data.push(byte),
                        ..self
                    },
                    None,
                )
            },
            MessageState::ReceiveChecksum => match self.msn {
                None => (ReaderModel { msn: Some(byte), ..self }, None),
                Some(msn) => if sent_checksum(msn, byte) == self.sum {
                    (
                        ReaderModel { state: MessageState::Idle, data: Seq::empty(), ..self },
                        Some(Received::Message(self.data)),
                    )
                } else {
                    (
                        ReaderModel { state: MessageState::Idle, ..self },
                        Some(
                            Received::Refused(
                                ReceiveError::ChecksumMismatch(sent_checksum(msn, byte), self.sum),
                            ),
                        ),
                    )
                },
            },
        }
    }

    /// What becomes of the packets in a stream of bytes.
    pub open spec fn scan(self, stream: Seq<u8>) -> Seq<Received>
        decreases stream.len(),
    {
        if stream.len() == 0 {
            Seq::empty()
        } else {
            let (next, out) = self.step(stream[0]);
            match out {
                None => next.scan(stream.skip(1)),
                Some(x) => seq![x] + next.scan(stream.skip(1)),
            }
        }
    }
}

/// Puts packets together from the bytes of the client.
#[derive(Debug)]
pub struct GdbMessageReader {
    pub state: MessageState,
    pub checksum_calculated: u8,
    pub data: Vec<u8>,
    pub msn: Option<u8>,
}

impl View for GdbMessageReader {
    type V = ReaderModel;

    open spec fn view(&self) -> ReaderModel {
        ReaderModel {
            state: self.state,
            sum: self.checksum_calculated,
            data: self.data@,
            msn: self.msn,
        }
    }
}

impl GdbMessageReader {
    pub fn new() -> (r: Self)
        ensures
            r@ == ReaderModel::start(),
    {
        let r = GdbMessageReader {
            state: MessageState::Idle,
            checksum_calculated: 0,
            data: Vec::new(),
            msn: None,
        };
        assert(r@ =~= ReaderModel::start());
        r
    }

    /// Handles the next byte of the client. Returns nothing if the packet is not
    /// complete yet, else the packet, or why it is refused.
    pub fn next_byte(&mut self, byte: u8) -> (r: Option<ReceiveResult<GdbMessage>>)
        ensures
            final(self)@ == old(self)@.step(byte).0,
            received(r) == old(self)@.step(byte).1,
    {
        match self.state {
            MessageState::Idle => {
                if byte == 0x24 {
                    self.msn = None;
                    self.checksum_calculated = 0;
                    self.state = MessageState::ReceivePacket;
                    self.data.clear();
                }
                None
            },
            MessageState::ReceivePacket => {
                if byte == 0x23 {
                    self.state = MessageState::ReceiveChecksum;
                } else {
                    self.checksum_calculated = self.checksum_calculated.wrapping_add(byte);
                    self.data.push(byte);
                    self.state = MessageState::ReceivePacket;
                }
                None
            },
            MessageState::ReceiveChecksum => match self.msn {
                None => {
                    self.msn = Some(byte);
                    None
                },
                Some(msn) => {
                    self.state = MessageState::Idle;
                    let checksum_transmitted: u8 = checksum_of(msn, byte);
                    if checksum_transmitted == self.checksum_calculated {
                        let mut data: Vec<u8> = Vec::new();
                        std::mem::swap(&mut data, &mut self.data);
                        Some(Ok(GdbMessage { packet_data: data }))
                    } else {
                        Some(
                            Err(
                                ReceiveError::ChecksumMismatch(
                                    checksum_transmitted,
                                    self.checksum_calculated,
                                ),
                            ),
                        )
                    }
                },
            },
        }
    }

    /// Whether the next byte does not complete a packet that is too short to
    /// be handled.
    pub fn accepts(&self, byte: u8) -> (r: bool)
        ensures
            r == (self@.step(byte).1 matches Some(Received::Message(m)) ==> complete(m)),
    {
        match self.state {
            MessageState::ReceiveChecksum => match self.msn {
                Some(msn) => if checksum_of(msn, byte) == self.checksum_calculated {
                    self.data.len() > 0 && (self.data[0] != 0x48 || self.data.len() > 1)
                } else {
                    true
                },
                None => true,
            },
            _ => true,
        }
    }
}

fn checksum_of(msn: u8, lsn: u8) -> (r: u8)
    ensures
        r == sent_checksum(msn, lsn),
{
    let high: u8 = match from_ascii(msn) {
        Ok(v) => v,
        Err(_) => 0,
    };
    let low: u8 = match from_ascii(lsn) {
        Ok(v) => v,
        Err(_) => 0,
    };
    assert((high << 4) | low == 16 * high + low) by (bit_vector)
        requires
            high < 16,
            low < 16,
    ;
    (high << 4) | low
}

/// The value of an ASCII digit.
pub fn from_ascii(digit: u8) -> (r: ReceiveResult<u8>)
    ensures
        match digit_value(digit) {
            Some(v) => r == Ok::<u8, ReceiveError>(v) && v < 16,
            None => r == Err::<u8, ReceiveError>(ReceiveError::InvalidDigit),
        },
{
    if digit >= 0x30 && digit <= 0x39 {
        Ok(digit - 0x30)
    } else if digit >= 0x61 && digit <= 0x66 {
        Ok(0xa + (digit - 0x61))
    } else if digit >= 0x41 && digit <= 0x46 {
        Ok(0xa + (digit - 0x41))
    } else {
        Err(ReceiveError::InvalidDigit)
    }
}

/// Reads from a source until a packet is complete or refused, or the source
/// ends.
pub fn next_message<T: ByteSource>(source: &mut T, reader: &mut GdbMessageReader) -> (r: Option<
    ReceiveResult<GdbMessage>,
>)
    ensures
        match received(r) {
            Some(x) => {
                &&& old(reader)@.scan(old(source).rest()) == seq![x] + final(reader)@.scan(
                    final(source).rest(),
                )
                &&& final(source).rest().len() < old(source).rest().len()
            },
            None => {
                &&& old(reader)@.scan(old(source).rest()) == Seq::<Received>::empty()
                &&& final(source).rest().len() == 0
            },
        },
{
    let ghost all = reader@.scan(source.rest());
    let ghost len = source.rest().len();
    loop
        invariant
            reader@.scan(source.rest()) == all,
            source.rest().len() <= len,
            all == old(reader)@.scan(old(source).rest()),
            len == old(source).rest().len(),
        decreases source.rest().len(),
    {
        match source.next() {
            None => {
                return None;
            },
            Some(byte) => {
                let r = reader.next_byte(byte);
                if r.is_some() {
                    return r;
                }
            },
        }
    }
}

/// Finds the packets in the bytes of a source.
#[derive(Debug)]
pub struct GdbMessageScanner<T: ByteSource> {
    pub source: T,
    pub reader: GdbMessageReader,
}

impl<T: ByteSource> GdbMessageScanner<T> {
    /// What becomes of the packets that are still to come.
    pub open spec fn pending(&self) -> Seq<Received> {
        self.reader@.scan(self.source.rest())
    }

    pub fn new(source: T) -> (r: Self)
        ensures
            r.pending() == ReaderModel::start().scan(source.rest()),
    {
        GdbMessageScanner { source, reader: GdbMessageReader::new() }
    }

    /// The next packet, or why it is refused.
    pub fn next(&mut self) -> (r: Option<ReceiveResult<GdbMessage>>)
        ensures
            match received(r) {
                Some(x) => old(self).pending() == seq![x] + final(self).pending(),
                None => old(self).pending() == Seq::<Received>::empty(),
            },
    {
        next_message(&mut self.source, &mut self.reader)
    }
}

/// The signal that a target stopped with.
#[derive(Clone, Copy, Debug, PartialEq, Eq, Structural)]
pub enum GdbSignal {
    SIGTRAP,
    Number(u8),
}

impl GdbSignal {
    pub open spec fn code(self) -> u8 {
        match self {
            GdbSignal::SIGTRAP => 5,
            GdbSignal::Number(n) => n,
        }
    }

    /// The number of the signal.
    pub fn number(&self) -> (r: u8)
        ensures
            r == self.code(),
    {
        match self {
            GdbSignal::SIGTRAP => 5,
            GdbSignal::Number(n) => *n,
        }
    }
}

/// Errors of a backend.
#[derive(Debug)]
pub enum BackendError<E> {
    /// The code is sent to the client.
    Response(u8),
    /// The stub ends.
    Fatal(E),
}

pub type BackendResult<T, E> = Result<T, BackendError<E>>;

/// Why a stub ends.
#[derive(Debug)]
pub enum Error<E, W> {
    WritingOutput(W),
    Backend(E),
}

/// What a stub debugs. A backend can say of its operations what they can come to;
/// otherwise that is open.
pub trait GdbBackend: Sized {
    type Register;

    type Error;

    /// Reading the registers of this backend can come to this.
    open spec fn registers_read(
        &self,
        r: BackendResult<Vec<Self::Register>, Self::Error>,
    ) -> bool {
        true
    }

    /// Writing the registers can come to this.
    open spec fn registers_written(
        before: Self,
        r: BackendResult<(), Self::Error>,
        after: Self,
    ) -> bool {
        true
    }

    /// Letting the target continue can come to this.
    open spec fn continued(before: Self, r: BackendResult<GdbSignal, Self::Error>, after: Self) -> bool {
        true
    }

    /// Letting the target do one step can come to this.
    open spec fn stepped(before: Self, r: BackendResult<GdbSignal, Self::Error>, after: Self) -> bool {
        true
    }

    /// These can be the bytes of a register.
    open spec fn register_bytes(r: Self::Register, b: Seq<u8>) -> bool {
        true
    }

    fn read_general_registers(&self) -> (r: BackendResult<Vec<Self::Register>, Self::Error>)
        ensures
            self.registers_read(r),
    ;

    fn write_general_registers(&mut self) -> (r: BackendResult<(), Self::Error>)
        ensures
            Self::registers_written(*old(self), r, *final(self)),
    ;

    fn cont(&mut self) -> (r: BackendResult<GdbSignal, Self::Error>)
        ensures
            Self::continued(*old(self), r, *final(self)),
    ;

    fn step(&mut self) -> (r: BackendResult<GdbSignal, Self::Error>)
        ensures
            Self::stepped(*old(self), r, *final(self)),
    ;

    fn last_signal(&self) -> (r: BackendResult<GdbSignal, Self::Error>);

    fn read_memory(&self, address: usize, buf: &mut [u8]) -> (r: BackendResult<(), Self::Error>);

    fn write_memory(&mut self, address: usize, buf: &[u8]) -> (r: BackendResult<(), Self::Error>);

    fn set_breakpoint(&mut self, address: usize) -> (r: BackendResult<(), Self::Error>);

    fn clear_breakpoint(&mut self, address: usize) -> (r: BackendResult<(), Self::Error>);

    fn detach(&mut self) -> (r: BackendResult<(), Self::Error>);

    fn set_running(running: bool);

    /// The bytes of a register, in the order of the machine.
    fn reg_to_ne_bytes(r: Self::Register) -> (b: Vec<u8>)
        ensures
            Self::register_bytes(r, b@),
    ;
}

/// Where a stub sends its replies to. A sink can say what writing can come to;
/// otherwise that is open.
pub trait ByteSink: Sized {
    type Error;

    /// Writing these bytes can come to this.
    open spec fn wrote(before: Self, data: Seq<u8>, after: Self, r: Result<(), Self::Error>) -> bool {
        true
    }

    /// Flushing can come to this.
    open spec fn flushed(before: Self, after: Self) -> bool {
        true
    }

    fn write_all(&mut self, data: &[u8]) -> (r: Result<(), Self::Error>)
        ensures
            Self::wrote(*old(self), data@, *final(self), r),
    ;

    fn flush(&mut self)
        ensures
            Self::flushed(*old(self), *final(self)),
    ;
}

/// A vector keeps all that is written to it.
impl ByteSink for Vec<u8> {
    type Error = ();

    open spec fn wrote(before: Self, data: Seq<u8>, after: Self, r: Result<(), ()>) -> bool {
        r is Ok && after@ == before@ + data
    }

    open spec fn flushed(before: Self, after: Self) -> bool {
        after == before
    }

    fn write_all(&mut self, data: &[u8]) -> (r: Result<(), ()>) {
        bytes::append_bytes(self, data);
        Ok(())
    }

    fn flush(&mut self) {
    }
}

/// The view of a reply.
pub open spec fn reply_view<E>(r: Result<Vec<u8>, E>) -> Result<Seq<u8>, E> {
    match r {
        Ok(v) => Ok(v@),
        Err(e) => Err(e),
    }
}

/// The answer to a command that lets the target run: the signal that it
/// stopped with, or the error of the backend.
pub open spec fn signal_answer<E>(o: BackendResult<GdbSignal, E>) -> Result<Seq<u8>, E> {
    match o {
        Ok(s) => Ok(gdbreply::packet(gdbreply::signal_data(s.code()))),
        Err(BackendError::Response(e)) => Ok(gdbreply::packet(gdbreply::error_data(e))),
        Err(BackendError::Fatal(e)) => Err(e),
    }
}

/// The answer to a command without a result.
pub open spec fn okay_answer<E>(o: BackendResult<(), E>) -> Result<Seq<u8>, E> {
    match o {
        Ok(_) => Ok(gdbreply::packet(gdbreply::okay_data())),
        Err(BackendError::Response(e)) => Ok(gdbreply::packet(gdbreply::error_data(e))),
        Err(BackendError::Fatal(e)) => Err(e),
    }
}

/// Two hexadecimal digits for each byte.
pub open spec fn hex_text(data: Seq<u8>) -> Seq<u8>
    decreases data.len(),
{
    if data.len() == 0 {
        Seq::empty()
    } else {
        hex_text(data.drop_last()) + seq![
            gdbreply::digit_char(data.last() / 16),
            gdbreply::digit_char(data.last() % 16),
        ]
    }
}

/// The bytes of registers can be these: those of one register behind those of
/// the other.
pub open spec fn all_register_bytes<G: GdbBackend>(regs: Seq<G::Register>, data: Seq<u8>) -> bool
    decreases regs.len(),
{
    if regs.len() == 0 {
        data.len() == 0
    } else {
        exists|n: int|
            #![trigger data.take(n)]
            0 <= n <= data.len() && all_register_bytes::<G>(regs.drop_last(), data.take(n))
                && G::register_bytes(regs.last(), data.skip(n))
    }
}

/// The answer to a command that reads the registers, where `data` is what the
/// bytes of the registers are.
pub open spec fn registers_answer<R, E>(o: BackendResult<Vec<R>, E>, data: Seq<u8>) -> Result<
    Seq<u8>,
    E,
> {
    match o {
        Ok(_) => Ok(gdbreply::packet(hex_text(data))),
        Err(BackendError::Response(e)) => Ok(gdbreply::packet(gdbreply::error_data(e))),
        Err(BackendError::Fatal(e)) => Err(e),
    }
}

/// The reply to a command that lets the target run.
pub fn signal_reply<E>(o: BackendResult<GdbSignal, E>) -> (r: Result<Vec<u8>, E>)
    ensures
        reply_view(r) == signal_answer(o),
{
    match o {
        Err(BackendError::Response(e)) => Ok(gdbreply::error(e).collect()),
        Err(BackendError::Fatal(e)) => Err(e),
        Ok(s) => Ok(gdbreply::signal(s.number()).collect()),
    }
}

/// The reply to a command without a result.
pub fn okay_reply<E>(o: BackendResult<(), E>) -> (r: Result<Vec<u8>, E>)
    ensures
        reply_view(r) == okay_answer(o),
{
    match o {
        Err(BackendError::Response(e)) => Ok(gdbreply::error(e).collect()),
        Err(BackendError::Fatal(e)) => Err(e),
        Ok(_) => Ok(gdbreply::okay().collect()),
    }
}

/// The reply that holds bytes of registers.
pub fn register_text(data: &[u8]) -> (r: Vec<u8>)
    ensures
        r@ == gdbreply::packet(hex_text(data@)),
{
    let mut text: Vec<u8> = Vec::new();
    let mut i: usize = 0;
    while i < data.len()
        invariant
            i <= data@.len(),
            text@ == hex_text(data@.take(i as int)),
        decreases data.len() - i,
    {
        proof {
            assert(data@.take(i + 1).drop_last() =~= data@.take(i as int));
            assert(data@.take(i + 1).last() == data@[i as int]);
        }
        let ghost before = text@;
        text.push(gdbreply::hex_msn(data[i]));
        text.push(gdbreply::hex_lsn(data[i]));
        assert(text@ =~= before + seq![
            gdbreply::digit_char(data@[i as int] / 16),
            gdbreply::digit_char(data@[i as int] % 16),
        ]);
        i = i + 1;
    }
    assert(data@.take(i as int) =~= data@);
    GdbReply::from_bytes(GdbData::new(text)).collect()
}

fn register_reply<G: GdbBackend>(o: BackendResult<Vec<G::Register>, G::Error>) -> (r: Result<
    Vec<u8>,
    G::Error,
>)
    ensures
        exists|data: Seq<u8>|
            (o matches Ok(regs) ==> all_register_bytes::<G>(regs@, data)) && reply_view(r)
                == #[trigger] registers_answer(o, data),
{
    match o {
        Err(BackendError::Response(e)) => {
            let r: Result<Vec<u8>, G::Error> = Ok(gdbreply::error(e).collect());
            assert(reply_view(r) == registers_answer(o, Seq::empty()));
            r
        },
        Err(BackendError::Fatal(e)) => {
            let r: Result<Vec<u8>, G::Error> = Err(e);
            assert(reply_view(r) == registers_answer(o, Seq::empty()));
            r
        },
        Ok(regs) => {
            let data = registers_to_bytes::<G>(regs);
            let r: Result<Vec<u8>, G::Error> = Ok(register_text(data.as_slice()));
            assert(reply_view(r) == registers_answer(o, data@));
            r
        },
    }
}

/// The bytes of registers.
fn registers_to_bytes<G: GdbBackend>(regs: Vec<G::Register>) -> (data: Vec<u8>)
    ensures
        all_register_bytes::<G>(regs@, data@),
    decreases regs@.len(),
{
    let mut regs = regs;
    let ghost all = regs@;
    match regs.pop() {
        None => Vec::new(),
        Some(last) => {
            let mut data = registers_to_bytes::<G>(regs);
            let ghost n = data@.len();
            let ghost first = data@;
            let tail = G::reg_to_ne_bytes(last);
            bytes::append_bytes(&mut data, tail.as_slice());
            proof {
                assert(data@.take(n as int) =~= first);
                assert(data@.skip(n as int) =~= tail@);
                assert(all.drop_last() =~= regs@);
            }
            data
        },
    }
}

/// The number that hexadecimal digits stand for.
pub open spec fn hex_value(digits: Seq<u8>) -> nat
    decreases digits.len(),
{
    if digits.len() == 0 {
        0
    } else {
        16 * hex_value(digits.drop_last()) + digit_or_zero(digits.last()) as nat
    }
}

/// Whether all characters are hexadecimal digits.
pub open spec fn all_digits(s: Seq<u8>) -> bool {
    forall|i: int| 0 <= i < s.len() ==> digit_value(#[trigger] s[i]) is Some
}

/// The first sixteen digits, which is what a 64-bit number has room for.
pub open spec fn leading_digits(s: Seq<u8>) -> Seq<u8> {
    if s.len() <= 16 {
        s
    } else {
        s.take(16)
    }
}

proof fn hex_value_bound(s: Seq<u8>)
    requires
        s.len() < 16,
    ensures
        hex_value(s) < 0x1000_0000_0000_0000,
{
    hex_value_power(s);
    sixteen_digits_fit(s.len());
}

spec fn pow16(n: nat) -> nat
    decreases n,
{
    if n == 0 {
        1
    } else {
        16 * pow16((n - 1) as nat)
    }
}

proof fn hex_value_power(s: Seq<u8>)
    ensures
        hex_value(s) < pow16(s.len()),
    decreases s.len(),
{
    if s.len() > 0 {
        hex_value_power(s.drop_last());
    }
}

proof fn sixteen_digits_fit(n: nat)
    requires
        n < 16,
    ensures
        pow16(n) <= 0x1000_0000_0000_0000,
{
    reveal_with_fuel(pow16, 17);
}

/// The number that hexadecimal digits stand for. At most sixteen digits count,
/// but all must be digits.
pub fn hex_to_u64(digits: &[u8]) -> (r: ReceiveResult<u64>)
    ensures
        r is Ok <==> all_digits(digits@),
        r matches Ok(v) ==> v == hex_value(leading_digits(digits@)),
        r matches Err(e) ==> e == ReceiveError::InvalidDigit,
{
    let mut value: u64 = 0;
    let mut i: usize = 0;
    while i < digits.len()
        invariant
            i <= digits@.len(),
            all_digits(digits@.take(i as int)),
            value == hex_value(leading_digits(digits@.take(i as int))),
        decreases digits.len() - i,
    {
        let n: u8 = match from_ascii(digits[i]) {
            Ok(n) => n,
            Err(e) => {
                assert(digit_value(digits@[i as int]) is None);
                return Err(e);
            },
        };
        let ghost before = digits@.take(i as int);
        let ghost after = digits@.take(i + 1);
        proof {
            assert(after.drop_last() =~= before);
            assert(after.last() == digits@[i as int]);
            assert forall|j: int| 0 <= j < after.len() implies digit_value(
                #[trigger] after[j],
            ) is Some by {
                if j < i {
                    assert(after[j] == before[j]);
                }
            }
        }
        if i < 16 {
            proof {
                hex_value_bound(before);
            }
            assert((value << 4) | (n as u64 & 0x0f) == 16 * value + n) by (bit_vector)
                requires
                    value < 0x1000_0000_0000_0000,
                    n < 16,
            ;
            value = (value << 4) | (n as u64 & 0x0f);
        } else {
            assert(leading_digits(after) =~= leading_digits(before));
        }
        i = i + 1;
    }
    assert(digits@.take(i as int) =~= digits@);
    Ok(value)
}

/// What stands in front of the first comma.
pub open spec fn up_to_comma(s: Seq<u8>) -> Seq<u8>
    decreases s.len(),
{
    if s.len() == 0 || s[0] == 0x2c {
        Seq::empty()
    } else {
        seq![s[0]] + up_to_comma(s.skip(1))
    }
}

/// The answer to a command that reads memory, which has an address up to a
/// comma: an error, if that is no number.
pub open spec fn memory_answer(message: Seq<u8>) -> Seq<u8> {
    if all_digits(up_to_comma(message.skip(1))) {
        gdbreply::packet(gdbreply::okay_data())
    } else {
        gdbreply::packet(gdbreply::error_data(1))
    }
}

/// The reply to a command that reads memory.
pub fn handle_read_memory(message: &GdbMessage) -> (r: Vec<u8>)
    requires
        message.packet_data@.len() > 0,
    ensures
        r@ == memory_answer(message.packet_data@),
{
    let ghost all = message.packet_data@.skip(1);
    let mut address: Vec<u8> = Vec::new();
    let mut i: usize = 1;
    while i < message.packet_data.len() && message.packet_data[i] != 0x2c
        invariant
            1 <= i <= message.packet_data@.len(),
            all == message.packet_data@.skip(1),
            address@ + up_to_comma(message.packet_data@.skip(i as int)) == up_to_comma(all),
        decreases message.packet_data.len() - i,
    {
        let ghost rest = message.packet_data@.skip(i as int);
        let ghost before = address@;
        address.push(message.packet_data[i]);
        i = i + 1;
        proof {
            assert(rest.skip(1) =~= message.packet_data@.skip(i as int));
            assert(address@ + up_to_comma(rest.skip(1)) =~= before + up_to_comma(rest));
        }
    }
    assert(address@ =~= up_to_comma(all));
    match hex_to_u64(address.as_slice()) {
        Ok(_) => gdbreply::okay().collect(),
        Err(_) => gdbreply::error(1).collect(),
    }
}

/// The answer that names why the target is stopped.
pub open spec fn stop_answer() -> Seq<u8> {
    gdbreply::packet(seq![0x53u8, 0x30u8, 0x35u8])
}

/// The reply that names why the target is stopped.
pub fn handle_reason_stopped() -> (r: Vec<u8>)
    ensures
        r@ == stop_answer(),
{
    let mut data: Vec<u8> = Vec::new();
    data.push(0x53);
    data.push(0x30);
    data.push(0x35);
    assert(data@ =~= seq![0x53u8, 0x30u8, 0x35u8]);
    GdbReply::from_bytes(GdbData::new(data)).collect()
}

/// The answer to a command that selects a thread.
pub open spec fn thread_answer(message: Seq<u8>) -> Seq<u8> {
    if message[1] == 0x67 {
        gdbreply::packet(gdbreply::okay_data())
    } else {
        gdbreply::packet(Seq::empty())
    }
}

/// The reply to a command that selects a thread.
#[allow(non_snake_case)]
pub fn handle_commandH(message: &GdbMessage) -> (r: Vec<u8>)
    requires
        message.packet_data@.len() > 1,
    ensures
        r@ == thread_answer(message.packet_data@),
{
    if message.packet_data[1] == 0x67 {
        gdbreply::okay().collect()
    } else {
        gdbreply::empty().collect()
    }
}

/// A backend can come to this answer to a message.
pub open spec fn answered<G: GdbBackend>(
    before: G,
    message: Seq<u8>,
    after: G,
    r: Result<Seq<u8>, G::Error>,
) -> bool {
    let command = message[0];
    if command == 0x3f {
        after == before && r == Ok::<Seq<u8>, G::Error>(stop_answer())
    } else if command == 0x63 {
        exists|o: BackendResult<GdbSignal, G::Error>| #[trigger]
            G::continued(before, o, after) && r == signal_answer(o)
    } else if command == 0x67 {
        after == before && exists|o: BackendResult<Vec<G::Register>, G::Error>, data: Seq<u8>|
            before.registers_read(o) && (o matches Ok(regs) ==> all_register_bytes::<G>(
                regs@,
                data,
            )) && r == #[trigger] registers_answer(o, data)
    } else if command == 0x47 {
        exists|o: BackendResult<(), G::Error>| #[trigger]
            G::registers_written(before, o, after) && r == okay_answer(o)
    } else if command == 0x48 {
        after == before && r == Ok::<Seq<u8>, G::Error>(thread_answer(message))
    } else if command == 0x6d {
        after == before && r == Ok::<Seq<u8>, G::Error>(memory_answer(message))
    } else if command == 0x73 {
        exists|o: BackendResult<GdbSignal, G::Error>| #[trigger]
            G::stepped(before, o, after) && r == signal_answer(o)
    } else {
        after == before && r == Ok::<Seq<u8>, G::Error>(gdbreply::packet(Seq::empty()))
    }
}

/// Handles a message: asks the backend, where the command needs it, and returns
/// the reply. A command that is not supported has an empty reply.
pub fn handle_message<G: GdbBackend>(backend: &mut G, message: &GdbMessage) -> (r: Result<
    Vec<u8>,
    G::Error,
>)
    requires
        complete(message.packet_data@),
    ensures
        answered(*old(backend), message.packet_data@, *final(backend), reply_view(r)),
{
    let command: u8 = message.packet_data[0];
    match command {
        0x3f => Ok(handle_reason_stopped()),
        0x63 => {
            let o = backend.cont();
            signal_reply(o)
        },
        0x67 => {
            let o = backend.read_general_registers();
            register_reply::<G>(o)
        },
        0x47 => {
            let o = backend.write_general_registers();
            okay_reply(o)
        },
        0x48 => Ok(handle_commandH(message)),
        0x6d => Ok(handle_read_memory(message)),
        0x73 => {
            let o = backend.step();
            signal_reply(o)
        },
        _ => Ok(gdbreply::empty().collect()),
    }
}

/// The outcome of a write, as the outcome of the stub.
pub open spec fn write_outcome<E, W>(o: Result<(), W>) -> Result<(), Error<E, W>> {
    match o {
        Ok(_) => Ok(()),
        Err(e) => Err(Error::WritingOutput(e)),
    }
}

/// Writing can come to this.
pub open spec fn written<E, S: ByteSink>(
    sink: S,
    text: Seq<u8>,
    sink_after: S,
    r: Result<(), Error<E, S::Error>>,
) -> bool {
    exists|o: Result<(), S::Error>| #[trigger]
        S::wrote(sink, text, sink_after, o) && r == write_outcome::<E, S::Error>(o)
}

/// Serving a packet that was read can come to this: a plus sign and the reply.
pub open spec fn acknowledged<G: GdbBackend, S: ByteSink>(
    before: G,
    sink: S,
    data: Seq<u8>,
    after: G,
    sink_after: S,
    r: Result<(), Error<G::Error, S::Error>>,
) -> bool {
    exists|acked: S, o: Result<(), Error<G::Error, S::Error>>| #[trigger]
        written(sink, seq![0x2bu8], acked, o) && match o {
            Err(_) => after == before && sink_after == acked && r == o,
            Ok(_) => exists|reply: Result<Seq<u8>, G::Error>| #[trigger]
                answered(before, data, after, reply) && match reply {
                    Err(e) => sink_after == acked && r == Err::<(), Error<G::Error, S::Error>>(
                        Error::Backend(e),
                    ),
                    Ok(text) => written(acked, text, sink_after, r),
                },
        }
}

/// Serving one packet can come to this: a minus sign for one that is refused,
/// else a plus sign and the reply. The stub ends where the backend or a write
/// fails.
pub open spec fn served<G: GdbBackend, S: ByteSink>(
    before: G,
    sink: S,
    message: Received,
    after: G,
    sink_after: S,
    r: Result<(), Error<G::Error, S::Error>>,
) -> bool {
    match message {
        Received::Refused(_) => after == before && written(sink, seq![0x2du8], sink_after, r),
        Received::Message(data) => acknowledged(before, sink, data, after, sink_after, r),
    }
}

/// Serving packets one behind the other can come to this.
pub open spec fn session<G: GdbBackend, S: ByteSink>(
    before: G,
    sink: S,
    messages: Seq<Received>,
    after: G,
    sink_after: S,
    r: Result<(), Error<G::Error, S::Error>>,
) -> bool
    decreases messages.len(),
{
    if messages.len() == 0 {
        after == before && sink_after == sink && r is Ok
    } else {
        exists|b: G, s: S, o: Result<(), Error<G::Error, S::Error>>| #[trigger]
            served(before, sink, messages[0], b, s, o) && match o {
                Err(_) => after == b && sink_after == s && r == o,
                Ok(_) => session(b, s, messages.skip(1), after, sink_after, r),
            }
    }
}

/// Whether all packets have enough of a command to handle them.
pub open spec fn all_complete(messages: Seq<Received>) -> bool {
    forall|i: int|
        0 <= i < messages.len() ==> (#[trigger] messages[i] matches Received::Message(m)
            ==> complete(m))
}

fn write_out<E, S: ByteSink>(sink: &mut S, text: &[u8]) -> (r: Result<(), Error<E, S::Error>>)
    ensures
        written(*old(sink), text@, *final(sink), r),
{
    let o = sink.write_all(text);
    assert(S::wrote(*old(sink), text@, *sink, o));
    match o {
        Ok(_) => Ok(()),
        Err(e) => Err(Error::WritingOutput(e)),
    }
}

fn refuse<G: GdbBackend, S: ByteSink>(error: ReceiveError, sink: &mut S, backend: &G) -> (r: Result<
    (),
    Error<G::Error, S::Error>,
>)
    ensures
        served(*backend, *old(sink), Received::Refused(error), *backend, *final(sink), r),
{
    let sign: [u8; 1] = [0x2d];
    assert(sign@ =~= seq![0x2du8]);
    write_out(sink, &sign)
}

fn serve<G: GdbBackend, S: ByteSink>(message: &GdbMessage, sink: &mut S, backend: &mut G) -> (r:
    Result<(), Error<G::Error, S::Error>>)
    requires
        complete(message.packet_data@),
    ensures
        acknowledged(
            *old(backend),
            *old(sink),
            message.packet_data@,
            *final(backend),
            *final(sink),
            r,
        ),
{
    let sign: [u8; 1] = [0x2b];
    assert(sign@ =~= seq![0x2bu8]);
    let o: Result<(), Error<G::Error, S::Error>> = write_out(sink, &sign);
    let ghost acked = *sink;
    assert(written(*old(sink), seq![0x2bu8], acked, o));
    match o {
        Ok(_) => {},
        Err(e) => {
            return Err(e);
        },
    }
    let reply = handle_message(backend, message);
    let ghost said = reply_view(reply);
    assert(answered(*old(backend), message.packet_data@, *backend, said));
    match reply {
        Err(e) => Err(Error::Backend(e)),
        Ok(text) => write_out(sink, text.as_slice()),
    }
}

/// Serves the packets of a source until it ends.
pub fn run_gdb_stub<S: ByteSink, T: ByteSource, G: GdbBackend>(
    source: &mut T,
    sink: &mut S,
    backend: &mut G,
) -> (r: Result<(), Error<G::Error, S::Error>>)
    requires
        all_complete(ReaderModel::start().scan(old(source).rest())),
    ensures
        session(
            *old(backend),
            *old(sink),
            ReaderModel::start().scan(old(source).rest()),
            *final(backend),
            *final(sink),
            r,
        ),
{
    let mut reader = GdbMessageReader::new();
    let ghost all = reader@.scan(source.rest());
    loop
        invariant
            all_complete(reader@.scan(source.rest())),
            all == ReaderModel::start().scan(old(source).rest()),
            forall|b: G, s: S, o: Result<(), Error<G::Error, S::Error>>|
                session(*backend, *sink, reader@.scan(source.rest()), b, s, o)
                    ==> #[trigger] session(*old(backend), *old(sink), all, b, s, o),
        decreases source.rest().len(),
    {
        let ghost left = reader@.scan(source.rest());
        let ghost backend_before = *backend;
        let ghost sink_before = *sink;
        let message = match next_message(source, &mut reader) {
            None => {
                assert(session(
                    *old(backend),
                    *old(sink),
                    all,
                    *backend,
                    *sink,
                    Ok::<(), Error<G::Error, S::Error>>(()),
                ));
                return Ok(());
            },
            Some(m) => m,
        };
        let ghost x = received(Some(message))->0;
        let ghost rest = reader@.scan(source.rest());
        proof {
            assert(left[0] == x);
            assert(left.skip(1) =~= rest);
            assert forall|i: int| 0 <= i < rest.len() implies (#[trigger] rest[i] matches Received::Message(
                m,
            ) ==> complete(m)) by {
                assert(rest[i] == left[i + 1]);
            }
        }
        let o = match message {
            Ok(m) => serve(&m, sink, backend),
            Err(e) => refuse(e, sink, backend),
        };
        assert(served(backend_before, sink_before, left[0], *backend, *sink, o));
        match o {
            Err(e) => {
                let r: Result<(), Error<G::Error, S::Error>> = Err(e);
                assert(session(backend_before, sink_before, left, *backend, *sink, r));
                assert(session(*old(backend), *old(sink), all, *backend, *sink, r));
                return r;
            },
            Ok(_) => {
                proof {
                    assert forall|b: G, s: S, p: Result<(), Error<G::Error, S::Error>>|
                        session(*backend, *sink, rest, b, s, p) implies #[trigger] session(
                        *old(backend),
                        *old(sink),
                        all,
                        b,
                        s,
                        p,
                    ) by {
                        assert(session(backend_before, sink_before, left, b, s, p));
                    }
                }
            },
        }
    }
}

/// Writing and then flushing can come to this.
pub open spec fn sent<E, S: ByteSink>(
    sink: S,
    text: Seq<u8>,
    sink_after: S,
    r: Result<(), Error<E, S::Error>>,
) -> bool {
    exists|s: S, o: Result<(), S::Error>| #[trigger]
        S::wrote(sink, text, s, o) && r == write_outcome::<E, S::Error>(o) && (if o is Ok {
            S::flushed(s, sink_after)
        } else {
            sink_after == s
        })
}

/// A byte of the client can come to this: nothing, while the packet is not
/// complete, else a minus sign for a packet that is refused, or a plus sign and
/// the reply. The output is flushed behind the sign and behind the reply.
pub open spec fn responded<G: GdbBackend, S: ByteSink>(
    before: G,
    sink: S,
    message: Option<Received>,
    after: G,
    sink_after: S,
    r: Result<(), Error<G::Error, S::Error>>,
) -> bool {
    match message {
        None => after == before && sink_after == sink && r is Ok,
        Some(Received::Refused(_)) => after == before && sent(sink, seq![0x2du8], sink_after, r),
        Some(Received::Message(data)) => exists|acked: S, o: Result<(), Error<G::Error, S::Error>>|
         #[trigger]
            sent(sink, seq![0x2bu8], acked, o) && match o {
                Err(_) => after == before && sink_after == acked && r == o,
                Ok(_) => exists|reply: Result<Seq<u8>, G::Error>| #[trigger]
                    answered(before, data, after, reply) && match reply {
                        Err(e) => sink_after == acked && r == Err::<(), Error<G::Error, S::Error>>(
                            Error::Backend(e),
                        ),
                        Ok(text) => sent(acked, text, sink_after, r),
                    },
            },
    }
}

fn send<E, S: ByteSink>(sink: &mut S, text: &[u8]) -> (r: Result<(), Error<E, S::Error>>)
    ensures
        sent(*old(sink), text@, *final(sink), r),
{
    let o = sink.write_all(text);
    assert(S::wrote(*old(sink), text@, *sink, o));
    match o {
        Ok(_) => {
            sink.flush();
            Ok(())
        },
        Err(e) => Err(Error::WritingOutput(e)),
    }
}

/// A stub that gets the bytes of the client one by one.
#[derive(Debug)]
pub struct GdbStub<G: GdbBackend, W: ByteSink> {
    pub reader: GdbMessageReader,
    pub client_out: W,
    pub backend: G,
}

impl<G: GdbBackend, W: ByteSink> GdbStub<G, W> {
    pub fn new(backend: G, client_out: W) -> (r: Self)
        ensures
            r.reader@ == ReaderModel::start(),
            r.client_out == client_out,
            r.backend == backend,
    {
        GdbStub { backend, client_out, reader: GdbMessageReader::new() }
    }

    /// Takes a byte of the client.
    pub fn byte_from_client(&mut self, byte: u8) -> (r: Result<(), Error<G::Error, W::Error>>)
        requires
            old(self).reader@.step(byte).1 matches Some(Received::Message(m)) ==> complete(m),
        ensures
            final(self).reader@ == old(self).reader@.step(byte).0,
            responded(
                old(self).backend,
                old(self).client_out,
                old(self).reader@.step(byte).1,
                final(self).backend,
                final(self).client_out,
                r,
            ),
    {
        match self.reader.next_byte(byte) {
            None => Ok(()),
            Some(Ok(message)) => {
                let sign: [u8; 1] = [0x2b];
                assert(sign@ =~= seq![0x2bu8]);
                let o: Result<(), Error<G::Error, W::Error>> = send(&mut self.client_out, &sign);
                let ghost acked = self.client_out;
                assert(sent(old(self).client_out, seq![0x2bu8], acked, o));
                match o {
                    Ok(_) => {},
                    Err(e) => {
                        return Err(e);
                    },
                }
                let reply = handle_message(&mut self.backend, &message);
                let ghost said = reply_view(reply);
                assert(answered(old(self).backend, message.packet_data@, self.backend, said));
                match reply {
                    Err(e) => Err(Error::Backend(e)),
                    Ok(text) => send(&mut self.client_out, text.as_slice()),
                }
            },
            Some(Err(_)) => {
                let sign: [u8; 1] = [0x2d];
                assert(sign@ =~= seq![0x2du8]);
                send(&mut self.client_out, &sign)
            },
        }
    }
}

/// The bytes of a number in the order of the machine: calls
/// `u32::to_ne_bytes`. The contract claims that these are the four bytes of the
/// number, in little-endian or in big-endian order; which of the two depends on
/// the machine and is left open.
#[verifier::external_body]
fn ne_bytes(r: u32) -> (b: Vec<u8>)
    ensures
        b@.len() == 4,
        bytes::le_value(b@) == r || bytes::be_value(b@) == r,
{
    r.to_ne_bytes().to_vec()
}

/// A backend with sixteen registers that are zero, whose target traps at once.
#[derive(Debug)]
pub struct DummyBackend {
    pub g_error: Option<u8>,
}

impl DummyBackend {
    pub fn new() -> (r: DummyBackend)
        ensures
            r.g_error is None,
    {
        DummyBackend { g_error: None }
    }
}

impl GdbBackend for DummyBackend {
    type Register = u32;

    type Error = ();

    open spec fn registers_read(&self, r: BackendResult<Vec<u32>, ()>) -> bool {
        match self.g_error {
            Some(e) => r == Err::<Vec<u32>, BackendError<()>>(BackendError::Response(e)),
            None => r matches Ok(v) && v@ == Seq::new(16, |i: int| 0u32),
        }
    }

    open spec fn registers_written(before: Self, r: BackendResult<(), ()>, after: Self) -> bool {
        after == before && r == Ok::<(), BackendError<()>>(())
    }

    open spec fn continued(before: Self, r: BackendResult<GdbSignal, ()>, after: Self) -> bool {
        after == before && r == Ok::<GdbSignal, BackendError<()>>(GdbSignal::SIGTRAP)
    }

    open spec fn stepped(before: Self, r: BackendResult<GdbSignal, ()>, after: Self) -> bool {
        after == before && r == Ok::<GdbSignal, BackendError<()>>(GdbSignal::SIGTRAP)
    }

    open spec fn register_bytes(r: u32, b: Seq<u8>) -> bool {
        b.len() == 4 && (bytes::le_value(b) == r || bytes::be_value(b) == r)
    }

    fn read_general_registers(&self) -> (r: BackendResult<Vec<u32>, ()>) {
        if let Some(e) = self.g_error {
            Err(BackendError::Response(e))
        } else {
            let v: Vec<u32> = vec![0; 16];
            assert(v@ =~= Seq::new(16, |i: int| 0u32));
            Ok(v)
        }
    }

    fn write_general_registers(&mut self) -> (r: BackendResult<(), ()>) {
        Ok(())
    }

    fn cont(&mut self) -> (r: BackendResult<GdbSignal, ()>) {
        Ok(GdbSignal::SIGTRAP)
    }

    fn step(&mut self) -> (r: BackendResult<GdbSignal, ()>) {
        Ok(GdbSignal::SIGTRAP)
    }

    fn last_signal(&self) -> (r: BackendResult<GdbSignal, ()>)
        ensures
            r == Ok::<GdbSignal, BackendError<()>>(GdbSignal::SIGTRAP),
    {
        Ok(GdbSignal::SIGTRAP)
    }

    fn read_memory(&self, address: usize, buf: &mut [u8]) -> (r: BackendResult<(), ()>)
        ensures
            r is Ok,
            final(buf)@ == old(buf)@,
    {
        Ok(())
    }

    fn write_memory(&mut self, address: usize, buf: &[u8]) -> (r: BackendResult<(), ()>)
        ensures
            r is Ok,
            *final(self) == *old(self),
    {
        Ok(())
    }

    fn set_breakpoint(&mut self, address: usize) -> (r: BackendResult<(), ()>)
        ensures
            r is Ok,
            *final(self) == *old(self),
    {
        Ok(())
    }

    fn clear_breakpoint(&mut self, address: usize) -> (r: BackendResult<(), ()>)
        ensures
            r is Ok,
            *final(self) == *old(self),
    {
        Ok(())
    }

    fn detach(&mut self) -> (r: BackendResult<(), ()>)
        ensures
            r is Ok,
            *final(self) == *old(self),
    {
        Ok(())
    }

    fn set_running(running: bool) {
    }

    fn reg_to_ne_bytes(r: u32) -> (b: Vec<u8>) {
        ne_bytes(r)
    }
}

/// The reader returns what a packet was made of: the packet around any data
/// without a hash sign is read as that data.
pub proof fn packet_reads_back(m: ReaderModel, data: Seq<u8>)
    requires
        m.state == MessageState::Idle,
        forall|i: int| 0 <= i < data.len() ==> #[trigger] data[i] != 0x23,
    ensures
        m.scan(gdbreply::packet(data)) == seq![Received::Message(data)],
{
    let all = gdbreply::packet(data);
    let started = m.step(0x24).0;
    assert(all[0] == 0x24u8);
    assert(all.skip(1) =~= data + gdbreply::trailer(gdbreply::checksum_from(0, data)));
    body_reads_back(started, data);
    assert(started.data + data =~= data);
}

proof fn body_reads_back(m: ReaderModel, data: Seq<u8>)
    requires
        m.state == MessageState::ReceivePacket,
        m.msn is None,
        forall|i: int| 0 <= i < data.len() ==> #[trigger] data[i] != 0x23,
    ensures
        m.scan(data + gdbreply::trailer(gdbreply::checksum_from(m.sum, data)))
            == seq![Received::Message(m.data + data)],
    decreases data.len(),
{
    let sum = gdbreply::checksum_from(m.sum, data);
    let end = gdbreply::trailer(sum);
    let all = data + end;
    if data.len() == 0 {
        assert(all =~= end);
        let m1 = m.step(0x23).0;
        let m2 = m1.step(end[1]).0;
        let last = m2.step(end[2]);
        assert(digit_value(gdbreply::digit_char(sum / 16)) == Some((sum / 16) as u8));
        assert(digit_value(gdbreply::digit_char(sum % 16)) == Some((sum % 16) as u8));
        assert(m.data + data =~= m.data);
        assert(last.1 == Some(Received::Message(m.data)));
        let t1 = all.skip(1);
        let t2 = t1.skip(1);
        let t3 = t2.skip(1);
        assert(t1[0] == end[1]);
        assert(t2[0] == end[2]);
        assert(t3.len() == 0);
        assert(last.0.scan(t3) =~= Seq::<Received>::empty());
        assert(m2.scan(t2) =~= seq![Received::Message(m.data)]);
        assert(m1.scan(t1) == m2.scan(t2));
    } else {
        let next = m.step(data[0]).0;
        assert(all.skip(1) =~= data.skip(1) + end);
        assert(all[0] == data[0]);
        body_reads_back(next, data.skip(1));
        assert(next.data + data.skip(1) =~= m.data + data);
    }
}

/// What stands between packets is ignored.
pub proof fn noise_is_ignored(m: ReaderModel, noise: Seq<u8>, rest: Seq<u8>)
    requires
        m.state == MessageState::Idle,
        forall|i: int| 0 <= i < noise.len() ==> #[trigger] noise[i] != 0x24,
    ensures
        m.scan(noise + rest) == m.scan(rest),
    decreases noise.len(),
{
    if noise.len() == 0 {
        assert(noise + rest =~= rest);
    } else {
        assert((noise + rest).skip(1) =~= noise.skip(1) + rest);
        assert((noise + rest)[0] == noise[0]);
        noise_is_ignored(m, noise.skip(1), rest);
    }
}

/// A packet with a wrong checksum is refused, and the next one is read.
pub proof fn refused_packet_is_skipped(m: ReaderModel, msn: u8, byte: u8, rest: Seq<u8>)
    requires
        m.state == MessageState::ReceiveChecksum,
        m.msn == Some(msn),
        sent_checksum(msn, byte) != m.sum,
    ensures
        m.step(byte).0.state == MessageState::Idle,
        m.scan(seq![byte] + rest) == seq![
            Received::Refused(ReceiveError::ChecksumMismatch(sent_checksum(msn, byte), m.sum)),
        ] + m.step(byte).0.scan(rest),
{
    assert((seq![byte] + rest).skip(1) =~= rest);
}

/// A digit is read in either case, and anything else is none. What was written as a
/// digit is read as that digit, and two of them as the checksum that they stand for.
pub proof fn digits_read_back(c: u8, d: u8, sum: u8)
    ensures
        48 <= c <= 57 ==> digit_value(c) == Some((c - 48) as u8),
        97 <= c <= 102 ==> digit_value(c) == Some((c - 87) as u8),
        65 <= c <= 70 ==> digit_value(c) == Some((c - 55) as u8),
        !(48 <= c <= 57) && !(97 <= c <= 102) && !(65 <= c <= 70) ==> digit_value(c) is None,
        d < 16 ==> digit_value(gdbreply::digit_char(d)) == Some(d),
        sent_checksum(gdbreply::digit_char(sum / 16), gdbreply::digit_char(sum % 16)) == sum,
{
    assert(digit_value(gdbreply::digit_char(sum / 16)) == Some((sum / 16) as u8));
    assert(digit_value(gdbreply::digit_char(sum % 16)) == Some((sum % 16) as u8));
}

/// A packet whose checksum is not that of its data is refused, with both.
pub proof fn corrupted_packet_is_refused(m: ReaderModel, data: Seq<u8>, msn: u8, lsn: u8)
    requires
        m.state == MessageState::Idle,
        forall|i: int| 0 <= i < data.len() ==> #[trigger] data[i] != 35,
        sent_checksum(msn, lsn) != gdbreply::checksum_from(0, data),
    ensures
        m.scan(seq![36u8] + data + seq![35u8, msn, lsn]) == seq![
            Received::Refused(
                ReceiveError::ChecksumMismatch(
                    sent_checksum(msn, lsn),
                    gdbreply::checksum_from(0, data),
                ),
            ),
        ],
{
    let all = seq![36u8] + data + seq![35u8, msn, lsn];
    let started = m.step(0x24).0;
    assert(all[0] == 0x24u8);
    assert(all.skip(1) =~= data + seq![35u8, msn, lsn]);
    body_is_refused(started, data, msn, lsn);
}

proof fn body_is_refused(m: ReaderModel, data: Seq<u8>, msn: u8, lsn: u8)
    requires
        m.state == MessageState::ReceivePacket,
        m.msn is None,
        forall|i: int| 0 <= i < data.len() ==> #[trigger] data[i] != 35,
        sent_checksum(msn, lsn) != gdbreply::checksum_from(m.sum, data),
    ensures
        m.scan(data + seq![35u8, msn, lsn]) == seq![
            Received::Refused(
                ReceiveError::ChecksumMismatch(
                    sent_checksum(msn, lsn),
                    gdbreply::checksum_from(m.sum, data),
                ),
            ),
        ],
    decreases data.len(),
{
    let end = seq![35u8, msn, lsn];
    let all = data + end;
    if data.len() == 0 {
        assert(all =~= end);
        let m1 = m.step(0x23).0;
        let m2 = m1.step(msn).0;
        let last = m2.step(lsn);
        let t1 = all.skip(1);
        let t2 = t1.skip(1);
        let t3 = t2.skip(1);
        assert(t1[0] == msn);
        assert(t2[0] == lsn);
        assert(t3.len() == 0);
        assert(last.0.scan(t3) =~= Seq::<Received>::empty());
        assert(m2.scan(t2) =~= seq![last.1->0]);
        assert(m1.scan(t1) == m2.scan(t2));
    } else {
        let next = m.step(data[0]).0;
        assert(all.skip(1) =~= data.skip(1) + end);
        assert(all[0] == data[0]);
        body_is_refused(next, data.skip(1), msn, lsn);
    }
}

/// Every byte is written as two digits, the upper one first, in the order of the
/// bytes.
pub proof fn bytes_are_written_in_order(data: Seq<u8>, i: int)
    requires
        0 <= i < data.len(),
    ensures
        hex_text(data).len() == 2 * data.len(),
        hex_text(data)[2 * i] == gdbreply::digit_char(data[i] / 16),
        hex_text(data)[2 * i + 1] == gdbreply::digit_char(data[i] % 16),
    decreases data.len(),
{
    reveal_with_fuel(hex_text, 2);
    if i < data.len() - 1 {
        bytes_are_written_in_order(data.drop_last(), i);
    } else if data.len() > 1 {
        bytes_are_written_in_order(data.drop_last(), 0);
    }
}

/// The number that is read from the digits of bytes is the number that the bytes
/// stand for, the first one being the highest.
pub proof fn numbers_are_read_highest_digit_first(data: Seq<u8>)
    ensures
        hex_value(hex_text(data)) == bytes::be_value(data),
        all_digits(hex_text(data)),
    decreases data.len(),
{
    if data.len() == 0 {
        bytes::be_value_grows_to_the_right(data, 0);
        assert(data =~= Seq::<u8>::empty());
    } else {
        let rest = data.drop_last();
        let b = data.last();
        let text = hex_text(data);
        let few = hex_text(rest);
        numbers_are_read_highest_digit_first(rest);
        bytes::be_value_grows_to_the_right(rest, b);
        assert(rest.push(b) =~= data);
        digits_read_back(0, b / 16, 0);
        digits_read_back(0, b % 16, 0);
        assert(text.drop_last() =~= few.push(gdbreply::digit_char(b / 16)));
        assert(text.drop_last().drop_last() =~= few);
        assert(text.last() == gdbreply::digit_char(b % 16));
        assert(hex_value(text.drop_last()) == 16 * hex_value(few) + b / 16);
        assert forall|k: int| 0 <= k < text.len() implies digit_value(#[trigger] text[k]) is Some by {
            if k < few.len() {
                assert(text[k] == few[k]);
            }
        }
    }
}

/// What stands in front of the first comma is all that has none, up to the end or
/// to the comma.
pub proof fn address_ends_at_the_comma(address: Seq<u8>, rest: Seq<u8>)
    requires
        forall|i: int| 0 <= i < address.len() ==> #[trigger] address[i] != 44,
    ensures
        up_to_comma(address) == address,
        up_to_comma(address + seq![44u8] + rest) == address,
    decreases address.len(),
{
    let all = address + seq![44u8] + rest;
    if address.len() == 0 {
        assert(all[0] == 44);
        assert(up_to_comma(address) =~= address);
        assert(up_to_comma(all) =~= address);
    } else {
        let few = address.skip(1);
        assert forall|i: int| 0 <= i < few.len() implies #[trigger] few[i] != 44 by {
            assert(few[i] == address[i + 1]);
        }
        address_ends_at_the_comma(few, rest);
        assert(all.skip(1) =~= few + seq![44u8] + rest);
        assert(all[0] == address[0]);
        assert(seq![address[0]] + few =~= address);
    }
}

/// Memory can be read at an address of hexadecimal digits, whatever follows its
/// comma; any other address is an error.
pub proof fn memory_needs_an_address(address: Seq<u8>, rest: Seq<u8>, i: int)
    requires
        forall|i: int| 0 <= i < address.len() ==> #[trigger] address[i] != 44,
    ensures
        ({
            let message = seq![109u8] + address + seq![44u8] + rest;
            &&& (forall|k: int| 0 <= k < address.len() ==> digit_value(#[trigger] address[k])
                is Some) ==> memory_answer(message) == gdbreply::packet(seq![79u8, 75u8])
            &&& 0 <= i < address.len() && digit_value(address[i]) is None ==> memory_answer(message)
                == gdbreply::packet(seq![69u8, 48u8, 49u8])
        }),
{
    let message = seq![109u8] + address + seq![44u8] + rest;
    assert(message.skip(1) =~= address + seq![44u8] + rest);
    address_ends_at_the_comma(address, rest);
    assert(gdbreply::error_data(1) =~= seq![69u8, 48u8, 49u8]);
    assert(gdbreply::okay_data() =~= seq![79u8, 75u8]);
}

/// Why the target stopped is answered with the trap signal, selecting a thread for
/// general commands is confirmed and any other selection is not supported, and a
/// command that is not known has an empty answer. None of them changes the target.
pub proof fn simple_commands_have_fixed_answers<G: GdbBackend>(
    before: G,
    message: Seq<u8>,
    after: G,
    r: Result<Seq<u8>, G::Error>,
)
    requires
        complete(message),
        answered(before, message, after, r),
    ensures
        ({
            let c = message[0];
            &&& c == 63 ==> after == before && r == Ok::<Seq<u8>, G::Error>(
                gdbreply::packet(seq![83u8, 48u8, 53u8]),
            )
            &&& c == 72 && message[1] == 103 ==> after == before && r == Ok::<Seq<u8>, G::Error>(
                gdbreply::packet(seq![79u8, 75u8]),
            )
            &&& c == 72 && message[1] != 103 ==> after == before && r == Ok::<Seq<u8>, G::Error>(
                gdbreply::packet(Seq::empty()),
            )
            &&& c != 63 && c != 72 && c != 99 && c != 103 && c != 71 && c != 109 && c != 115
                ==> after == before && r == Ok::<Seq<u8>, G::Error>(
                gdbreply::packet(Seq::empty()),
            )
            &&& c == 109 ==> after == before && r == Ok::<Seq<u8>, G::Error>(memory_answer(message))
        }),
{
    assert(gdbreply::okay_data() =~= seq![79u8, 75u8]);
}

/// Letting the target run, or making it take a step, asks the target to do so, and
/// the answer names the signal that it stopped with or the error that it gave.
pub proof fn running_commands_answer_with_the_signal<G: GdbBackend>(
    before: G,
    message: Seq<u8>,
    after: G,
    r: Result<Seq<u8>, G::Error>,
)
    requires
        complete(message),
        answered(before, message, after, r),
        message[0] == 99 || message[0] == 115,
    ensures
        exists|o: BackendResult<GdbSignal, G::Error>| #[trigger]
            signal_answer(o) == r && (message[0] == 99 ==> G::continued(before, o, after)) && (
            message[0] == 115 ==> G::stepped(before, o, after)) && (o matches Ok(s) ==> r == Ok::<
                Seq<u8>,
                G::Error,
            >(
                gdbreply::packet(
                    seq![
                        84u8,
                        gdbreply::digit_char(s.code() / 16),
                        gdbreply::digit_char(s.code() % 16),
                    ],
                ),
            )) && (o matches Err(BackendError::Response(e)) ==> r == Ok::<Seq<u8>, G::Error>(
                gdbreply::packet(
                    seq![69u8, gdbreply::digit_char(e / 16), gdbreply::digit_char(e % 16)],
                ),
            )),
{
    if message[0] == 99 {
        let o = choose|o: BackendResult<GdbSignal, G::Error>| #[trigger]
            G::continued(before, o, after) && r == signal_answer(o);
        assert(signal_answer(o) == r);
    } else {
        let o = choose|o: BackendResult<GdbSignal, G::Error>| #[trigger]
            G::stepped(before, o, after) && r == signal_answer(o);
        assert(signal_answer(o) == r);
    }
}

/// A packet that is refused is answered with a minus sign, and the target is left
/// alone; any other is confirmed with a plus sign before it is served.
pub proof fn packets_are_confirmed<G: GdbBackend, S: ByteSink>(
    before: G,
    sink: S,
    message: Received,
    after: G,
    sink_after: S,
    r: Result<(), Error<G::Error, S::Error>>,
)
    requires
        served(before, sink, message, after, sink_after, r),
    ensures
        message is Refused ==> after == before && exists|o: Result<(), S::Error>| #[trigger]
            S::wrote(sink, seq![45u8], sink_after, o),
        message is Message ==> exists|acked: S, o: Result<(), S::Error>| #[trigger]
            S::wrote(sink, seq![43u8], acked, o),
{
    match message {
        Received::Refused(_) => {},
        Received::Message(data) => {
            let (acked, o) = choose|acked: S, o: Result<(), Error<G::Error, S::Error>>| #[trigger]
                written(sink, seq![0x2bu8], acked, o) && match o {
                    Err(_) => after == before && sink_after == acked && r == o,
                    Ok(_) => exists|reply: Result<Seq<u8>, G::Error>| #[trigger]
                        answered(before, data, after, reply) && match reply {
                            Err(e) => sink_after == acked && r == Err::<
                                (),
                                Error<G::Error, S::Error>,
                            >(Error::Backend(e)),
                            Ok(text) => written(acked, text, sink_after, r),
                        },
                };
            assert(written::<G::Error, S>(sink, seq![0x2bu8], acked, o));
        },
    }
}

/// Reading the registers leaves the target as it is and is answered with the digits
/// of their bytes; writing them asks the target to do so and is confirmed. An error
/// that the target gives is answered with its number.
pub proof fn register_commands_ask_the_target<G: GdbBackend>(
    before: G,
    message: Seq<u8>,
    after: G,
    r: Result<Seq<u8>, G::Error>,
)
    requires
        complete(message),
        answered(before, message, after, r),
    ensures
        message[0] == 103 ==> after == before && exists|
            o: BackendResult<Vec<G::Register>, G::Error>,
            data: Seq<u8>,
        | #[trigger]
            registers_answer(o, data) == r && before.registers_read(o) && (o matches Ok(regs)
                ==> all_register_bytes::<G>(regs@, data) && r == Ok::<Seq<u8>, G::Error>(
                gdbreply::packet(hex_text(data)),
            )) && (o matches Err(BackendError::Response(e)) ==> r == Ok::<Seq<u8>, G::Error>(
                gdbreply::packet(
                    seq![69u8, gdbreply::digit_char(e / 16), gdbreply::digit_char(e % 16)],
                ),
            )),
        message[0] == 71 ==> exists|o: BackendResult<(), G::Error>| #[trigger]
            okay_answer(o) == r && G::registers_written(before, o, after) && (o is Ok ==> r == Ok::<
                Seq<u8>,
                G::Error,
            >(gdbreply::packet(seq![79u8, 75u8]))) && (o matches Err(BackendError::Response(e))
                ==> r == Ok::<Seq<u8>, G::Error>(
                gdbreply::packet(
                    seq![69u8, gdbreply::digit_char(e / 16), gdbreply::digit_char(e % 16)],
                ),
            )),
{
    assert(gdbreply::okay_data() =~= seq![79u8, 75u8]);
    if message[0] == 103 {
        let (o, data) = choose|o: BackendResult<Vec<G::Register>, G::Error>, data: Seq<u8>|
            before.registers_read(o) && (o matches Ok(regs) ==> all_register_bytes::<G>(
                regs@,
                data,
            )) && r == #[trigger] registers_answer(o, data);
        assert(registers_answer(o, data) == r);
    }
    if message[0] == 71 {
        let o = choose|o: BackendResult<(), G::Error>| #[trigger]
            G::registers_written(before, o, after) && r == okay_answer(o);
        assert(okay_answer(o) == r);
    }
}

/// Of a number only its first sixteen digits count.
pub proof fn sixteen_digits_count(s: Seq<u8>, more: Seq<u8>)
    requires
        s.len() == 16,
    ensures
        leading_digits(s + more) == s,
        forall|n: int| 0 <= n <= 16 ==> leading_digits(#[trigger] s.take(n)) == s.take(n),
{
    assert((s + more).take(16) =~= s);
}

/// A list of packets can be handled where each packet in it can be.
pub proof fn packets_are_handled_each(messages: Seq<Received>, m: Received)
    ensures
        all_complete(messages.push(m)) <==> all_complete(messages) && (m matches Received::Message(
            text,
        ) ==> complete(text)),
        all_complete(Seq::empty()),
{
    let all = messages.push(m);
    if all_complete(all) {
        assert(all[messages.len() as int] == m);
        assert forall|i: int| 0 <= i < messages.len() implies (#[trigger] messages[i] matches
            Received::Message(text) ==> complete(text)) by {
            assert(all[i] == messages[i]);
        }
    }
}

/// Writing reports a failure of the output as such, and succeeds where that did.
pub proof fn writing_reports_the_output<E, S: ByteSink>(
    sink: S,
    text: Seq<u8>,
    sink_after: S,
    r: Result<(), Error<E, S::Error>>,
)
    requires
        written(sink, text, sink_after, r),
    ensures
        r is Ok ==> S::wrote(sink, text, sink_after, Ok(())),
        r matches Err(e) ==> (e matches Error::WritingOutput(w) && S::wrote(
            sink,
            text,
            sink_after,
            Err(w),
        )),
{
    let o = choose|o: Result<(), S::Error>| #[trigger]
        S::wrote(sink, text, sink_after, o) && r == write_outcome::<E, S::Error>(o);
    if o is Ok {
        assert(o->Ok_0 == ());
        assert(o == Ok::<(), S::Error>(()));
    }
}

} // verus!
