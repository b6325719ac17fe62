use vmm_devices::bytes::le_encode;
use vmm_devices::gdbreply::{
    ascii_byte, empty, error, hex_lsn, hex_msn, okay, signal, ByteSource, GdbData, GdbReply,
};
use vmm_devices::gdbstub::{
    from_ascii, handle_message, handle_read_memory, hex_to_u64, run_gdb_stub, BackendError,
    BackendResult, ByteSink, DummyBackend, Error, GdbBackend, GdbMessage, GdbMessageReader,
    GdbMessageScanner, GdbSignal, GdbStub, ReceiveError,
};

fn source(text: &[u8]) -> GdbData {
    GdbData::new(text.to_vec())
}

#[test]
fn basic_replies() {
    assert_eq!(error(0x55).collect(), b"$E55#AF");
    assert_eq!(signal(0xaa).collect(), b"$TAA#D6");
}

#[test]
fn scanner_bad_checksum_then_good() {
    let msg = source(b"$g#66$g#67");
    let mut messages = GdbMessageScanner::new(msg);

    let result = messages.next().unwrap();
    assert!(result.is_err());
    let result = messages.next().unwrap();
    assert!(result.is_ok());
    assert_eq!(result.unwrap().packet_data, b"g");
}

#[test]
fn checksum() {
    let mut input = source(b"$g#66$g#67");
    let mut output: Vec<u8> = Vec::new();
    let mut backend = DummyBackend { g_error: None };

    assert!(run_gdb_stub(&mut input, &mut output, &mut backend).is_ok());
    assert_eq!(&output[0..2], b"-+");
}

#[test]
fn read_global_registers_error() {
    let mut input = source(b"$g#67");
    let mut output: Vec<u8> = Vec::new();
    let mut backend = DummyBackend {
        g_error: Some(0x33),
    };
    assert!(run_gdb_stub(&mut input, &mut output, &mut backend).is_ok());
    assert_eq!(output, b"+$E33#AB");
}

#[test]
fn write_global_registers_error() {
    let mut input = source(b"$G#47");
    let mut output: Vec<u8> = Vec::new();
    let mut backend = DummyBackend { g_error: None };
    assert!(run_gdb_stub(&mut input, &mut output, &mut backend).is_ok());
    assert_eq!(output, b"+$OK#9A");
}

#[test]
fn cont() {
    let mut input = source(b"$c#63");
    let mut output: Vec<u8> = Vec::new();
    let mut backend = DummyBackend { g_error: None };
    assert!(run_gdb_stub(&mut input, &mut output, &mut backend).is_ok());
    assert_eq!(output, b"+$T05#B9");
}

#[test]
fn step() {
    let mut input = source(b"$s#73");
    let mut output: Vec<u8> = Vec::new();
    let mut backend = DummyBackend { g_error: None };
    assert!(run_gdb_stub(&mut input, &mut output, &mut backend).is_ok());
    assert_eq!(output, b"+$T05#B9");
}

#[test]
fn q_packet() {
    let input = source(b"$qSupported:multiprocess+;swbreak+;hwbreak+;qRelocInsn+;fork-events+;vfork-events+;exec-events+;vContSupported+;QThreadEvents+;no-resumed+;xmlRegisters=i386#6a");
    let mut messages = GdbMessageScanner::new(input);
    let result = messages.next().unwrap();
    assert!(result.is_ok());
}

#[test]
fn g_packet() {
    let mut input = source(b"$g#67");
    let mut output: Vec<u8> = Vec::new();
    let mut backend = DummyBackend { g_error: None };
    assert!(run_gdb_stub(&mut input, &mut output, &mut backend).is_ok());
    assert_eq!(
        &output,
        &b"+$00000000000000000000000000000000000000000000000000000000000000000000000000000000000000000000000000000000000000000000000000000000#00".to_vec()
    );
}

#[test]
fn receive_bytes() {
    let input = b"0123456789abcdef".to_vec();
    assert_eq!(0x0123_4567_89ab_cdef, hex_to_u64(&input).unwrap());

    let invalid = b"2q2".to_vec();
    assert!(hex_to_u64(&invalid).is_err());

    // consume at most a u64 worth of digits.
    let too_long = b"12341234123412345".to_vec();
    assert_eq!(0x1234_1234_1234_1234, hex_to_u64(&too_long).unwrap());
}

#[test]
fn digits_behind_the_sixteenth_are_still_checked() {
    assert_eq!(
        hex_to_u64(b"1234123412341234x"),
        Err(ReceiveError::InvalidDigit)
    );
    assert_eq!(hex_to_u64(b""), Ok(0));
    assert_eq!(hex_to_u64(b"fF"), Ok(0xff));
}

#[test]
fn hexadecimal_digits() {
    assert_eq!(ascii_byte(0), b'0');
    assert_eq!(ascii_byte(9), b'9');
    assert_eq!(ascii_byte(10), b'A');
    assert_eq!(ascii_byte(15), b'F');
    assert_eq!(ascii_byte(16), b'0');
    assert_eq!((hex_msn(0x3c), hex_lsn(0x3c)), (b'3', b'C'));
    assert_eq!(from_ascii(b'c'), Ok(12));
    assert_eq!(from_ascii(b'C'), Ok(12));
    assert_eq!(from_ascii(b'g'), Err(ReceiveError::InvalidDigit));
}

#[test]
fn replies_without_data() {
    assert_eq!(empty().collect(), b"$#00");
    assert_eq!(okay().collect(), b"$OK#9A");
}

#[test]
fn reply_comes_byte_by_byte() {
    let mut reply = GdbReply::from_bytes(source(b"ab"));
    let mut seen: Vec<u8> = Vec::new();
    while let Some(b) = reply.next() {
        seen.push(b);
    }
    assert_eq!(seen, b"$ab#C3");
    assert_eq!(reply.next(), None);
}

#[test]
fn reply_is_read_back() {
    let text = GdbReply::from_bytes(source(b"qC$*}")).collect();
    let mut messages = GdbMessageScanner::new(GdbData::new(text));
    assert_eq!(messages.next().unwrap().unwrap().packet_data, b"qC$*}");
    assert!(messages.next().is_none());
}

#[test]
fn noise_between_packets_is_skipped() {
    let mut messages = GdbMessageScanner::new(source(b"++x$c#63--$s#73"));
    assert_eq!(messages.next().unwrap().unwrap().packet_data, b"c");
    assert_eq!(messages.next().unwrap().unwrap().packet_data, b"s");
    assert!(messages.next().is_none());
}

#[test]
fn mismatch_names_both_checksums() {
    let mut reader = GdbMessageReader::new();
    for b in b"$g#6" {
        assert!(reader.next_byte(*b).is_none());
    }
    assert!(reader.accepts(b'6'));
    match reader.next_byte(b'6') {
        Some(Err(e)) => assert_eq!(e, ReceiveError::ChecksumMismatch(0x66, 0x67)),
        _ => panic!("expected a refusal"),
    }
}

#[test]
fn short_packets_are_not_accepted() {
    let mut reader = GdbMessageReader::new();
    for b in b"$#0" {
        assert!(reader.accepts(*b));
        assert!(reader.next_byte(*b).is_none());
    }
    assert!(!reader.accepts(b'0'));

    let mut reader = GdbMessageReader::new();
    for b in b"$H#4" {
        assert!(reader.next_byte(*b).is_none());
    }
    assert!(!reader.accepts(b'8'));
    assert!(reader.accepts(b'9'));
}

fn message(data: &[u8]) -> GdbMessage {
    GdbMessage {
        packet_data: data.to_vec(),
    }
}

#[test]
fn messages_have_replies() {
    let mut backend = DummyBackend::new();
    let cases: [(&[u8], &[u8]); 6] = [
        (b"?", b"$S05#B8"),
        (b"Hg0", b"$OK#9A"),
        (b"Hc0", b"$#00"),
        (b"m1f,4", b"$OK#9A"),
        (b"mxy,4", b"$E01#A6"),
        (b"vMustReplyEmpty", b"$#00"),
    ];
    for (request, reply) in cases {
        assert_eq!(
            handle_message(&mut backend, &message(request)).unwrap(),
            reply
        );
    }
}

#[test]
fn read_memory_stops_at_the_comma() {
    assert_eq!(handle_read_memory(&message(b"m10,zz")), b"$OK#9A");
    assert_eq!(handle_read_memory(&message(b"m")), b"$OK#9A");
    assert_eq!(handle_read_memory(&message(b"m10zz")), b"$E01#A6");
}

#[test]
fn complete_messages() {
    assert!(!message(b"").is_complete());
    assert!(!message(b"H").is_complete());
    assert!(message(b"Hg").is_complete());
    assert!(message(b"g").is_complete());
}

#[test]
fn stub_answers_byte_by_byte() {
    let mut stub = GdbStub::new(DummyBackend::new(), Vec::new());
    for b in b"$c#62$c#63" {
        assert!(stub.reader.accepts(*b));
        assert!(stub.byte_from_client(*b).is_ok());
    }
    assert_eq!(stub.client_out, b"-+$T05#B9");
}

#[test]
fn registers_have_the_order_of_the_machine() {
    let bytes = DummyBackend::reg_to_ne_bytes(0x0102_0304);
    let little = le_encode(0x0102_0304, 4);
    if 1u16.to_ne_bytes()[0] == 1 {
        assert_eq!(bytes, little);
    } else {
        assert_eq!(bytes, [1, 2, 3, 4]);
    }
}

#[test]
fn signals_have_numbers() {
    assert_eq!(GdbSignal::SIGTRAP.number(), 5);
    assert_eq!(GdbSignal::Number(11).number(), 11);
}

struct BrokenBackend;

impl GdbBackend for BrokenBackend {
    type Register = u8;
    type Error = u32;

    fn read_general_registers(&self) -> BackendResult<Vec<u8>, u32> {
        Ok(vec![0x12, 0xfe])
    }
    fn write_general_registers(&mut self) -> BackendResult<(), u32> {
        Err(BackendError::Response(7))
    }
    fn cont(&mut self) -> BackendResult<GdbSignal, u32> {
        Err(BackendError::Fatal(42))
    }
    fn step(&mut self) -> BackendResult<GdbSignal, u32> {
        Ok(GdbSignal::Number(0x1f))
    }
    fn last_signal(&self) -> BackendResult<GdbSignal, u32> {
        Ok(GdbSignal::SIGTRAP)
    }
    fn read_memory(&self, _address: usize, _buf: &mut [u8]) -> BackendResult<(), u32> {
        Ok(())
    }
    fn write_memory(&mut self, _address: usize, _buf: &[u8]) -> BackendResult<(), u32> {
        Ok(())
    }
    fn set_breakpoint(&mut self, _address: usize) -> BackendResult<(), u32> {
        Ok(())
    }
    fn clear_breakpoint(&mut self, _address: usize) -> BackendResult<(), u32> {
        Ok(())
    }
    fn detach(&mut self) -> BackendResult<(), u32> {
        Ok(())
    }
    fn set_running(_running: bool) {}
    fn reg_to_ne_bytes(r: u8) -> Vec<u8> {
        vec![r]
    }
}

#[test]
fn backend_errors_are_sent_or_end_the_stub() {
    let mut output: Vec<u8> = Vec::new();
    let r = run_gdb_stub(&mut source(b"$G#47$s#73$g#67$c#63$s#73"), &mut output, &mut BrokenBackend);
    match r {
        Err(Error::Backend(e)) => assert_eq!(e, 42),
        _ => panic!("expected the backend's error"),
    }
    assert_eq!(output, b"+$E07#AC+$T1F#CB+$12FE#EE+".to_vec());
}

struct ClosedSink;

impl ByteSink for ClosedSink {
    type Error = u8;

    fn write_all(&mut self, _data: &[u8]) -> Result<(), u8> {
        Err(9)
    }
    fn flush(&mut self) {}
}

#[test]
fn failed_writes_end_the_stub() {
    let r = run_gdb_stub(&mut source(b"$c#63"), &mut ClosedSink, &mut DummyBackend::new());
    match r {
        Err(Error::WritingOutput(e)) => assert_eq!(e, 9),
        _ => panic!("expected the sink's error"),
    }
    let mut stub = GdbStub::new(DummyBackend::new(), ClosedSink);
    for b in b"$c#6" {
        assert!(stub.byte_from_client(*b).is_ok());
    }
    assert!(stub.byte_from_client(b'3').is_err());
}

#[test]
fn byte_sources_end() {
    let mut s = source(b"x");
    assert_eq!(s.next(), Some(b'x'));
    assert_eq!(s.next(), None);
    assert_eq!(s.next(), None);
}
