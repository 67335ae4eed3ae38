//! One read over a transport, from the request's bytes to its answer.

use std::io::{Cursor, Read, Write};

use modbus_read::{
    begin, read_registers, ExceptionCode, ExchangeError, FunctionCode, ModbusError, ReadRequest,
    RegisterAddress, RegisterCount, Stage, Step, TransactionId, UnitId,
};

/// What comes of one stage of an exchange.
fn perform<T: Read + Write>(transport: &mut T, stage: &Stage) -> std::io::Result<Vec<u8>> {
    let mut received = vec![0_u8; stage.wanted()];
    match stage {
        Stage::Write(bytes) => transport.write_all(bytes)?,
        Stage::Flush => transport.flush()?,
        Stage::ReadHeader | Stage::ReadBody(_) => transport.read_exact(&mut received)?,
    }
    Ok(received)
}

/// A whole exchange over a transport.
fn exchange<T: Read + Write>(
    transport: &mut T,
    request: &ReadRequest,
) -> Result<Vec<u16>, ExchangeError> {
    let mut stage = begin(request);
    loop {
        let outcome = perform(transport, &stage);
        match read_registers(request, stage, outcome) {
            Step::Next(next) => stage = next,
            Step::Done(result) => return result,
        }
    }
}

/// A well-framed reply: Modbus, and as long as it says it is.
fn reply(transaction: u16, unit: u8, function: u8, pdu: &[u8]) -> Vec<u8> {
    let mut tail = vec![unit, function];
    tail.extend_from_slice(pdu);
    let declared = u16::try_from(tail.len()).expect("a test's reply is short");
    let mut frame = Vec::new();
    frame.extend_from_slice(&transaction.to_be_bytes());
    frame.extend_from_slice(&0_u16.to_be_bytes());
    frame.extend_from_slice(&declared.to_be_bytes());
    frame.extend_from_slice(&tail);
    frame
}

fn request(
    transaction: u16,
    unit: u8,
    function: FunctionCode,
    start: u16,
    count: u16,
) -> ReadRequest {
    ReadRequest::new(
        TransactionId::new(transaction),
        UnitId::new(unit).expect("a test's unit id is addressed"),
        function,
        RegisterAddress::new(start),
        RegisterCount::new(count).expect("a test's register count is within the ceiling"),
    )
    .expect("a test's read stays inside the address space")
}

/// A device made of bytes: it keeps what was written to it and answers
/// from what a test queued. The bytes are synthetic.
#[derive(Debug)]
struct Loopback {
    written: Vec<u8>,
    answer: Cursor<Vec<u8>>,
}

/// A transport that cannot be written to at all.
#[derive(Debug)]
struct Deaf;

impl Loopback {
    fn answering(answer: Vec<u8>) -> Self {
        Self {
            written: Vec::new(),
            answer: Cursor::new(answer),
        }
    }
}

impl Read for Loopback {
    fn read(&mut self, buf: &mut [u8]) -> std::io::Result<usize> {
        self.answer.read(buf)
    }
}

impl Write for Loopback {
    fn write(&mut self, buf: &[u8]) -> std::io::Result<usize> {
        self.written.extend_from_slice(buf);
        Ok(buf.len())
    }

    fn flush(&mut self) -> std::io::Result<()> {
        Ok(())
    }
}

impl Read for Deaf {
    fn read(&mut self, _buf: &mut [u8]) -> std::io::Result<usize> {
        Ok(0)
    }
}

impl Write for Deaf {
    fn write(&mut self, _buf: &[u8]) -> std::io::Result<usize> {
        Err(std::io::Error::from(std::io::ErrorKind::BrokenPipe))
    }

    fn flush(&mut self) -> std::io::Result<()> {
        Ok(())
    }
}

#[test]
fn an_exchange_writes_the_request_and_returns_what_the_device_answered() {
    let read = request(1, 1, FunctionCode::ReadHoldingRegisters, 0, 2);
    let mut device = Loopback::answering(reply(1, 1, 3, &[4, 0x00, 0x2a, 0x01, 0x90]));

    let registers = exchange(&mut device, &read).expect("the device answered");

    assert_eq!(registers, vec![42, 400]);
    assert_eq!(device.written, read.encode());
}

/// The frame after the frame: a stream keeps no message boundary, so the
/// read stops at the length the header declared and leaves the rest where
/// it is.
#[test]
fn an_exchange_reads_one_frame_and_leaves_what_follows_it() {
    let read = request(1, 1, FunctionCode::ReadHoldingRegisters, 0, 2);
    let mut answer = reply(1, 1, 3, &[4, 0x00, 0x2a, 0x01, 0x90]);
    let trailing = reply(2, 1, 3, &[4, 0x00, 0x01, 0x00, 0x02]);
    answer.extend_from_slice(&trailing);
    let mut device = Loopback::answering(answer);

    let registers = exchange(&mut device, &read).expect("the device answered");

    assert_eq!(registers, vec![42, 400]);
    let mut left = Vec::new();
    device
        .read_to_end(&mut left)
        .expect("the rest is still there");
    assert_eq!(left, trailing);
}

#[test]
fn a_device_that_stops_mid_frame_is_a_transport_failure() {
    let read = request(1, 1, FunctionCode::ReadHoldingRegisters, 0, 2);
    let mut cut = reply(1, 1, 3, &[4, 0x00, 0x2a, 0x01, 0x90]);
    cut.truncate(9);
    let mut device = Loopback::answering(cut);

    let refused = exchange(&mut device, &read);

    assert!(matches!(refused, Err(ExchangeError::Io(_))));
}

#[test]
fn a_transport_that_refuses_the_write_is_a_transport_failure() {
    let read = request(1, 1, FunctionCode::ReadHoldingRegisters, 0, 2);

    let refused = exchange(&mut Deaf, &read);

    assert!(matches!(refused, Err(ExchangeError::Io(_))));
}

#[test]
fn a_devices_refusal_arrives_through_the_exchange_as_a_modbus_error() {
    let read = request(1, 1, FunctionCode::ReadHoldingRegisters, 0, 2);
    let mut device = Loopback::answering(reply(1, 1, 0x83, &[2]));

    let refused = exchange(&mut device, &read);

    assert!(matches!(
        refused,
        Err(ExchangeError::Modbus(ModbusError::Exception {
            code: ExceptionCode::IllegalDataAddress,
            ..
        }))
    ));
}

/// A body no frame can carry is refused on the header alone, so a wrong
/// length never makes the read wait for bytes that are not coming.
#[test]
fn a_body_longer_than_any_frame_is_refused_before_it_is_read() {
    let read = request(1, 1, FunctionCode::ReadHoldingRegisters, 0, 2);
    let mut header = Vec::new();
    header.extend_from_slice(&1_u16.to_be_bytes());
    header.extend_from_slice(&0_u16.to_be_bytes());
    header.extend_from_slice(&u16::MAX.to_be_bytes());
    let mut device = Loopback::answering(header);

    let refused = exchange(&mut device, &read);

    assert!(matches!(
        refused,
        Err(ExchangeError::Modbus(ModbusError::LengthOutOfRange {
            declared: u16::MAX,
            ..
        }))
    ));
}

#[test]
fn a_stale_frame_does_not_become_this_reads_answer() {
    let read = request(2, 1, FunctionCode::ReadHoldingRegisters, 0, 2);
    let mut device = Loopback::answering(reply(1, 1, 3, &[4, 0x00, 0x2a, 0x01, 0x90]));

    let refused = exchange(&mut device, &read);

    assert!(matches!(
        refused,
        Err(ExchangeError::Modbus(ModbusError::TransactionMismatch {
            expected: 2,
            found: 1,
        }))
    ));
}

/// A stage asks for the bytes its act reads, and no stage is skipped.
#[test]
fn an_exchange_goes_through_its_stages_in_order() {
    let read = request(1, 1, FunctionCode::ReadHoldingRegisters, 0, 2);

    let write = begin(&read);
    assert_eq!(write.wanted(), 0);
    let Stage::Write(bytes) = &write else {
        panic!("an exchange begins with a write");
    };
    assert_eq!(bytes, &read.encode());

    let Step::Next(flush) = read_registers(&read, write, Ok(Vec::new())) else {
        panic!("a flush follows the write");
    };
    assert!(matches!(flush, Stage::Flush));
    assert_eq!(flush.wanted(), 0);

    let Step::Next(header) = read_registers(&read, flush, Ok(Vec::new())) else {
        panic!("a header follows the flush");
    };
    assert!(matches!(header, Stage::ReadHeader));
    assert_eq!(header.wanted(), 6);

    let Step::Next(body) = read_registers(&read, header, Ok(vec![0, 1, 0, 0, 0, 7])) else {
        panic!("a body follows the header");
    };
    assert!(matches!(body, Stage::ReadBody([0, 1, 0, 0, 0, 7])));
    assert_eq!(body.wanted(), 7);

    let done = read_registers(&read, body, Ok(vec![1, 3, 4, 0x00, 0x2a, 0x01, 0x90]));
    assert!(matches!(done, Step::Done(Ok(words)) if words == [42, 400]));
}

/// The two edges of the length range, and their neighbours outside it.
#[test]
fn a_header_is_judged_by_its_length_alone() {
    let read = request(1, 1, FunctionCode::ReadHoldingRegisters, 0, 2);

    for (declared, legal) in [(1, false), (2, true), (254, true), (255, false)] {
        let step = read_registers(&read, Stage::ReadHeader, Ok(vec![9, 9, 9, 9, 0, declared]));
        match step {
            Step::Next(stage) => {
                assert!(legal);
                assert_eq!(stage.wanted(), usize::from(declared));
            }
            Step::Done(result) => {
                assert!(!legal);
                assert!(matches!(
                    result,
                    Err(ExchangeError::Modbus(ModbusError::LengthOutOfRange {
                        declared: found,
                        min: 2,
                        max: 254,
                    })) if found == u16::from(declared)
                ));
            }
        }
    }
}

#[test]
fn an_exchange_that_ends_inside_the_header_is_a_transport_failure() {
    let read = request(1, 1, FunctionCode::ReadHoldingRegisters, 0, 2);
    let mut device = Loopback::answering(vec![0, 1, 0]);

    let refused = exchange(&mut device, &read);

    assert!(matches!(refused, Err(ExchangeError::Io(_))));
    assert_eq!(device.written, read.encode());
}

#[test]
fn an_error_becomes_the_kind_of_refusal_it_is() {
    let modbus = ExchangeError::from(ModbusError::EmptyRead);
    let io = ExchangeError::from(std::io::Error::from(std::io::ErrorKind::TimedOut));

    assert!(matches!(modbus, ExchangeError::Modbus(ModbusError::EmptyRead)));
    assert!(matches!(io, ExchangeError::Io(error) if error.kind() == std::io::ErrorKind::TimedOut));
}

#[test]
fn a_refusal_says_whether_the_frame_or_the_transport_failed() {
    let modbus = ExchangeError::Modbus(ModbusError::EmptyRead);
    let io = ExchangeError::Io(std::io::Error::other("the cable is out"));

    assert_eq!(
        modbus.to_string(),
        "a read of no registers asks a device for nothing"
    );
    assert_eq!(
        io.to_string(),
        "the transport failed during a register read: the cable is out"
    );
}
