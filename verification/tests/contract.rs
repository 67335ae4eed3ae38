//! Consumer contract for the read-only API.
//!
//! Expected numbers are literals. Register values are synthetic; they are
//! not readings from a real device.

use std::io::{Cursor, Read, Write};

use modbus_read::{
    begin, read_registers, ExceptionCode, ExchangeError, FunctionCode, ModbusError, ReadRequest,
    Reading, RegisterAddress, RegisterCount, RegisterKind, Scale, Stage, Step, TransactionId,
    UnitId, MAX_REGISTERS,
};

/// Holding read, transaction 1, unit 1, address 0, count 2.
const HOLDING_REQUEST: [u8; 12] = [
    0x00, 0x01, 0x00, 0x00, 0x00, 0x06, 0x01, 0x03, 0x00, 0x00, 0x00, 0x02,
];

/// The same request for input registers: function code 4 at byte 7.
const INPUT_REQUEST: [u8; 12] = [
    0x00, 0x01, 0x00, 0x00, 0x00, 0x06, 0x01, 0x04, 0x00, 0x00, 0x00, 0x02,
];

/// Holding reply: MBAP + unit 1 + function 3 + byte count 4 + 0x00 0x2a 0x01 0x90.
const HOLDING_REPLY: [u8; 13] = [
    0x00, 0x01, 0x00, 0x00, 0x00, 0x07, 0x01, 0x03, 0x04, 0x00, 0x2a, 0x01, 0x90,
];

/// Exception reply: function 0x83, code 2.
const EXCEPTION_REPLY: [u8; 9] = [0x00, 0x01, 0x00, 0x00, 0x00, 0x03, 0x01, 0x83, 0x02];

fn holding_read(transaction: u16) -> ReadRequest {
    ReadRequest::new(
        TransactionId::new(transaction),
        UnitId::new(1).expect("unit 1 is addressed"),
        FunctionCode::ReadHoldingRegisters,
        RegisterAddress::new(0),
        RegisterCount::new(2).expect("two registers"),
    )
    .expect("a read inside the address space")
}

fn input_read(transaction: u16) -> ReadRequest {
    ReadRequest::new(
        TransactionId::new(transaction),
        UnitId::new(1).expect("unit 1 is addressed"),
        FunctionCode::ReadInputRegisters,
        RegisterAddress::new(0),
        RegisterCount::new(2).expect("two registers"),
    )
    .expect("a read inside the address space")
}

/// Exhaustive: a third variant does not compile until this match names its byte.
fn wire_byte(code: FunctionCode) -> u8 {
    match code {
        FunctionCode::ReadHoldingRegisters => 3,
        FunctionCode::ReadInputRegisters => 4,
    }
}

/// A device made of bytes. What is written is kept; the answer is queued.
/// The bytes are synthetic.
struct MemoryDevice {
    written: Vec<u8>,
    incoming: Cursor<Vec<u8>>,
}

impl MemoryDevice {
    fn answering(answer: Vec<u8>) -> Self {
        Self {
            written: Vec::new(),
            incoming: Cursor::new(answer),
        }
    }
}

impl Read for MemoryDevice {
    fn read(&mut self, buf: &mut [u8]) -> std::io::Result<usize> {
        self.incoming.read(buf)
    }
}

impl Write for MemoryDevice {
    fn write(&mut self, buf: &[u8]) -> std::io::Result<usize> {
        self.written.extend_from_slice(buf);
        Ok(buf.len())
    }

    fn flush(&mut self) -> std::io::Result<()> {
        Ok(())
    }
}

/// What comes of one stage of an exchange.
fn perform<T: Read + Write>(transport: &mut T, stage: &Stage) -> std::io::Result<Vec<u8>> {
    let mut received = vec![0_u8; stage.wanted()];
    match stage {
        Stage::Write(bytes) => transport.write_all(bytes)?,
        Stage::Flush => transport.flush()?,
        Stage::ReadHeader | Stage::ReadBody(_) => transport.read_exact(&mut received)?,
    }
    Ok(received)
}

/// A whole exchange over a transport.
fn exchange<T: Read + Write>(
    transport: &mut T,
    request: &ReadRequest,
) -> Result<Vec<u16>, ExchangeError> {
    let mut stage = begin(request);
    loop {
        let outcome = perform(transport, &stage);
        match read_registers(request, stage, outcome) {
            Step::Next(next) => stage = next,
            Step::Done(result) => return result,
        }
    }
}

/// What a kind makes of words, as the number it stands for.
fn decode(kind: RegisterKind, words: &[u16]) -> Result<f64, ModbusError> {
    kind.decode(words).map(|reading| match reading {
        Reading::Integer(value) => value as f64,
        Reading::Binary32(bits) => f64::from(f32::from_bits(bits)),
    })
}

/// A scale from the number it stands for.
fn scale_of(factor: f64) -> Result<Scale, ModbusError> {
    Scale::new(factor.to_bits())
}

#[test]
fn function_code_has_exactly_the_two_read_bytes() {
    assert_eq!(FunctionCode::ReadHoldingRegisters.code(), 3);
    assert_eq!(FunctionCode::ReadInputRegisters.code(), 4);
    assert_eq!(wire_byte(FunctionCode::ReadHoldingRegisters), 3);
    assert_eq!(wire_byte(FunctionCode::ReadInputRegisters), 4);
}

#[test]
fn holding_read_encodes_to_the_named_frame() {
    let frame = holding_read(1).encode();

    assert_eq!(frame, HOLDING_REQUEST);
}

#[test]
fn input_read_differs_from_holding_only_at_the_function_code() {
    let holding = holding_read(1).encode();
    let input = input_read(1).encode();

    assert_eq!(holding, HOLDING_REQUEST);
    assert_eq!(input, INPUT_REQUEST);
    let differing: Vec<usize> = holding
        .iter()
        .zip(&input)
        .enumerate()
        .filter(|(_, (left, right))| left != right)
        .map(|(index, _)| index)
        .collect();
    assert_eq!(differing, vec![7]);
    assert_eq!((holding[7], input[7]), (3, 4));
}

#[test]
fn holding_reply_decodes_to_the_named_registers() {
    let registers = holding_read(1).decode(&HOLDING_REPLY);

    assert_eq!(registers, Ok(vec![42, 400]));
}

#[test]
fn exception_0x83_code_2_is_illegal_data_address() {
    let refused = holding_read(1).decode(&EXCEPTION_REPLY);

    assert_eq!(
        refused,
        Err(ModbusError::Exception {
            function: 3,
            code: ExceptionCode::IllegalDataAddress,
        })
    );
}

#[test]
fn a_reply_with_a_different_transaction_id_is_a_mismatch() {
    let refused = holding_read(2).decode(&HOLDING_REPLY);

    assert_eq!(
        refused,
        Err(ModbusError::TransactionMismatch {
            expected: 2,
            found: 1,
        })
    );
}

#[test]
fn f32be_decodes_the_named_float() {
    assert_eq!(decode(RegisterKind::F32Be, &[0x4248, 0x0000]), Ok(50.0));
}

#[test]
fn i16_decodes_the_named_signed_word() {
    assert_eq!(decode(RegisterKind::I16, &[0xFF38]), Ok(-200.0));
}

#[test]
fn u32be_decodes_the_named_wide_integer() {
    assert_eq!(decode(RegisterKind::U32Be, &[0x0001, 0x86A0]), Ok(100_000.0));
}

#[test]
fn the_same_word_is_unsigned_or_signed_by_kind() {
    assert_eq!(decode(RegisterKind::U16, &[0xFFFF]), Ok(65_535.0));
    assert_eq!(decode(RegisterKind::I16, &[0xFFFF]), Ok(-1.0));
}

#[test]
fn a_tenth_scale_applies_and_zero_and_nan_are_errors() {
    let scaled = 2500.0 * f64::from_bits(scale_of(0.1).unwrap().get());

    assert!((scaled - 250.0).abs() < 1e-9);
    assert_eq!(scale_of(0.0), Err(ModbusError::ZeroScale));
    assert_eq!(scale_of(f64::NAN), Err(ModbusError::NonFiniteScale));
}

#[test]
fn register_count_ceiling_is_125() {
    assert_eq!(MAX_REGISTERS, 125);
    assert_eq!(
        RegisterCount::new(126),
        Err(ModbusError::TooManyRegisters {
            count: 126,
            max: 125,
        })
    );
    assert_eq!(RegisterCount::new(0), Err(ModbusError::EmptyRead));
}

#[test]
fn unit_id_refuses_broadcast_and_reserved() {
    assert_eq!(UnitId::new(0), Err(ModbusError::BroadcastUnit));
    assert_eq!(
        UnitId::new(250),
        Err(ModbusError::ReservedUnit { unit: 250 })
    );
    assert_eq!(UnitId::new(1).map(UnitId::get), Ok(1));
    assert_eq!(UnitId::new(247).map(UnitId::get), Ok(247));
    assert_eq!(UnitId::new(255).map(UnitId::get), Ok(255));
}

#[test]
fn read_registers_writes_the_request_and_returns_the_reply() {
    let request = holding_read(1);
    let mut device = MemoryDevice::answering(HOLDING_REPLY.to_vec());

    let registers = match exchange(&mut device, &request) {
        Ok(words) => words,
        Err(ExchangeError::Modbus(err)) => panic!("modbus: {}", err.to_string()),
        Err(ExchangeError::Io(err)) => panic!("io: {err}"),
    };

    assert_eq!(registers, vec![42, 400]);
    assert_eq!(device.written, HOLDING_REQUEST);
}
