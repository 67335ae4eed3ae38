//! The line an operator reads for each refusal.

use modbus_read::{ExceptionCode, ModbusError};

#[test]
fn every_refusal_says_what_was_expected_beside_what_was_found() {
    let lines = [
        (
            ModbusError::BroadcastUnit,
            "unit id 0 is a broadcast, which no device answers; a read needs an addressed unit",
        ),
        (
            ModbusError::ReservedUnit { unit: 250 },
            "unit id 250 is reserved by the specification (248-254)",
        ),
        (
            ModbusError::EmptyRead,
            "a read of no registers asks a device for nothing",
        ),
        (
            ModbusError::TooManyRegisters { count: 126, max: 125 },
            "a read of 126 registers is above the 125 this function code can answer",
        ),
        (
            ModbusError::PastEndOfAddressSpace { start: 65_535, count: 2 },
            "a read of 2 registers from 65535 runs past the end of the address space",
        ),
        (
            ModbusError::TooShort { expected: 8, found: 0 },
            "the reply is 0 bytes, too few for the 8 this frame needs",
        ),
        (
            ModbusError::ProtocolId { found: 1 },
            "the reply carries protocol id 1, so it is not Modbus",
        ),
        (
            ModbusError::LengthOutOfRange { declared: 255, min: 2, max: 254 },
            "the reply declares 255 bytes, outside the 2 to 254 a frame can carry",
        ),
        (
            ModbusError::LengthMismatch { declared: 7, found: 5 },
            "the reply declares 7 bytes and carries 5",
        ),
        (
            ModbusError::TransactionMismatch { expected: 2, found: 1 },
            "the reply answers transaction 1, and this read is transaction 2",
        ),
        (
            ModbusError::UnitMismatch { expected: 1, found: 9 },
            "the reply comes from unit 9, and this read went to unit 1",
        ),
        (
            ModbusError::FunctionMismatch { expected: 4, found: 3 },
            "the reply carries function code 3, and this read used 4",
        ),
        (
            ModbusError::Exception { function: 3, code: ExceptionCode::IllegalDataAddress },
            "the device refused function code 3: illegal data address (2)",
        ),
        (
            ModbusError::ByteCountMismatch { declared: 2, expected: 4 },
            "the reply carries 2 bytes of registers, and this read asked for 4",
        ),
        (
            ModbusError::InconsistentLength { declared: 8, byte_count: 4 },
            "the reply's header declares 8 bytes and its byte count implies 4",
        ),
        (
            ModbusError::WordCount { kind: "u32be", expected: 2, found: 1 },
            "a u32be reads 2 registers and was handed 1",
        ),
        (
            ModbusError::NonFiniteScale,
            "a register scale is a finite number",
        ),
        (
            ModbusError::ZeroScale,
            "a scale of zero reads every register as nothing",
        ),
    ];

    for (error, line) in lines {
        assert_eq!(error.to_string(), line);
    }
}

#[test]
fn a_number_prints_every_digit_it_has() {
    let error = ModbusError::TooShort { expected: 1_234_567_890, found: usize::MAX };

    assert_eq!(
        error.to_string(),
        format!(
            "the reply is {} bytes, too few for the 1234567890 this frame needs",
            usize::MAX
        )
    );
}

#[test]
fn an_exception_prints_its_name_and_its_byte() {
    let lines = [
        (1, "illegal function (1)"),
        (2, "illegal data address (2)"),
        (3, "illegal data value (3)"),
        (4, "server device failure (4)"),
        (5, "acknowledge (5)"),
        (6, "server device busy (6)"),
        (7, "negative acknowledge (7)"),
        (8, "memory parity error (8)"),
        (9, "an exception this specification does not define (9)"),
        (10, "gateway path unavailable (10)"),
        (11, "gateway target device failed to respond (11)"),
        (255, "an exception this specification does not define (255)"),
    ];

    for (byte, line) in lines {
        assert_eq!(ExceptionCode::from(byte).to_string(), line);
    }
}
