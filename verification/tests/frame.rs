//! Frames: how a read is spelled, and what a reply is taken for.

use modbus_read::{
    ExceptionCode, FunctionCode, ModbusError, ReadRequest, RegisterAddress, RegisterCount,
    TransactionId, UnitId, MAX_REGISTERS,
};

/// Every named exception code, so a test can walk them all.
const NAMED_EXCEPTIONS: [ExceptionCode; 10] = [
    ExceptionCode::IllegalFunction,
    ExceptionCode::IllegalDataAddress,
    ExceptionCode::IllegalDataValue,
    ExceptionCode::ServerDeviceFailure,
    ExceptionCode::Acknowledge,
    ExceptionCode::ServerDeviceBusy,
    ExceptionCode::NegativeAcknowledge,
    ExceptionCode::MemoryParityError,
    ExceptionCode::GatewayPathUnavailable,
    ExceptionCode::GatewayTargetNoResponse,
];

/// A frame with the header a test names, however wrong.
fn framed(transaction: u16, protocol: u16, declared: u16, tail: &[u8]) -> Vec<u8> {
    let mut frame = Vec::new();
    frame.extend_from_slice(&transaction.to_be_bytes());
    frame.extend_from_slice(&protocol.to_be_bytes());
    frame.extend_from_slice(&declared.to_be_bytes());
    frame.extend_from_slice(tail);
    frame
}

/// A well-framed reply: Modbus, and as long as it says it is.
fn reply(transaction: u16, unit: u8, function: u8, pdu: &[u8]) -> Vec<u8> {
    let mut tail = vec![unit, function];
    tail.extend_from_slice(pdu);
    let declared = u16::try_from(tail.len()).expect("a test's reply is short");
    framed(transaction, 0, declared, &tail)
}

/// A request built from values a test names, so each test says only what
/// it is about.
fn request(
    transaction: u16,
    unit: u8,
    function: FunctionCode,
    start: u16,
    count: u16,
) -> ReadRequest {
    ReadRequest::new(
        TransactionId::new(transaction),
        UnitId::new(unit).expect("a test's unit id is addressed"),
        function,
        RegisterAddress::new(start),
        RegisterCount::new(count).expect("a test's register count is within the ceiling"),
    )
    .expect("a test's read stays inside the address space")
}

/// Synthetic holding-register read: function code 3, unit 1, address 0,
/// count 2. The bytes are invented; they are not a capture from a device.
#[test]
fn a_holding_register_read_encodes_to_the_named_frame() {
    let read = request(1, 1, FunctionCode::ReadHoldingRegisters, 0, 2);

    let frame = read.encode();

    assert_eq!(
        frame,
        vec![0x00, 0x01, 0x00, 0x00, 0x00, 0x06, 0x01, 0x03, 0x00, 0x00, 0x00, 0x02]
    );
}

/// Input registers are the same read of a different table, so the frames
/// differ in the function code and nowhere else.
#[test]
fn an_input_register_read_differs_from_a_holding_read_in_one_byte() {
    let holding = request(1, 1, FunctionCode::ReadHoldingRegisters, 0, 2).encode();
    let input = request(1, 1, FunctionCode::ReadInputRegisters, 0, 2).encode();

    let differing: Vec<usize> = holding
        .iter()
        .zip(input.iter())
        .enumerate()
        .filter(|(_, (left, right))| left != right)
        .map(|(index, _)| index)
        .collect();

    assert_eq!(differing, vec![7]);
    assert_eq!((holding[7], input[7]), (3, 4));
}

#[test]
fn a_read_high_in_the_map_encodes_its_transaction_address_and_count() {
    let read = request(0x1234, 17, FunctionCode::ReadInputRegisters, 0x0100, 125);

    let frame = read.encode();

    assert_eq!(
        frame,
        vec![0x12, 0x34, 0x00, 0x00, 0x00, 0x06, 0x11, 0x04, 0x01, 0x00, 0x00, 0x7d]
    );
}

#[test]
fn the_two_function_codes_are_three_and_four() {
    assert_eq!(FunctionCode::ReadHoldingRegisters.code(), 3);
    assert_eq!(FunctionCode::ReadInputRegisters.code(), 4);
}

#[test]
fn a_broadcast_unit_is_refused() {
    let refused = UnitId::new(0);

    assert_eq!(refused, Err(ModbusError::BroadcastUnit));
}

#[test]
fn a_reserved_unit_is_refused_by_number() {
    let refused = UnitId::new(250);

    assert_eq!(refused, Err(ModbusError::ReservedUnit { unit: 250 }));
}

/// 255 is the specification's own value for a device that has no serial
/// line behind it, and 247 is the top of the addressable range.
#[test]
fn an_addressed_unit_is_accepted_including_the_edges() {
    for unit in [1, 247, 255] {
        assert_eq!(UnitId::new(unit).map(UnitId::get), Ok(unit));
    }
}

#[test]
fn a_read_of_no_registers_is_refused() {
    let refused = RegisterCount::new(0);

    assert_eq!(refused, Err(ModbusError::EmptyRead));
}

#[test]
fn a_read_above_the_protocols_ceiling_is_refused_naming_it() {
    let refused = RegisterCount::new(126);

    assert_eq!(
        refused,
        Err(ModbusError::TooManyRegisters {
            count: 126,
            max: MAX_REGISTERS,
        })
    );
}

#[test]
fn a_read_at_the_ceiling_is_accepted() {
    let count = RegisterCount::new(MAX_REGISTERS);

    assert_eq!(count.map(RegisterCount::get), Ok(MAX_REGISTERS));
}

#[test]
fn a_register_count_says_how_many_bytes_it_is_owed() {
    let count = RegisterCount::new(2).expect("two registers");

    assert_eq!(count.byte_count(), 4);
}

#[test]
fn a_read_running_past_the_end_of_the_address_space_is_refused() {
    let refused = ReadRequest::new(
        TransactionId::new(1),
        UnitId::new(1).expect("an addressed unit"),
        FunctionCode::ReadHoldingRegisters,
        RegisterAddress::new(u16::MAX),
        RegisterCount::new(2).expect("two registers"),
    );

    assert_eq!(
        refused,
        Err(ModbusError::PastEndOfAddressSpace {
            start: u16::MAX,
            count: 2,
        })
    );
}

/// The last two registers in the map are a read, not an overrun: the
/// boundary is the end of the space, not the last address.
#[test]
fn a_read_ending_on_the_last_register_is_accepted() {
    let read = ReadRequest::new(
        TransactionId::new(1),
        UnitId::new(1).expect("an addressed unit"),
        FunctionCode::ReadHoldingRegisters,
        RegisterAddress::new(u16::MAX - 1),
        RegisterCount::new(2).expect("two registers"),
    );

    assert!(read.is_ok());
}

#[test]
fn a_normal_reply_decodes_to_its_register_words() {
    let read = request(1, 1, FunctionCode::ReadHoldingRegisters, 0, 2);
    let frame = reply(1, 1, 3, &[4, 0x00, 0x2a, 0x01, 0x90]);

    let registers = read.decode(&frame);

    assert_eq!(registers, Ok(vec![42, 400]));
}

/// Synthetic exception reply: unit 1, function code 3 refused, illegal
/// data address. Invented bytes; not a capture from a device.
#[test]
fn the_named_exception_reply_is_an_illegal_data_address() {
    let read = request(1, 1, FunctionCode::ReadHoldingRegisters, 0, 2);
    let frame = reply(1, 1, 0x83, &[2]);

    let refused = read.decode(&frame);

    assert_eq!(
        refused,
        Err(ModbusError::Exception {
            function: 3,
            code: ExceptionCode::IllegalDataAddress,
        })
    );
    assert!(refused
        .unwrap_err()
        .to_string()
        .contains("illegal data address"));
}

#[test]
fn an_input_register_read_reports_its_own_exception() {
    let read = request(1, 1, FunctionCode::ReadInputRegisters, 0, 2);
    let frame = reply(1, 1, 0x84, &[11]);

    let refused = read.decode(&frame);

    assert_eq!(
        refused,
        Err(ModbusError::Exception {
            function: 4,
            code: ExceptionCode::GatewayTargetNoResponse,
        })
    );
}

#[test]
fn an_exception_code_the_specification_does_not_define_is_reported_as_itself() {
    let read = request(1, 1, FunctionCode::ReadHoldingRegisters, 0, 2);
    let frame = reply(1, 1, 0x83, &[99]);

    let refused = read.decode(&frame);

    assert_eq!(
        refused,
        Err(ModbusError::Exception {
            function: 3,
            code: ExceptionCode::Other(99),
        })
    );
}

#[test]
fn every_named_exception_code_round_trips_through_its_byte() {
    for code in NAMED_EXCEPTIONS {
        assert_eq!(ExceptionCode::from(code.byte()), code);
        assert!(!code.name().is_empty());
    }

    assert_eq!(ExceptionCode::Other(99).byte(), 99);
}

#[test]
fn an_empty_frame_is_too_short() {
    let read = request(1, 1, FunctionCode::ReadHoldingRegisters, 0, 2);

    let refused = read.decode(&[]);

    assert_eq!(
        refused,
        Err(ModbusError::TooShort {
            expected: 8,
            found: 0,
        })
    );
}

#[test]
fn a_header_with_no_body_is_too_short() {
    let read = request(1, 1, FunctionCode::ReadHoldingRegisters, 0, 2);
    let frame = framed(1, 0, 2, &[]);

    let refused = read.decode(&frame);

    assert_eq!(
        refused,
        Err(ModbusError::TooShort {
            expected: 8,
            found: 6,
        })
    );
}

#[test]
fn a_frame_that_is_not_modbus_is_refused_by_its_protocol_id() {
    let read = request(1, 1, FunctionCode::ReadHoldingRegisters, 0, 2);
    let frame = framed(1, 1, 2, &[1, 3]);

    let refused = read.decode(&frame);

    assert_eq!(refused, Err(ModbusError::ProtocolId { found: 1 }));
}

#[test]
fn a_declared_length_outside_what_a_frame_can_carry_is_refused() {
    let read = request(1, 1, FunctionCode::ReadHoldingRegisters, 0, 2);
    let too_small = framed(1, 0, 1, &[1, 3]);
    let too_large = framed(1, 0, 255, &[1, 3]);

    let refusals = [read.decode(&too_small), read.decode(&too_large)];

    assert_eq!(
        refusals,
        [
            Err(ModbusError::LengthOutOfRange {
                declared: 1,
                min: 2,
                max: 254,
            }),
            Err(ModbusError::LengthOutOfRange {
                declared: 255,
                min: 2,
                max: 254,
            }),
        ]
    );
}

/// A frame cut short in transit declares more than it carries. Decoding
/// what arrived would report registers the device never sent.
#[test]
fn a_reply_that_declares_more_than_it_carries_is_refused() {
    let read = request(1, 1, FunctionCode::ReadHoldingRegisters, 0, 2);
    let frame = framed(1, 0, 7, &[1, 3, 4, 0x00, 0x2a]);

    let refused = read.decode(&frame);

    assert_eq!(
        refused,
        Err(ModbusError::LengthMismatch {
            declared: 7,
            found: 5,
        })
    );
}

/// The frame a device left behind after the caller gave up on it: whole,
/// well-formed, and an answer to the previous read.
#[test]
fn a_reply_to_another_transaction_is_refused_rather_than_decoded() {
    let read = request(2, 1, FunctionCode::ReadHoldingRegisters, 0, 2);
    let stale = reply(1, 1, 3, &[4, 0x00, 0x2a, 0x01, 0x90]);

    let refused = read.decode(&stale);

    assert_eq!(
        refused,
        Err(ModbusError::TransactionMismatch {
            expected: 2,
            found: 1,
        })
    );
}

#[test]
fn a_reply_from_another_unit_is_refused() {
    let read = request(1, 1, FunctionCode::ReadHoldingRegisters, 0, 2);
    let frame = reply(1, 9, 3, &[4, 0x00, 0x2a, 0x01, 0x90]);

    let refused = read.decode(&frame);

    assert_eq!(
        refused,
        Err(ModbusError::UnitMismatch {
            expected: 1,
            found: 9,
        })
    );
}

#[test]
fn a_reply_carrying_another_function_code_is_refused() {
    let read = request(1, 1, FunctionCode::ReadInputRegisters, 0, 2);
    let frame = reply(1, 1, 3, &[4, 0x00, 0x2a, 0x01, 0x90]);

    let refused = read.decode(&frame);

    assert_eq!(
        refused,
        Err(ModbusError::FunctionMismatch {
            expected: 4,
            found: 3,
        })
    );
}

#[test]
fn a_reply_with_fewer_registers_than_were_asked_for_is_refused() {
    let read = request(1, 1, FunctionCode::ReadHoldingRegisters, 0, 2);
    let frame = reply(1, 1, 3, &[2, 0x00, 0x2a]);

    let refused = read.decode(&frame);

    assert_eq!(
        refused,
        Err(ModbusError::ByteCountMismatch {
            declared: 2,
            expected: 4,
        })
    );
}

#[test]
fn a_reply_whose_header_and_byte_count_disagree_is_refused() {
    let read = request(1, 1, FunctionCode::ReadHoldingRegisters, 0, 2);
    let frame = reply(1, 1, 3, &[4, 0x00, 0x2a, 0x01, 0x90, 0x00]);

    let refused = read.decode(&frame);

    assert_eq!(
        refused,
        Err(ModbusError::InconsistentLength {
            declared: 8,
            byte_count: 4,
        })
    );
}

#[test]
fn a_reply_with_no_byte_count_is_too_short() {
    let read = request(1, 1, FunctionCode::ReadHoldingRegisters, 0, 2);
    let frame = reply(1, 1, 3, &[]);

    let refused = read.decode(&frame);

    assert_eq!(
        refused,
        Err(ModbusError::TooShort {
            expected: 9,
            found: 8,
        })
    );
}

#[test]
fn an_exception_reply_with_no_code_is_too_short() {
    let read = request(1, 1, FunctionCode::ReadHoldingRegisters, 0, 2);
    let frame = reply(1, 1, 0x83, &[]);

    let refused = read.decode(&frame);

    assert_eq!(
        refused,
        Err(ModbusError::TooShort {
            expected: 9,
            found: 8,
        })
    );
}

/// The whole ceiling, decoded: 125 registers is the largest answer this
/// protocol can give, and it arrives as 125 words.
#[test]
fn a_reply_at_the_register_ceiling_decodes_to_every_word() {
    let read = request(1, 1, FunctionCode::ReadInputRegisters, 0, MAX_REGISTERS);
    let mut pdu = vec![250];
    for word in 0..MAX_REGISTERS {
        pdu.extend_from_slice(&word.to_be_bytes());
    }
    let frame = reply(1, 1, 4, &pdu);

    let registers = read.decode(&frame);

    assert_eq!(registers, Ok((0..MAX_REGISTERS).collect::<Vec<u16>>()));
}

#[test]
fn a_request_keeps_the_values_it_was_built_from() {
    let read = request(7, 9, FunctionCode::ReadInputRegisters, 100, 4);

    assert_eq!(read.transaction().get(), 7);
    assert_eq!(read.unit().get(), 9);
    assert_eq!(read.function(), FunctionCode::ReadInputRegisters);
    assert_eq!(read.start().get(), 100);
    assert_eq!(read.count().get(), 4);
}

/// Every unit id there is: addressed, broadcast or reserved.
#[test]
fn every_unit_is_judged() {
    for unit in 0..=u8::MAX {
        let expected = match unit {
            0 => Err(ModbusError::BroadcastUnit),
            248..=254 => Err(ModbusError::ReservedUnit { unit }),
            _ => Ok(unit),
        };
        assert_eq!(UnitId::new(unit).map(UnitId::get), expected);
    }
}

/// Every byte but the named ones is reported as itself, and keeps its byte.
#[test]
fn every_byte_is_an_exception_that_keeps_it() {
    for byte in 0..=u8::MAX {
        let code = ExceptionCode::from(byte);

        assert_eq!(code.byte(), byte);
        let named = NAMED_EXCEPTIONS.contains(&code);
        assert_eq!(code == ExceptionCode::Other(byte), !named);
    }
    assert_eq!(
        ExceptionCode::from(ExceptionCode::Other(1).byte()),
        ExceptionCode::IllegalFunction
    );
}

/// A write cannot be spelled, and a frame spells one request.
#[test]
fn no_two_reads_share_a_frame_and_none_writes() {
    let mut frames = Vec::new();
    for transaction in [0, 1, 0x0100] {
        for unit in [1, 255] {
            for function in [
                FunctionCode::ReadHoldingRegisters,
                FunctionCode::ReadInputRegisters,
            ] {
                for start in [0, 1, 0x0100] {
                    for count in [1, 125] {
                        frames.push(request(transaction, unit, function, start, count).encode());
                    }
                }
            }
        }
    }

    for (at, frame) in frames.iter().enumerate() {
        assert_eq!(frame.len(), 12);
        assert!(frame[7] == 3 || frame[7] == 4);
        assert!(!frames[..at].contains(frame));
    }
}

/// No answer is taken from a frame cut anywhere, or from one with more behind
/// it.
#[test]
fn a_cut_or_an_overlong_reply_is_refused() {
    let read = request(1, 1, FunctionCode::ReadHoldingRegisters, 0, 2);
    let whole = reply(1, 1, 3, &[4, 0x00, 0x2a, 0x01, 0x90]);

    for kept in 0..8 {
        assert_eq!(
            read.decode(&whole[..kept]),
            Err(ModbusError::TooShort {
                expected: 8,
                found: kept,
            })
        );
    }
    for (kept, found) in [(8, 2), (9, 3), (10, 4), (11, 5), (12, 6)] {
        assert_eq!(
            read.decode(&whole[..kept]),
            Err(ModbusError::LengthMismatch { declared: 7, found })
        );
    }
    let mut overlong = whole.clone();
    overlong.push(0);
    assert_eq!(
        read.decode(&overlong),
        Err(ModbusError::LengthMismatch {
            declared: 7,
            found: 8,
        })
    );
}

/// More bytes than a length field can count are reported as its largest value.
#[test]
fn a_frame_longer_than_a_length_can_say_is_refused() {
    let read = request(1, 1, FunctionCode::ReadHoldingRegisters, 0, 2);
    let mut long = reply(1, 1, 3, &[4, 0x00, 0x2a, 0x01, 0x90]);
    long.resize(6 + 70_000, 0);

    assert_eq!(
        read.decode(&long),
        Err(ModbusError::LengthMismatch {
            declared: 7,
            found: u16::MAX,
        })
    );
}

/// One frame answers one read: change what a reply echoes, and it is refused.
#[test]
fn a_frame_answers_the_one_read_it_echoes() {
    let frame = reply(1, 1, 3, &[2, 0x12, 0x34]);

    assert_eq!(
        request(1, 1, FunctionCode::ReadHoldingRegisters, 40, 1).decode(&frame),
        Ok(vec![0x1234])
    );
    for other in [
        request(2, 1, FunctionCode::ReadHoldingRegisters, 40, 1),
        request(1, 2, FunctionCode::ReadHoldingRegisters, 40, 1),
        request(1, 1, FunctionCode::ReadInputRegisters, 40, 1),
        request(1, 1, FunctionCode::ReadHoldingRegisters, 40, 2),
    ] {
        assert!(other.decode(&frame).is_err());
    }
}

/// Any reason a device gives is reported, for either function code.
#[test]
fn a_refusal_reports_its_reason() {
    for (function, byte) in [
        (FunctionCode::ReadHoldingRegisters, 0x83),
        (FunctionCode::ReadInputRegisters, 0x84),
    ] {
        let read = request(3, 4, function, 0, 1);
        for code in 0..=u8::MAX {
            assert_eq!(
                read.decode(&reply(3, 4, byte, &[code])),
                Err(ModbusError::Exception {
                    function: function.code(),
                    code: ExceptionCode::from(code),
                })
            );
        }
    }
}

#[test]
fn a_copy_of_a_request_is_the_request() {
    let read = request(7, 9, FunctionCode::ReadInputRegisters, 100, 4);

    assert_eq!(read.clone(), read);
    assert_eq!(read.clone().encode(), read.encode());
}
