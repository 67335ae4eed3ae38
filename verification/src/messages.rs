//! What an operator reads, line by line.

use vstd::prelude::*;

use crate::error::{ExceptionCode, ModbusError};
use crate::exchange::ExchangeError;
use crate::replies;
use crate::text;

verus! {

/// What each exception is called, and the byte a device sends for it.
pub proof fn exceptions_have_names_and_bytes(code: ExceptionCode, name: &'static str, byte: u8)
    requires
        call_ensures(ExceptionCode::name, (code,), name),
        call_ensures(ExceptionCode::byte, (code,), byte),
    ensures
        code is IllegalFunction ==> name@ == "illegal function"@ && byte == 1,
        code is IllegalDataAddress ==> name@ == "illegal data address"@ && byte == 2,
        code is IllegalDataValue ==> name@ == "illegal data value"@ && byte == 3,
        code is ServerDeviceFailure ==> name@ == "server device failure"@ && byte == 4,
        code is Acknowledge ==> name@ == "acknowledge"@ && byte == 5,
        code is ServerDeviceBusy ==> name@ == "server device busy"@ && byte == 6,
        code is NegativeAcknowledge ==> name@ == "negative acknowledge"@ && byte == 7,
        code is MemoryParityError ==> name@ == "memory parity error"@ && byte == 8,
        code is GatewayPathUnavailable ==> name@ == "gateway path unavailable"@ && byte == 10,
        code is GatewayTargetNoResponse ==> name@ == "gateway target device failed to respond"@ && byte == 11,
        code is Other ==> name@ == "an exception this specification does not define"@,
        code matches ExceptionCode::Other(other) ==> byte == other,
        name@ == code.title(),
        byte == code.wire(),
{
}

/// A byte that a device sends is the byte of the exception it is read as.
pub proof fn a_byte_is_read_as_its_exception(byte: u8, code: ExceptionCode, back: u8)
    requires
        call_ensures(<ExceptionCode as From<u8>>::from, (byte,), code),
        call_ensures(ExceptionCode::byte, (code,), back),
    ensures
        back == byte,
        code is Other <==> byte == 0 || byte == 9 || byte >= 12,
{
    replies::each_byte_names_its_exception(byte);
}

/// An exception is printed as its name and, in brackets, its byte.
pub proof fn an_exception_is_printed(
    code: ExceptionCode,
    name: &'static str,
    byte: u8,
    text: String,
)
    requires
        call_ensures(ExceptionCode::name, (code,), name),
        call_ensures(ExceptionCode::byte, (code,), byte),
        call_ensures(ExceptionCode::to_string, (&code,), text),
    ensures
        text@ == name@ + " ("@ + text::decimal(byte as nat) + ")"@,
        text@ == code.text(),
{
}

/// The line that each refusal is printed as, whatever numbers it carries.
pub proof fn a_refusal_is_printed(error: ModbusError, text: String)
    requires
        call_ensures(ModbusError::to_string, (&error,), text),
    ensures
        error matches ModbusError::BroadcastUnit ==> text@
            == "unit id 0 is a broadcast, which no device answers; a read needs an addressed unit"@,
        error matches ModbusError::ReservedUnit { unit } ==> text@
            == "unit id "@
            + text::decimal(unit as nat)
            + " is reserved by the specification (248-254)"@,
        error matches ModbusError::EmptyRead ==> text@
            == "a read of no registers asks a device for nothing"@,
        error matches ModbusError::TooManyRegisters { count, max } ==> text@
            == "a read of "@
            + text::decimal(count as nat)
            + " registers is above the "@
            + text::decimal(max as nat)
            + " this function code can answer"@,
        error matches ModbusError::PastEndOfAddressSpace { start, count } ==> text@
            == "a read of "@
            + text::decimal(count as nat)
            + " registers from "@
            + text::decimal(start as nat)
            + " runs past the end of the address space"@,
        error matches ModbusError::TooShort { expected, found } ==> text@
            == "the reply is "@
            + text::decimal(found as nat)
            + " bytes, too few for the "@
            + text::decimal(expected as nat)
            + " this frame needs"@,
        error matches ModbusError::ProtocolId { found } ==> text@
            == "the reply carries protocol id "@
            + text::decimal(found as nat)
            + ", so it is not Modbus"@,
        error matches ModbusError::LengthOutOfRange { declared, min, max } ==> text@
            == "the reply declares "@
            + text::decimal(declared as nat)
            + " bytes, outside the "@
            + text::decimal(min as nat)
            + " to "@
            + text::decimal(max as nat)
            + " a frame can carry"@,
        error matches ModbusError::LengthMismatch { declared, found } ==> text@
            == "the reply declares "@
            + text::decimal(declared as nat)
            + " bytes and carries "@
            + text::decimal(found as nat),
        error matches ModbusError::TransactionMismatch { expected, found } ==> text@
            == "the reply answers transaction "@
            + text::decimal(found as nat)
            + ", and this read is transaction "@
            + text::decimal(expected as nat),
        error matches ModbusError::UnitMismatch { expected, found } ==> text@
            == "the reply comes from unit "@
            + text::decimal(found as nat)
            + ", and this read went to unit "@
            + text::decimal(expected as nat),
        error matches ModbusError::FunctionMismatch { expected, found } ==> text@
            == "the reply carries function code "@
            + text::decimal(found as nat)
            + ", and this read used "@
            + text::decimal(expected as nat),
        error matches ModbusError::Exception { function, code } ==> text@
            == "the device refused function code "@
            + text::decimal(function as nat)
            + ": "@
            + code.text(),
        error matches ModbusError::ByteCountMismatch { declared, expected } ==> text@
            == "the reply carries "@
            + text::decimal(declared as nat)
            + " bytes of registers, and this read asked for "@
            + text::decimal(expected as nat),
        error matches ModbusError::InconsistentLength { declared, byte_count } ==> text@
            == "the reply's header declares "@
            + text::decimal(declared as nat)
            + " bytes and its byte count implies "@
            + text::decimal(byte_count as nat),
        error matches ModbusError::WordCount { kind, expected, found } ==> text@
            == "a "@
            + kind@
            + " reads "@
            + text::decimal(expected as nat)
            + " registers and was handed "@
            + text::decimal(found as nat),
        error matches ModbusError::NonFiniteScale ==> text@
            == "a register scale is a finite number"@,
        error matches ModbusError::ZeroScale ==> text@
            == "a scale of zero reads every register as nothing"@,
{
}

/// A refused frame is printed as its own refusal.
pub proof fn a_refused_frame_is_printed(error: ModbusError, inner: String, outer: String)
    requires
        call_ensures(ModbusError::to_string, (&error,), inner),
        call_ensures(ExchangeError::to_string, (&ExchangeError::Modbus(error),), outer),
    ensures
        outer@ == inner@,
{
}

/// A transport's failure is printed behind what it interrupted.
pub proof fn a_failure_is_printed(error: std::io::Error, text: String)
    requires
        call_ensures(ExchangeError::to_string, (&ExchangeError::Io(error),), text),
    ensures
        exists|reason: String|
            {
                &&& #[trigger] vstd::string::to_string_from_display_ensures(&error, reason)
                &&& text@ == "the transport failed during a register read: "@ + reason@
            },
{
}

/// A refusal reaches the caller as itself, and so does a failure.
pub proof fn an_exchange_error_keeps_its_cause(
    error: ModbusError,
    refusal: ExchangeError,
    cause: std::io::Error,
    failure: ExchangeError,
)
    requires
        call_ensures(<ExchangeError as From<ModbusError>>::from, (error,), refusal),
        call_ensures(<ExchangeError as From<std::io::Error>>::from, (cause,), failure),
    ensures
        refusal == ExchangeError::Modbus(error),
        failure == ExchangeError::Io(cause),
{
}

} // verus!
