//! What a Modbus read refuses, and what a device says when it refuses.

use vstd::prelude::*;
use vstd::std_specs::convert::FromSpecImpl;

use crate::text;

verus! {

/// What a Modbus read refuses, on the way out and on the way back.
///
/// Every variant names what was expected beside what was found, because the
/// reader of this error is an operator holding a register map and a device
/// manual, and "length mismatch" alone sends them to a packet capture.
#[derive(Debug, Clone, PartialEq, Eq)]
pub enum ModbusError {
    /// Unit id 0 is a broadcast. No device answers a broadcast read.
    BroadcastUnit,
    /// Unit ids 248 to 254 are reserved by the protocol.
    ReservedUnit {
        /// The reserved unit id that was refused.
        unit: u8,
    },
    /// A read of zero registers asks a device for nothing.
    EmptyRead,
    /// Function codes 3 and 4 answer at most [`crate::MAX_REGISTERS`] words.
    TooManyRegisters {
        /// How many registers were asked for.
        count: u16,
        /// The protocol ceiling for this function code.
        max: u16,
    },
    /// The last register asked for sits past address 65 535.
    PastEndOfAddressSpace {
        /// Where the read started.
        start: u16,
        /// How many registers were asked for.
        count: u16,
    },
    /// The byte slice is shorter than a Modbus TCP reply needs.
    TooShort {
        /// How many bytes this step needed.
        expected: usize,
        /// How many bytes were present.
        found: usize,
    },
    /// The protocol id is not zero, so the frame is not Modbus.
    ProtocolId {
        /// The protocol id the frame carried.
        found: u16,
    },
    /// The length field is outside what a Modbus TCP frame can carry.
    LengthOutOfRange {
        /// The length field from the header.
        declared: u16,
        /// The smallest legal length.
        min: u16,
        /// The largest legal length.
        max: u16,
    },
    /// The length field does not match the bytes that follow it.
    LengthMismatch {
        /// The length field from the header.
        declared: u16,
        /// How many bytes followed the header, or 65 535 when more did.
        found: u16,
    },
    /// The reply echoed a different transaction id than this read used.
    TransactionMismatch {
        /// The transaction id this read used.
        expected: u16,
        /// The transaction id the reply echoed.
        found: u16,
    },
    /// The reply came from a different unit than this read addressed.
    UnitMismatch {
        /// The unit id this read addressed.
        expected: u8,
        /// The unit id the reply named.
        found: u8,
    },
    /// The reply carried a function code this read did not use.
    FunctionMismatch {
        /// The function code this read used.
        expected: u8,
        /// The function code the reply carried.
        found: u8,
    },
    /// The device refused the read and named a reason.
    Exception {
        /// The function code that was refused.
        function: u8,
        /// The reason the device gave.
        code: ExceptionCode,
    },
    /// The reply's byte count is not twice the register count that was asked.
    ByteCountMismatch {
        /// The byte count the reply declared.
        declared: u16,
        /// The byte count this read is owed.
        expected: u16,
    },
    /// The header length and the PDU byte count do not describe the same body.
    InconsistentLength {
        /// The length field from the header.
        declared: u16,
        /// The byte-count field from the PDU.
        byte_count: u8,
    },
    /// A decoder was handed the wrong number of 16-bit words.
    WordCount {
        /// The decoder's name.
        kind: &'static str,
        /// How many words that decoder needs.
        expected: u16,
        /// How many words were supplied.
        found: usize,
    },
    /// A scale factor must be a finite number.
    NonFiniteScale,
    /// A scale of zero would turn every register into nothing.
    ZeroScale,
}

impl ModbusError {
    /// The one line an operator reads for this refusal.
    pub open spec fn text(self) -> Seq<char> {
        match self {
            ModbusError::BroadcastUnit => {
                "unit id 0 is a broadcast, which no device answers; a read needs an addressed unit"@
            },
            ModbusError::ReservedUnit { unit } => {
                "unit id "@
                    + text::decimal(unit as nat)
                    + " is reserved by the specification (248-254)"@
            },
            ModbusError::EmptyRead => {
                "a read of no registers asks a device for nothing"@
            },
            ModbusError::TooManyRegisters { count, max } => {
                "a read of "@
                    + text::decimal(count as nat)
                    + " registers is above the "@
                    + text::decimal(max as nat)
                    + " this function code can answer"@
            },
            ModbusError::PastEndOfAddressSpace { start, count } => {
                "a read of "@
                    + text::decimal(count as nat)
                    + " registers from "@
                    + text::decimal(start as nat)
                    + " runs past the end of the address space"@
            },
            ModbusError::TooShort { expected, found } => {
                "the reply is "@
                    + text::decimal(found as nat)
                    + " bytes, too few for the "@
                    + text::decimal(expected as nat)
                    + " this frame needs"@
            },
            ModbusError::ProtocolId { found } => {
                "the reply carries protocol id "@
                    + text::decimal(found as nat)
                    + ", so it is not Modbus"@
            },
            ModbusError::LengthOutOfRange { declared, min, max } => {
                "the reply declares "@
                    + text::decimal(declared as nat)
                    + " bytes, outside the "@
                    + text::decimal(min as nat)
                    + " to "@
                    + text::decimal(max as nat)
                    + " a frame can carry"@
            },
            ModbusError::LengthMismatch { declared, found } => {
                "the reply declares "@
                    + text::decimal(declared as nat)
                    + " bytes and carries "@
                    + text::decimal(found as nat)
            },
            ModbusError::TransactionMismatch { expected, found } => {
                "the reply answers transaction "@
                    + text::decimal(found as nat)
                    + ", and this read is transaction "@
                    + text::decimal(expected as nat)
            },
            ModbusError::UnitMismatch { expected, found } => {
                "the reply comes from unit "@
                    + text::decimal(found as nat)
                    + ", and this read went to unit "@
                    + text::decimal(expected as nat)
            },
            ModbusError::FunctionMismatch { expected, found } => {
                "the reply carries function code "@
                    + text::decimal(found as nat)
                    + ", and this read used "@
                    + text::decimal(expected as nat)
            },
            ModbusError::Exception { function, code } => {
                "the device refused function code "@
                    + text::decimal(function as nat)
                    + ": "@
                    + code.text()
            },
            ModbusError::ByteCountMismatch { declared, expected } => {
                "the reply carries "@
                    + text::decimal(declared as nat)
                    + " bytes of registers, and this read asked for "@
                    + text::decimal(expected as nat)
            },
            ModbusError::InconsistentLength { declared, byte_count } => {
                "the reply's header declares "@
                    + text::decimal(declared as nat)
                    + " bytes and its byte count implies "@
                    + text::decimal(byte_count as nat)
            },
            ModbusError::WordCount { kind, expected, found } => {
                "a "@
                    + kind@
                    + " reads "@
                    + text::decimal(expected as nat)
                    + " registers and was handed "@
                    + text::decimal(found as nat)
            },
            ModbusError::NonFiniteScale => {
                "a register scale is a finite number"@
            },
            ModbusError::ZeroScale => {
                "a scale of zero reads every register as nothing"@
            },
        }
    }

    /// The one line an operator reads for this refusal.
    #[must_use]
    pub fn to_string(&self) -> (text: String)
        ensures
            text@ == self.text(),
    {
        let mut text = String::new();
        match self {
            ModbusError::BroadcastUnit => {
                text.append("unit id 0 is a broadcast, which no device answers; a read needs an addressed unit");
            },
            ModbusError::ReservedUnit { unit } => {
                text.append("unit id ");
                text::append_decimal(&mut text, *unit as u64);
                text.append(" is reserved by the specification (248-254)");
            },
            ModbusError::EmptyRead => {
                text.append("a read of no registers asks a device for nothing");
            },
            ModbusError::TooManyRegisters { count, max } => {
                text.append("a read of ");
                text::append_decimal(&mut text, *count as u64);
                text.append(" registers is above the ");
                text::append_decimal(&mut text, *max as u64);
                text.append(" this function code can answer");
            },
            ModbusError::PastEndOfAddressSpace { start, count } => {
                text.append("a read of ");
                text::append_decimal(&mut text, *count as u64);
                text.append(" registers from ");
                text::append_decimal(&mut text, *start as u64);
                text.append(" runs past the end of the address space");
            },
            ModbusError::TooShort { expected, found } => {
                text.append("the reply is ");
                text::append_decimal(&mut text, *found as u64);
                text.append(" bytes, too few for the ");
                text::append_decimal(&mut text, *expected as u64);
                text.append(" this frame needs");
            },
            ModbusError::ProtocolId { found } => {
                text.append("the reply carries protocol id ");
                text::append_decimal(&mut text, *found as u64);
                text.append(", so it is not Modbus");
            },
            ModbusError::LengthOutOfRange { declared, min, max } => {
                text.append("the reply declares ");
                text::append_decimal(&mut text, *declared as u64);
                text.append(" bytes, outside the ");
                text::append_decimal(&mut text, *min as u64);
                text.append(" to ");
                text::append_decimal(&mut text, *max as u64);
                text.append(" a frame can carry");
            },
            ModbusError::LengthMismatch { declared, found } => {
                text.append("the reply declares ");
                text::append_decimal(&mut text, *declared as u64);
                text.append(" bytes and carries ");
                text::append_decimal(&mut text, *found as u64);
            },
            ModbusError::TransactionMismatch { expected, found } => {
                text.append("the reply answers transaction ");
                text::append_decimal(&mut text, *found as u64);
                text.append(", and this read is transaction ");
                text::append_decimal(&mut text, *expected as u64);
            },
            ModbusError::UnitMismatch { expected, found } => {
                text.append("the reply comes from unit ");
                text::append_decimal(&mut text, *found as u64);
                text.append(", and this read went to unit ");
                text::append_decimal(&mut text, *expected as u64);
            },
            ModbusError::FunctionMismatch { expected, found } => {
                text.append("the reply carries function code ");
                text::append_decimal(&mut text, *found as u64);
                text.append(", and this read used ");
                text::append_decimal(&mut text, *expected as u64);
            },
            ModbusError::Exception { function, code } => {
                text.append("the device refused function code ");
                text::append_decimal(&mut text, *function as u64);
                text.append(": ");
                text.append(code.to_string().as_str());
            },
            ModbusError::ByteCountMismatch { declared, expected } => {
                text.append("the reply carries ");
                text::append_decimal(&mut text, *declared as u64);
                text.append(" bytes of registers, and this read asked for ");
                text::append_decimal(&mut text, *expected as u64);
            },
            ModbusError::InconsistentLength { declared, byte_count } => {
                text.append("the reply's header declares ");
                text::append_decimal(&mut text, *declared as u64);
                text.append(" bytes and its byte count implies ");
                text::append_decimal(&mut text, *byte_count as u64);
            },
            ModbusError::WordCount { kind, expected, found } => {
                text.append("a ");
                text.append(kind);
                text.append(" reads ");
                text::append_decimal(&mut text, *expected as u64);
                text.append(" registers and was handed ");
                text::append_decimal(&mut text, *found as u64);
            },
            ModbusError::NonFiniteScale => {
                text.append("a register scale is a finite number");
            },
            ModbusError::ZeroScale => {
                text.append("a scale of zero reads every register as nothing");
            },
        }
        assert(text@ =~= self.text());
        text
    }
}

/// Why a device refused a read, in its own words.
///
/// The protocol numbers these. A reply of 2 means the register the caller's
/// map points at is not on this device. "2" does not say that.
#[derive(Debug, Clone, Copy, PartialEq, Eq, Structural)]
pub enum ExceptionCode {
    /// Exception code 1. The function is not supported.
    IllegalFunction,
    /// Exception code 2. The address is not on this device.
    IllegalDataAddress,
    /// Exception code 3. A value in the request is not allowed.
    IllegalDataValue,
    /// Exception code 4. The device failed while handling the request.
    ServerDeviceFailure,
    /// Exception code 5. The device accepted the request and needs time.
    Acknowledge,
    /// Exception code 6. The device is busy.
    ServerDeviceBusy,
    /// Exception code 7. The device refused the request.
    NegativeAcknowledge,
    /// Exception code 8. A memory parity error.
    MemoryParityError,
    /// Exception code 10. A gateway could not path the request.
    GatewayPathUnavailable,
    /// Exception code 11. A gateway got no response from the target.
    GatewayTargetNoResponse,
    /// A code the protocol does not name.
    Other(u8),
}

impl ExceptionCode {
    /// The byte that stands for this refusal on the wire.
    pub open spec fn wire(self) -> u8 {
        match self {
            ExceptionCode::IllegalFunction => 1,
            ExceptionCode::IllegalDataAddress => 2,
            ExceptionCode::IllegalDataValue => 3,
            ExceptionCode::ServerDeviceFailure => 4,
            ExceptionCode::Acknowledge => 5,
            ExceptionCode::ServerDeviceBusy => 6,
            ExceptionCode::NegativeAcknowledge => 7,
            ExceptionCode::MemoryParityError => 8,
            ExceptionCode::GatewayPathUnavailable => 10,
            ExceptionCode::GatewayTargetNoResponse => 11,
            ExceptionCode::Other(byte) => byte,
        }
    }

    /// The refusal a byte stands for: the one the protocol names for it, and
    /// otherwise the byte itself.
    pub open spec fn named_by(byte: u8) -> ExceptionCode {
        if byte == 1 {
            ExceptionCode::IllegalFunction
        } else if byte == 2 {
            ExceptionCode::IllegalDataAddress
        } else if byte == 3 {
            ExceptionCode::IllegalDataValue
        } else if byte == 4 {
            ExceptionCode::ServerDeviceFailure
        } else if byte == 5 {
            ExceptionCode::Acknowledge
        } else if byte == 6 {
            ExceptionCode::ServerDeviceBusy
        } else if byte == 7 {
            ExceptionCode::NegativeAcknowledge
        } else if byte == 8 {
            ExceptionCode::MemoryParityError
        } else if byte == 10 {
            ExceptionCode::GatewayPathUnavailable
        } else if byte == 11 {
            ExceptionCode::GatewayTargetNoResponse
        } else {
            ExceptionCode::Other(byte)
        }
    }

    /// What an operator should read for this refusal.
    pub open spec fn title(self) -> Seq<char> {
        match self {
            ExceptionCode::IllegalFunction => "illegal function"@,
            ExceptionCode::IllegalDataAddress => "illegal data address"@,
            ExceptionCode::IllegalDataValue => "illegal data value"@,
            ExceptionCode::ServerDeviceFailure => "server device failure"@,
            ExceptionCode::Acknowledge => "acknowledge"@,
            ExceptionCode::ServerDeviceBusy => "server device busy"@,
            ExceptionCode::NegativeAcknowledge => "negative acknowledge"@,
            ExceptionCode::MemoryParityError => "memory parity error"@,
            ExceptionCode::GatewayPathUnavailable => "gateway path unavailable"@,
            ExceptionCode::GatewayTargetNoResponse => "gateway target device failed to respond"@,
            ExceptionCode::Other(_) => "an exception this specification does not define"@,
        }
    }

    /// The refusal as a message prints it: its title, then its byte.
    pub open spec fn text(self) -> Seq<char> {
        self.title() + " ("@ + text::decimal(self.wire() as nat) + ")"@
    }

    /// What an operator should read in a log line.
    #[must_use]
    pub fn name(self) -> (name: &'static str)
        ensures
            name@ == self.title(),
    {
        match self {
            ExceptionCode::IllegalFunction => "illegal function",
            ExceptionCode::IllegalDataAddress => "illegal data address",
            ExceptionCode::IllegalDataValue => "illegal data value",
            ExceptionCode::ServerDeviceFailure => "server device failure",
            ExceptionCode::Acknowledge => "acknowledge",
            ExceptionCode::ServerDeviceBusy => "server device busy",
            ExceptionCode::NegativeAcknowledge => "negative acknowledge",
            ExceptionCode::MemoryParityError => "memory parity error",
            ExceptionCode::GatewayPathUnavailable => "gateway path unavailable",
            ExceptionCode::GatewayTargetNoResponse => "gateway target device failed to respond",
            ExceptionCode::Other(_) => "an exception this specification does not define",
        }
    }

    /// The byte a device sends for this refusal.
    #[must_use]
    pub fn byte(self) -> (byte: u8)
        ensures
            byte == self.wire(),
    {
        match self {
            ExceptionCode::IllegalFunction => 1,
            ExceptionCode::IllegalDataAddress => 2,
            ExceptionCode::IllegalDataValue => 3,
            ExceptionCode::ServerDeviceFailure => 4,
            ExceptionCode::Acknowledge => 5,
            ExceptionCode::ServerDeviceBusy => 6,
            ExceptionCode::NegativeAcknowledge => 7,
            ExceptionCode::MemoryParityError => 8,
            ExceptionCode::GatewayPathUnavailable => 10,
            ExceptionCode::GatewayTargetNoResponse => 11,
            ExceptionCode::Other(byte) => byte,
        }
    }

    /// The refusal as one line: its name, and its byte in brackets.
    #[must_use]
    pub fn to_string(&self) -> (text: String)
        ensures
            text@ == self.text(),
    {
        let mut text = String::from_str(self.name());
        text.append(" (");
        text::append_decimal(&mut text, self.byte() as u64);
        text.append(")");
        text
    }
}

impl FromSpecImpl<u8> for ExceptionCode {
    open spec fn obeys_from_spec() -> bool {
        true
    }

    open spec fn from_spec(byte: u8) -> ExceptionCode {
        ExceptionCode::named_by(byte)
    }
}

/// Every byte is an exception of some kind: a device that invents one is
/// reported as itself rather than mistaken for a code with a meaning.
impl From<u8> for ExceptionCode {
    fn from(byte: u8) -> (code: ExceptionCode)
        ensures
            code == ExceptionCode::named_by(byte),
    {
        match byte {
            1 => ExceptionCode::IllegalFunction,
            2 => ExceptionCode::IllegalDataAddress,
            3 => ExceptionCode::IllegalDataValue,
            4 => ExceptionCode::ServerDeviceFailure,
            5 => ExceptionCode::Acknowledge,
            6 => ExceptionCode::ServerDeviceBusy,
            7 => ExceptionCode::NegativeAcknowledge,
            8 => ExceptionCode::MemoryParityError,
            10 => ExceptionCode::GatewayPathUnavailable,
            11 => ExceptionCode::GatewayTargetNoResponse,
            other => ExceptionCode::Other(other),
        }
    }
}

} // verus!
