//! One register read over a connection, as the decisions it takes.
//!
//! The bytes move elsewhere. [`begin`] names the first thing to do with the
//! transport, [`read_registers`] names the next one from what came of the
//! last, and the caller owns the connection in between.

use vstd::prelude::*;
use vstd::slice::slice_to_vec;
use vstd::std_specs::convert::FromSpecImpl;

use crate::bytes;
use crate::error::ModbusError;
use crate::frame;
use crate::frame::{ReadFields, ReadRequest, HEADER_PREFIX_LEN, MAX_LENGTH, MIN_LENGTH};

verus! {

/// Declares `std::io::Error`, which an exchange carries from the transport to
/// its caller and never looks into. Nothing is claimed of it.
#[verifier::external_type_specification]
#[verifier::external_body]
pub struct TransportError(std::io::Error);

/// What an exchange refuses: the frame, or the transport under it.
///
/// Two enums rather than one, because there are two kinds of code here. The
/// calculations cannot fail for a reason the operating system invented, and
/// keeping the I/O variant out of [`ModbusError`] is what says so.
#[derive(Debug)]
pub enum ExchangeError {
    /// The bytes were not an answer to this read.
    Modbus(ModbusError),
    /// The transport failed or ended before a whole frame arrived.
    Io(std::io::Error),
}

impl FromSpecImpl<ModbusError> for ExchangeError {
    open spec fn obeys_from_spec() -> bool {
        true
    }

    open spec fn from_spec(error: ModbusError) -> ExchangeError {
        ExchangeError::Modbus(error)
    }
}

impl From<ModbusError> for ExchangeError {
    fn from(error: ModbusError) -> (refusal: ExchangeError)
        ensures
            refusal == ExchangeError::Modbus(error),
    {
        ExchangeError::Modbus(error)
    }
}

impl FromSpecImpl<std::io::Error> for ExchangeError {
    open spec fn obeys_from_spec() -> bool {
        true
    }

    open spec fn from_spec(error: std::io::Error) -> ExchangeError {
        ExchangeError::Io(error)
    }
}

impl From<std::io::Error> for ExchangeError {
    fn from(error: std::io::Error) -> (refusal: ExchangeError)
        ensures
            refusal == ExchangeError::Io(error),
    {
        ExchangeError::Io(error)
    }
}

/// What the line for a transport failure says ahead of the failure's own.
pub open spec fn failure_prefix() -> Seq<char> {
    "the transport failed during a register read: "@
}

impl ExchangeError {
    /// The one line an operator reads for this refusal: the frame's own line,
    /// or the transport's own line behind what it interrupted.
    #[must_use]
    pub fn to_string(&self) -> (text: String)
        ensures
            match self {
                ExchangeError::Modbus(error) => text@ == error.text(),
                ExchangeError::Io(error) => exists|reason: String|
                    {
                        &&& #[trigger] vstd::string::to_string_from_display_ensures(error, reason)
                        &&& text@ == failure_prefix() + reason@
                        &&& text@ == "the transport failed during a register read: "@ + reason@
                    },
            },
    {
        match self {
            ExchangeError::Modbus(error) => error.to_string(),
            ExchangeError::Io(error) => {
                let reason = error.to_string();
                let mut text = String::from_str("the transport failed during a register read: ");
                text.append(reason.as_str());
                text
            },
        }
    }
}

/// What an exchange needs the transport to do next.
#[derive(Debug)]
pub enum Stage {
    /// Write all of these bytes.
    Write(Vec<u8>),
    /// Flush what was written.
    Flush,
    /// Read exactly the bytes ahead of the length field's own subject.
    ReadHeader,
    /// Read exactly as many bytes as this header declares.
    ReadBody([u8; 6]),
}

/// Where one act of the transport leaves an exchange.
#[derive(Debug)]
pub enum Step {
    /// The transport has more to do.
    Next(Stage),
    /// The exchange is over.
    Done(Result<Vec<u16>, ExchangeError>),
}

/// What an exchange needs the transport to do next, with the bytes as
/// sequences.
pub enum StageModel {
    /// Write all of these bytes.
    Write(Seq<u8>),
    /// Flush what was written.
    Flush,
    /// Read exactly a header prefix.
    ReadHeader,
    /// Read exactly as many bytes as this header declares.
    ReadBody(Seq<u8>),
}

/// Where one act of the transport leaves an exchange, with the bytes and
/// words as sequences.
pub enum StepModel {
    /// The transport has more to do.
    Next(StageModel),
    /// What arrived is the answer to the read, or none.
    Answered(Result<Seq<u16>, ModbusError>),
    /// The transport failed.
    Failed(std::io::Error),
}

impl View for Stage {
    type V = StageModel;

    open spec fn view(&self) -> StageModel {
        match self {
            Stage::Write(bytes) => StageModel::Write(bytes@),
            Stage::Flush => StageModel::Flush,
            Stage::ReadHeader => StageModel::ReadHeader,
            Stage::ReadBody(header) => StageModel::ReadBody(header@),
        }
    }
}

impl View for Step {
    type V = StepModel;

    open spec fn view(&self) -> StepModel {
        match self {
            Step::Next(stage) => StepModel::Next(stage@),
            Step::Done(Ok(words)) => StepModel::Answered(Ok(words@)),
            Step::Done(Err(ExchangeError::Modbus(error))) => StepModel::Answered(Err(*error)),
            Step::Done(Err(ExchangeError::Io(error))) => StepModel::Failed(*error),
        }
    }
}

/// The length a header declares for what follows it.
pub open spec fn declared_by(header: Seq<u8>) -> u16 {
    frame::field_at(header, 4)
}

impl StageModel {
    /// How many bytes this stage reads.
    pub open spec fn wanted(self) -> nat {
        match self {
            StageModel::Write(_) => 0,
            StageModel::Flush => 0,
            StageModel::ReadHeader => HEADER_PREFIX_LEN as nat,
            StageModel::ReadBody(header) => declared_by(header) as nat,
        }
    }
}

impl ReadFields {
    /// Where a stage that went well leaves this read, `received` being the
    /// bytes it read.
    ///
    /// A header that declares a body no frame can carry ends the exchange
    /// before a byte of that body is asked for.
    pub open spec fn after(self, stage: StageModel, received: Seq<u8>) -> StepModel {
        match stage {
            StageModel::Write(_) => StepModel::Next(StageModel::Flush),
            StageModel::Flush => StepModel::Next(StageModel::ReadHeader),
            StageModel::ReadHeader => {
                let declared = declared_by(received);
                if frame::is_carriable(declared) {
                    StepModel::Next(StageModel::ReadBody(received))
                } else {
                    StepModel::Answered(
                        Err(
                            ModbusError::LengthOutOfRange {
                                declared,
                                min: MIN_LENGTH,
                                max: MAX_LENGTH,
                            },
                        ),
                    )
                }
            },
            StageModel::ReadBody(header) => StepModel::Answered(self.decoded(header + received)),
        }
    }
}

impl Stage {
    /// How many bytes this stage reads: as many as the transport owes when it
    /// goes well.
    #[must_use]
    pub fn wanted(&self) -> (wanted: usize)
        ensures
            wanted == self@.wanted(),
            match self {
                Stage::Write(_) => wanted == 0,
                Stage::Flush => wanted == 0,
                Stage::ReadHeader => wanted == 6,
                Stage::ReadBody(header) => wanted == header@[4] * 256 + header@[5],
            },
    {
        match self {
            Stage::Write(_) | Stage::Flush => 0,
            Stage::ReadHeader => HEADER_PREFIX_LEN,
            Stage::ReadBody(header) => bytes::join(header[4], header[5]) as usize,
        }
    }
}

/// The first thing a read needs of the transport: that it write the request's
/// own bytes.
#[must_use]
pub fn begin(request: &ReadRequest) -> (stage: Stage)
    ensures
        stage@ == StageModel::Write(request@.encoded()),
        stage matches Stage::Write(bytes) && bytes@ == request@.encoded(),
{
    Stage::Write(request.encode())
}

/// Ask a device for the registers a read names, and read its answer: the
/// decision that follows one act of the transport.
///
/// An exchange writes the request's own bytes, reads exactly the header,
/// takes the body's length from it, reads exactly that many more, and hands
/// the whole frame to [`ReadRequest::decode`]. Reading by the declared length
/// is what makes this correct over a stream, where a message boundary is not
/// something the transport preserves — two replies arriving together are two
/// frames, not one long one.
///
/// A device that declares a body no Modbus frame can carry is refused before
/// a byte of it is read, so a wrong length cannot make this wait for bytes
/// that are not coming. How long to wait for the bytes that are is the
/// connection's business.
///
/// `outcome` is what came of `stage`: the bytes it read — none for a stage
/// that reads none — or the transport's failure.
///
/// # Errors
///
/// An exchange is done with [`ExchangeError::Io`] when the transport fails or
/// ends early, and with [`ExchangeError::Modbus`] when what arrived is not an
/// answer to this request.
#[must_use]
pub fn read_registers(
    request: &ReadRequest,
    stage: Stage,
    outcome: Result<Vec<u8>, std::io::Error>,
) -> (step: Step)
    requires
        outcome matches Ok(received) ==> received@.len() == stage@.wanted(),
    ensures
        match outcome {
            Ok(received) => step@ == request@.after(stage@, received@),
            Err(error) => step == Step::Done(Err(ExchangeError::Io(error))),
        },
        outcome matches Ok(received) ==> match stage {
            Stage::Write(_) => step == Step::Next(Stage::Flush),
            Stage::Flush => step == Step::Next(Stage::ReadHeader),
            Stage::ReadHeader => {
                let declared = received@[4] * 256 + received@[5];
                if 2 <= declared <= 254 {
                    step matches Step::Next(Stage::ReadBody(header)) && header@ == received@
                } else {
                    step == Step::Done(
                        Err(
                            ExchangeError::Modbus(
                                ModbusError::LengthOutOfRange {
                                    declared: declared as u16,
                                    min: 2,
                                    max: 254,
                                },
                            ),
                        ),
                    )
                }
            },
            Stage::ReadBody(header) => match step {
                Step::Next(_) => false,
                Step::Done(Ok(words)) => request@.decoded(header@ + received@) == Ok::<
                    Seq<u16>,
                    ModbusError,
                >(words@),
                Step::Done(Err(ExchangeError::Modbus(error))) => request@.decoded(
                    header@ + received@,
                ) == Err::<Seq<u16>, ModbusError>(error),
                Step::Done(Err(ExchangeError::Io(_))) => false,
            },
        },
{
    let mut received = match outcome {
        Ok(received) => received,
        Err(error) => return Step::Done(Err(ExchangeError::from(error))),
    };
    match stage {
        Stage::Write(_) => Step::Next(Stage::Flush),
        Stage::Flush => Step::Next(Stage::ReadHeader),
        Stage::ReadHeader => {
            let declared: u16 = bytes::join(received[4], received[5]);
            if !(MIN_LENGTH <= declared && declared <= MAX_LENGTH) {
                let refusal = ModbusError::LengthOutOfRange {
                    declared,
                    min: MIN_LENGTH,
                    max: MAX_LENGTH,
                };
                return Step::Done(Err(ExchangeError::from(refusal)));
            }
            let header: [u8; 6] = [
                received[0],
                received[1],
                received[2],
                received[3],
                received[4],
                received[5],
            ];
            assert(header@ =~= received@);
            Step::Next(Stage::ReadBody(header))
        },
        Stage::ReadBody(header) => {
            let mut frame: Vec<u8> = slice_to_vec(&header);
            frame.append(&mut received);
            match request.decode(&frame) {
                Ok(words) => Step::Done(Ok(words)),
                Err(error) => Step::Done(Err(ExchangeError::from(error))),
            }
        },
    }
}

} // verus!
