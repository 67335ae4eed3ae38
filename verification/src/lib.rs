//! Read-only Modbus TCP client.
//!
//! Modbus TCP is a request/response protocol: an MBAP header sits in front
//! of a short PDU. This crate encodes a read, decodes the reply, and turns
//! the 16-bit register words into numbers.
//!
//! **A write cannot be spelled.** [`FunctionCode`] has two variants, 3 and 4.
//! A write function code is not a value this crate refuses at run time; it is
//! a value that does not exist.
//!
//! **The request decodes its own answer.** A device that answered a read the
//! caller had given up on leaves a whole, well-formed frame behind it. With
//! the request in hand, the echoed transaction id, unit id, function code and
//! register count are all checked, and that frame is a typed refusal instead.
//! Vary the [`TransactionId`] between reads; a constant id makes the echo
//! check agree with every frame.
//!
//! **One action, and it owns no connection.** [`read_registers`] decides what
//! a transport does next, from the request's bytes on the way out to the
//! frame that comes back. It holds no socket.
//!
//! [`server`] is a device that serves synthetic registers and refuses every
//! other function code. [`laws`] says what holds of all of this together, and
//! [`wire`], [`replies`], [`connections`], [`numbers`] and [`messages`] say it
//! of each operation in positions, numbers and lines.

pub mod bytes;
pub mod connections;
pub mod decode;
pub mod error;
pub mod exchange;
pub mod frame;
pub mod laws;
pub mod messages;
pub mod numbers;
pub mod replies;
pub mod server;
pub mod text;
pub mod wire;

pub use decode::{Reading, RegisterKind, Scale};
pub use error::{ExceptionCode, ModbusError};
pub use exchange::{begin, read_registers, ExchangeError, Stage, Step};
pub use frame::{
    FunctionCode, ReadRequest, RegisterAddress, RegisterCount, TransactionId, UnitId,
    MAX_REGISTERS,
};
