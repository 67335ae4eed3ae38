//! Modbus TCP frames: the MBAP header plus the two read PDUs.
//!
//! Building a frame is arithmetic on a dozen bytes. [`ReadRequest::encode`]
//! turns five values into a frame and [`ReadRequest::decode`] turns a frame
//! back into register words. Neither opens a socket.

use vstd::prelude::*;

use crate::bytes;
use crate::error::{ExceptionCode, ModbusError};

verus! {

/// The most registers function codes 3 and 4 can answer in one frame.
pub const MAX_REGISTERS: u16 = 125;

/// The protocol id that says a frame is Modbus. It has one value.
pub const PROTOCOL_ID: u16 = 0;

/// What an MBAP length counts for a read request: unit id, function code,
/// start address, register count.
pub const REQUEST_LENGTH: u16 = 6;

/// The bytes ahead of the length field's own subject: transaction id,
/// protocol id, length.
pub const HEADER_PREFIX_LEN: usize = 6;

/// A request frame: the prefix, the length's own subject, and nothing else.
pub const REQUEST_FRAME_LEN: usize = 12;

/// The least a reply can declare: a unit id and a function code.
pub const MIN_LENGTH: u16 = 2;

/// The most a reply can declare: a unit id and the largest PDU the protocol
/// allows.
pub const MAX_LENGTH: u16 = 254;

/// The shortest frame that can be read as a reply at all.
pub const MIN_FRAME_LEN: usize = 8;

/// The bit a device sets on the function code to say it is refusing.
pub const EXCEPTION_BIT: u8 = 0x80;

/// Where the transaction id of a reply sits.
const TRANSACTION_AT: usize = 0;

/// Where the protocol id of a reply sits.
const PROTOCOL_AT: usize = 2;

/// Where the length field of a reply sits.
const LENGTH_AT: usize = 4;

/// Where the unit id of a reply sits.
const UNIT_AT: usize = 6;

/// Where the function code of a reply sits.
const FUNCTION_AT: usize = 7;

/// Where the rest of a reply begins.
const PDU_AT: usize = 8;

/// The Modbus function codes this crate can express. There are two.
///
/// A two-variant enum is the read-only rule written where the compiler reads
/// it: a write function code is not a value this crate refuses, it is a
/// value nobody can name.
#[derive(Debug, Clone, Copy, PartialEq, Eq, Structural)]
pub enum FunctionCode {
    /// Function code 3. Read holding registers.
    ReadHoldingRegisters,
    /// Function code 4. Read input registers.
    ReadInputRegisters,
}

/// The number a device uses to tell one request from another.
///
/// Any value is legal, and the device echoes it back. Choose a new id for
/// each read. [`ReadRequest::decode`] rejects a late answer to an earlier
/// read by its id, and a constant id makes that check agree with every frame.
#[derive(Debug, Clone, Copy, PartialEq, Eq, PartialOrd, Ord, Hash)]
pub struct TransactionId(u16);

/// Which device on the far side of the connection is being asked.
///
/// Zero is a broadcast — a frame nobody answers, which on a read-only client
/// can only be a mistake — and 248 to 254 are reserved. 255 is what the
/// protocol tells a device with no serial line behind it to use, so it is
/// accepted.
#[derive(Debug, Clone, Copy, PartialEq, Eq, PartialOrd, Ord, Hash)]
pub struct UnitId(u8);

/// Where in a device's register map a read starts.
#[derive(Debug, Clone, Copy, PartialEq, Eq, PartialOrd, Ord, Hash)]
pub struct RegisterAddress(u16);

/// How many 16-bit registers a read asks for.
///
/// Function codes 3 and 4 answer with a byte count in a single byte, so 125
/// registers is the protocol's own ceiling and not a limit chosen here.
#[derive(Debug, Clone, Copy, PartialEq, Eq, PartialOrd, Ord, Hash)]
pub struct RegisterCount(u16);

/// One read, complete enough to be a frame and to judge the frame that comes
/// back.
#[derive(Debug, PartialEq, Eq)]
pub struct ReadRequest {
    transaction: TransactionId,
    unit: UnitId,
    function: FunctionCode,
    start: RegisterAddress,
    count: RegisterCount,
}

/// Whether a unit id names one device: neither the broadcast nor reserved.
pub open spec fn is_addressed(unit: u8) -> bool {
    unit != 0 && !(248 <= unit <= 254)
}

/// Whether the protocol can answer a read of this many registers.
pub open spec fn is_answerable(count: u16) -> bool {
    1 <= count <= MAX_REGISTERS
}

/// Whether `count` registers from `start` all have a 16-bit address.
pub open spec fn is_inside_address_space(start: u16, count: u16) -> bool {
    start + count <= 0x1_0000
}

/// Whether a Modbus TCP frame can carry a body of the declared length.
pub open spec fn is_carriable(declared: u16) -> bool {
    MIN_LENGTH <= declared <= MAX_LENGTH
}

impl FunctionCode {
    /// The byte this function code puts on the wire.
    pub open spec fn wire(self) -> u8 {
        match self {
            FunctionCode::ReadHoldingRegisters => 3,
            FunctionCode::ReadInputRegisters => 4,
        }
    }

    /// The byte this function code puts on the wire.
    ///
    /// Exhaustive by construction: a third variant does not compile until
    /// someone writes here what it would send.
    #[must_use]
    pub fn code(self) -> (code: u8)
        ensures
            code == self.wire(),
            self is ReadHoldingRegisters <==> code == 3,
            self is ReadInputRegisters <==> code == 4,
    {
        match self {
            FunctionCode::ReadHoldingRegisters => 3,
            FunctionCode::ReadInputRegisters => 4,
        }
    }
}

impl View for TransactionId {
    type V = u16;

    closed spec fn view(&self) -> u16 {
        self.0
    }
}

impl TransactionId {
    /// The id a read will carry, and the id its answer must echo.
    #[must_use]
    pub fn new(id: u16) -> (transaction: TransactionId)
        ensures
            transaction@ == id,
    {
        TransactionId(id)
    }

    /// The number itself, for the two bytes it becomes.
    #[must_use]
    pub fn get(self) -> (id: u16)
        ensures
            id == self@,
    {
        self.0
    }
}

impl View for UnitId {
    type V = u8;

    closed spec fn view(&self) -> u8 {
        self.0
    }
}

impl UnitId {
    #[verifier::type_invariant]
    spec fn well_formed(self) -> bool {
        is_addressed(self.0)
    }

    /// An addressed unit.
    ///
    /// # Errors
    ///
    /// Returns [`ModbusError::BroadcastUnit`] for 0 and
    /// [`ModbusError::ReservedUnit`] for 248 to 254.
    pub fn new(unit: u8) -> (result: Result<UnitId, ModbusError>)
        ensures
            result is Ok <==> is_addressed(unit),
            result is Ok <==> 1 <= unit <= 247 || unit == 255,
            result matches Ok(id) ==> id@ == unit,
            unit == 0 <==> result == Err::<UnitId, ModbusError>(ModbusError::BroadcastUnit),
            248 <= unit <= 254 <==> result == Err::<UnitId, ModbusError>(
                ModbusError::ReservedUnit { unit },
            ),
    {
        match unit {
            0 => Err(ModbusError::BroadcastUnit),
            248..=254 => Err(ModbusError::ReservedUnit { unit }),
            _ => Ok(UnitId(unit)),
        }
    }

    /// The byte the frame carries for this unit.
    #[must_use]
    pub fn get(self) -> (unit: u8)
        ensures
            unit == self@,
            is_addressed(unit),
            1 <= unit <= 247 || unit == 255,
    {
        proof {
            use_type_invariant(&self);
        }
        self.0
    }
}

impl View for RegisterAddress {
    type V = u16;

    closed spec fn view(&self) -> u16 {
        self.0
    }
}

impl RegisterAddress {
    /// An address in a device's map, as its register map spells it.
    #[must_use]
    pub fn new(address: u16) -> (start: RegisterAddress)
        ensures
            start@ == address,
    {
        RegisterAddress(address)
    }

    /// The address itself, for the two bytes it becomes.
    #[must_use]
    pub fn get(self) -> (address: u16)
        ensures
            address == self@,
    {
        self.0
    }
}

impl View for RegisterCount {
    type V = u16;

    closed spec fn view(&self) -> u16 {
        self.0
    }
}

impl RegisterCount {
    #[verifier::type_invariant]
    spec fn well_formed(self) -> bool {
        is_answerable(self.0)
    }

    /// A register count this protocol can answer.
    ///
    /// # Errors
    ///
    /// Returns [`ModbusError::EmptyRead`] for 0 and
    /// [`ModbusError::TooManyRegisters`] above [`MAX_REGISTERS`].
    pub fn new(count: u16) -> (result: Result<RegisterCount, ModbusError>)
        ensures
            result is Ok <==> is_answerable(count),
            result is Ok <==> 1 <= count <= 125,
            result matches Ok(registers) ==> registers@ == count,
            count == 0 <==> result == Err::<RegisterCount, ModbusError>(ModbusError::EmptyRead),
            count > MAX_REGISTERS <==> result == Err::<RegisterCount, ModbusError>(
                ModbusError::TooManyRegisters { count, max: MAX_REGISTERS },
            ),
            count > 125 <==> result == Err::<RegisterCount, ModbusError>(
                ModbusError::TooManyRegisters { count, max: 125 },
            ),
    {
        if count == 0 {
            return Err(ModbusError::EmptyRead);
        }
        if count > MAX_REGISTERS {
            return Err(ModbusError::TooManyRegisters { count, max: MAX_REGISTERS });
        }
        Ok(RegisterCount(count))
    }

    /// The count itself, for the two bytes it becomes.
    #[must_use]
    pub fn get(self) -> (count: u16)
        ensures
            count == self@,
            is_answerable(count),
            1 <= count <= 125,
    {
        proof {
            use_type_invariant(&self);
        }
        self.0
    }

    /// How many bytes a device owes in answer to this many registers.
    #[must_use]
    pub fn byte_count(self) -> (owed: u16)
        ensures
            owed == 2 * self@,
            2 <= owed <= 250,
    {
        proof {
            use_type_invariant(&self);
        }
        self.0 * 2
    }
}

/// The five values of a read, as numbers.
#[verifier::ext_equal]
pub struct ReadFields {
    /// The id the read carries, and the id its answer must echo.
    pub transaction: u16,
    /// The device the read is addressed to.
    pub unit: u8,
    /// Which of the two read tables the read asks about.
    pub function: FunctionCode,
    /// Where in the map the read starts.
    pub start: u16,
    /// How many registers the read asks for.
    pub count: u16,
}

/// A reply, taken apart but not yet believed.
#[verifier::ext_equal]
pub struct ReplyFields {
    /// The length field of the header.
    pub declared: u16,
    /// The transaction id of the header.
    pub transaction: u16,
    /// The unit id.
    pub unit: u8,
    /// The function code, with the exception bit when the device refuses.
    pub function: u8,
    /// What follows the function code.
    pub pdu: Seq<u8>,
}

/// The big-endian word at `at`.
pub open spec fn field_at(frame: Seq<u8>, at: int) -> u16 {
    bytes::word_of(frame[at], frame[at + 1])
}

/// A function code as a refusal spells it: with its top bit set.
pub open spec fn refusing(function: u8) -> u8 {
    if function < EXCEPTION_BIT {
        (function + EXCEPTION_BIT) as u8
    } else {
        function
    }
}

/// The bytes ahead of a frame's body: transaction id, protocol id, length.
pub open spec fn header_of(transaction: u16, declared: u16) -> Seq<u8> {
    seq![
        bytes::high_byte(transaction),
        bytes::low_byte(transaction),
        bytes::high_byte(PROTOCOL_ID),
        bytes::low_byte(PROTOCOL_ID),
        bytes::high_byte(declared),
        bytes::low_byte(declared),
    ]
}

/// The frame a device sends to answer a read with `words`.
pub open spec fn reply_frame(transaction: u16, unit: u8, function: u8, words: Seq<u16>) -> Seq<u8> {
    header_of(transaction, (3 + 2 * words.len()) as u16) + seq![
        unit,
        function,
        (2 * words.len()) as u8,
    ] + bytes::bytes_of(words)
}

/// The frame a device sends to refuse a request.
pub open spec fn refusal_frame(transaction: u16, unit: u8, function: u8, code: u8) -> Seq<u8> {
    header_of(transaction, 3) + seq![unit, refusing(function), code]
}

/// How many bytes follow the header prefix, as far as 16 bits can say.
pub open spec fn carried_by(frame: Seq<u8>) -> u16 {
    if frame.len() - HEADER_PREFIX_LEN <= 0xffff {
        (frame.len() - HEADER_PREFIX_LEN) as u16
    } else {
        0xffff
    }
}

/// What a frame says, whoever asked: the parts of a reply, or why the frame
/// is none. A reply is long enough to hold a header, Modbus, and as long as
/// it says it is.
pub open spec fn framed(frame: Seq<u8>) -> Result<ReplyFields, ModbusError> {
    let protocol = field_at(frame, 2);
    let declared = field_at(frame, 4);
    if frame.len() < MIN_FRAME_LEN {
        Err(ModbusError::TooShort { expected: MIN_FRAME_LEN, found: frame.len() as usize })
    } else if protocol != PROTOCOL_ID {
        Err(ModbusError::ProtocolId { found: protocol })
    } else if !is_carriable(declared) {
        Err(ModbusError::LengthOutOfRange { declared, min: MIN_LENGTH, max: MAX_LENGTH })
    } else if frame.len() != HEADER_PREFIX_LEN + declared {
        Err(ModbusError::LengthMismatch { declared, found: carried_by(frame) })
    } else {
        Ok(
            ReplyFields {
                declared,
                transaction: field_at(frame, 0),
                unit: frame[6],
                function: frame[7],
                pdu: frame.skip(8),
            },
        )
    }
}

impl ReplyFields {
    /// The refusal of a reply that ends with its function code.
    pub open spec fn cut_short(self) -> ModbusError {
        ModbusError::TooShort {
            expected: (MIN_FRAME_LEN + 1) as usize,
            found: (MIN_FRAME_LEN + self.pdu.len()) as usize,
        }
    }

    /// The reason a refusing device gave for refusing `function`.
    pub open spec fn refusal_of(self, function: u8) -> ModbusError {
        if self.pdu.len() == 0 {
            self.cut_short()
        } else {
            ModbusError::Exception { function, code: ExceptionCode::named_by(self.pdu[0]) }
        }
    }

    /// The words of a reply that does not refuse, when they are as many as
    /// `count`.
    pub open spec fn words(self, count: u16) -> Result<Seq<u16>, ModbusError> {
        if self.pdu.len() == 0 {
            Err(self.cut_short())
        } else if self.pdu[0] != 2 * count {
            Err(
                ModbusError::ByteCountMismatch {
                    declared: self.pdu[0] as u16,
                    expected: (2 * count) as u16,
                },
            )
        } else if self.pdu.len() - 1 != self.pdu[0] {
            Err(
                ModbusError::InconsistentLength {
                    declared: self.declared,
                    byte_count: self.pdu[0],
                },
            )
        } else {
            Ok(bytes::words_of(self.pdu.skip(1)))
        }
    }
}

impl ReadFields {
    /// Whether a device could answer this read.
    pub open spec fn valid(self) -> bool {
        &&& is_addressed(self.unit)
        &&& is_answerable(self.count)
        &&& is_inside_address_space(self.start, self.count)
    }

    /// This read, as the bytes that go on the wire.
    pub open spec fn encoded(self) -> Seq<u8> {
        header_of(self.transaction, REQUEST_LENGTH) + seq![
            self.unit,
            self.function.wire(),
            bytes::high_byte(self.start),
            bytes::low_byte(self.start),
            bytes::high_byte(self.count),
            bytes::low_byte(self.count),
        ]
    }

    /// What a reply says to this read: the registers asked for, or why it is
    /// no answer. The echo is judged before the function code, and the
    /// function code before the registers.
    pub open spec fn answered_by(self, reply: ReplyFields) -> Result<Seq<u16>, ModbusError> {
        let function = self.function.wire();
        if reply.transaction != self.transaction {
            Err(
                ModbusError::TransactionMismatch {
                    expected: self.transaction,
                    found: reply.transaction,
                },
            )
        } else if reply.unit != self.unit {
            Err(ModbusError::UnitMismatch { expected: self.unit, found: reply.unit })
        } else if reply.function == function {
            reply.words(self.count)
        } else if reply.function == refusing(function) {
            Err(reply.refusal_of(function))
        } else {
            Err(ModbusError::FunctionMismatch { expected: function, found: reply.function })
        }
    }

    /// What a frame says to this read: the registers asked for, or why it is
    /// no answer.
    pub open spec fn decoded(self, frame: Seq<u8>) -> Result<Seq<u16>, ModbusError> {
        match framed(frame) {
            Ok(reply) => self.answered_by(reply),
            Err(error) => Err(error),
        }
    }
}

/// Words or a refusal, with the words as a sequence.
pub open spec fn outcome(result: Result<Vec<u16>, ModbusError>) -> Result<Seq<u16>, ModbusError> {
    match result {
        Ok(words) => Ok(words@),
        Err(error) => Err(error),
    }
}

/// A reply, taken apart but not yet believed.
///
/// Every field is a byte that was there; whether the device answered *this*
/// read is [`ReadRequest::decode`]'s question, not this type's. `pdu` is what
/// follows the function code: a byte count and the registers, or the code of
/// a refusal.
#[derive(Debug, Clone, Copy)]
struct Reply<'a> {
    declared: u16,
    transaction: u16,
    unit: u8,
    function: u8,
    pdu: &'a [u8],
}

impl View for Reply<'_> {
    type V = ReplyFields;

    closed spec fn view(&self) -> ReplyFields {
        ReplyFields {
            declared: self.declared,
            transaction: self.transaction,
            unit: self.unit,
            function: self.function,
            pdu: self.pdu@,
        }
    }
}

impl Reply<'_> {
    /// This reply, said to be a byte short of what any answer needs.
    fn too_short(&self) -> (error: ModbusError)
        requires
            self@.pdu.len() == 0,
        ensures
            error == self@.cut_short(),
    {
        ModbusError::TooShort {
            expected: MIN_FRAME_LEN + 1,
            found: MIN_FRAME_LEN + self.pdu.len(),
        }
    }
}

/// The big-endian pair at `at`, when the frame is long enough to hold one.
fn word_at(frame: &[u8], at: usize) -> (word: Option<u16>)
    ensures
        word is Some <==> at + 1 < frame@.len(),
        word matches Some(found) ==> found == field_at(frame@, at as int),
{
    if at < frame.len() && at + 1 < frame.len() {
        Some(bytes::join(frame[at], frame[at + 1]))
    } else {
        None
    }
}

/// What a frame must be before anything in it is read as an answer, whoever
/// asked: long enough to hold a header, Modbus, and as long as it says it is.
///
/// # Errors
///
/// Returns [`ModbusError::TooShort`], [`ModbusError::ProtocolId`],
/// [`ModbusError::LengthOutOfRange`] or [`ModbusError::LengthMismatch`].
fn parse_reply(frame: &[u8]) -> (result: Result<Reply<'_>, ModbusError>)
    ensures
        match result {
            Ok(reply) => framed(frame@) == Ok::<ReplyFields, ModbusError>(reply@),
            Err(error) => framed(frame@) == Err::<ReplyFields, ModbusError>(error),
        },
{
    let short = ModbusError::TooShort { expected: MIN_FRAME_LEN, found: frame.len() };
    let (Some(transaction), Some(protocol), Some(declared), Some(unit), Some(function)) = (
        word_at(frame, TRANSACTION_AT),
        word_at(frame, PROTOCOL_AT),
        word_at(frame, LENGTH_AT),
        frame.get(UNIT_AT),
        frame.get(FUNCTION_AT),
    ) else {
        return Err(short);
    };
    if protocol != PROTOCOL_ID {
        return Err(ModbusError::ProtocolId { found: protocol });
    }
    if !(MIN_LENGTH <= declared && declared <= MAX_LENGTH) {
        return Err(
            ModbusError::LengthOutOfRange { declared, min: MIN_LENGTH, max: MAX_LENGTH },
        );
    }
    let following: usize = frame.len() - HEADER_PREFIX_LEN;
    let carried: u16 = if following <= 0xffff {
        following as u16
    } else {
        0xffff
    };
    if carried != declared {
        return Err(ModbusError::LengthMismatch { declared, found: carried });
    }
    let pdu = frame.split_at(PDU_AT).1;
    assert(pdu@ =~= frame@.skip(8));
    Ok(Reply { declared, transaction, unit: *unit, function: *function, pdu })
}

/// A refusal, as the reason the device gave for it.
fn exception(function: u8, reply: &Reply<'_>) -> (error: ModbusError)
    ensures
        error == reply@.refusal_of(function),
{
    match reply.pdu.first() {
        Some(byte) => ModbusError::Exception { function, code: ExceptionCode::from(*byte) },
        None => reply.too_short(),
    }
}

impl View for ReadRequest {
    type V = ReadFields;

    closed spec fn view(&self) -> ReadFields {
        ReadFields {
            transaction: self.transaction@,
            unit: self.unit@,
            function: self.function,
            start: self.start@,
            count: self.count@,
        }
    }
}

impl Clone for ReadRequest {
    fn clone(&self) -> (copy: ReadRequest)
        ensures
            copy@ == self@,
    {
        proof {
            use_type_invariant(self);
        }
        ReadRequest {
            transaction: self.transaction,
            unit: self.unit,
            function: self.function,
            start: self.start,
            count: self.count,
        }
    }
}

impl ReadRequest {
    #[verifier::type_invariant]
    spec fn well_formed(self) -> bool {
        self@.valid()
    }

    /// A read a device could answer.
    ///
    /// # Errors
    ///
    /// Returns [`ModbusError::PastEndOfAddressSpace`] when the last register
    /// asked for is past the end of the 16-bit address space — a request no
    /// device can answer, caught where it is written rather than later in an
    /// exception reply.
    pub fn new(
        transaction: TransactionId,
        unit: UnitId,
        function: FunctionCode,
        start: RegisterAddress,
        count: RegisterCount,
    ) -> (result: Result<ReadRequest, ModbusError>)
        ensures
            match result {
                Ok(request) => {
                    &&& is_inside_address_space(start@, count@)
                    &&& request@ == (ReadFields {
                        transaction: transaction@,
                        unit: unit@,
                        function,
                        start: start@,
                        count: count@,
                    })
                },
                Err(error) => {
                    &&& !is_inside_address_space(start@, count@)
                    &&& error == (ModbusError::PastEndOfAddressSpace {
                        start: start@,
                        count: count@,
                    })
                },
            },
            result is Ok <==> start@ + count@ <= 65536,
    {
        proof {
            use_type_invariant(&unit);
            use_type_invariant(&count);
        }
        let last: u32 = start.get() as u32 + count.get() as u32;
        if last > 0x1_0000 {
            return Err(
                ModbusError::PastEndOfAddressSpace { start: start.get(), count: count.get() },
            );
        }
        Ok(ReadRequest { transaction, unit, function, start, count })
    }

    /// The id this read carries, and the id its answer must echo.
    #[must_use]
    pub fn transaction(&self) -> (transaction: TransactionId)
        ensures
            transaction@ == self@.transaction,
    {
        self.transaction
    }

    /// The device this read is addressed to.
    #[must_use]
    pub fn unit(&self) -> (unit: UnitId)
        ensures
            unit@ == self@.unit,
    {
        self.unit
    }

    /// Which of the two read tables this read asks about.
    #[must_use]
    pub fn function(&self) -> (function: FunctionCode)
        ensures
            function == self@.function,
    {
        self.function
    }

    /// Where in the map this read starts.
    #[must_use]
    pub fn start(&self) -> (start: RegisterAddress)
        ensures
            start@ == self@.start,
    {
        self.start
    }

    /// How many registers this read asks for, and so how many bytes its
    /// answer owes.
    #[must_use]
    pub fn count(&self) -> (count: RegisterCount)
        ensures
            count@ == self@.count,
    {
        self.count
    }

    /// This read, as the bytes that go on the wire.
    ///
    /// Big-endian throughout, which is the protocol's order and not a choice.
    #[must_use]
    pub fn encode(&self) -> (frame: Vec<u8>)
        ensures
            self@.valid(),
            frame@ == self@.encoded(),
            frame@.len() == 12,
            frame@[0] * 256 + frame@[1] == self@.transaction,
            frame@[2] == 0,
            frame@[3] == 0,
            frame@[4] == 0,
            frame@[5] == 6,
            frame@[6] == self@.unit,
            frame@[7] == 3 <==> self@.function is ReadHoldingRegisters,
            frame@[7] == 4 <==> self@.function is ReadInputRegisters,
            frame@[8] * 256 + frame@[9] == self@.start,
            frame@[10] * 256 + frame@[11] == self@.count,
    {
        proof {
            use_type_invariant(self);
        }
        let mut frame: Vec<u8> = Vec::with_capacity(REQUEST_FRAME_LEN);
        push_word(&mut frame, self.transaction.get());
        push_word(&mut frame, PROTOCOL_ID);
        push_word(&mut frame, REQUEST_LENGTH);
        frame.push(self.unit.get());
        frame.push(self.function.code());
        push_word(&mut frame, self.start.get());
        push_word(&mut frame, self.count.get());
        assert(frame@ =~= self@.encoded());
        frame
    }

    /// What a device sent back, as the registers this read asked for.
    ///
    /// The frame is the whole reply, header included, exactly as many bytes
    /// as its length field declares. Everything the device echoed is checked
    /// against this request before a single register is believed, which is
    /// what keeps a late answer to a previous read from being taken as this
    /// one's.
    ///
    /// # Errors
    ///
    /// Returns [`ModbusError::Exception`] when the device refused the read,
    /// and one of the framing or echo variants when the frame is not an
    /// answer to this request. No reply produces a panic and none produces
    /// registers the device did not send.
    pub fn decode(&self, frame: &[u8]) -> (result: Result<Vec<u16>, ModbusError>)
        ensures
            self@.valid(),
            outcome(result) == self@.decoded(frame@),
            match result {
                Ok(words) => self@.decoded(frame@) == Ok::<Seq<u16>, ModbusError>(words@),
                Err(error) => self@.decoded(frame@) == Err::<Seq<u16>, ModbusError>(error),
            },
            result matches Ok(words) ==> {
                &&& words@.len() == self@.count
                &&& frame@.len() == 9 + 2 * self@.count
                &&& forall|i: int|
                    0 <= i < self@.count ==> #[trigger] words@[i] == frame@[9 + 2 * i] * 256
                        + frame@[10 + 2 * i]
            },
    {
        proof {
            use_type_invariant(self);
        }
        let reply = match parse_reply(frame) {
            Ok(reply) => reply,
            Err(error) => return Err(error),
        };
        if let Err(error) = self.check_echo(&reply) {
            return Err(error);
        }
        let expected: u8 = self.function.code();
        if reply.function == expected {
            return self.registers(&reply);
        }
        assert(3u8 | 0x80 == 0x83u8) by (bit_vector);
        assert(4u8 | 0x80 == 0x84u8) by (bit_vector);
        if reply.function == expected | EXCEPTION_BIT {
            return Err(exception(expected, &reply));
        }
        Err(ModbusError::FunctionMismatch { expected, found: reply.function })
    }

    /// That the device answering is the device that was asked, about the read
    /// it was asked.
    fn check_echo(&self, reply: &Reply<'_>) -> (result: Result<(), ModbusError>)
        ensures
            result is Ok <==> {
                &&& reply@.transaction == self@.transaction
                &&& reply@.unit == self@.unit
            },
            result matches Err(error) ==> self@.answered_by(reply@) == Err::<Seq<u16>, ModbusError>(
                error,
            ),
    {
        if reply.transaction != self.transaction.get() {
            return Err(
                ModbusError::TransactionMismatch {
                    expected: self.transaction.get(),
                    found: reply.transaction,
                },
            );
        }
        if reply.unit != self.unit.get() {
            return Err(
                ModbusError::UnitMismatch { expected: self.unit.get(), found: reply.unit },
            );
        }
        Ok(())
    }

    /// A successful reply's registers, big-endian pairs, in the order the
    /// device sent them.
    fn registers(&self, reply: &Reply<'_>) -> (result: Result<Vec<u16>, ModbusError>)
        ensures
            outcome(result) == reply@.words(self@.count),
            match result {
                Ok(words) => reply@.words(self@.count) == Ok::<Seq<u16>, ModbusError>(words@),
                Err(error) => reply@.words(self@.count) == Err::<Seq<u16>, ModbusError>(error),
            },
    {
        let byte_count: u8 = match reply.pdu.first() {
            Some(byte) => *byte,
            None => return Err(reply.too_short()),
        };
        let words = reply.pdu.split_at(1).1;
        assert(words@ =~= reply@.pdu.skip(1));
        let expected: u16 = self.count.byte_count();
        if byte_count as u16 != expected {
            return Err(
                ModbusError::ByteCountMismatch { declared: byte_count as u16, expected },
            );
        }
        if words.len() != byte_count as usize {
            return Err(
                ModbusError::InconsistentLength { declared: reply.declared, byte_count },
            );
        }
        let mut registers: Vec<u16> = Vec::new();
        let mut at: usize = 0;
        while at < words.len()
            invariant
                at <= words@.len(),
                words@.len() % 2 == 0,
                at == 2 * registers@.len(),
                forall|i: int|
                    0 <= i < registers@.len() ==> #[trigger] registers@[i] == bytes::word_of(
                        words@[2 * i],
                        words@[2 * i + 1],
                    ),
            decreases words@.len() - at,
        {
            registers.push(bytes::join(words[at], words[at + 1]));
            at = at + 2;
        }
        assert(registers@ =~= bytes::words_of(words@));
        Ok(registers)
    }
}

/// Add a word to a frame, in wire order.
fn push_word(frame: &mut Vec<u8>, word: u16)
    ensures
        final(frame)@ == old(frame)@.push(bytes::high_byte(word)).push(bytes::low_byte(word)),
{
    let (high, low) = bytes::split(word);
    frame.push(high);
    frame.push(low);
}

} // verus!
