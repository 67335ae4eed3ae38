//! What holds of reads, replies and the numbers in them as a whole.

use vstd::prelude::*;

use crate::bytes;
use crate::decode;
use crate::decode::{Reading, RegisterKind};
use crate::error::{ExceptionCode, ModbusError};
use crate::frame;
use crate::exchange;
use crate::exchange::{StageModel, StepModel};
use crate::frame::{
    FunctionCode, ReadFields, HEADER_PREFIX_LEN, MAX_LENGTH, MAX_REGISTERS, MIN_FRAME_LEN,
    MIN_LENGTH, REQUEST_FRAME_LEN,
};
use crate::replies;
use crate::server;
use crate::server::{LiveModel, RememberError, ServeStageModel, ServeStepModel};

verus! {

/// A write cannot be spelled: whatever a read asks for, its frame is twelve
/// bytes whose function code is 3 or 4.
pub proof fn every_request_reads(read: ReadFields)
    ensures
        read.encoded().len() == REQUEST_FRAME_LEN,
        read.encoded()[7] == 3 || read.encoded()[7] == 4,
{
}

/// A request is its frame: two reads with the same bytes are the same read.
pub proof fn a_frame_spells_one_request(left: ReadFields, right: ReadFields)
    requires
        left.encoded() == right.encoded(),
    ensures
        left == right,
{
    let bytes = left.encoded();
    assert(bytes[0] == right.encoded()[0] && bytes[1] == right.encoded()[1]);
    assert(bytes[6] == right.encoded()[6] && bytes[7] == right.encoded()[7]);
    assert(bytes[8] == right.encoded()[8] && bytes[9] == right.encoded()[9]);
    assert(bytes[10] == right.encoded()[10] && bytes[11] == right.encoded()[11]);
    bytes::join_undoes_split(left.transaction);
    bytes::join_undoes_split(right.transaction);
    bytes::join_undoes_split(left.start);
    bytes::join_undoes_split(right.start);
    bytes::join_undoes_split(left.count);
    bytes::join_undoes_split(right.count);
}

/// Input registers are the same read of a different table, so the two frames
/// differ in the function code and nowhere else.
pub proof fn the_tables_differ_in_one_byte(read: ReadFields)
    ensures
        ({
            let holding = ReadFields { function: FunctionCode::ReadHoldingRegisters, ..read };
            let input = ReadFields { function: FunctionCode::ReadInputRegisters, ..read };
            &&& holding.encoded().len() == input.encoded().len()
            &&& forall|i: int|
                0 <= i < holding.encoded().len() ==> (holding.encoded()[i] != input.encoded()[i]
                    <==> i == 7)
        }),
{
}

/// The register ceiling is the protocol's own: it is exactly what an answer
/// and its byte count can carry.
pub proof fn the_ceiling_is_what_a_frame_carries(count: u16)
    ensures
        frame::is_answerable(count) <==> count >= 1 && 3 + 2 * count <= MAX_LENGTH,
        frame::is_answerable(count) ==> 2 * count <= u8::MAX,
{
}

/// A reply is taken apart into what it was put together from.
pub proof fn a_reply_is_framed(transaction: u16, unit: u8, function: u8, words: Seq<u16>)
    requires
        words.len() <= MAX_REGISTERS,
    ensures
        frame::framed(frame::reply_frame(transaction, unit, function, words)) == Ok::<
            frame::ReplyFields,
            ModbusError,
        >(
            frame::ReplyFields {
                declared: (3 + 2 * words.len()) as u16,
                transaction,
                unit,
                function,
                pdu: seq![(2 * words.len()) as u8] + bytes::bytes_of(words),
            },
        ),
{
    let reply = frame::reply_frame(transaction, unit, function, words);
    let declared = (3 + 2 * words.len()) as u16;
    assert(reply.len() == 9 + 2 * words.len());
    bytes::join_undoes_split(transaction);
    bytes::join_undoes_split(declared);
    assert(frame::field_at(reply, 2) == 0);
    assert(frame::field_at(reply, 4) == declared);
    assert(reply.skip(8) =~= seq![(2 * words.len()) as u8] + bytes::bytes_of(words));
}

/// A refusal is taken apart into what it was put together from.
pub proof fn a_refusal_is_framed(transaction: u16, unit: u8, function: u8, code: u8)
    ensures
        frame::framed(frame::refusal_frame(transaction, unit, function, code)) == Ok::<
            frame::ReplyFields,
            ModbusError,
        >(
            frame::ReplyFields {
                declared: 3,
                transaction,
                unit,
                function: frame::refusing(function),
                pdu: seq![code],
            },
        ),
{
    let reply = frame::refusal_frame(transaction, unit, function, code);
    bytes::join_undoes_split(transaction);
    assert(frame::field_at(reply, 2) == 0);
    assert(frame::field_at(reply, 4) == 3);
    assert(reply.skip(8) =~= seq![code]);
}

/// A frame answers a read with exactly the words it was built from.
pub proof fn an_answer_is_believed(read: ReadFields, words: Seq<u16>)
    requires
        read.valid(),
        words.len() == read.count,
    ensures
        read.decoded(
            frame::reply_frame(read.transaction, read.unit, read.function.wire(), words),
        ) == Ok::<Seq<u16>, ModbusError>(words),
{
    a_reply_is_framed(read.transaction, read.unit, read.function.wire(), words);
    let pdu = seq![(2 * words.len()) as u8] + bytes::bytes_of(words);
    assert(pdu.skip(1) =~= bytes::bytes_of(words));
    bytes::words_survive_bytes(words);
}

/// No reply produces registers the device did not send: the one frame a read
/// takes words from is the answer that carries those words, echoes the read
/// and is as long as it says.
pub proof fn only_the_answer_is_believed(read: ReadFields, reply: Seq<u8>, words: Seq<u16>)
    requires
        read.valid(),
    ensures
        read.decoded(reply) == Ok::<Seq<u16>, ModbusError>(words) <==> {
            &&& words.len() == read.count
            &&& reply == frame::reply_frame(
                read.transaction,
                read.unit,
                read.function.wire(),
                words,
            )
        },
{
    if words.len() == read.count {
        an_answer_is_believed(read, words);
    }
    if read.decoded(reply) == Ok::<Seq<u16>, ModbusError>(words) {
        a_believed_frame_is_the_answer(read, reply, words);
    }
}

/// A frame that a read takes words from is the answer that carries them.
proof fn a_believed_frame_is_the_answer(read: ReadFields, reply: Seq<u8>, words: Seq<u16>)
    requires
        read.valid(),
        read.decoded(reply) == Ok::<Seq<u16>, ModbusError>(words),
    ensures
        words.len() == read.count,
        reply == frame::reply_frame(read.transaction, read.unit, read.function.wire(), words),
{
    replies::words_by_position(read, reply);
    an_answer_is_believed(read, words);
    replies::an_answer_is_its_words(
        read,
        reply,
        frame::reply_frame(read.transaction, read.unit, read.function.wire(), words),
    );
}

/// No frame answers two reads: reads that take words from one frame agree in
/// everything a reply echoes. Vary the transaction id, and a late answer to an
/// earlier read is never taken as this one's.
pub proof fn a_frame_answers_one_read(left: ReadFields, right: ReadFields, reply: Seq<u8>)
    requires
        left.valid(),
        right.valid(),
        left.decoded(reply) is Ok,
        right.decoded(reply) is Ok,
    ensures
        left.transaction == right.transaction,
        left.unit == right.unit,
        left.function == right.function,
        left.count == right.count,
        left.decoded(reply) == right.decoded(reply),
{
}

/// A whole, well-formed frame that answers another transaction is refused by
/// its transaction, whatever else it carries.
pub proof fn a_stale_reply_is_refused(read: ReadFields, reply: Seq<u8>)
    requires
        frame::framed(reply) is Ok,
        frame::field_at(reply, 0) != read.transaction,
    ensures
        read.decoded(reply) == Err::<Seq<u16>, ModbusError>(
            ModbusError::TransactionMismatch {
                expected: read.transaction,
                found: frame::field_at(reply, 0),
            },
        ),
{
}

/// A well-formed frame from a unit that was not asked is refused by its unit.
pub proof fn a_reply_from_another_unit_is_refused(read: ReadFields, reply: Seq<u8>)
    requires
        frame::framed(reply) is Ok,
        frame::field_at(reply, 0) == read.transaction,
        reply[6] != read.unit,
    ensures
        read.decoded(reply) == Err::<Seq<u16>, ModbusError>(
            ModbusError::UnitMismatch { expected: read.unit, found: reply[6] },
        ),
{
}

/// A well-formed frame that echoes the read and carries another function code
/// is refused by that code.
pub proof fn a_reply_to_another_function_is_refused(read: ReadFields, reply: Seq<u8>)
    requires
        frame::framed(reply) is Ok,
        frame::field_at(reply, 0) == read.transaction,
        reply[6] == read.unit,
        reply[7] != read.function.wire(),
        reply[7] != frame::refusing(read.function.wire()),
    ensures
        read.decoded(reply) == Err::<Seq<u16>, ModbusError>(
            ModbusError::FunctionMismatch { expected: read.function.wire(), found: reply[7] },
        ),
{
}

/// A frame cut short in transit is refused, at whatever byte it was cut.
pub proof fn a_cut_reply_is_refused(read: ReadFields, reply: Seq<u8>, kept: nat)
    requires
        frame::framed(reply) is Ok,
        kept < reply.len(),
    ensures
        read.decoded(reply.take(kept as int)) == Err::<Seq<u16>, ModbusError>(
            if kept < MIN_FRAME_LEN {
                ModbusError::TooShort { expected: MIN_FRAME_LEN, found: kept as usize }
            } else {
                ModbusError::LengthMismatch {
                    declared: frame::field_at(reply, 4),
                    found: (kept - HEADER_PREFIX_LEN) as u16,
                }
            },
        ),
{
    let cut = reply.take(kept as int);
    if kept >= MIN_FRAME_LEN {
        assert(frame::field_at(cut, 2) == frame::field_at(reply, 2));
        assert(frame::field_at(cut, 4) == frame::field_at(reply, 4));
    }
}

/// A frame with anything behind it is refused: a caller hands over one frame.
pub proof fn an_overlong_reply_is_refused(read: ReadFields, reply: Seq<u8>, following: Seq<u8>)
    requires
        frame::framed(reply) is Ok,
        following.len() > 0,
    ensures
        read.decoded(reply + following) == Err::<Seq<u16>, ModbusError>(
            ModbusError::LengthMismatch {
                declared: frame::field_at(reply, 4),
                found: frame::carried_by(reply + following),
            },
        ),
{
    let long = reply + following;
    assert(frame::field_at(long, 2) == frame::field_at(reply, 2));
    assert(frame::field_at(long, 4) == frame::field_at(reply, 4));
}

/// A refusal of the read is reported with the reason the device gave.
pub proof fn a_refusal_is_reported(read: ReadFields, code: u8)
    requires
        read.valid(),
    ensures
        read.decoded(
            frame::refusal_frame(read.transaction, read.unit, read.function.wire(), code),
        ) == Err::<Seq<u16>, ModbusError>(
            ModbusError::Exception {
                function: read.function.wire(),
                code: ExceptionCode::named_by(code),
            },
        ),
{
    a_refusal_is_framed(read.transaction, read.unit, read.function.wire(), code);
}

/// A read reports an exception when, and only when, a well-framed reply that
/// echoes the read carries its function code with the exception bit and a
/// reason behind it.
pub proof fn only_a_refusal_is_reported(
    read: ReadFields,
    reply: Seq<u8>,
    function: u8,
    code: ExceptionCode,
)
    requires
        read.valid(),
    ensures
        read.decoded(reply) == Err::<Seq<u16>, ModbusError>(
            ModbusError::Exception { function, code },
        ) <==> {
            &&& frame::framed(reply) is Ok
            &&& frame::field_at(reply, 0) == read.transaction
            &&& reply[6] == read.unit
            &&& reply[7] == frame::refusing(read.function.wire())
            &&& reply.len() > 8
            &&& function == read.function.wire()
            &&& code == ExceptionCode::named_by(reply[8])
        },
{
    if frame::framed(reply) is Ok && reply.len() > 8 {
        assert(reply.skip(8)[0] == reply[8]);
    }
}

/// Every byte is an exception of some kind, and is reported as itself.
pub proof fn an_exception_keeps_its_byte(byte: u8)
    ensures
        ExceptionCode::named_by(byte).wire() == byte,
{
}

/// An exception survives the trip through its byte, unless it is an unnamed
/// one that carries the byte of a named one.
pub proof fn a_byte_keeps_its_exception(code: ExceptionCode)
    ensures
        ExceptionCode::named_by(code.wire()) == code <==> (code matches ExceptionCode::Other(byte)
            ==> !(1 <= byte <= 8) && byte != 10 && byte != 11),
{
}

/// Every exception has words for an operator to read.
pub proof fn every_exception_has_a_name(code: ExceptionCode)
    ensures
        code.title().len() > 0,
{
    reveal_strlit("illegal function");
    reveal_strlit("illegal data address");
    reveal_strlit("illegal data value");
    reveal_strlit("server device failure");
    reveal_strlit("acknowledge");
    reveal_strlit("server device busy");
    reveal_strlit("negative acknowledge");
    reveal_strlit("memory parity error");
    reveal_strlit("gateway path unavailable");
    reveal_strlit("gateway target device failed to respond");
    reveal_strlit("an exception this specification does not define");
}

/// A read of the width a kind needs is never refused by the kind, and a read
/// of any other width always is.
pub proof fn a_kind_decodes_the_reads_it_fits(
    kind: RegisterKind,
    read: ReadFields,
    reply: Seq<u8>,
    words: Seq<u16>,
)
    requires
        read.valid(),
        read.decoded(reply) == Ok::<Seq<u16>, ModbusError>(words),
    ensures
        kind.decoded(words) is Ok <==> read.count == kind.width(),
{
    only_the_answer_is_believed(read, reply, words);
}

/// A number tells the words it came from: a kind reads no two answers alike.
pub proof fn a_reading_tells_its_words(kind: RegisterKind, left: Seq<u16>, right: Seq<u16>)
    requires
        left.len() == kind.width(),
        right.len() == kind.width(),
        kind.decoded(left) == kind.decoded(right),
    ensures
        left == right,
{
    assert(left[0] == right[0]);
    if kind.width() == 2 {
        assert(left[1] == right[1]);
    }
    assert(left =~= right);
}

/// The same word is two numbers depending on the kind: the signed one is the
/// unsigned one, or 65 536 below it, and it stays within 16 bits.
pub proof fn a_word_is_two_numbers(word: u16)
    ensures
        RegisterKind::U16.decoded(seq![word]) == Ok::<Reading, ModbusError>(
            Reading::Integer(word as i64),
        ),
        RegisterKind::I16.decoded(seq![word]) == Ok::<Reading, ModbusError>(
            Reading::Integer(decode::signed_of(word) as i64),
        ),
        decode::signed_of(word) == word || decode::signed_of(word) == word - 0x1_0000,
        i16::MIN <= decode::signed_of(word) <= i16::MAX,
{
}

/// A scale may be negative: a factor is one exactly when its negation is.
pub proof fn a_sign_flip_is_a_scale(factor: u64)
    ensures
        decode::is_finite(decode::negated(factor)) == decode::is_finite(factor),
        decode::is_zero(decode::negated(factor)) == decode::is_zero(factor),
        decode::negated(factor) != factor,
        decode::negated(decode::negated(factor)) == factor,
        decode::standing(decode::negated(factor)) == -decode::standing(factor),
{
}

/// No two scales stand together: among factors that are not zero, the order
/// tells every two patterns apart.
pub proof fn scales_stand_apart(left: u64, right: u64)
    requires
        !decode::is_zero(left),
        !decode::is_zero(right),
    ensures
        decode::standing(left) == decode::standing(right) <==> left == right,
{
}

/// What comes of an exchange over a transport that takes every write.
#[verifier::ext_equal]
pub struct Exchanged {
    /// What was written.
    pub written: Seq<u8>,
    /// How many of the incoming bytes whole stages read.
    pub consumed: nat,
    /// The answer to the read or why there is none, and nothing when the
    /// incoming bytes ended inside a frame.
    pub result: Option<Result<Seq<u16>, ModbusError>>,
}

/// How many stages follow a stage.
pub open spec fn stages_left(stage: StageModel) -> nat {
    match stage {
        StageModel::Write(_) => 3,
        StageModel::Flush => 2,
        StageModel::ReadHeader => 1,
        StageModel::ReadBody(_) => 0,
    }
}

/// An exchange from a stage on, over a transport that takes every write and
/// has `incoming` to read.
pub open spec fn exchanged(read: ReadFields, stage: StageModel, incoming: Seq<u8>) -> Exchanged
    decreases stages_left(stage),
{
    let written = match stage {
        StageModel::Write(bytes) => bytes,
        _ => Seq::empty(),
    };
    let wanted = stage.wanted();
    if incoming.len() < wanted {
        Exchanged { written, consumed: 0, result: None }
    } else {
        match read.after(stage, incoming.take(wanted as int)) {
            StepModel::Next(next) => {
                let rest = exchanged(read, next, incoming.skip(wanted as int));
                Exchanged {
                    written: written + rest.written,
                    consumed: wanted + rest.consumed,
                    result: rest.result,
                }
            },
            StepModel::Answered(result) => Exchanged {
                written,
                consumed: wanted,
                result: Some(result),
            },
            StepModel::Failed(_) => Exchanged { written, consumed: wanted, result: None },
        }
    }
}

/// An exchange writes the request, reads one frame by the length it declares,
/// decodes it, and leaves what follows. A length no frame can carry is
/// refused on the header alone, and a frame that ends early is no answer.
pub proof fn an_exchange_reads_one_frame(read: ReadFields, incoming: Seq<u8>)
    requires
        read.valid(),
    ensures
        ({
            let exchange = exchanged(read, StageModel::Write(read.encoded()), incoming);
            let declared = exchange::declared_by(incoming);
            let whole = HEADER_PREFIX_LEN + declared;
            &&& exchange.written == read.encoded()
            &&& incoming.len() < HEADER_PREFIX_LEN ==> exchange.result is None
            &&& incoming.len() >= HEADER_PREFIX_LEN && !frame::is_carriable(declared) ==> {
                &&& exchange.consumed == HEADER_PREFIX_LEN
                &&& exchange.result == Some(
                    Err::<Seq<u16>, ModbusError>(
                        ModbusError::LengthOutOfRange {
                            declared,
                            min: MIN_LENGTH,
                            max: MAX_LENGTH,
                        },
                    ),
                )
            }
            &&& HEADER_PREFIX_LEN <= incoming.len() < whole && frame::is_carriable(declared)
                ==> exchange.result is None
            &&& incoming.len() >= whole && frame::is_carriable(declared) ==> {
                &&& exchange.consumed == whole
                &&& exchange.result == Some(read.decoded(incoming.take(whole)))
            }
        }),
{
    reveal_with_fuel(exchanged, 4);
    let declared = exchange::declared_by(incoming);
    let whole = HEADER_PREFIX_LEN + declared;
    assert(incoming.skip(0) =~= incoming);
    assert(incoming.take(0) =~= Seq::<u8>::empty());
    let exchange = exchanged(read, StageModel::Write(read.encoded()), incoming);
    assert(exchange.written =~= read.encoded());
    if incoming.len() >= HEADER_PREFIX_LEN {
        let header = incoming.take(HEADER_PREFIX_LEN as int);
        let rest = incoming.skip(HEADER_PREFIX_LEN as int);
        assert(exchange::declared_by(header) == declared);
        if incoming.len() >= whole {
            assert(header + rest.take(declared as int) =~= incoming.take(whole as int));
        }
    }
}

/// Two replies arriving together are two frames, not one long one: an answer
/// is taken from the front, and what follows it stays where it is.
pub proof fn what_follows_an_answer_is_left(read: ReadFields, words: Seq<u16>, following: Seq<u8>)
    requires
        read.valid(),
        words.len() == read.count,
    ensures
        ({
            let answer = frame::reply_frame(
                read.transaction,
                read.unit,
                read.function.wire(),
                words,
            );
            let exchange = exchanged(
                read,
                StageModel::Write(read.encoded()),
                answer + following,
            );
            &&& exchange.result == Some(Ok::<Seq<u16>, ModbusError>(words))
            &&& (answer + following).skip(exchange.consumed as int) == following
        }),
{
    let answer = frame::reply_frame(read.transaction, read.unit, read.function.wire(), words);
    let incoming = answer + following;
    let declared = (3 + 2 * words.len()) as u16;
    assert(answer.len() == HEADER_PREFIX_LEN + declared);
    bytes::join_undoes_split(declared);
    assert(exchange::declared_by(incoming) == declared);
    an_exchange_reads_one_frame(read, incoming);
    assert(incoming.take(answer.len() as int) =~= answer);
    assert(incoming.skip(answer.len() as int) =~= following);
    an_answer_is_believed(read, words);
}

/// An exchange ends, and never waits for more bytes than a frame can carry:
/// each stage is followed by a later one that asks for no more than that.
pub proof fn an_exchange_ends(read: ReadFields, stage: StageModel, received: Seq<u8>)
    ensures
        read.after(stage, received) matches StepModel::Next(next) ==> {
            &&& stages_left(next) < stages_left(stage)
            &&& next.wanted() <= MAX_LENGTH
        },
        !(read.after(stage, received) is Failed),
{
}

/// Whatever it is asked, the device sends a whole Modbus frame that echoes
/// the transaction, and the unit when the request names one.
pub proof fn the_device_answers_in_frames(transaction: u16, body: Seq<u8>)
    ensures
        frame::framed(server::answered(transaction, body)) matches Ok(reply) && {
            &&& reply.transaction == transaction
            &&& reply.unit == if body.len() >= 4 {
                body[0]
            } else {
                server::UNIT
            }
            &&& reply.pdu.len() > 0
        },
{
    a_refusal_is_framed(transaction, server::UNIT, 0, server::ILLEGAL_FUNCTION);
    a_refusal_is_framed(transaction, body[0], body[1], server::ILLEGAL_FUNCTION);
    a_reply_is_framed(transaction, body[0], body[1], server::holding_words());
    a_reply_is_framed(transaction, body[0], body[1], server::input_words());
}

/// The device serves reads and refuses the rest: a request with any function
/// code but 3 and 4, those that write among them, is answered with an
/// exception that names the code.
pub proof fn the_device_refuses_other_functions(transaction: u16, body: Seq<u8>)
    requires
        body.len() >= 4,
        body[1] != 3,
        body[1] != 4,
    ensures
        server::answered(transaction, body) == frame::refusal_frame(
            transaction,
            body[0],
            body[1],
            server::ILLEGAL_FUNCTION,
        ),
{
}

/// What the device's answer says to a read of it.
pub open spec fn device_says(read: ReadFields) -> Result<Seq<u16>, ModbusError> {
    let function = read.function.wire();
    if function == 3 && read.start == server::HOLDING_AT {
        if read.count == 2 {
            Ok(server::holding_words())
        } else {
            Err(
                ModbusError::ByteCountMismatch { declared: 4, expected: (2 * read.count) as u16 },
            )
        }
    } else if function == 4 && read.start == server::INPUT_AT {
        if read.count == 1 {
            Ok(server::input_words())
        } else {
            Err(
                ModbusError::ByteCountMismatch { declared: 2, expected: (2 * read.count) as u16 },
            )
        }
    } else {
        Err(ModbusError::Exception { function, code: ExceptionCode::IllegalFunction })
    }
}

/// A read of the device over a connection: the device takes the request's
/// frame apart by its length, answers it and waits for the next, and the
/// client makes of the answer the registers at the two served addresses, or a
/// refusal everywhere else.
pub proof fn the_device_serves_its_registers(read: ReadFields)
    requires
        read.valid(),
    ensures
        ({
            let header = read.encoded().take(HEADER_PREFIX_LEN as int);
            let body = read.encoded().skip(HEADER_PREFIX_LEN as int);
            let reply = server::answered(read.transaction, body);
            let exchange = exchanged(read, StageModel::Write(read.encoded()), reply);
            &&& ServeStageModel::ReadHeader.after(header) == ServeStepModel::Next(
                ServeStageModel::ReadBody(header),
            )
            &&& ServeStageModel::ReadBody(header).wanted() == body.len()
            &&& ServeStageModel::ReadBody(header).after(body) == ServeStepModel::Next(
                ServeStageModel::WriteReply(reply),
            )
            &&& ServeStageModel::WriteReply(reply).after(Seq::empty()) == ServeStepModel::Next(
                ServeStageModel::ReadHeader,
            )
            &&& exchange.written == read.encoded()
            &&& exchange.consumed == reply.len()
            &&& exchange.result == Some(device_says(read))
        }),
{
    let header = read.encoded().take(HEADER_PREFIX_LEN as int);
    let body = read.encoded().skip(HEADER_PREFIX_LEN as int);
    let function = read.function.wire();
    bytes::join_undoes_split(read.transaction);
    bytes::join_undoes_split(read.start);
    assert(frame::field_at(header, 0) == read.transaction);
    assert(frame::field_at(header, 4) == 6);
    assert(body.len() == 6);
    assert(body[0] == read.unit);
    assert(body[1] == function);
    assert(frame::field_at(body, 2) == read.start);
    let reply = server::answered(read.transaction, body);
    the_device_answers_in_frames(read.transaction, body);
    an_exchange_reads_one_frame(read, reply);
    assert(reply.take(reply.len() as int) =~= reply);
    if function == 3 && read.start == server::HOLDING_AT {
        a_reply_is_framed(read.transaction, read.unit, function, server::holding_words());
        if read.count == 2 {
            an_answer_is_believed(read, server::holding_words());
        }
    } else if function == 4 && read.start == server::INPUT_AT {
        a_reply_is_framed(read.transaction, read.unit, function, server::input_words());
        if read.count == 1 {
            an_answer_is_believed(read, server::input_words());
        }
    } else {
        a_refusal_is_reported(read, server::ILLEGAL_FUNCTION);
    }
}

/// A served connection reads no body that a frame cannot carry: such a length
/// closes the connection, and nothing else that arrives does.
pub proof fn only_an_illegal_length_closes(stage: ServeStageModel, received: Seq<u8>)
    requires
        received.len() == stage.wanted(),
    ensures
        stage.after(received) is Close <==> {
            &&& stage is ReadHeader
            &&& !frame::is_carriable(frame::field_at(received, 4))
        },
        stage.after(received) matches ServeStepModel::Next(next) ==> next.wanted() <= MAX_LENGTH,
{
}

/// How many stages of a served connection follow before it reads again.
pub open spec fn stages_to_header(stage: ServeStageModel) -> nat {
    match stage {
        ServeStageModel::ReadHeader => 0,
        ServeStageModel::WriteReply(_) => 1,
        ServeStageModel::ReadBody(_) => 2,
    }
}

/// What the device says on a connection from a stage on, when it can write
/// everything and has `incoming` to read.
pub open spec fn served(stage: ServeStageModel, incoming: Seq<u8>) -> Seq<u8>
    decreases incoming.len(), stages_to_header(stage),
{
    let said = match stage {
        ServeStageModel::WriteReply(reply) => reply,
        _ => Seq::empty(),
    };
    let wanted = stage.wanted();
    if incoming.len() < wanted {
        said
    } else {
        match stage.after(incoming.take(wanted as int)) {
            ServeStepModel::Next(next) => said + served(next, incoming.skip(wanted as int)),
            ServeStepModel::Close => said,
        }
    }
}

/// The device answers every frame on a connection, one after the other:
/// whatever follows a whole frame is served as if it had come first.
pub proof fn the_device_answers_every_frame(header: Seq<u8>, body: Seq<u8>, following: Seq<u8>)
    requires
        header.len() == HEADER_PREFIX_LEN,
        frame::is_carriable(exchange::declared_by(header)),
        body.len() == exchange::declared_by(header),
    ensures
        served(ServeStageModel::ReadHeader, header + body + following) == server::answered(
            frame::field_at(header, 0),
            body,
        ) + served(ServeStageModel::ReadHeader, following),
{
    reveal_with_fuel(served, 4);
    let incoming = header + body + following;
    assert(incoming.take(HEADER_PREFIX_LEN as int) =~= header);
    let rest = incoming.skip(HEADER_PREFIX_LEN as int);
    assert(rest =~= body + following);
    assert(rest.take(body.len() as int) =~= body);
    assert(rest.skip(body.len() as int) =~= following);
    assert(following.skip(0) =~= following);
    let reply = server::answered(frame::field_at(header, 0), body);
    assert(served(ServeStageModel::WriteReply(reply), following) == reply + served(
        ServeStageModel::ReadHeader,
        following,
    ));
    assert(served(ServeStageModel::ReadHeader, incoming) =~= reply + served(
        ServeStageModel::ReadHeader,
        following,
    ));
}

/// A length no frame can carry ends a connection without an answer, whatever
/// follows it.
pub proof fn the_device_answers_no_illegal_length(header: Seq<u8>, following: Seq<u8>)
    requires
        header.len() == HEADER_PREFIX_LEN,
        !frame::is_carriable(exchange::declared_by(header)),
    ensures
        served(ServeStageModel::ReadHeader, header + following) == Seq::<u8>::empty(),
{
    assert((header + following).take(HEADER_PREFIX_LEN as int) =~= header);
}

/// No handle appears after a server has stopped: every stream is turned away
/// from then on, and the list stays empty.
pub proof fn a_stopped_server_holds_nothing<C>(live: LiveModel<C>, connection: C)
    ensures
        ({
            let stopped = live.stopping().0;
            &&& stopped.settled()
            &&& stopped.remembering(Some(connection)) == (
                stopped,
                Err::<(), RememberError>(RememberError::Stopped),
            )
            &&& stopped.releasing() == (stopped, None::<C>)
            &&& stopped.stopping() == (stopped, Seq::<C>::empty())
        }),
{
}

/// Serving leaves no trace: releasing a stream that was just remembered gives
/// it back and leaves the server as it was.
pub proof fn releasing_undoes_remembering<C>(live: LiveModel<C>, connection: C)
    requires
        live.running,
    ensures
        live.remembering(Some(connection)).1 is Ok,
        live.remembering(Some(connection)).0.releasing() == (live, Some(connection)),
{
    assert(live.connections.push(connection).drop_last() =~= live.connections);
}

/// A stream that was remembered and not yet released is among those that
/// stopping lets go of.
pub proof fn stopping_finds_what_is_served<C>(live: LiveModel<C>, connection: C)
    requires
        live.running,
    ensures
        live.remembering(Some(connection)).0.stopping().1 == live.connections.push(connection),
{
}

} // verus!
