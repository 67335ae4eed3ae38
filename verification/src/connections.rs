//! What a client and the device do on a connection, byte by byte.
//!
//! A law of an operation names the operation, what it was given and what it
//! gave back.

use vstd::prelude::*;

use crate::error::ModbusError;
use crate::exchange;
use crate::exchange::{ExchangeError, Stage, StageModel, Step, StepModel};
use crate::frame::{ReadFields, ReadRequest};
use crate::laws;
use crate::replies;
use crate::server;
use crate::server::{
    Admission, Arrival, Live, LiveModel, RememberError, ServeStage, ServeStageModel, ServeStep,
    ServeStepModel,
};
use crate::wire;

verus! {

/// A read begins by writing its own frame.
pub proof fn a_read_begins_with_its_frame(request: &ReadRequest, stage: Stage, sent: Vec<u8>)
    requires
        call_ensures(exchange::begin, (request,), stage),
        call_ensures(ReadRequest::encode, (request,), sent),
    ensures
        stage matches Stage::Write(bytes) && {
            &&& bytes@ == sent@
            &&& bytes@.len() == 12
            &&& bytes@[0] * 256 + bytes@[1] == request@.transaction
            &&& bytes@[2] == 0 && bytes@[3] == 0
            &&& bytes@[4] == 0 && bytes@[5] == 6
            &&& bytes@[6] == request@.unit
            &&& request@.function is ReadHoldingRegisters ==> bytes@[7] == 3
            &&& request@.function is ReadInputRegisters ==> bytes@[7] == 4
            &&& bytes@[8] * 256 + bytes@[9] == request@.start
            &&& bytes@[10] * 256 + bytes@[11] == request@.count
        },
{
    wire::a_request_by_position(request@);
}

/// A client's stages read six bytes for a header, as many for a body as the
/// header's fifth and sixth bytes say, and none besides.
pub proof fn a_stage_reads_by_length(stage: &Stage, wanted: usize)
    requires
        call_ensures(Stage::wanted, (stage,), wanted),
    ensures
        stage matches Stage::Write(_) ==> wanted == 0,
        stage matches Stage::Flush ==> wanted == 0,
        stage matches Stage::ReadHeader ==> wanted == 6,
        stage matches Stage::ReadBody(header) ==> wanted == header@[4] * 256 + header@[5],
{
}

/// What a model stage reads, in numbers.
pub proof fn a_model_stage_reads_by_length(stage: StageModel)
    ensures
        stage matches StageModel::Write(_) ==> stage.wanted() == 0,
        stage matches StageModel::Flush ==> stage.wanted() == 0,
        stage matches StageModel::ReadHeader ==> stage.wanted() == 6,
        stage matches StageModel::ReadBody(header) ==> stage.wanted() == header[4] * 256
            + header[5],
{
}

/// A stage stands for what it is: the same act on the same bytes.
pub proof fn a_stage_stands_for_itself(stage: Stage)
    ensures
        stage matches Stage::Write(bytes) ==> stage@ == StageModel::Write(bytes@),
        stage matches Stage::Flush ==> stage@ == StageModel::Flush,
        stage matches Stage::ReadHeader ==> stage@ == StageModel::ReadHeader,
        stage matches Stage::ReadBody(header) ==> stage@ == StageModel::ReadBody(header@),
{
}

/// A step stands for what it is: the next stage, the words or refusal of an
/// answer, or the transport's failure.
pub proof fn a_step_stands_for_itself(step: Step)
    ensures
        step matches Step::Next(stage) ==> step@ == StepModel::Next(stage@),
        step matches Step::Done(Ok(words)) ==> step@ == StepModel::Answered(Ok(words@)),
        step matches Step::Done(Err(ExchangeError::Modbus(error))) ==> step@
            == StepModel::Answered(Err(error)),
        step matches Step::Done(Err(ExchangeError::Io(error))) ==> step@ == StepModel::Failed(
            error,
        ),
{
}

/// A transport that fails ends the exchange with its own failure, at whatever
/// stage.
pub proof fn a_failure_ends_the_exchange(
    request: &ReadRequest,
    stage: Stage,
    error: std::io::Error,
    step: Step,
)
    requires
        call_ensures(
            exchange::read_registers,
            (request, stage, Err::<Vec<u8>, std::io::Error>(error)),
            step,
        ),
    ensures
        step == Step::Done(Err(ExchangeError::Io(error))),
{
}

/// The stages of an exchange follow one another: write, flush, header, body.
/// A header is followed by the body it declares, when that is 2 to 254 bytes,
/// and is refused by its length otherwise.
pub proof fn stages_follow_one_another(
    request: &ReadRequest,
    stage: Stage,
    received: Vec<u8>,
    step: Step,
)
    requires
        call_ensures(
            exchange::read_registers,
            (request, stage, Ok::<Vec<u8>, std::io::Error>(received)),
            step,
        ),
    ensures
        stage is Write ==> step == Step::Next(Stage::Flush),
        stage is Flush ==> step == Step::Next(Stage::ReadHeader),
        stage is ReadHeader && 2 <= received@[4] * 256 + received@[5] <= 254 ==> (
        step matches Step::Next(Stage::ReadBody(header)) && header@ == received@),
        stage is ReadHeader && !(2 <= received@[4] * 256 + received@[5] <= 254) ==> (
        step matches Step::Done(
            Err(ExchangeError::Modbus(ModbusError::LengthOutOfRange { declared, min, max })),
        ) && declared == received@[4] * 256 + received@[5] && min == 2 && max == 254),
        stage is ReadBody ==> step is Done,
{
    wire::two_bytes_spell_a_word(received@[4], received@[5]);
}

/// An exchange ends with what decoding the whole frame, header and body
/// together, gives.
pub proof fn an_exchange_ends_in_a_decoding(
    request: &ReadRequest,
    header: [u8; 6],
    received: Vec<u8>,
    step: Step,
    whole: &[u8],
    result: Result<Vec<u16>, ModbusError>,
)
    requires
        call_ensures(
            exchange::read_registers,
            (request, Stage::ReadBody(header), Ok::<Vec<u8>, std::io::Error>(received)),
            step,
        ),
        whole@ == header@ + received@,
        call_ensures(ReadRequest::decode, (request, whole), result),
    ensures
        match result {
            Ok(words) => step matches Step::Done(Ok(found)) && found@ == words@,
            Err(error) => step == Step::Done(Err(ExchangeError::Modbus(error))),
        },
{
}

/// The words an exchange ends with are those of the body, in order, and come
/// from a body that answers the read.
pub proof fn an_exchange_by_position(
    request: &ReadRequest,
    header: [u8; 6],
    received: Vec<u8>,
    step: Step,
)
    requires
        call_ensures(
            exchange::read_registers,
            (request, Stage::ReadBody(header), Ok::<Vec<u8>, std::io::Error>(received)),
            step,
        ),
        1 <= request@.count <= 125,
    ensures
        (step matches Step::Done(Ok(_))) <==> {
            &&& header@[0] * 256 + header@[1] == request@.transaction
            &&& header@[2] == 0
            &&& header@[3] == 0
            &&& header@[4] == 0
            &&& header@[5] == 3 + 2 * request@.count
            &&& received@.len() == 3 + 2 * request@.count
            &&& received@[0] == request@.unit
            &&& request@.function is ReadHoldingRegisters ==> received@[1] == 3
            &&& request@.function is ReadInputRegisters ==> received@[1] == 4
            &&& received@[2] == 2 * request@.count
        },
        step matches Step::Done(Ok(words)) ==> {
            &&& words@.len() == request@.count
            &&& forall|i: int|
                0 <= i < request@.count ==> #[trigger] words@[i] == received@[3 + 2 * i] * 256
                    + received@[4 + 2 * i]
        },
{
    let whole = header@ + received@;
    replies::an_answer_by_position(request@, whole);
    replies::words_by_position(request@, whole);
    assert(whole.take(6) =~= header@);
    assert(whole.skip(6) =~= received@);
    if whole.len() >= 9 {
        assert(whole[6] == received@[0] && whole[7] == received@[1] && whole[8] == received@[2]);
    }
    if let Step::Done(Ok(words)) = step {
        assert forall|i: int| 0 <= i < request@.count implies #[trigger] words@[i] == received@[3
            + 2 * i] * 256 + received@[4 + 2 * i] by {
            assert(whole[9 + 2 * i] == received@[3 + 2 * i]);
            assert(whole[10 + 2 * i] == received@[4 + 2 * i]);
        }
    }
}

/// Over a whole stream: an exchange takes six bytes and as many more as they
/// declare, and no others. Fewer are no answer, and a length that is not 2 to
/// 254 is refused after the six.
pub proof fn an_exchange_by_length(read: ReadFields, incoming: Seq<u8>)
    requires
        1 <= read.unit <= 247 || read.unit == 255,
        1 <= read.count <= 125,
        read.start + read.count <= 65536,
    ensures
        ({
            let exchange = laws::exchanged(read, StageModel::Write(read.encoded()), incoming);
            let declared = incoming[4] * 256 + incoming[5];
            &&& exchange.written == read.encoded()
            &&& incoming.len() < 6 ==> exchange.result is None && exchange.consumed == 0
            &&& incoming.len() >= 6 && !(2 <= declared <= 254) ==> {
                &&& exchange.consumed == 6
                &&& exchange.result == Some(
                    Err::<Seq<u16>, ModbusError>(
                        ModbusError::LengthOutOfRange {
                            declared: declared as u16,
                            min: 2,
                            max: 254,
                        },
                    ),
                )
            }
            &&& 2 <= declared <= 254 && 6 <= incoming.len() < 6 + declared ==> exchange.result is None
            &&& 2 <= declared <= 254 && incoming.len() >= 6 + declared ==> {
                &&& exchange.consumed == 6 + declared
                &&& exchange.result == Some(read.decoded(incoming.take(6 + declared)))
            }
        }),
{
    wire::valid_reads_in_numbers(read);
    wire::two_bytes_spell_a_word(incoming[4], incoming[5]);
    laws::an_exchange_reads_one_frame(read, incoming);
    reveal_with_fuel(laws::exchanged, 4);
    assert(incoming.skip(0) =~= incoming);
}

/// What a model exchange does next, in numbers.
pub proof fn a_model_stage_is_followed(read: ReadFields, stage: StageModel, received: Seq<u8>)
    ensures
        ({
            let step = read.after(stage, received);
            let declared = received[4] * 256 + received[5];
            &&& stage is Write ==> step == StepModel::Next(StageModel::Flush)
            &&& stage is Flush ==> step == StepModel::Next(StageModel::ReadHeader)
            &&& stage is ReadHeader && 2 <= declared <= 254 ==> step == StepModel::Next(
                StageModel::ReadBody(received),
            )
            &&& stage is ReadHeader && !(2 <= declared <= 254) ==> step == StepModel::Answered(
                Err(
                    ModbusError::LengthOutOfRange { declared: declared as u16, min: 2, max: 254 },
                ),
            )
            &&& stage matches StageModel::ReadBody(header) ==> step == StepModel::Answered(
                read.decoded(header + received),
            )
        }),
{
    wire::two_bytes_spell_a_word(received[4], received[5]);
}

/// The lengths a device reads a body for are 2 to 254.
pub proof fn frame_lengths_are_two_to_254(declared: u16, legal: bool)
    requires
        call_ensures(server::is_frame_length, (declared,), legal),
    ensures
        legal <==> 2 <= declared <= 254,
{
}

/// What the device says to every body, byte by byte: the two holding words to
/// function 3 at address 0, the input word to function 4 at address 10, and a
/// refusal to anything else, a body of fewer than four bytes included.
pub proof fn the_device_answers_by_position(transaction: u16, body: Seq<u8>)
    ensures
        ({
            let said = server::answered(transaction, body);
            let holding = body.len() >= 4 && body[1] == 3 && body[2] == 0 && body[3] == 0;
            let input = body.len() >= 4 && body[1] == 4 && body[2] == 0 && body[3] == 10;
            &&& said[0] * 256 + said[1] == transaction
            &&& body.len() < 4 ==> said.skip(2) == seq![0u8, 0, 0, 3, 1, 0x80, 1]
            &&& holding ==> said.skip(2) == seq![
                0u8,
                0,
                0,
                7,
                body[0],
                3,
                4,
                0x42,
                0x48,
                0,
                0,
            ]
            &&& input ==> said.skip(2) == seq![0u8, 0, 0, 5, body[0], 4, 2, 0xff, 0x38]
            &&& body.len() >= 4 && !holding && !input ==> said.skip(2) == seq![
                0u8,
                0,
                0,
                3,
                body[0],
                (128 + body[1] % 128) as u8,
                1,
            ]
        }),
{
    let said = server::answered(transaction, body);
    let holding = body.len() >= 4 && body[1] == 3 && body[2] == 0 && body[3] == 0;
    let input = body.len() >= 4 && body[1] == 4 && body[2] == 0 && body[3] == 10;
    wire::two_bytes_spell_a_word(body[2], body[3]);
    wire::a_word_is_two_bytes(transaction);
    if body.len() < 4 {
        replies::a_refusal_by_position(transaction, 1, 0, 1);
        assert(said.skip(2) =~= seq![0u8, 0, 0, 3, 1, 0x80, 1]);
    } else if holding {
        assert(said =~= seq![
            said[0],
            said[1],
            0u8,
            0,
            0,
            7,
            body[0],
            3,
            4,
            0x42,
            0x48,
            0,
            0,
        ]);
        assert(said.skip(2) =~= seq![0u8, 0, 0, 7, body[0], 3, 4, 0x42, 0x48, 0, 0]);
    } else if input {
        assert(said.skip(2) =~= seq![0u8, 0, 0, 5, body[0], 4, 2, 0xff, 0x38]);
    } else {
        replies::a_refusal_by_position(transaction, body[0], body[1], 1);
        assert(said.skip(2) =~= seq![
            0u8,
            0,
            0,
            3,
            body[0],
            (128 + body[1] % 128) as u8,
            1,
        ]);
    }
}

/// Answering a body, byte by byte.
pub proof fn answering_by_position(transaction: u16, body: &[u8], reply: Vec<u8>)
    requires
        call_ensures(server::answer, (transaction, body), reply),
    ensures
        ({
            let said = reply@;
            let holding = body@.len() >= 4 && body@[1] == 3 && body@[2] == 0 && body@[3] == 0;
            let input = body@.len() >= 4 && body@[1] == 4 && body@[2] == 0 && body@[3] == 10;
            &&& said[0] * 256 + said[1] == transaction
            &&& body@.len() < 4 ==> said.skip(2) == seq![0u8, 0, 0, 3, 1, 0x80, 1]
            &&& holding ==> said.skip(2) == seq![
                0u8,
                0,
                0,
                7,
                body@[0],
                3,
                4,
                0x42,
                0x48,
                0,
                0,
            ]
            &&& input ==> said.skip(2) == seq![0u8, 0, 0, 5, body@[0], 4, 2, 0xff, 0x38]
            &&& body@.len() >= 4 && !holding && !input ==> said.skip(2) == seq![
                0u8,
                0,
                0,
                3,
                body@[0],
                (128 + body@[1] % 128) as u8,
                1,
            ]
        }),
{
    the_device_answers_by_position(transaction, body@);
}

/// A reply of two words, byte by byte.
pub proof fn a_holding_reply_by_position(
    transaction: u16,
    unit: u8,
    function: u8,
    words: [u16; 2],
    reply: [u8; 13],
)
    requires
        call_ensures(server::holding_reply, (transaction, unit, function, words), reply),
    ensures
        reply@[0] * 256 + reply@[1] == transaction,
        reply@.subrange(2, 9) == seq![0u8, 0, 0, 7, unit, function, 4],
        reply@[9] * 256 + reply@[10] == words@[0],
        reply@[11] * 256 + reply@[12] == words@[1],
{
}

/// A reply of one word, byte by byte.
pub proof fn an_input_reply_by_position(
    transaction: u16,
    unit: u8,
    function: u8,
    words: [u16; 1],
    reply: [u8; 11],
)
    requires
        call_ensures(server::input_reply, (transaction, unit, function, words), reply),
    ensures
        reply@[0] * 256 + reply@[1] == transaction,
        reply@.subrange(2, 9) == seq![0u8, 0, 0, 5, unit, function, 2],
        reply@[9] * 256 + reply@[10] == words@[0],
{
}

/// A refusal, byte by byte.
pub proof fn an_exception_by_position(
    transaction: u16,
    unit: u8,
    function: u8,
    code: u8,
    reply: [u8; 9],
)
    requires
        call_ensures(server::exception, (transaction, unit, function, code), reply),
    ensures
        reply@[0] * 256 + reply@[1] == transaction,
        reply@.skip(2) == seq![0u8, 0, 0, 3, unit, (128 + function % 128) as u8, code],
{
    replies::a_refusal_by_position(transaction, unit, function, code);
    assert(reply@.skip(2) =~= seq![0u8, 0, 0, 3, unit, (128 + function % 128) as u8, code]);
}

/// From a read to its words: what a client makes of the device's answer to
/// the frame it sent. A read of the two holding words gets them, a read of
/// the input word gets it, a read of another width at those addresses is
/// refused by its byte count, and every other read by the device.
pub proof fn a_read_of_the_device(
    read: &ReadRequest,
    sent: Vec<u8>,
    body: &[u8],
    reply: Vec<u8>,
    frame: &[u8],
    result: Result<Vec<u16>, ModbusError>,
)
    requires
        call_ensures(ReadRequest::encode, (read,), sent),
        body@ == sent@.skip(6),
        call_ensures(server::answer, (read@.transaction, body), reply),
        frame@ == reply@,
        call_ensures(ReadRequest::decode, (read, frame), result),
    ensures
        ({
            let holding = read@.function is ReadHoldingRegisters && read@.start == 0;
            let input = read@.function is ReadInputRegisters && read@.start == 10;
            &&& holding && read@.count == 2 ==> (result matches Ok(words) && words@ == seq![
                0x4248u16,
                0,
            ])
            &&& holding && read@.count != 2 ==> result == Err::<Vec<u16>, ModbusError>(
                ModbusError::ByteCountMismatch { declared: 4, expected: (2 * read@.count) as u16 },
            )
            &&& input && read@.count == 1 ==> (result matches Ok(words) && words@ == seq![
                0xff38u16,
            ])
            &&& input && read@.count != 1 ==> result == Err::<Vec<u16>, ModbusError>(
                ModbusError::ByteCountMismatch { declared: 2, expected: (2 * read@.count) as u16 },
            )
            &&& !holding && !input ==> (result matches Err(
                ModbusError::Exception { function, code },
            ) && code is IllegalFunction && function == if read@.function is ReadHoldingRegisters {
                3u8
            } else {
                4u8
            })
        }),
{
    let said = reply@;
    wire::encoding_by_position(read, sent);
    replies::decoding_by_position(read, frame, result);
    answering_by_position(read@.transaction, body, reply);
    assert(body@[0] == read@.unit);
    assert(body@[1] == sent@[7]);
    assert(body@[2] * 256 + body@[3] == read@.start);
    let holding = read@.function is ReadHoldingRegisters && read@.start == 0;
    let input = read@.function is ReadInputRegisters && read@.start == 10;
    let rest = said.skip(2);
    if said.len() >= 9 {
        assert(said[2] == rest[0] && said[3] == rest[1] && said[4] == rest[2]);
        assert(said[5] == rest[3] && said[6] == rest[4] && said[7] == rest[5]);
        assert(said[8] == rest[6]);
    }
    if holding {
        if read@.count == 2 {
            assert(said[9] == rest[7] && said[10] == rest[8] && said[11] == rest[9]);
            assert(said[12] == rest[10]);
            let words = result->Ok_0;
            assert(words@[0] == said[9] * 256 + said[10]);
            assert(words@[1] == said[11] * 256 + said[12]);
            assert(words@ =~= seq![0x4248u16, 0]);
        } else {
            replies::an_answer_counts_what_was_asked(read@, said);
        }
    } else if input {
        if read@.count == 1 {
            assert(said[9] == rest[7] && said[10] == rest[8]);
            let words = result->Ok_0;
            assert(words@[0] == said[9] * 256 + said[10]);
            assert(words@ =~= seq![0xff38u16]);
        } else {
            replies::an_answer_counts_what_was_asked(read@, said);
        }
    } else {
        replies::a_refusal_names_its_reason(read@, said);
    }
}

/// The device's stages read six bytes for a header, as many for a body as the
/// header's fifth and sixth bytes say, and none besides.
pub proof fn a_served_stage_reads_by_length(stage: &ServeStage, wanted: usize)
    requires
        call_ensures(ServeStage::wanted, (stage,), wanted),
    ensures
        stage matches ServeStage::ReadHeader ==> wanted == 6,
        stage matches ServeStage::ReadBody(header) ==> wanted == header@[4] * 256 + header@[5],
        stage matches ServeStage::WriteReply(_) ==> wanted == 0,
{
}

/// What a model stage of the device reads, in numbers.
pub proof fn a_model_served_stage_reads_by_length(stage: ServeStageModel)
    ensures
        stage matches ServeStageModel::ReadHeader ==> stage.wanted() == 6,
        stage matches ServeStageModel::ReadBody(header) ==> stage.wanted() == header[4] * 256
            + header[5],
        stage matches ServeStageModel::WriteReply(_) ==> stage.wanted() == 0,
{
}

/// A served stage stands for what it is: the same act on the same bytes.
pub proof fn a_served_stage_stands_for_itself(stage: ServeStage)
    ensures
        stage matches ServeStage::ReadHeader ==> stage@ == ServeStageModel::ReadHeader,
        stage matches ServeStage::ReadBody(header) ==> stage@ == ServeStageModel::ReadBody(
            header@,
        ),
        stage matches ServeStage::WriteReply(reply) ==> stage@ == ServeStageModel::WriteReply(
            reply@,
        ),
        ServeStep::Next(stage)@ == ServeStepModel::Next(stage@),
        ServeStep::Close@ == ServeStepModel::Close,
{
}

/// What the device does next on a connection: a header is followed by the
/// body it declares, when that is 2 to 254 bytes, and closes the connection
/// otherwise; a body is followed by what the device says to it, under the
/// transaction of its header; and a reply by the next header.
pub proof fn served_stages_follow_one_another(
    stage: ServeStage,
    received: Vec<u8>,
    step: ServeStep,
)
    requires
        call_ensures(server::serve, (stage, Some(received)), step),
    ensures
        stage is ReadHeader && 2 <= received@[4] * 256 + received@[5] <= 254 ==> (
        step matches ServeStep::Next(ServeStage::ReadBody(header)) && header@ == received@),
        stage is ReadHeader && !(2 <= received@[4] * 256 + received@[5] <= 254) ==> step
            == ServeStep::Close,
        stage is ReadBody ==> (step matches ServeStep::Next(stage) && stage is WriteReply),
        stage is WriteReply ==> step == ServeStep::Next(ServeStage::ReadHeader),
{
}

/// A connection that fails is served no longer, at whatever stage.
pub proof fn a_failed_connection_is_closed(stage: ServeStage, step: ServeStep)
    requires
        call_ensures(server::serve, (stage, None::<Vec<u8>>), step),
    ensures
        step == ServeStep::Close,
{
}

/// The reply the device writes to a body is what it answers under the
/// transaction of the body's header.
pub proof fn a_served_body_is_answered(
    header: [u8; 6],
    received: Vec<u8>,
    step: ServeStep,
    transaction: u16,
    body: &[u8],
    reply: Vec<u8>,
)
    requires
        call_ensures(server::serve, (ServeStage::ReadBody(header), Some(received)), step),
        transaction == header@[0] * 256 + header@[1],
        body@ == received@,
        call_ensures(server::answer, (transaction, body), reply),
    ensures
        step matches ServeStep::Next(ServeStage::WriteReply(written)) && written@ == reply@,
{
    wire::two_bytes_spell_a_word(header@[0], header@[1]);
}

/// What the device does next, in numbers.
pub proof fn a_model_served_stage_is_followed(stage: ServeStageModel, received: Seq<u8>)
    ensures
        ({
            let step = stage.after(received);
            let declared = received[4] * 256 + received[5];
            &&& stage is ReadHeader && 2 <= declared <= 254 ==> step == ServeStepModel::Next(
                ServeStageModel::ReadBody(received),
            )
            &&& stage is ReadHeader && !(2 <= declared <= 254) ==> step == ServeStepModel::Close
            &&& stage matches ServeStageModel::ReadBody(header) ==> step == ServeStepModel::Next(
                ServeStageModel::WriteReply(
                    server::answered((header[0] * 256 + header[1]) as u16, received),
                ),
            )
            &&& stage is WriteReply ==> step == ServeStepModel::Next(ServeStageModel::ReadHeader)
        }),
{
    wire::two_bytes_spell_a_word(received[4], received[5]);
}

/// A handle is held exactly when there is one and the server runs, behind
/// those already held, and nothing else changes.
pub proof fn a_running_server_holds_what_it_is_given<C>(live: LiveModel<C>, handle: Option<C>)
    ensures
        ({
            let (after, result) = live.remembering(handle);
            &&& result is Ok <==> handle is Some && live.running
            &&& handle is None <==> result == Err::<(), RememberError>(RememberError::Clone)
            &&& handle is Some && !live.running <==> result == Err::<(), RememberError>(
                RememberError::Stopped,
            )
            &&& after.running == live.running
            &&& result is Err ==> after.connections == live.connections
            &&& result is Ok ==> {
                &&& after.connections.len() == live.connections.len() + 1
                &&& after.connections[live.connections.len() as int] == handle->Some_0
                &&& forall|i: int|
                    0 <= i < live.connections.len() ==> #[trigger] after.connections[i]
                        == live.connections[i]
            }
        }),
{
}

/// The handle let go of is the one held last, and nothing else changes.
pub proof fn the_latest_handle_is_released<C>(live: LiveModel<C>)
    ensures
        ({
            let (after, released) = live.releasing();
            &&& after.running == live.running
            &&& released is None <==> live.connections.len() == 0
            &&& released is None ==> after.connections == live.connections
            &&& released matches Some(connection) ==> live.connections
                == after.connections.push(connection)
        }),
{
    if live.connections.len() > 0 {
        assert(live.connections.drop_last().push(live.connections.last()) =~= live.connections);
    }
}

/// Stopping lets go of every handle, in the order they were taken, and
/// leaves none.
pub proof fn stopping_releases_everything<C>(live: LiveModel<C>)
    ensures
        ({
            let (after, released) = live.stopping();
            &&& !after.running
            &&& after.connections.len() == 0
            &&& released == live.connections
        }),
{
}

/// A server starts running, with no handle.
pub proof fn a_server_starts_running<C>(live: Live<C>)
    requires
        call_ensures(Live::<C>::new, (), live),
    ensures
        live@.running,
        live@.connections.len() == 0,
{
}

/// Remembering holds the handle behind those already held exactly when there
/// is one and the server runs, and otherwise says which of the two was
/// missing and holds what it held.
pub proof fn remembering_holds_the_handle<C>(
    live: &mut Live<C>,
    handle: Option<C>,
    result: Result<(), RememberError>,
)
    requires
        call_ensures(Live::<C>::remember, (live, handle), result),
    ensures
        result is Ok <==> handle is Some && old(live)@.running,
        handle is None <==> result == Err::<(), RememberError>(RememberError::Clone),
        final(live)@.running == old(live)@.running,
        result is Err ==> final(live)@.connections == old(live)@.connections,
        result is Ok ==> {
            &&& final(live)@.connections.len() == old(live)@.connections.len() + 1
            &&& final(live)@.connections.last() == handle->Some_0
            &&& final(live)@.connections.drop_last() == old(live)@.connections
        },
{
    a_running_server_holds_what_it_is_given(live@, handle);
    if handle is Some {
        assert(live@.connections.push(handle->Some_0).drop_last() =~= live@.connections);
    }
}

/// Releasing lets go of the handle held last, when there is one, and of no
/// other.
pub proof fn releasing_gives_the_latest_handle<C>(live: &mut Live<C>, released: Option<C>)
    requires
        call_ensures(Live::<C>::release, (live,), released),
    ensures
        final(live)@.running == old(live)@.running,
        released is None <==> old(live)@.connections.len() == 0,
        released is None ==> final(live)@.connections == old(live)@.connections,
        released matches Some(connection) ==> old(live)@.connections
            == final(live)@.connections.push(connection),
{
    the_latest_handle_is_released(live@);
}

/// Shutting down lets go of every handle, in the order they were taken, and
/// leaves a server that has stopped and holds none.
pub proof fn shutting_down_gives_every_handle<C>(live: &mut Live<C>, released: Vec<C>)
    requires
        call_ensures(Live::<C>::shut_down, (live,), released),
    ensures
        !final(live)@.running,
        final(live)@.connections.len() == 0,
        released@ == old(live)@.connections,
{
    stopping_releases_everything(live@);
}

/// A stream is served exactly when it was remembered; it is turned away
/// otherwise, and no more are waited for once the server has stopped or none
/// can arrive.
pub proof fn only_a_remembered_stream_is_served(arrival: Arrival, admission: Admission)
    requires
        call_ensures(server::receive, (arrival,), admission),
    ensures
        admission is Serve <==> (arrival matches Arrival::Accepted(result) && result is Ok),
        admission is TurnAway <==> (arrival matches Arrival::Accepted(Err(error))
            && error is Clone),
        admission is TurnAwayAndStop <==> (arrival matches Arrival::Accepted(Err(error))
            && error is Stopped),
        admission is Stop <==> arrival is Failed,
{
}

} // verus!
