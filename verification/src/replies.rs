//! What a read makes of every frame that can come back, by position.
//!
//! A frame's first two bytes are its transaction, the next two its protocol,
//! the next two its length; then come the unit, the function code and the
//! rest. The laws go through the frames in the order a read judges them, and
//! between them they leave none out.

use vstd::prelude::*;

use crate::bytes;
use crate::error::{ExceptionCode, ModbusError};
use crate::frame;
use crate::frame::{ReadFields, ReadRequest};
use crate::wire;

verus! {

/// A frame of fewer than eight bytes is too short, whatever the read.
pub proof fn a_frame_has_eight_bytes(read: ReadFields, reply: Seq<u8>)
    requires
        reply.len() < 8,
    ensures
        read.decoded(reply) == Err::<Seq<u16>, ModbusError>(
            ModbusError::TooShort { expected: 8, found: reply.len() as usize },
        ),
{
}

/// A frame whose protocol is not zero is refused by its protocol.
pub proof fn a_frame_is_modbus(read: ReadFields, reply: Seq<u8>)
    requires
        reply.len() >= 8,
        reply[2] != 0 || reply[3] != 0,
    ensures
        read.decoded(reply) matches Err(ModbusError::ProtocolId { found }) && found == reply[2]
            * 256 + reply[3],
{
    wire::two_bytes_spell_a_word(reply[2], reply[3]);
}

/// A frame whose length is not 2 to 254 is refused by its length.
pub proof fn a_length_is_carriable(read: ReadFields, reply: Seq<u8>)
    requires
        reply.len() >= 8,
        reply[2] == 0,
        reply[3] == 0,
        !(2 <= reply[4] * 256 + reply[5] <= 254),
    ensures
        read.decoded(reply) matches Err(ModbusError::LengthOutOfRange { declared, min, max })
            && declared == reply[4] * 256 + reply[5] && min == 2 && max == 254,
{
    wire::two_bytes_spell_a_word(reply[4], reply[5]);
}

/// A frame that is not as long as it says is refused by what it says and by
/// what follows its first six bytes, as far as 65 535.
pub proof fn a_frame_is_as_long_as_it_says(read: ReadFields, reply: Seq<u8>)
    requires
        reply.len() >= 8,
        reply[2] == 0,
        reply[3] == 0,
        2 <= reply[4] * 256 + reply[5] <= 254,
        reply.len() != 6 + reply[4] * 256 + reply[5],
    ensures
        read.decoded(reply) matches Err(ModbusError::LengthMismatch { declared, found })
            && declared == reply[4] * 256 + reply[5] && found == if reply.len() <= 65541 {
            reply.len() - 6
        } else {
            65535
        },
{
    wire::two_bytes_spell_a_word(reply[4], reply[5]);
}

/// A whole frame of another transaction is refused by its transaction.
pub proof fn a_reply_echoes_the_transaction(read: ReadFields, reply: Seq<u8>)
    requires
        reply.len() >= 8,
        reply[2] == 0,
        reply[3] == 0,
        2 <= reply[4] * 256 + reply[5] <= 254,
        reply.len() == 6 + reply[4] * 256 + reply[5],
        reply[0] * 256 + reply[1] != read.transaction,
    ensures
        read.decoded(reply) matches Err(ModbusError::TransactionMismatch { expected, found })
            && expected == read.transaction && found == reply[0] * 256 + reply[1],
{
    wire::two_bytes_spell_a_word(reply[0], reply[1]);
}

/// A whole frame of the read's transaction from another unit is refused by
/// its unit.
pub proof fn a_reply_echoes_the_unit(read: ReadFields, reply: Seq<u8>)
    requires
        reply.len() >= 8,
        reply[2] == 0,
        reply[3] == 0,
        2 <= reply[4] * 256 + reply[5] <= 254,
        reply.len() == 6 + reply[4] * 256 + reply[5],
        reply[0] * 256 + reply[1] == read.transaction,
        reply[6] != read.unit,
    ensures
        read.decoded(reply) == Err::<Seq<u16>, ModbusError>(
            ModbusError::UnitMismatch { expected: read.unit, found: reply[6] },
        ),
{
}

/// A whole frame that echoes the read, with a function code that neither
/// answers nor refuses it, is refused by its function code.
pub proof fn a_reply_echoes_the_function(read: ReadFields, reply: Seq<u8>)
    requires
        reply.len() >= 8,
        reply[2] == 0,
        reply[3] == 0,
        2 <= reply[4] * 256 + reply[5] <= 254,
        reply.len() == 6 + reply[4] * 256 + reply[5],
        reply[0] * 256 + reply[1] == read.transaction,
        reply[6] == read.unit,
        read.function is ReadHoldingRegisters ==> reply[7] != 3 && reply[7] != 131,
        read.function is ReadInputRegisters ==> reply[7] != 4 && reply[7] != 132,
    ensures
        read.decoded(reply) matches Err(ModbusError::FunctionMismatch { expected, found })
            && expected == (if read.function is ReadHoldingRegisters {
            3u8
        } else {
            4u8
        }) && found == reply[7],
{
}

/// A whole frame that answers or refuses the read and ends with its function
/// code is a byte too short.
pub proof fn a_reply_goes_on_after_its_function(read: ReadFields, reply: Seq<u8>)
    requires
        reply.len() == 8,
        reply[2] == 0,
        reply[3] == 0,
        reply[4] == 0,
        reply[5] == 2,
        reply[0] * 256 + reply[1] == read.transaction,
        reply[6] == read.unit,
        read.function is ReadHoldingRegisters ==> reply[7] == 3 || reply[7] == 131,
        read.function is ReadInputRegisters ==> reply[7] == 4 || reply[7] == 132,
    ensures
        read.decoded(reply) == Err::<Seq<u16>, ModbusError>(
            ModbusError::TooShort { expected: 9, found: 8 },
        ),
{
    assert(reply.skip(8).len() == 0);
}

/// Which refusal each byte stands for.
pub proof fn each_byte_names_its_exception(byte: u8)
    ensures
        ({
            let code = ExceptionCode::named_by(byte);
            &&& byte == 1 <==> code is IllegalFunction
            &&& byte == 2 <==> code is IllegalDataAddress
            &&& byte == 3 <==> code is IllegalDataValue
            &&& byte == 4 <==> code is ServerDeviceFailure
            &&& byte == 5 <==> code is Acknowledge
            &&& byte == 6 <==> code is ServerDeviceBusy
            &&& byte == 7 <==> code is NegativeAcknowledge
            &&& byte == 8 <==> code is MemoryParityError
            &&& byte == 10 <==> code is GatewayPathUnavailable
            &&& byte == 11 <==> code is GatewayTargetNoResponse
            &&& byte == 0 || byte == 9 || byte >= 12 <==> code == ExceptionCode::Other(byte)
        }),
{
}

/// A whole frame that echoes the read with the exception bit on its function
/// code is a refusal of that function code, by the byte that follows.
pub proof fn a_refusal_names_its_reason(read: ReadFields, reply: Seq<u8>)
    requires
        reply.len() >= 9,
        reply[2] == 0,
        reply[3] == 0,
        2 <= reply[4] * 256 + reply[5] <= 254,
        reply.len() == 6 + reply[4] * 256 + reply[5],
        reply[0] * 256 + reply[1] == read.transaction,
        reply[6] == read.unit,
        read.function is ReadHoldingRegisters ==> reply[7] == 131,
        read.function is ReadInputRegisters ==> reply[7] == 132,
    ensures
        read.decoded(reply) matches Err(ModbusError::Exception { function, code }) && {
            &&& function == reply[7] - 128
            &&& reply[8] == 1 <==> code is IllegalFunction
            &&& reply[8] == 2 <==> code is IllegalDataAddress
            &&& reply[8] == 3 <==> code is IllegalDataValue
            &&& reply[8] == 4 <==> code is ServerDeviceFailure
            &&& reply[8] == 5 <==> code is Acknowledge
            &&& reply[8] == 6 <==> code is ServerDeviceBusy
            &&& reply[8] == 7 <==> code is NegativeAcknowledge
            &&& reply[8] == 8 <==> code is MemoryParityError
            &&& reply[8] == 10 <==> code is GatewayPathUnavailable
            &&& reply[8] == 11 <==> code is GatewayTargetNoResponse
            &&& reply[8] == 0 || reply[8] == 9 || reply[8] >= 12 <==> code
                == ExceptionCode::Other(reply[8])
        },
{
    assert(reply.skip(8)[0] == reply[8]);
    each_byte_names_its_exception(reply[8]);
}

/// A whole frame that answers the read with a byte count other than twice its
/// register count is refused by the byte count.
pub proof fn an_answer_counts_what_was_asked(read: ReadFields, reply: Seq<u8>)
    requires
        1 <= read.count <= 125,
        reply.len() >= 9,
        reply[2] == 0,
        reply[3] == 0,
        2 <= reply[4] * 256 + reply[5] <= 254,
        reply.len() == 6 + reply[4] * 256 + reply[5],
        reply[0] * 256 + reply[1] == read.transaction,
        reply[6] == read.unit,
        read.function is ReadHoldingRegisters ==> reply[7] == 3,
        read.function is ReadInputRegisters ==> reply[7] == 4,
        reply[8] != 2 * read.count,
    ensures
        read.decoded(reply) matches Err(ModbusError::ByteCountMismatch { declared, expected })
            && declared == reply[8] && expected == 2 * read.count,
{
    assert(reply.skip(8)[0] == reply[8]);
}

/// A whole frame that answers the read with the right byte count and another
/// number of bytes behind it is refused as inconsistent.
pub proof fn an_answer_carries_what_it_counts(read: ReadFields, reply: Seq<u8>)
    requires
        1 <= read.count <= 125,
        reply.len() >= 9,
        reply[2] == 0,
        reply[3] == 0,
        2 <= reply[4] * 256 + reply[5] <= 254,
        reply.len() == 6 + reply[4] * 256 + reply[5],
        reply[0] * 256 + reply[1] == read.transaction,
        reply[6] == read.unit,
        read.function is ReadHoldingRegisters ==> reply[7] == 3,
        read.function is ReadInputRegisters ==> reply[7] == 4,
        reply[8] == 2 * read.count,
        reply.len() != 9 + 2 * read.count,
    ensures
        read.decoded(reply) matches Err(ModbusError::InconsistentLength { declared, byte_count })
            && declared == reply[4] * 256 + reply[5] && byte_count == reply[8],
{
    assert(reply.skip(8)[0] == reply[8]);
}

/// A read takes words from a frame exactly when the frame is whole, echoes
/// the read, and carries as many words as were asked for.
pub proof fn an_answer_by_position(read: ReadFields, reply: Seq<u8>)
    requires
        1 <= read.count <= 125,
    ensures
        read.decoded(reply) is Ok <==> {
            &&& reply.len() == 9 + 2 * read.count
            &&& reply[0] * 256 + reply[1] == read.transaction
            &&& reply[2] == 0
            &&& reply[3] == 0
            &&& reply[4] == 0
            &&& reply[5] == 3 + 2 * read.count
            &&& reply[6] == read.unit
            &&& read.function is ReadHoldingRegisters ==> reply[7] == 3
            &&& read.function is ReadInputRegisters ==> reply[7] == 4
            &&& reply[8] == 2 * read.count
        },
{
    if reply.len() >= 9 {
        assert(reply.skip(8)[0] == reply[8]);
        wire::two_bytes_spell_a_word(reply[0], reply[1]);
        wire::two_bytes_spell_a_word(reply[2], reply[3]);
        wire::two_bytes_spell_a_word(reply[4], reply[5]);
    }
}

/// The words a read takes from a frame are the pairs of bytes from the ninth
/// position on, in the order they stand there, high byte first.
pub proof fn words_by_position(read: ReadFields, reply: Seq<u8>)
    requires
        1 <= read.count <= 125,
    ensures
        read.decoded(reply) matches Ok(words) ==> {
            &&& words.len() == read.count
            &&& forall|i: int|
                0 <= i < read.count ==> #[trigger] words[i] == reply[9 + 2 * i] * 256 + reply[10
                    + 2 * i]
        },
{
    if read.decoded(reply) is Ok {
        an_answer_by_position(read, reply);
        let words = read.decoded(reply)->Ok_0;
        let tail = reply.skip(8).skip(1);
        assert(tail.len() == 2 * read.count);
        wire::words_come_in_order(tail);
        assert(words == bytes::words_of(tail));
        assert forall|i: int| 0 <= i < read.count implies #[trigger] words[i] == reply[9 + 2 * i]
            * 256 + reply[10 + 2 * i] by {
            assert(tail[2 * i] == reply[9 + 2 * i]);
            assert(tail[2 * i + 1] == reply[10 + 2 * i]);
        }
    }
}

/// Decoding a frame gives words exactly when the frame answers the read, and
/// then gives the words that stand in the frame, in order.
pub proof fn decoding_by_position(
    read: &ReadRequest,
    reply: &[u8],
    result: Result<Vec<u16>, ModbusError>,
)
    requires
        call_ensures(ReadRequest::decode, (read, reply), result),
    ensures
        1 <= read@.count <= 125,
        result is Ok <==> {
            &&& reply@.len() == 9 + 2 * read@.count
            &&& reply@[0] * 256 + reply@[1] == read@.transaction
            &&& reply@[2] == 0
            &&& reply@[3] == 0
            &&& reply@[4] == 0
            &&& reply@[5] == 3 + 2 * read@.count
            &&& reply@[6] == read@.unit
            &&& read@.function is ReadHoldingRegisters ==> reply@[7] == 3
            &&& read@.function is ReadInputRegisters ==> reply@[7] == 4
            &&& reply@[8] == 2 * read@.count
        },
        result matches Ok(words) ==> {
            &&& words@.len() == read@.count
            &&& forall|i: int|
                0 <= i < read@.count ==> #[trigger] words@[i] == reply@[9 + 2 * i] * 256
                    + reply@[10 + 2 * i]
        },
        result matches Err(error) ==> read@.decoded(reply@) == Err::<Seq<u16>, ModbusError>(error),
{
    wire::valid_reads_in_numbers(read@);
    an_answer_by_position(read@, reply@);
    words_by_position(read@, reply@);
}

/// Two frames that a read takes words from differ only in the words: where
/// the words are the same, the frames are.
pub proof fn an_answer_is_its_words(read: ReadFields, left: Seq<u8>, right: Seq<u8>)
    requires
        1 <= read.count <= 125,
        read.decoded(left) is Ok,
        read.decoded(left) == read.decoded(right),
    ensures
        left == right,
{
    an_answer_by_position(read, left);
    an_answer_by_position(read, right);
    words_by_position(read, left);
    words_by_position(read, right);
    let words = read.decoded(left)->Ok_0;
    assert forall|i: int| 0 <= i < left.len() implies left[i] == right[i] by {
        if i >= 9 {
            let k = (i - 9) / 2;
            assert(words[k] == left[9 + 2 * k] * 256 + left[10 + 2 * k]);
            assert(words[k] == right[9 + 2 * k] * 256 + right[10 + 2 * k]);
            assert(i == 9 + 2 * k || i == 10 + 2 * k);
        }
    }
    assert(left =~= right);
}

/// The frame that answers with words, byte by byte.
pub proof fn a_reply_by_position(transaction: u16, unit: u8, function: u8, words: Seq<u16>)
    requires
        words.len() <= 125,
    ensures
        ({
            let reply = frame::reply_frame(transaction, unit, function, words);
            &&& reply.len() == 9 + 2 * words.len()
            &&& reply[0] * 256 + reply[1] == transaction
            &&& reply[2] == 0
            &&& reply[3] == 0
            &&& reply[4] == 0
            &&& reply[5] == 3 + 2 * words.len()
            &&& reply[6] == unit
            &&& reply[7] == function
            &&& reply[8] == 2 * words.len()
            &&& forall|i: int|
                0 <= i < words.len() ==> reply[9 + 2 * i] * 256 + reply[10 + 2 * i]
                    == #[trigger] words[i]
        }),
{
    let reply = frame::reply_frame(transaction, unit, function, words);
    let header = frame::header_of(transaction, (3 + 2 * words.len()) as u16);
    let middle = seq![unit, function, (2 * words.len()) as u8];
    let tail = bytes::bytes_of(words);
    assert(reply == header + middle + tail);
    assert(header.len() == 6 && middle.len() == 3 && tail.len() == 2 * words.len());
    assert(reply.take(6) =~= header);
    assert(reply.subrange(6, 9) =~= middle);
    assert(reply.skip(9) =~= tail);
    assert(reply[0] * 256 + reply[1] == transaction) by {
        assert(reply[0] == reply.take(6)[0] && reply[1] == reply.take(6)[1]);
        wire::a_word_is_two_bytes(transaction);
    }
    assert forall|i: int| 0 <= i < words.len() implies reply[9 + 2 * i] * 256 + reply[10 + 2 * i]
        == #[trigger] words[i] by {
        wire::bytes_come_in_order(words);
        assert(reply.skip(9)[2 * i] == reply[9 + 2 * i]);
        assert(reply.skip(9)[2 * i + 1] == reply[10 + 2 * i]);
    }
}

/// The exception bit is the top bit of a function code.
pub proof fn a_refusal_sets_the_top_bit(function: u8)
    ensures
        frame::refusing(function) == function | 0x80,
        frame::refusing(function) == 128 + function % 128,
{
    assert(function | 0x80u8 == 128 + function % 128) by (bit_vector);
}

/// The frame that refuses, byte by byte.
pub proof fn a_refusal_by_position(transaction: u16, unit: u8, function: u8, code: u8)
    ensures
        ({
            let reply = frame::refusal_frame(transaction, unit, function, code);
            &&& reply.len() == 9
            &&& reply[0] * 256 + reply[1] == transaction
            &&& reply[2] == 0
            &&& reply[3] == 0
            &&& reply[4] == 0
            &&& reply[5] == 3
            &&& reply[6] == unit
            &&& reply[7] == 128 + function % 128
            &&& reply[8] == code
        }),
{
    wire::a_word_is_two_bytes(transaction);
    a_refusal_sets_the_top_bit(function);
}

/// A frame can be taken apart exactly when it is whole, whoever asked, and
/// its parts are what stands at their positions.
pub proof fn a_frame_comes_apart_by_position(reply: Seq<u8>)
    ensures
        frame::framed(reply) is Ok <==> {
            &&& reply.len() >= 8
            &&& reply[2] == 0
            &&& reply[3] == 0
            &&& 2 <= reply[4] * 256 + reply[5] <= 254
            &&& reply.len() == 6 + reply[4] * 256 + reply[5]
        },
        frame::framed(reply) matches Ok(parts) ==> {
            &&& parts.declared == reply[4] * 256 + reply[5]
            &&& parts.transaction == reply[0] * 256 + reply[1]
            &&& parts.unit == reply[6]
            &&& parts.function == reply[7]
            &&& parts.pdu.len() == reply.len() - 8
            &&& forall|i: int| 0 <= i < parts.pdu.len() ==> #[trigger] parts.pdu[i] == reply[8 + i]
        },
{
    wire::two_bytes_spell_a_word(reply[0], reply[1]);
    wire::two_bytes_spell_a_word(reply[2], reply[3]);
    wire::two_bytes_spell_a_word(reply[4], reply[5]);
}

} // verus!
