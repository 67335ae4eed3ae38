//! What goes over the wire and comes back, byte by byte.
//!
//! Each law here speaks of positions in a frame and of the numbers found
//! there. A law of an operation names the operation, what it was given and
//! what it gave back.

use vstd::prelude::*;

use crate::bytes;
use crate::error::ModbusError;
use crate::frame;
use crate::frame::{
    FunctionCode, ReadFields, ReadRequest, RegisterAddress, RegisterCount, TransactionId, UnitId,
};

verus! {

/// Two bytes spell the word that is 256 times the first and once the second.
pub proof fn two_bytes_spell_a_word(high: u8, low: u8)
    ensures
        bytes::word_of(high, low) == high * 256 + low,
{
}

/// A word is split into the bytes that spell it.
pub proof fn a_word_is_two_bytes(word: u16)
    ensures
        bytes::high_byte(word) * 256 + bytes::low_byte(word) == word,
{
}

/// Words are read from bytes in the order the bytes come in.
pub proof fn words_come_in_order(bytes: Seq<u8>)
    ensures
        bytes::words_of(bytes).len() == bytes.len() / 2,
        forall|i: int|
            0 <= i < bytes.len() / 2 ==> #[trigger] bytes::words_of(bytes)[i] == bytes[2 * i] * 256
                + bytes[2 * i + 1],
{
}

/// Words are written as bytes in the order the words come in.
pub proof fn bytes_come_in_order(words: Seq<u16>)
    ensures
        bytes::bytes_of(words).len() == 2 * words.len(),
        forall|i: int|
            0 <= i < words.len() ==> bytes::bytes_of(words)[2 * i] * 256 + bytes::bytes_of(
                words,
            )[2 * i + 1] == #[trigger] words[i],
{
    assert forall|i: int| 0 <= i < words.len() implies bytes::bytes_of(words)[2 * i] * 256
        + bytes::bytes_of(words)[2 * i + 1] == #[trigger] words[i] by {
        assert((2 * i) / 2 == i && (2 * i + 1) / 2 == i);
        a_word_is_two_bytes(words[i]);
    }
}

/// Every id is legal, and an id is the number it was made from.
pub proof fn a_transaction_is_its_number(id: u16, transaction: TransactionId, number: u16)
    requires
        call_ensures(TransactionId::new, (id,), transaction),
        call_ensures(TransactionId::get, (transaction,), number),
    ensures
        number == id,
{
}

/// Every address is legal, and an address is the number it was made from.
pub proof fn an_address_is_its_number(address: u16, start: RegisterAddress, number: u16)
    requires
        call_ensures(RegisterAddress::new, (address,), start),
        call_ensures(RegisterAddress::get, (start,), number),
    ensures
        number == address,
{
}

/// The units are 1 to 247 and 255: 0 is refused as the broadcast, and 248 to
/// 254 are refused as reserved, each by its own number.
pub proof fn units_are_addressed(unit: u8, result: Result<UnitId, ModbusError>)
    requires
        call_ensures(UnitId::new, (unit,), result),
    ensures
        1 <= unit <= 247 || unit == 255 ==> result is Ok,
        unit == 0 ==> result == Err::<UnitId, ModbusError>(ModbusError::BroadcastUnit),
        248 <= unit <= 254 ==> result == Err::<UnitId, ModbusError>(
            ModbusError::ReservedUnit { unit },
        ),
{
}

/// A unit is the number it was made from.
pub proof fn a_unit_is_its_number(unit: u8, made: UnitId, number: u8)
    requires
        call_ensures(UnitId::new, (unit,), Ok::<UnitId, ModbusError>(made)),
        call_ensures(UnitId::get, (made,), number),
    ensures
        number == unit,
{
}

/// The counts are 1 to 125: none is refused as an empty read, and more are
/// refused beside the most there can be.
pub proof fn counts_are_answerable(count: u16, result: Result<RegisterCount, ModbusError>)
    requires
        call_ensures(RegisterCount::new, (count,), result),
    ensures
        1 <= count <= 125 ==> result is Ok,
        count == 0 ==> result == Err::<RegisterCount, ModbusError>(ModbusError::EmptyRead),
        count >= 126 ==> result == Err::<RegisterCount, ModbusError>(
            ModbusError::TooManyRegisters { count, max: 125 },
        ),
{
}

/// A count is the number it was made from, and is owed two bytes a register.
pub proof fn a_count_is_its_number(count: u16, made: RegisterCount, number: u16, owed: u16)
    requires
        call_ensures(RegisterCount::new, (count,), Ok::<RegisterCount, ModbusError>(made)),
        call_ensures(RegisterCount::get, (made,), number),
        call_ensures(RegisterCount::byte_count, (made,), owed),
    ensures
        number == count,
        owed == count + count,
{
}

/// The two function codes are 3, for holding registers, and 4, for input
/// registers.
pub proof fn function_codes_are_three_and_four(function: FunctionCode, code: u8)
    requires
        call_ensures(FunctionCode::code, (function,), code),
    ensures
        function is ReadHoldingRegisters ==> code == 3,
        function is ReadInputRegisters ==> code == 4,
        code == function.wire(),
{
}

/// The reads a device could answer, in numbers: units 1 to 247 and 255, 1 to
/// 125 registers, and none of them past address 65 535.
pub proof fn valid_reads_in_numbers(read: ReadFields)
    ensures
        frame::is_addressed(read.unit) <==> 1 <= read.unit <= 247 || read.unit == 255,
        frame::is_answerable(read.count) <==> 1 <= read.count <= 125,
        read.valid() <==> {
            &&& 1 <= read.unit <= 247 || read.unit == 255
            &&& 1 <= read.count <= 125
            &&& read.start + read.count <= 65536
        },
{
}

/// A read stays inside the address space exactly when each of its registers
/// has an address, which is at most 65 535.
pub proof fn every_register_has_an_address(start: u16, count: u16)
    ensures
        frame::is_inside_address_space(start, count) <==> start + count <= 65536,
        frame::is_inside_address_space(start, count) <==> forall|i: int|
            0 <= i < count ==> #[trigger] (start + i) <= 65535,
{
    if start + count > 65536 {
        let i = count - 1;
        assert(0 <= i < count && start + i > 65535);
    }
}

/// A read is made exactly when its last register has an address, whatever
/// else it asks for, and is otherwise refused by its start and count.
pub proof fn reads_end_inside_the_address_space(
    transaction: TransactionId,
    unit: UnitId,
    function: FunctionCode,
    start: RegisterAddress,
    count: RegisterCount,
    result: Result<ReadRequest, ModbusError>,
)
    requires
        call_ensures(ReadRequest::new, (transaction, unit, function, start, count), result),
    ensures
        result is Ok <==> start@ + count@ <= 65536,
        start@ + count@ > 65536 ==> result == Err::<ReadRequest, ModbusError>(
            ModbusError::PastEndOfAddressSpace { start: start@, count: count@ },
        ),
{
}

/// From plain numbers to a read: every unit, table, start and count the
/// protocol can address makes one when start and count reach no further than
/// 65 536 together, and none otherwise.
pub proof fn plain_numbers_make_a_read(
    start: u16,
    count: u16,
    transaction: TransactionId,
    unit: UnitId,
    function: FunctionCode,
    at: RegisterAddress,
    registers: RegisterCount,
    result: Result<ReadRequest, ModbusError>,
)
    requires
        call_ensures(RegisterAddress::new, (start,), at),
        call_ensures(RegisterCount::new, (count,), Ok::<RegisterCount, ModbusError>(registers)),
        call_ensures(ReadRequest::new, (transaction, unit, function, at, registers), result),
    ensures
        1 <= count <= 125,
        start + count <= 65536 <==> result is Ok,
        start + count > 65536 <==> result == Err::<ReadRequest, ModbusError>(
            ModbusError::PastEndOfAddressSpace { start, count },
        ),
{
}

/// A read keeps the five values it was made from.
pub proof fn a_read_keeps_its_values(
    transaction: TransactionId,
    unit: UnitId,
    function: FunctionCode,
    start: RegisterAddress,
    count: RegisterCount,
    read: ReadRequest,
    kept: (TransactionId, UnitId, FunctionCode, RegisterAddress, RegisterCount),
)
    requires
        call_ensures(
            ReadRequest::new,
            (transaction, unit, function, start, count),
            Ok::<ReadRequest, ModbusError>(read),
        ),
        call_ensures(ReadRequest::transaction, (&read,), kept.0),
        call_ensures(ReadRequest::unit, (&read,), kept.1),
        call_ensures(ReadRequest::function, (&read,), kept.2),
        call_ensures(ReadRequest::start, (&read,), kept.3),
        call_ensures(ReadRequest::count, (&read,), kept.4),
    ensures
        kept.0@ == transaction@,
        kept.1@ == unit@,
        kept.2 == function,
        kept.3@ == start@,
        kept.4@ == count@,
        read@.transaction == transaction@,
        read@.unit == unit@,
        read@.function == function,
        read@.start == start@,
        read@.count == count@,
{
}

/// A copy of a read is the same read.
pub proof fn a_copy_is_the_same_read(read: &ReadRequest, copy: ReadRequest)
    requires
        call_ensures(<ReadRequest as Clone>::clone, (read,), copy),
    ensures
        copy@.transaction == read@.transaction,
        copy@.unit == read@.unit,
        copy@.function == read@.function,
        copy@.start == read@.start,
        copy@.count == read@.count,
{
}

/// A read's frame, byte by byte.
pub proof fn a_request_by_position(read: ReadFields)
    ensures
        ({
            let sent = read.encoded();
            &&& sent.len() == 12
            &&& sent[0] * 256 + sent[1] == read.transaction
            &&& sent[2] == 0 && sent[3] == 0
            &&& sent[4] == 0 && sent[5] == 6
            &&& sent[6] == read.unit
            &&& sent[7] == if read.function is ReadHoldingRegisters {
                3u8
            } else {
                4u8
            }
            &&& sent[8] * 256 + sent[9] == read.start
            &&& sent[10] * 256 + sent[11] == read.count
        }),
{
    a_word_is_two_bytes(read.transaction);
    a_word_is_two_bytes(read.start);
    a_word_is_two_bytes(read.count);
}

/// Encoding a read puts each of its values where the protocol has it.
pub proof fn encoding_by_position(read: &ReadRequest, sent: Vec<u8>)
    requires
        call_ensures(ReadRequest::encode, (read,), sent),
    ensures
        sent@.len() == 12,
        sent@[0] * 256 + sent@[1] == read@.transaction,
        sent@[2] == 0 && sent@[3] == 0,
        sent@[4] * 256 + sent@[5] == 6,
        sent@[6] == read@.unit,
        read@.function is ReadHoldingRegisters ==> sent@[7] == 3,
        read@.function is ReadInputRegisters ==> sent@[7] == 4,
        sent@[8] * 256 + sent@[9] == read@.start,
        sent@[10] * 256 + sent@[11] == read@.count,
{
    a_request_by_position(read@);
}

/// From plain numbers to bytes: what a read was made from is what it sends.
pub proof fn plain_numbers_are_sent(
    transaction: TransactionId,
    unit: UnitId,
    function: FunctionCode,
    start: RegisterAddress,
    count: RegisterCount,
    read: ReadRequest,
    sent: Vec<u8>,
)
    requires
        call_ensures(
            ReadRequest::new,
            (transaction, unit, function, start, count),
            Ok::<ReadRequest, ModbusError>(read),
        ),
        call_ensures(ReadRequest::encode, (&read,), sent),
    ensures
        sent@.len() == 12,
        sent@[0] * 256 + sent@[1] == transaction@,
        sent@[2] == 0 && sent@[3] == 0,
        sent@[4] * 256 + sent@[5] == 6,
        sent@[6] == unit@,
        function is ReadHoldingRegisters ==> sent@[7] == 3,
        function is ReadInputRegisters ==> sent@[7] == 4,
        sent@[8] * 256 + sent@[9] == start@,
        sent@[10] * 256 + sent@[11] == count@,
{
    encoding_by_position(&read, sent);
}

} // verus!
