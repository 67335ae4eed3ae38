//! What words, scales and digits stand for, in plain arithmetic.

use std::cmp::Ordering;

use vstd::arithmetic::power2;
use vstd::prelude::*;

use crate::decode;
use crate::decode::{Reading, RegisterKind, Scale};
use crate::error::ModbusError;
use crate::frame::RegisterCount;
use crate::text;

verus! {

/// Two words are 65 536 times the first and once the second.
pub proof fn two_words_are_one_number(high: u16, low: u16)
    ensures
        decode::wide_of(high, low) == high * 65536 + low,
{
}

/// A word is a signed number of 16 bits: the word itself up to 32 767, and
/// 65 536 less from there on.
pub proof fn a_word_has_a_sign(word: u16)
    ensures
        word <= 32767 ==> decode::signed_of(word) == word,
        word >= 32768 ==> decode::signed_of(word) == word - 65536,
{
}

/// How many registers each kind occupies, and what each is called.
pub proof fn kinds_have_widths_and_names(kind: RegisterKind, width: u16, name: &'static str)
    requires
        call_ensures(RegisterKind::registers, (kind,), width),
        call_ensures(RegisterKind::name, (kind,), name),
    ensures
        kind is U16 ==> width == 1 && name@ == "u16"@,
        kind is I16 ==> width == 1 && name@ == "i16"@,
        kind is U32Be ==> width == 2 && name@ == "u32be"@,
        kind is F32Be ==> width == 2 && name@ == "f32be"@,
        width == kind.width(),
        name == kind.title(),
{
}

/// A kind fits the reads of its width and no others.
pub proof fn a_kind_fits_its_width(kind: RegisterKind, count: RegisterCount, fits: bool)
    requires
        call_ensures(RegisterKind::fits, (kind, count), fits),
    ensures
        kind is U16 || kind is I16 ==> (fits <==> count@ == 1),
        kind is U32Be || kind is F32Be ==> (fits <==> count@ == 2),
{
}

/// What each kind makes of one word.
pub proof fn one_word_in_each_kind(word: u16)
    ensures
        RegisterKind::U16.decoded(seq![word]) == Ok::<Reading, ModbusError>(
            Reading::Integer(word as i64),
        ),
        word <= 32767 ==> RegisterKind::I16.decoded(seq![word]) == Ok::<Reading, ModbusError>(
            Reading::Integer(word as i64),
        ),
        word >= 32768 ==> RegisterKind::I16.decoded(seq![word]) == Ok::<Reading, ModbusError>(
            Reading::Integer((word - 65536) as i64),
        ),
        RegisterKind::U32Be.decoded(seq![word]) is Err,
        RegisterKind::F32Be.decoded(seq![word]) is Err,
{
}

/// What each kind makes of two words: the first is the most significant.
pub proof fn two_words_in_each_kind(high: u16, low: u16)
    ensures
        RegisterKind::U32Be.decoded(seq![high, low]) == Ok::<Reading, ModbusError>(
            Reading::Integer((high * 65536 + low) as i64),
        ),
        RegisterKind::F32Be.decoded(seq![high, low]) == Ok::<Reading, ModbusError>(
            Reading::Binary32((high * 65536 + low) as u32),
        ),
        RegisterKind::U16.decoded(seq![high, low]) is Err,
        RegisterKind::I16.decoded(seq![high, low]) is Err,
{
    two_words_are_one_number(high, low);
}

/// Words that are not as many as a kind is wide are refused, by the kind's
/// name, its width and how many there are.
pub proof fn other_widths_are_refused(kind: RegisterKind, words: Seq<u16>)
    ensures
        kind is U16 && words.len() != 1 ==> kind.decoded(words) == Err::<Reading, ModbusError>(
            ModbusError::WordCount { kind: "u16", expected: 1, found: words.len() as usize },
        ),
        kind is I16 && words.len() != 1 ==> kind.decoded(words) == Err::<Reading, ModbusError>(
            ModbusError::WordCount { kind: "i16", expected: 1, found: words.len() as usize },
        ),
        kind is U32Be && words.len() != 2 ==> kind.decoded(words) == Err::<Reading, ModbusError>(
            ModbusError::WordCount { kind: "u32be", expected: 2, found: words.len() as usize },
        ),
        kind is F32Be && words.len() != 2 ==> kind.decoded(words) == Err::<Reading, ModbusError>(
            ModbusError::WordCount { kind: "f32be", expected: 2, found: words.len() as usize },
        ),
{
}

/// Decoding words, in plain arithmetic: every kind, and every number of
/// words.
pub proof fn decoding_in_numbers(
    kind: RegisterKind,
    words: &[u16],
    result: Result<Reading, ModbusError>,
)
    requires
        call_ensures(RegisterKind::decode, (kind, words), result),
    ensures
        kind is U16 && words@.len() == 1 ==> (result matches Ok(Reading::Integer(value)) && value
            == words@[0]),
        kind is I16 && words@.len() == 1 ==> (result matches Ok(Reading::Integer(value)) && value
            == if words@[0] <= 32767 {
            words@[0] as int
        } else {
            words@[0] - 65536
        }),
        kind is U32Be && words@.len() == 2 ==> (result matches Ok(Reading::Integer(value))
            && value == words@[0] * 65536 + words@[1]),
        kind is F32Be && words@.len() == 2 ==> (result matches Ok(Reading::Binary32(bits))
            && bits == words@[0] * 65536 + words@[1]),
        kind is U16 && words@.len() != 1 ==> result == Err::<Reading, ModbusError>(
            ModbusError::WordCount { kind: "u16", expected: 1, found: words@.len() as usize },
        ),
        kind is I16 && words@.len() != 1 ==> result == Err::<Reading, ModbusError>(
            ModbusError::WordCount { kind: "i16", expected: 1, found: words@.len() as usize },
        ),
        kind is U32Be && words@.len() != 2 ==> result == Err::<Reading, ModbusError>(
            ModbusError::WordCount { kind: "u32be", expected: 2, found: words@.len() as usize },
        ),
        kind is F32Be && words@.len() != 2 ==> result == Err::<Reading, ModbusError>(
            ModbusError::WordCount { kind: "f32be", expected: 2, found: words@.len() as usize },
        ),
{
    other_widths_are_refused(kind, words@);
}

/// A pattern is no number exactly when all of its eleven exponent bits are
/// set, and zero exactly when no bit but the sign is.
pub proof fn scales_by_their_bits(factor: u64)
    ensures
        !decode::is_finite(factor) <==> (factor >> 52) & 0x7ff == 0x7ff,
        decode::is_zero(factor) <==> factor & 0x7fff_ffff_ffff_ffff == 0,
        decode::is_zero(factor) <==> factor == 0 || factor == 0x8000_0000_0000_0000,
{
    assert(factor < 0x8000_0000_0000_0000u64 ==> (factor >= 0x7ff0_0000_0000_0000u64 <==> (factor
        >> 52) & 0x7ff == 0x7ff)) by (bit_vector);
    assert(factor >= 0x8000_0000_0000_0000u64 ==> (factor >= 0xfff0_0000_0000_0000u64 <==> (factor
        >> 52) & 0x7ff == 0x7ff)) by (bit_vector);
    assert(factor & 0x7fff_ffff_ffff_ffff == 0 <==> factor == 0 || factor
        == 0x8000_0000_0000_0000u64) by (bit_vector);
}

/// A scale is made of a pattern exactly when some exponent bit is clear and
/// some bit but the sign is set, and keeps the pattern. A pattern with every
/// exponent bit set is refused as no number, and one with no bit but the sign
/// as zero.
pub proof fn making_a_scale_by_bits(factor: u64, result: Result<Scale, ModbusError>)
    requires
        call_ensures(Scale::new, (factor,), result),
    ensures
        (factor >> 52) & 0x7ff == 0x7ff <==> result == Err::<Scale, ModbusError>(
            ModbusError::NonFiniteScale,
        ),
        factor & 0x7fff_ffff_ffff_ffff == 0 <==> result == Err::<Scale, ModbusError>(
            ModbusError::ZeroScale,
        ),
        (factor >> 52) & 0x7ff != 0x7ff && factor & 0x7fff_ffff_ffff_ffff != 0 <==> result is Ok,
        result matches Ok(scale) ==> scale@ == factor,
{
    scales_by_their_bits(factor);
}

/// A scale is the pattern it was made from, and the scale that changes
/// nothing is the pattern of 1: no sign, the exponent bits of 1023, no
/// fraction.
pub proof fn a_scale_is_its_pattern(
    factor: u64,
    scale: Scale,
    pattern: u64,
    one: Scale,
    unit: u64,
)
    requires
        call_ensures(Scale::new, (factor,), Ok::<Scale, ModbusError>(scale)),
        call_ensures(Scale::get, (scale,), pattern),
        call_ensures(Scale::one, (), one),
        call_ensures(Scale::get, (one,), unit),
    ensures
        pattern == factor,
        unit == 1023 * 0x10_0000_0000_0000,
{
}

/// The other sign is the top bit flipped.
pub proof fn negating_flips_the_top_bit(factor: u64)
    ensures
        decode::negated(factor) == factor ^ 0x8000_0000_0000_0000,
{
    assert(factor < 0x8000_0000_0000_0000u64 ==> factor ^ 0x8000_0000_0000_0000u64 == factor
        + 0x8000_0000_0000_0000u64) by (bit_vector);
    assert(factor >= 0x8000_0000_0000_0000u64 ==> factor ^ 0x8000_0000_0000_0000u64 == factor
        - 0x8000_0000_0000_0000u64) by (bit_vector);
}

/// The number that a binary64 pattern without its sign stands for, counted in
/// the smallest one there is, 2 to the -1074th. With no exponent bit the
/// fraction counts as it is; otherwise a leading bit stands before it, and the
/// exponent says how often both are doubled.
pub open spec fn size_of_pattern(unsigned: nat) -> nat {
    let exponent = unsigned / 0x10_0000_0000_0000;
    let fraction = unsigned % 0x10_0000_0000_0000;
    if exponent == 0 {
        fraction
    } else {
        (0x10_0000_0000_0000 + fraction) * power2::pow2((exponent - 1) as nat)
    }
}

/// The number that a finite binary64 pattern stands for, counted in the
/// smallest positive one.
pub open spec fn number_of_pattern(factor: u64) -> int {
    if factor < 0x8000_0000_0000_0000 {
        size_of_pattern(factor as nat) as int
    } else {
        -(size_of_pattern((factor - 0x8000_0000_0000_0000) as nat) as int)
    }
}

/// The next pattern stands for a larger number.
proof fn a_pattern_is_below_the_next(unsigned: nat)
    ensures
        size_of_pattern(unsigned) < size_of_pattern(unsigned + 1),
{
    let exponent = unsigned / 0x10_0000_0000_0000;
    let fraction = unsigned % 0x10_0000_0000_0000;
    if exponent > 0 {
        power2::lemma_pow2_pos((exponent - 1) as nat);
    }
    if fraction + 1 < 0x10_0000_0000_0000 {
        assert((unsigned + 1) / 0x10_0000_0000_0000 == exponent);
        assert((unsigned + 1) % 0x10_0000_0000_0000 == fraction + 1);
        if exponent > 0 {
            let scale = power2::pow2((exponent - 1) as nat);
            assert((0x10_0000_0000_0000 + fraction) * scale < (0x10_0000_0000_0000 + fraction + 1)
                * scale) by (nonlinear_arith)
                requires
                    scale > 0,
            ;
        }
    } else {
        assert((unsigned + 1) / 0x10_0000_0000_0000 == exponent + 1);
        assert((unsigned + 1) % 0x10_0000_0000_0000 == 0);
        assert(size_of_pattern(unsigned + 1) == (0x10_0000_0000_0000 + 0nat) * power2::pow2(
            exponent,
        ));
        if exponent == 0 {
            power2::lemma2_to64();
            assert(size_of_pattern(unsigned + 1) == 0x10_0000_0000_0000);
        } else {
            let scale = power2::pow2((exponent - 1) as nat);
            power2::lemma_pow2_unfold(exponent);
            assert(size_of_pattern(unsigned + 1) == 0x10_0000_0000_0000 * (2 * scale));
            assert((0x10_0000_0000_0000 + fraction) * scale < 0x10_0000_0000_0000 * (2 * scale))
                by (nonlinear_arith)
                requires
                    scale > 0,
                    fraction < 0x10_0000_0000_0000,
            ;
        }
    }
}

/// Patterns without a sign grow as their numbers do.
proof fn patterns_grow(lower: nat, upper: nat)
    requires
        lower < upper,
    ensures
        size_of_pattern(lower) < size_of_pattern(upper),
    decreases upper,
{
    let before = (upper - 1) as nat;
    a_pattern_is_below_the_next(before);
    if lower < before {
        patterns_grow(lower, before);
    }
}

/// Patterns stand in the order of the numbers they stand for.
pub proof fn patterns_stand_as_their_numbers(left: u64, right: u64)
    ensures
        decode::standing(left) < decode::standing(right) <==> number_of_pattern(left)
            < number_of_pattern(right),
        decode::standing(left) == decode::standing(right) <==> number_of_pattern(left)
            == number_of_pattern(right),
{
    let a = if left < 0x8000_0000_0000_0000 {
        left as nat
    } else {
        (left - 0x8000_0000_0000_0000) as nat
    };
    let b = if right < 0x8000_0000_0000_0000 {
        right as nat
    } else {
        (right - 0x8000_0000_0000_0000) as nat
    };
    if a < b {
        patterns_grow(a, b);
    } else if b < a {
        patterns_grow(b, a);
    }
    if a > 0 {
        patterns_grow(0, a);
    }
    if b > 0 {
        patterns_grow(0, b);
    }
}

/// Scales are ordered as the numbers they stand for.
pub proof fn scales_are_ordered_as_numbers(left: &Scale, right: &Scale, order: Option<Ordering>)
    requires
        call_ensures(Scale::partial_cmp, (left, right), order),
    ensures
        order == Some(Ordering::Less) <==> number_of_pattern(left@) < number_of_pattern(right@),
        order == Some(Ordering::Equal) <==> number_of_pattern(left@) == number_of_pattern(right@),
        order == Some(Ordering::Greater) <==> number_of_pattern(left@) > number_of_pattern(right@),
{
    patterns_stand_as_their_numbers(left@, right@);
    patterns_stand_as_their_numbers(right@, left@);
}

/// The number that decimal digits spell, the last digit counting ones.
pub open spec fn number_spelled(digits: Seq<char>) -> int
    decreases digits.len(),
{
    if digits.len() == 0 {
        0
    } else {
        10 * number_spelled(digits.drop_last()) + (digits.last() as int - '0' as int)
    }
}

/// One digit is the one character that spells it.
pub proof fn a_digit_spells_its_value(value: nat)
    requires
        value < 10,
    ensures
        text::digit(value).len() == 1,
        text::digit(value)[0] as int == '0' as int + value,
{
    reveal_strlit("0");
    reveal_strlit("1");
    reveal_strlit("2");
    reveal_strlit("3");
    reveal_strlit("4");
    reveal_strlit("5");
    reveal_strlit("6");
    reveal_strlit("7");
    reveal_strlit("8");
    reveal_strlit("9");
}

/// A number in decimal is spelled with the ten digits, reads back as the
/// number, and starts with a zero only when it is one.
pub proof fn a_decimal_spells_its_number(value: nat)
    ensures
        text::decimal(value).len() > 0,
        forall|i: int|
            0 <= i < text::decimal(value).len() ==> '0' <= #[trigger] text::decimal(value)[i]
                <= '9',
        number_spelled(text::decimal(value)) == value,
        text::decimal(value)[0] == '0' ==> value == 0 && text::decimal(value).len() == 1,
    decreases value,
{
    let digits = text::decimal(value);
    if value < 10 {
        a_digit_spells_its_value(value);
        reveal_with_fuel(number_spelled, 2);
        assert(digits.drop_last().len() == 0);
    } else {
        let front = text::decimal(value / 10);
        a_digit_spells_its_value(value % 10);
        a_decimal_spells_its_number(value / 10);
        assert(digits == front + text::digit(value % 10));
        assert(digits.drop_last() =~= front);
        assert(digits.last() == text::digit(value % 10)[0]);
        assert forall|i: int| 0 <= i < digits.len() implies '0' <= #[trigger] digits[i]
            <= '9' by {
            if i < front.len() {
                assert(digits[i] == front[i]);
            }
        }
        assert(digits[0] == front[0]);
    }
}

} // verus!
