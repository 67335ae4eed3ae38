//! Register words into numbers.
//!
//! A device answers with 16-bit words. Whether two of them are 100 000 or
//! 50.0 comes from its manual. [`RegisterKind`] is that choice.
//! [`Scale`] is the factor the map applies afterwards.
//!
//! A floating-point number is held here as its IEEE 754 bit pattern. What is
//! decided about one — which words it came from, whether it can be a scale —
//! is decided on the pattern; arithmetic on it is the caller's.

use std::cmp::Ordering;

use vstd::prelude::*;
use vstd::std_specs::cmp::PartialOrdSpecImpl;

use crate::error::ModbusError;
use crate::frame::RegisterCount;

verus! {

/// How a device's register map spells one quantity.
///
/// Registers are 16-bit words and mean nothing by themselves: the same two
/// words are 100 000 to one meter and 50.0 to the next. Which it is comes from
/// the device's manual and is decided here — once, as a calculation over the
/// words, so no caller reassembles bytes.
///
/// Four kinds, because four are what common meter manuals print. A fifth
/// arrives with the device that needs it, as a variant the compiler makes
/// every `match` account for.
#[derive(Debug, Clone, Copy, PartialEq, Eq, PartialOrd, Ord, Hash, Structural)]
pub enum RegisterKind {
    /// One register as an unsigned 16-bit integer.
    U16,
    /// One register as a signed 16-bit integer.
    I16,
    /// Two registers as an unsigned 32-bit integer, most significant word first.
    U32Be,
    /// Two registers as an IEEE 754 binary32, most significant word first.
    F32Be,
}

/// The number a register map reads from a device's words, unscaled.
#[derive(Debug, Clone, Copy, PartialEq, Eq, Structural)]
pub enum Reading {
    /// A whole number.
    Integer(i64),
    /// The IEEE 754 binary32 number with this bit pattern. Every pattern is
    /// one.
    Binary32(u32),
}

/// The factor a register map applies to a decoded word.
///
/// A meter that reports tenths of a unit is read with a scale of 0.1. The
/// constructor is the check: zero would read every register as nothing and no
/// map means that, and a non-finite factor would put a NaN in a reading. A
/// *negative* scale is accepted — a device whose export register counts down
/// from zero is a map, not a mistake.
///
/// The factor is held as its IEEE 754 binary64 bit pattern: a sign bit, 11
/// exponent bits and 52 fraction bits, from the most significant down. Among
/// scales, equal patterns and equal numbers are the same thing.
#[derive(Debug, Clone, Copy, PartialEq, Eq)]
pub struct Scale(u64);

/// The binary64 pattern of an infinity without its sign: every exponent bit
/// and no fraction bit.
pub const BINARY64_INFINITY: u64 = 0x7ff0_0000_0000_0000;

/// The binary64 pattern that is a sign bit and nothing else.
pub const BINARY64_SIGN: u64 = 0x8000_0000_0000_0000;

/// The binary64 pattern of 1.
pub const BINARY64_ONE: u64 = 0x3ff0_0000_0000_0000;

/// Two words as one 32-bit number, the first most significant.
pub open spec fn wide_of(high: u16, low: u16) -> u32 {
    (high * 0x1_0000 + low) as u32
}

/// A word as the two's-complement number it spells.
pub open spec fn signed_of(word: u16) -> int {
    if word < 0x8000 {
        word as int
    } else {
        word - 0x1_0000
    }
}

impl RegisterKind {
    /// How many registers this kind occupies.
    pub open spec fn width(self) -> u16 {
        match self {
            RegisterKind::U16 => 1,
            RegisterKind::I16 => 1,
            RegisterKind::U32Be => 2,
            RegisterKind::F32Be => 2,
        }
    }

    /// The kind's name.
    pub open spec fn title(self) -> &'static str {
        match self {
            RegisterKind::U16 => "u16",
            RegisterKind::I16 => "i16",
            RegisterKind::U32Be => "u32be",
            RegisterKind::F32Be => "f32be",
        }
    }

    /// The number that as many words as this kind is wide carry.
    pub open spec fn reading(self, words: Seq<u16>) -> Reading
        recommends
            words.len() == self.width(),
    {
        match self {
            RegisterKind::U16 => Reading::Integer(words[0] as i64),
            RegisterKind::I16 => Reading::Integer(signed_of(words[0]) as i64),
            RegisterKind::U32Be => Reading::Integer(wide_of(words[0], words[1]) as i64),
            RegisterKind::F32Be => Reading::Binary32(wide_of(words[0], words[1])),
        }
    }

    /// What this kind makes of words: their number, or a refusal when they
    /// are not as many as it is wide.
    pub open spec fn decoded(self, words: Seq<u16>) -> Result<Reading, ModbusError> {
        if words.len() == self.width() {
            Ok(self.reading(words))
        } else {
            Err(
                ModbusError::WordCount {
                    kind: self.title(),
                    expected: self.width(),
                    found: words.len() as usize,
                },
            )
        }
    }

    /// How many registers this kind occupies.
    ///
    /// Exhaustive by construction, like [`crate::FunctionCode::code`]: a
    /// fifth kind does not compile until someone writes here how wide it is.
    #[must_use]
    pub fn registers(self) -> (width: u16)
        ensures
            width == self.width(),
            width == 1 <==> self is U16 || self is I16,
            width == 2 <==> self is U32Be || self is F32Be,
    {
        match self {
            RegisterKind::U16 | RegisterKind::I16 => 1,
            RegisterKind::U32Be | RegisterKind::F32Be => 2,
        }
    }

    /// Whether a read of `count` registers is the width this kind needs.
    ///
    /// The one spelling of that rule, so every register map asks the same
    /// question instead of writing the comparison again: a `U32Be` read as one
    /// register is half a number.
    #[must_use]
    pub fn fits(self, count: RegisterCount) -> (fits: bool)
        ensures
            fits == (count@ == self.width()),
            self is U16 || self is I16 ==> fits == (count@ == 1),
            self is U32Be || self is F32Be ==> fits == (count@ == 2),
    {
        count.get() == self.registers()
    }

    /// The kind's name, for an error an operator reads beside a manual.
    #[must_use]
    pub fn name(self) -> (name: &'static str)
        ensures
            name == self.title(),
            self is U16 ==> name == "u16",
            self is I16 ==> name == "i16",
            self is U32Be ==> name == "u32be",
            self is F32Be ==> name == "f32be",
    {
        match self {
            RegisterKind::U16 => "u16",
            RegisterKind::I16 => "i16",
            RegisterKind::U32Be => "u32be",
            RegisterKind::F32Be => "f32be",
        }
    }

    /// The number these words carry, unscaled.
    ///
    /// Big-endian throughout, first word most significant, which is the
    /// protocol's order and the order most device manuals print.
    ///
    /// # Errors
    ///
    /// Returns [`ModbusError::WordCount`] when the slice is not exactly
    /// [`Self::registers`] words long. A `U32Be` decoded from one word would
    /// be half a number.
    pub fn decode(self, words: &[u16]) -> (result: Result<Reading, ModbusError>)
        ensures
            result == self.decoded(words@),
            self is U16 && words@.len() == 1 ==> (result matches Ok(Reading::Integer(value))
                && value == words@[0]),
            self is I16 && words@.len() == 1 ==> (result matches Ok(Reading::Integer(value))
                && -32768 <= value <= 32767 && (value == words@[0] || value == words@[0]
                - 65536)),
            self is U32Be && words@.len() == 2 ==> (result matches Ok(Reading::Integer(value))
                && value == words@[0] * 65536 + words@[1]),
            self is F32Be && words@.len() == 2 ==> (result matches Ok(Reading::Binary32(bits))
                && bits == words@[0] * 65536 + words@[1]),
    {
        if words.len() != self.registers() as usize {
            return Err(
                ModbusError::WordCount {
                    kind: self.name(),
                    expected: self.registers(),
                    found: words.len(),
                },
            );
        }
        Ok(
            match self {
                RegisterKind::U16 => Reading::Integer(words[0] as i64),
                RegisterKind::I16 => Reading::Integer(signed(words[0])),
                RegisterKind::U32Be => Reading::Integer(wide(words[0], words[1]) as i64),
                RegisterKind::F32Be => Reading::Binary32(wide(words[0], words[1])),
            },
        )
    }
}

/// Two registers as one 32-bit value, the first register most significant.
fn wide(high: u16, low: u16) -> (value: u32)
    ensures
        value == wide_of(high, low),
        value == high * 65536 + low,
{
    high as u32 * 0x1_0000 + low as u32
}

/// One register as the two's-complement number it spells.
fn signed(word: u16) -> (value: i64)
    ensures
        value == signed_of(word),
{
    if word < 0x8000 {
        word as i64
    } else {
        word as i64 - 0x1_0000
    }
}

/// A binary64 pattern without its sign bit.
pub open spec fn magnitude(factor: u64) -> u64 {
    if factor < BINARY64_SIGN {
        factor
    } else {
        (factor - BINARY64_SIGN) as u64
    }
}

/// Whether a binary64 pattern is a number: neither an infinity nor a NaN.
pub open spec fn is_finite(factor: u64) -> bool {
    magnitude(factor) < BINARY64_INFINITY
}

/// Whether a binary64 pattern is zero, of either sign.
pub open spec fn is_zero(factor: u64) -> bool {
    magnitude(factor) == 0
}

/// The bits of a pattern tell what its magnitude tells: it is an infinity or
/// a NaN when its eleven exponent bits are all set, and zero when no bit but
/// the sign is.
proof fn lemma_pattern_bits(factor: u64)
    ensures
        factor % BINARY64_SIGN >= BINARY64_INFINITY <==> (factor >> 52) & 0x7ff == 0x7ff,
        factor % BINARY64_SIGN == 0 <==> factor & 0x7fff_ffff_ffff_ffff == 0,
{
    assert(factor % 0x8000_0000_0000_0000u64 >= 0x7ff0_0000_0000_0000u64 <==> (factor >> 52)
        & 0x7ff == 0x7ff) by (bit_vector);
    assert(factor % 0x8000_0000_0000_0000u64 == 0 <==> factor & 0x7fff_ffff_ffff_ffff == 0)
        by (bit_vector);
}

/// A binary64 pattern with the other sign.
pub open spec fn negated(factor: u64) -> u64 {
    if factor < BINARY64_SIGN {
        (factor + BINARY64_SIGN) as u64
    } else {
        (factor - BINARY64_SIGN) as u64
    }
}

/// Where a finite binary64 pattern stands among the others: as far from zero
/// as its magnitude, on the side of its sign. Patterns are ordered by this as
/// their numbers are.
pub open spec fn standing(factor: u64) -> int {
    if factor < BINARY64_SIGN {
        magnitude(factor) as int
    } else {
        -(magnitude(factor) as int)
    }
}

/// Whether one factor stands below another.
fn is_below(left: u64, right: u64) -> (below: bool)
    ensures
        below == (standing(left) < standing(right)),
        left < BINARY64_SIGN && right < BINARY64_SIGN ==> below == (left < right),
        left > BINARY64_SIGN && right > BINARY64_SIGN ==> below == (right < left),
{
    if left < BINARY64_SIGN {
        right < BINARY64_SIGN && left < right
    } else if right < BINARY64_SIGN {
        left != BINARY64_SIGN || right != 0
    } else {
        right < left
    }
}

impl View for Scale {
    type V = u64;

    closed spec fn view(&self) -> u64 {
        self.0
    }
}

impl PartialOrdSpecImpl for Scale {
    open spec fn obeys_partial_cmp_spec() -> bool {
        true
    }

    open spec fn partial_cmp_spec(&self, other: &Scale) -> Option<Ordering> {
        if standing(self@) < standing(other@) {
            Some(Ordering::Less)
        } else if standing(other@) < standing(self@) {
            Some(Ordering::Greater)
        } else {
            Some(Ordering::Equal)
        }
    }
}

/// Scales are ordered as the numbers they stand for.
impl PartialOrd for Scale {
    fn partial_cmp(&self, other: &Scale) -> (order: Option<Ordering>) {
        if is_below(self.0, other.0) {
            Some(Ordering::Less)
        } else if is_below(other.0, self.0) {
            Some(Ordering::Greater)
        } else {
            Some(Ordering::Equal)
        }
    }
}

impl Scale {
    #[verifier::type_invariant]
    spec fn well_formed(self) -> bool {
        is_finite(self.0) && !is_zero(self.0)
    }

    /// A finite, non-zero factor, from its bit pattern.
    ///
    /// # Errors
    ///
    /// Returns [`ModbusError::NonFiniteScale`] for NaN or an infinity and
    /// [`ModbusError::ZeroScale`] for zero.
    pub fn new(factor: u64) -> (result: Result<Scale, ModbusError>)
        ensures
            result is Ok <==> is_finite(factor) && !is_zero(factor),
            result matches Ok(scale) ==> scale@ == factor,
            !is_finite(factor) <==> result == Err::<Scale, ModbusError>(
                ModbusError::NonFiniteScale,
            ),
            is_zero(factor) <==> result == Err::<Scale, ModbusError>(ModbusError::ZeroScale),
            (factor >> 52) & 0x7ff == 0x7ff <==> result == Err::<Scale, ModbusError>(
                ModbusError::NonFiniteScale,
            ),
            factor & 0x7fff_ffff_ffff_ffff == 0 <==> result == Err::<Scale, ModbusError>(
                ModbusError::ZeroScale,
            ),
            result is Ok <==> (factor >> 52) & 0x7ff != 0x7ff && factor
                & 0x7fff_ffff_ffff_ffff != 0,
    {
        proof {
            lemma_pattern_bits(factor);
        }
        let unsigned: u64 = factor % BINARY64_SIGN;
        if unsigned >= BINARY64_INFINITY {
            return Err(ModbusError::NonFiniteScale);
        }
        if unsigned == 0 {
            return Err(ModbusError::ZeroScale);
        }
        Ok(Scale(factor))
    }

    /// A map that changes nothing: the register is already in the unit
    /// the caller wants.
    #[must_use]
    pub fn one() -> (scale: Scale)
        ensures
            scale@ == BINARY64_ONE,
            scale@ == 0x3ff0_0000_0000_0000,
    {
        Scale(BINARY64_ONE)
    }

    /// The factor itself, as its bit pattern.
    #[must_use]
    pub fn get(self) -> (factor: u64)
        ensures
            factor == self@,
            is_finite(factor),
            !is_zero(factor),
            (factor >> 52) & 0x7ff != 0x7ff,
            factor & 0x7fff_ffff_ffff_ffff != 0,
    {
        proof {
            use_type_invariant(&self);
            lemma_pattern_bits(self.0);
        }
        self.0
    }
}

} // verus!
