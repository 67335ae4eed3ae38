//! Words into numbers, and the factors applied to them.

use modbus_read::{ModbusError, Reading, RegisterCount, RegisterKind, Scale};

/// The number a reading stands for.
fn number(reading: Reading) -> f64 {
    match reading {
        Reading::Integer(value) => value as f64,
        Reading::Binary32(bits) => f64::from(f32::from_bits(bits)),
    }
}

/// What a kind makes of words, as the number it stands for.
fn decode(kind: RegisterKind, words: &[u16]) -> Result<f64, ModbusError> {
    kind.decode(words).map(number)
}

/// A scale from the number it stands for.
fn scale_of(factor: f64) -> Result<Scale, ModbusError> {
    Scale::new(factor.to_bits())
}

/// The number a scale stands for.
fn factor(scale: Scale) -> f64 {
    f64::from_bits(scale.get())
}

/// Every kind decoded here is compared exactly. These are integers and
/// powers of two in `f64`, so an exact comparison is the right one and a
/// tolerance would only hide a decoder that drifted.
///
/// The bit patterns are synthetic. They are not readings from a device.
#[test]
fn a_float_register_pair_decodes_to_the_number_its_manual_prints() {
    let decoded = decode(RegisterKind::F32Be, &[0x4248, 0x0000]);

    assert_eq!(decoded, Ok(50.0));
}

#[test]
fn a_signed_register_decodes_below_zero() {
    let decoded = decode(RegisterKind::I16, &[0xFF38]);

    assert_eq!(decoded, Ok(-200.0));
}

#[test]
fn the_same_word_is_two_numbers_depending_on_the_kind() {
    assert_eq!(decode(RegisterKind::U16, &[0xFFFF]), Ok(65_535.0));
    assert_eq!(decode(RegisterKind::I16, &[0xFFFF]), Ok(-1.0));
}

#[test]
fn a_wide_register_pair_decodes_most_significant_word_first() {
    let decoded = decode(RegisterKind::U32Be, &[0x0001, 0x86A0]);

    assert_eq!(decoded, Ok(100_000.0));
}

#[test]
fn each_kind_knows_how_many_registers_it_occupies() {
    assert_eq!(RegisterKind::U16.registers(), 1);
    assert_eq!(RegisterKind::I16.registers(), 1);
    assert_eq!(RegisterKind::U32Be.registers(), 2);
    assert_eq!(RegisterKind::F32Be.registers(), 2);
}

#[test]
fn each_kind_names_itself() {
    assert_eq!(RegisterKind::U16.name(), "u16");
    assert_eq!(RegisterKind::I16.name(), "i16");
    assert_eq!(RegisterKind::U32Be.name(), "u32be");
    assert_eq!(RegisterKind::F32Be.name(), "f32be");
}

/// Every register map asks this one question, so it is proved once here
/// rather than in each of them.
#[test]
fn a_count_fits_only_the_kind_that_is_that_wide() {
    let one = RegisterCount::new(1).expect("one register is a count");
    let two = RegisterCount::new(2).expect("two registers is a count");

    assert!(RegisterKind::I16.fits(one));
    assert!(!RegisterKind::I16.fits(two));
    assert!(RegisterKind::F32Be.fits(two));
    assert!(!RegisterKind::F32Be.fits(one));
}

/// Half of a 32-bit quantity is not a smaller reading, it is a wrong one.
#[test]
fn a_wide_kind_handed_one_word_is_refused() {
    let refused = decode(RegisterKind::U32Be, &[0x0001]);

    assert_eq!(
        refused,
        Err(ModbusError::WordCount {
            kind: "u32be",
            expected: 2,
            found: 1,
        })
    );
}

#[test]
fn a_narrow_kind_handed_two_words_is_refused() {
    let refused = decode(RegisterKind::U16, &[1, 2]);

    assert_eq!(
        refused,
        Err(ModbusError::WordCount {
            kind: "u16",
            expected: 1,
            found: 2,
        })
    );
}

#[test]
fn a_kind_handed_no_words_is_refused() {
    let refused = decode(RegisterKind::F32Be, &[]);

    assert_eq!(
        refused,
        Err(ModbusError::WordCount {
            kind: "f32be",
            expected: 2,
            found: 0,
        })
    );
}

/// Scaled readings are compared with a tolerance rather than for
/// equality: 0.1 is not exact in binary, and a test that depended on the
/// last bit would be asserting the rounding mode rather than the decoder.
fn near(found: f64, expected: f64) -> bool {
    (found - expected).abs() < 1e-9
}

#[test]
fn a_scale_turns_tenths_into_the_unit() {
    let scale = scale_of(0.1).expect("a tenth is a scale");

    let scaled = 2500.0 * factor(scale);

    assert!(near(scaled, 250.0), "2500 tenths is 250, found {scaled}");
    assert!(near(factor(scale), 0.1));
}

#[test]
fn a_scale_of_one_changes_nothing() {
    assert!(near(412.0 * factor(Scale::one()), 412.0));
}

/// A device whose export register counts down from zero is a map, not a
/// mistake.
#[test]
fn a_negative_scale_is_a_map_and_is_accepted() {
    let scale = scale_of(-1.0).expect("a sign flip is a scale");

    assert!(near(250.0 * factor(scale), -250.0));
}

#[test]
fn a_scale_of_zero_is_refused() {
    assert_eq!(scale_of(0.0), Err(ModbusError::ZeroScale));
}

#[test]
fn a_scale_that_is_not_a_number_is_refused() {
    assert_eq!(scale_of(f64::NAN), Err(ModbusError::NonFiniteScale));
    assert_eq!(scale_of(f64::INFINITY), Err(ModbusError::NonFiniteScale));
    assert_eq!(
        scale_of(f64::NEG_INFINITY),
        Err(ModbusError::NonFiniteScale)
    );
}

/// The smallest and the largest number each whole kind can read.
#[test]
fn each_whole_kind_reads_its_whole_range() {
    assert_eq!(RegisterKind::U16.decode(&[0]), Ok(Reading::Integer(0)));
    assert_eq!(RegisterKind::U16.decode(&[0xFFFF]), Ok(Reading::Integer(65_535)));
    assert_eq!(RegisterKind::I16.decode(&[0x8000]), Ok(Reading::Integer(-32_768)));
    assert_eq!(RegisterKind::I16.decode(&[0x7FFF]), Ok(Reading::Integer(32_767)));
    assert_eq!(RegisterKind::U32Be.decode(&[0, 0]), Ok(Reading::Integer(0)));
    assert_eq!(
        RegisterKind::U32Be.decode(&[0xFFFF, 0xFFFF]),
        Ok(Reading::Integer(4_294_967_295))
    );
}

/// A pattern is carried as it is, whatever number it stands for.
#[test]
fn a_float_register_pair_keeps_its_pattern() {
    assert_eq!(
        RegisterKind::F32Be.decode(&[0x7FC0, 0x0001]),
        Ok(Reading::Binary32(0x7FC0_0001))
    );
    assert_eq!(decode(RegisterKind::F32Be, &[0xBF80, 0x0000]), Ok(-1.0));
}

#[test]
fn a_scale_keeps_its_pattern() {
    for factor in [0.1_f64, -1.0, f64::MIN_POSITIVE, f64::MAX, f64::MIN, 5e-324] {
        assert_eq!(scale_of(factor).map(Scale::get), Ok(factor.to_bits()));
    }
    assert_eq!(Scale::one().get(), 1.0_f64.to_bits());
}

#[test]
fn a_negative_zero_is_no_scale() {
    assert_eq!(scale_of(-0.0), Err(ModbusError::ZeroScale));
}

/// Scales stand in the order of their numbers.
#[test]
fn scales_are_ordered_as_their_numbers_are() {
    let factors = [f64::MIN, -2.0, -1.0, -5e-324, 5e-324, 0.1, 1.0, f64::MAX];

    for left in factors {
        for right in factors {
            let (small, large) = (scale_of(left).unwrap(), scale_of(right).unwrap());
            assert_eq!(small.partial_cmp(&large), left.partial_cmp(&right));
            assert_eq!(small == large, left == right);
        }
    }
}
