//! Scenario and edge-case checks for the canonical embedding: concrete
//! bit patterns, mode propagation, ledger accounting, injectivity, and
//! the rejection of a field too narrow for the widest integer.

use circuit_embed::boolean::Boolean;
use circuit_embed::environment::{Environment, MAX_INTEGER_BITS};
use circuit_embed::field::FieldElement;
use circuit_embed::integer::{Integer, IntegerType};
use circuit_embed::mode::Mode;

const FIELD_BITS: usize = 253;

fn fresh_env() -> Environment {
    Environment::new(FIELD_BITS).expect("the field is wider than every supported integer")
}

/// The number a little-endian bit vector stands for, for small cases.
fn value_of_bits(bits: &[bool]) -> u128 {
    let mut value: u128 = 0;
    for (i, bit) in bits.iter().enumerate() {
        if *bit {
            value += 1u128 << i;
        }
    }
    value
}

#[test]
fn test_u8_constant_five_embeds_low_bits() {
    let mut env = fresh_env();
    let n = Integer::from_u8(&mut env, Mode::Constant, 5);
    assert_eq!(
        n.to_bits_le(),
        vec![true, false, true, false, false, false, false, false]
    );

    let f = n.to_field(&mut env);
    let bits = f.to_bits_le();
    assert_eq!(bits.len(), FIELD_BITS);
    assert_eq!(
        &bits[0..8],
        &[true, false, true, false, false, false, false, false]
    );
    for bit in &bits[8..] {
        assert!(!*bit);
    }
    assert_eq!(value_of_bits(&bits), 5);
}

#[test]
fn test_i8_private_minus_one_embeds_all_ones() {
    let mut env = fresh_env();
    let n = Integer::from_i8(&mut env, Mode::Private, -1);
    assert_eq!(n.to_bits_le(), vec![true; 8]);

    let f = n.to_field(&mut env);
    let bits = f.to_bits_le();
    assert_eq!(bits.len(), FIELD_BITS);
    for bit in &bits[0..8] {
        assert!(*bit);
    }
    for bit in &bits[8..] {
        assert!(!*bit);
    }
    // The embedding is unsigned-positional: the element stands for 255,
    // not for -1.
    assert_eq!(value_of_bits(&bits), 255);
}

#[test]
fn test_narrow_field_is_rejected() {
    assert!(Environment::new(0).is_none());
    assert!(Environment::new(64).is_none());
    assert!(Environment::new(MAX_INTEGER_BITS).is_none());
    assert!(Environment::new(MAX_INTEGER_BITS + 1).is_some());
    let env = Environment::new(FIELD_BITS).unwrap();
    assert_eq!(env.field_bits(), FIELD_BITS);
    assert_eq!(env.num_constants(), 0);
    assert_eq!(env.num_public(), 0);
    assert_eq!(env.num_private(), 0);
    assert_eq!(env.num_constraints(), 0);
}

#[test]
fn test_mode_is_inherited_by_the_embedding() {
    for mode in [Mode::Constant, Mode::Public, Mode::Private] {
        let mut env = fresh_env();
        let n = Integer::from_u16(&mut env, mode, 0xbeef);
        let f = n.to_field(&mut env);
        for i in 0..16 {
            assert_eq!(f.bits_le[i].mode, mode);
        }
        for i in 16..FIELD_BITS {
            assert_eq!(f.bits_le[i].mode, Mode::Constant);
            assert!(!f.bits_le[i].value);
        }
    }
}

#[test]
fn test_ledger_counts_integer_wires_by_mode() {
    let mut env = fresh_env();
    let _ = Integer::from_u8(&mut env, Mode::Constant, 42);
    assert_eq!(env.num_constants(), 8);
    assert_eq!(env.num_public(), 0);
    assert_eq!(env.num_private(), 0);

    let _ = Integer::from_u64(&mut env, Mode::Public, 42);
    assert_eq!(env.num_constants(), 8);
    assert_eq!(env.num_public(), 64);
    assert_eq!(env.num_private(), 0);

    let _ = Integer::from_i128(&mut env, Mode::Private, -42);
    assert_eq!(env.num_constants(), 8);
    assert_eq!(env.num_public(), 64);
    assert_eq!(env.num_private(), 128);
    assert_eq!(env.num_constraints(), 0);
}

#[test]
fn test_distinct_integers_embed_to_distinct_elements() {
    let mut env = fresh_env();
    let a = Integer::from_u8(&mut env, Mode::Public, 3);
    let b = Integer::from_u8(&mut env, Mode::Public, 5);
    let fa = a.to_field(&mut env);
    let fb = b.to_field(&mut env);
    assert_ne!(fa.to_bits_le(), fb.to_bits_le());
    assert_ne!(value_of_bits(&fa.to_bits_le()), value_of_bits(&fb.to_bits_le()));
}

#[test]
fn test_from_bits_le_pads_with_constant_zeros() {
    let mut env = fresh_env();
    let wires = vec![
        Boolean::new(&mut env, Mode::Private, true),
        Boolean::new(&mut env, Mode::Private, false),
        Boolean::new(&mut env, Mode::Private, true),
    ];
    assert_eq!(env.num_private(), 3);

    let f = FieldElement::from_bits_le(&mut env, &wires);
    assert_eq!(env.num_private(), 3);
    assert_eq!(env.num_constants(), 0);
    assert_eq!(f.size_in_bits(), FIELD_BITS);
    assert_eq!(f.bits_le[0].mode, Mode::Private);
    assert_eq!(f.bits_le[1].mode, Mode::Private);
    assert_eq!(f.bits_le[2].mode, Mode::Private);
    for i in 3..FIELD_BITS {
        assert_eq!(f.bits_le[i].mode, Mode::Constant);
        assert!(!f.bits_le[i].value);
    }
    assert_eq!(value_of_bits(&f.to_bits_le()), 5);
}

#[test]
fn test_boolean_constant_needs_no_ledger_entry() {
    let b = Boolean::constant(true);
    assert_eq!(b.mode, Mode::Constant);
    assert!(b.value);

    let mut env = fresh_env();
    let w = Boolean::new(&mut env, Mode::Constant, false);
    assert_eq!(w.mode, Mode::Constant);
    assert!(!w.value);
    assert_eq!(env.num_constants(), 1);
}

#[test]
fn test_integer_type_widths_and_signs() {
    assert_eq!(IntegerType::U8.width(), 8);
    assert_eq!(IntegerType::I8.width(), 8);
    assert_eq!(IntegerType::U16.width(), 16);
    assert_eq!(IntegerType::I16.width(), 16);
    assert_eq!(IntegerType::U32.width(), 32);
    assert_eq!(IntegerType::I32.width(), 32);
    assert_eq!(IntegerType::U64.width(), 64);
    assert_eq!(IntegerType::I64.width(), 64);
    assert_eq!(IntegerType::U128.width(), 128);
    assert_eq!(IntegerType::I128.width(), 128);

    assert!(!IntegerType::U8.is_signed());
    assert!(IntegerType::I8.is_signed());
    assert!(!IntegerType::U128.is_signed());
    assert!(IntegerType::I128.is_signed());
}

#[test]
fn test_extreme_values_round_trip() {
    let cases: Vec<(Integer, u128, usize)> = {
        let mut env = fresh_env();
        vec![
            (Integer::from_u8(&mut env, Mode::Public, u8::MAX), u8::MAX as u128, 8),
            (Integer::from_i8(&mut env, Mode::Public, i8::MIN), 0x80, 8),
            (Integer::from_i16(&mut env, Mode::Public, -2), 0xfffe, 16),
            (Integer::from_u32(&mut env, Mode::Public, 0), 0, 32),
            (
                Integer::from_i64(&mut env, Mode::Public, i64::MIN),
                0x8000_0000_0000_0000,
                64,
            ),
            (Integer::from_u128(&mut env, Mode::Public, u128::MAX), u128::MAX, 128),
            (
                Integer::from_i128(&mut env, Mode::Public, i128::MIN),
                1u128 << 127,
                128,
            ),
            (Integer::from_i128(&mut env, Mode::Public, -1), u128::MAX, 128),
        ]
    };
    for (n, pattern, width) in cases {
        let expected: Vec<bool> = (0..width).map(|i| (pattern >> i) & 1 == 1).collect();
        assert_eq!(n.to_bits_le(), expected);

        let mut env = fresh_env();
        let f = n.to_field(&mut env);
        let bits = f.to_bits_le();
        assert_eq!(&bits[0..width], expected.as_slice());
        for bit in &bits[width..] {
            assert!(!*bit);
        }
    }
}
