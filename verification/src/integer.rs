//! Fixed-width signed and unsigned circuit integers, and their canonical
//! embedding into a field element.

use crate::bits::{bits_of, bits_value, lemma_bits_value_bits_of, lemma_bits_value_bound,
    lemma_bits_value_injective, lemma_pow2_widths};
use crate::boolean::Boolean;
use crate::environment::{Environment, MAX_INTEGER_BITS};
use crate::field::FieldElement;
use crate::mode::Mode;
use vstd::arithmetic::power2::{lemma_pow2_strictly_increases, pow2};
use vstd::prelude::*;

verus! {

/// The closed family of supported integer kinds: widths 8 to 128 bits,
/// signed and unsigned.
#[derive(Clone, Copy, PartialEq, Eq, Structural, Debug)]
pub enum IntegerType {
    U8,
    I8,
    U16,
    I16,
    U32,
    I32,
    U64,
    I64,
    U128,
    I128,
}

impl IntegerType {
    /// The declared bit width of this kind of integer.
    pub open spec fn spec_width(self) -> usize {
        match self {
            IntegerType::U8 | IntegerType::I8 => 8,
            IntegerType::U16 | IntegerType::I16 => 16,
            IntegerType::U32 | IntegerType::I32 => 32,
            IntegerType::U64 | IntegerType::I64 => 64,
            IntegerType::U128 | IntegerType::I128 => 128,
        }
    }

    /// The declared bit width of this kind of integer.
    #[verifier::when_used_as_spec(spec_width)]
    pub fn width(self) -> (w: usize)
        ensures
            w == self.spec_width(),
    {
        match self {
            IntegerType::U8 | IntegerType::I8 => 8,
            IntegerType::U16 | IntegerType::I16 => 16,
            IntegerType::U32 | IntegerType::I32 => 32,
            IntegerType::U64 | IntegerType::I64 => 64,
            IntegerType::U128 | IntegerType::I128 => 128,
        }
    }

    /// Whether this kind of integer carries a sign.
    pub open spec fn spec_is_signed(self) -> bool {
        match self {
            IntegerType::I8 | IntegerType::I16 | IntegerType::I32 | IntegerType::I64
            | IntegerType::I128 => true,
            _ => false,
        }
    }

    /// Whether this kind of integer carries a sign.
    #[verifier::when_used_as_spec(spec_is_signed)]
    pub fn is_signed(self) -> (s: bool)
        ensures
            s == self.spec_is_signed(),
    {
        match self {
            IntegerType::I8 | IntegerType::I16 | IntegerType::I32 | IntegerType::I64
            | IntegerType::I128 => true,
            _ => false,
        }
    }
}

/// The unsigned bit pattern a `w`-bit two's-complement encoding assigns to
/// `v`: `v` itself when it is not negative, `v + 2^w` when it is.
pub open spec fn twos_complement(v: int, w: nat) -> nat {
    if v >= 0 {
        v as nat
    } else {
        (v + pow2(w)) as nat
    }
}

/// A fixed-width integer inside the circuit: a bit sequence of exactly its
/// declared width, least-significant bit first, every wire carrying the
/// integer's mode.  Immutable once constructed.
pub struct Integer {
    /// Which of the ten supported kinds this integer is.
    pub ty: IntegerType,
    /// The mode all of the integer's wires were allocated under.
    pub mode: Mode,
    /// The integer's two's-complement / unsigned expansion, least-significant
    /// bit first.
    pub bits_le: Vec<Boolean>,
}

impl Integer {
    /// The integer owns one wire per bit of its declared width, and every
    /// wire carries the integer's mode.
    pub open spec fn wf(&self) -> bool {
        &&& self.bits_le@.len() == self.ty.spec_width()
        &&& forall|i: int|
            0 <= i < self.bits_le@.len() ==> self.bits_le@[i].mode == self.mode
    }

    /// The truth values of the integer's bits, least-significant first.
    pub open spec fn bit_values(&self) -> Seq<bool> {
        self.bits_le@.map_values(|b: Boolean| b.value)
    }

    /// The unsigned positional sum of the integer's bits.  For signed
    /// kinds this is the two's-complement pattern value, not the signed
    /// value: sign is never reinterpreted at this layer.
    pub open spec fn value(&self) -> nat {
        bits_value(self.bit_values())
    }

    /// Reads the truth values off the integer's wires, least-significant
    /// bit first.
    pub fn to_bits_le(&self) -> (v: Vec<bool>)
        ensures
            v@ == self.bit_values(),
    {
        let mut v: Vec<bool> = Vec::new();
        let mut i: usize = 0;
        while i < self.bits_le.len()
            invariant
                i <= self.bits_le@.len(),
                v@ =~= self.bit_values().take(i as int),
            decreases self.bits_le@.len() - i,
        {
            v.push(self.bits_le[i].value);
            i = i + 1;
        }
        proof {
            assert(v@ =~= self.bit_values());
        }
        v
    }
}

/// Declares `width` fresh wires of mode `mode` carrying the low `width`
/// bits of `pattern`, least-significant bit first.
fn bits_from_pattern(env: &mut Environment, mode: Mode, pattern: u128, width: usize) -> (bits: Vec<
    Boolean,
>)
    requires
        old(env).has_room(width as nat),
    ensures
        bits@.len() == width,
        forall|i: int| 0 <= i < width ==> bits@[i].mode == mode,
        bits@.map_values(|b: Boolean| b.value) == bits_of(pattern as nat, width as nat),
        final(env).allocated_from(*old(env), mode, width as nat),
{
    let ghost env0 = *env;
    let mut bits: Vec<Boolean> = Vec::new();
    let mut v: u128 = pattern;
    let mut i: usize = 0;
    while i < width
        invariant
            i <= width,
            bits@.len() == i,
            forall|j: int| 0 <= j < i ==> bits@[j].mode == mode,
            bits@.map_values(|b: Boolean| b.value) + bits_of(v as nat, (width - i) as nat)
                =~= bits_of(pattern as nat, width as nat),
            (*env).allocated_from(env0, mode, i as nat),
            env0.has_room(width as nat),
        decreases width - i,
    {
        let ghost pre = *env;
        let ghost vals = bits@.map_values(|b: Boolean| b.value);
        let b = Boolean::new(env, mode, v % 2 == 1);
        bits.push(b);
        proof {
            assert(bits@.map_values(|b: Boolean| b.value) =~= vals.push(v % 2 == 1));
            assert(bits_of(v as nat, (width - i) as nat) == seq![(v as nat) % 2 == 1]
                + bits_of((v as nat) / 2, (width - i - 1) as nat));
            assert(vals.push(v % 2 == 1) + bits_of((v / 2) as nat, (width - i - 1) as nat)
                =~= vals + bits_of(v as nat, (width - i) as nat));
        }
        v = v / 2;
        i = i + 1;
    }
    proof {
        assert(bits_of(v as nat, 0) =~= Seq::<bool>::empty());
        assert(bits@.map_values(|b: Boolean| b.value) =~= bits@.map_values(|b: Boolean| b.value)
            + Seq::<bool>::empty());
    }
    bits
}

impl Integer {
    /// Embeds the integer into the field canonically: its wires are reused
    /// as the low-order bits of the field element and the remaining
    /// positions are constant zeros, so the element's value equals the
    /// integer's unsigned pattern value, and the ledger is left exactly as
    /// it was — no new variable, no new constraint, in any mode.  A
    /// well-formed environment's field is strictly wider than any
    /// supported integer, so the positional sum never wraps the modulus.
    pub fn to_field(&self, env: &mut Environment) -> (f: FieldElement)
        requires
            self.wf(),
            old(env).wf(),
        ensures
            *final(env) == *old(env),
            f.wf(*old(env)),
            forall|i: int|
                0 <= i < self.ty.spec_width() ==> f.bits_le@[i] == self.bits_le@[i],
            forall|i: int|
                self.ty.spec_width() <= i < f.bits_le@.len() ==> f.bits_le@[i] == (Boolean {
                    mode: Mode::Constant,
                    value: false,
                }),
            f.bit_values() == self.bit_values() + Seq::new(
                (old(env).spec_field_bits() - self.ty.spec_width()) as nat,
                |i: int| false,
            ),
            f.value() == self.value(),
            f.value() < pow2((old(env).spec_field_bits() - 1) as nat),
    {
        proof {
            assert(self.ty.spec_width() <= MAX_INTEGER_BITS);
            lemma_bits_value_bound(self.bit_values());
            if (self.ty.spec_width() as nat) < (old(env).spec_field_bits() - 1) as nat {
                lemma_pow2_strictly_increases(
                    self.ty.spec_width() as nat,
                    (old(env).spec_field_bits() - 1) as nat,
                );
            }
        }
        FieldElement::from_bits_le(env, &self.bits_le)
    }
}

impl Integer {
    /// Constructs an 8-bit unsigned integer from a native value: eight
    /// fresh wires of the given mode carrying the value's binary
    /// expansion, least-significant bit first.
    pub fn from_u8(env: &mut Environment, mode: Mode, value: u8) -> (r: Integer)
        requires
            old(env).has_room(8),
        ensures
            r.wf(),
            r.ty == IntegerType::U8,
            r.mode == mode,
            r.bit_values() == bits_of(value as nat, 8),
            r.value() == value,
            final(env).allocated_from(*old(env), mode, 8),
    {
        let bits = bits_from_pattern(env, mode, value as u128, 8);
        proof {
            lemma_pow2_widths();
            lemma_bits_value_bits_of(value as nat, 8);
        }
        Integer { ty: IntegerType::U8, mode, bits_le: bits }
    }

    /// Constructs an 8-bit signed integer from a native value; the wires
    /// carry its two's-complement expansion, least-significant bit first.
    pub fn from_i8(env: &mut Environment, mode: Mode, value: i8) -> (r: Integer)
        requires
            old(env).has_room(8),
        ensures
            r.wf(),
            r.ty == IntegerType::I8,
            r.mode == mode,
            r.bit_values() == bits_of(twos_complement(value as int, 8), 8),
            r.value() == twos_complement(value as int, 8),
            final(env).allocated_from(*old(env), mode, 8),
    {
        proof {
            lemma_pow2_widths();
        }
        let pattern: u128 = if value >= 0 {
            value as u128
        } else {
            ((value as i128) + 0x100) as u128
        };
        assert(pattern == twos_complement(value as int, 8));
        let bits = bits_from_pattern(env, mode, pattern, 8);
        proof {
            lemma_bits_value_bits_of(pattern as nat, 8);
        }
        Integer { ty: IntegerType::I8, mode, bits_le: bits }
    }

    /// Constructs a 16-bit unsigned integer from a native value.
    pub fn from_u16(env: &mut Environment, mode: Mode, value: u16) -> (r: Integer)
        requires
            old(env).has_room(16),
        ensures
            r.wf(),
            r.ty == IntegerType::U16,
            r.mode == mode,
            r.bit_values() == bits_of(value as nat, 16),
            r.value() == value,
            final(env).allocated_from(*old(env), mode, 16),
    {
        let bits = bits_from_pattern(env, mode, value as u128, 16);
        proof {
            lemma_pow2_widths();
            lemma_bits_value_bits_of(value as nat, 16);
        }
        Integer { ty: IntegerType::U16, mode, bits_le: bits }
    }

    /// Constructs a 16-bit signed integer from a native value; the wires
    /// carry its two's-complement expansion.
    pub fn from_i16(env: &mut Environment, mode: Mode, value: i16) -> (r: Integer)
        requires
            old(env).has_room(16),
        ensures
            r.wf(),
            r.ty == IntegerType::I16,
            r.mode == mode,
            r.bit_values() == bits_of(twos_complement(value as int, 16), 16),
            r.value() == twos_complement(value as int, 16),
            final(env).allocated_from(*old(env), mode, 16),
    {
        proof {
            lemma_pow2_widths();
        }
        let pattern: u128 = if value >= 0 {
            value as u128
        } else {
            ((value as i128) + 0x10000) as u128
        };
        assert(pattern == twos_complement(value as int, 16));
        let bits = bits_from_pattern(env, mode, pattern, 16);
        proof {
            lemma_bits_value_bits_of(pattern as nat, 16);
        }
        Integer { ty: IntegerType::I16, mode, bits_le: bits }
    }

    /// Constructs a 32-bit unsigned integer from a native value.
    pub fn from_u32(env: &mut Environment, mode: Mode, value: u32) -> (r: Integer)
        requires
            old(env).has_room(32),
        ensures
            r.wf(),
            r.ty == IntegerType::U32,
            r.mode == mode,
            r.bit_values() == bits_of(value as nat, 32),
            r.value() == value,
            final(env).allocated_from(*old(env), mode, 32),
    {
        let bits = bits_from_pattern(env, mode, value as u128, 32);
        proof {
            lemma_pow2_widths();
            lemma_bits_value_bits_of(value as nat, 32);
        }
        Integer { ty: IntegerType::U32, mode, bits_le: bits }
    }

    /// Constructs a 32-bit signed integer from a native value; the wires
    /// carry its two's-complement expansion.
    pub fn from_i32(env: &mut Environment, mode: Mode, value: i32) -> (r: Integer)
        requires
            old(env).has_room(32),
        ensures
            r.wf(),
            r.ty == IntegerType::I32,
            r.mode == mode,
            r.bit_values() == bits_of(twos_complement(value as int, 32), 32),
            r.value() == twos_complement(value as int, 32),
            final(env).allocated_from(*old(env), mode, 32),
    {
        proof {
            lemma_pow2_widths();
        }
        let pattern: u128 = if value >= 0 {
            value as u128
        } else {
            ((value as i128) + 0x100000000) as u128
        };
        assert(pattern == twos_complement(value as int, 32));
        let bits = bits_from_pattern(env, mode, pattern, 32);
        proof {
            lemma_bits_value_bits_of(pattern as nat, 32);
        }
        Integer { ty: IntegerType::I32, mode, bits_le: bits }
    }

    /// Constructs a 64-bit unsigned integer from a native value.
    pub fn from_u64(env: &mut Environment, mode: Mode, value: u64) -> (r: Integer)
        requires
            old(env).has_room(64),
        ensures
            r.wf(),
            r.ty == IntegerType::U64,
            r.mode == mode,
            r.bit_values() == bits_of(value as nat, 64),
            r.value() == value,
            final(env).allocated_from(*old(env), mode, 64),
    {
        let bits = bits_from_pattern(env, mode, value as u128, 64);
        proof {
            lemma_pow2_widths();
            lemma_bits_value_bits_of(value as nat, 64);
        }
        Integer { ty: IntegerType::U64, mode, bits_le: bits }
    }

    /// Constructs a 64-bit signed integer from a native value; the wires
    /// carry its two's-complement expansion.
    pub fn from_i64(env: &mut Environment, mode: Mode, value: i64) -> (r: Integer)
        requires
            old(env).has_room(64),
        ensures
            r.wf(),
            r.ty == IntegerType::I64,
            r.mode == mode,
            r.bit_values() == bits_of(twos_complement(value as int, 64), 64),
            r.value() == twos_complement(value as int, 64),
            final(env).allocated_from(*old(env), mode, 64),
    {
        proof {
            lemma_pow2_widths();
        }
        let pattern: u128 = if value >= 0 {
            value as u128
        } else {
            ((value as i128) + 0x10000000000000000) as u128
        };
        assert(pattern == twos_complement(value as int, 64));
        let bits = bits_from_pattern(env, mode, pattern, 64);
        proof {
            lemma_bits_value_bits_of(pattern as nat, 64);
        }
        Integer { ty: IntegerType::I64, mode, bits_le: bits }
    }

    /// Constructs a 128-bit unsigned integer from a native value.
    pub fn from_u128(env: &mut Environment, mode: Mode, value: u128) -> (r: Integer)
        requires
            old(env).has_room(128),
        ensures
            r.wf(),
            r.ty == IntegerType::U128,
            r.mode == mode,
            r.bit_values() == bits_of(value as nat, 128),
            r.value() == value,
            final(env).allocated_from(*old(env), mode, 128),
    {
        let bits = bits_from_pattern(env, mode, value, 128);
        proof {
            lemma_pow2_widths();
            lemma_bits_value_bits_of(value as nat, 128);
        }
        Integer { ty: IntegerType::U128, mode, bits_le: bits }
    }

    /// Constructs a 128-bit signed integer from a native value; the wires
    /// carry its two's-complement expansion.  A negative value's pattern
    /// is computed as `u128::MAX - (-(value + 1))`, which equals
    /// `value + 2^128` without leaving the 128-bit range.
    pub fn from_i128(env: &mut Environment, mode: Mode, value: i128) -> (r: Integer)
        requires
            old(env).has_room(128),
        ensures
            r.wf(),
            r.ty == IntegerType::I128,
            r.mode == mode,
            r.bit_values() == bits_of(twos_complement(value as int, 128), 128),
            r.value() == twos_complement(value as int, 128),
            final(env).allocated_from(*old(env), mode, 128),
    {
        proof {
            lemma_pow2_widths();
        }
        let pattern: u128 = if value >= 0 {
            value as u128
        } else {
            u128::MAX - ((-(value + 1)) as u128)
        };
        assert(pattern == twos_complement(value as int, 128));
        let bits = bits_from_pattern(env, mode, pattern, 128);
        proof {
            lemma_bits_value_bits_of(pattern as nat, 128);
        }
        Integer { ty: IntegerType::I128, mode, bits_le: bits }
    }
}

/// Injectivity of the embedding: two same-width integers with distinct bit
/// patterns stand for distinct numbers, and so — the embedded field
/// element's value being exactly the integer's pattern value — embed into
/// distinct field elements, whatever the sign encodings of the two.
pub proof fn lemma_embedding_injective(a: Integer, b: Integer)
    requires
        a.wf(),
        b.wf(),
        a.ty.spec_width() == b.ty.spec_width(),
        a.bit_values() != b.bit_values(),
    ensures
        a.value() != b.value(),
{
    if a.value() == b.value() {
        assert(a.bit_values().len() == b.bit_values().len());
        lemma_bits_value_injective(a.bit_values(), b.bit_values());
    }
}

} // verus!
