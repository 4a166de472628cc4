//! An element of the proof system's scalar field, held as its full bit
//! expansion: one circuit boolean per bit position of the modulus.

use crate::bits::{bits_value, lemma_bits_value_bound, lemma_bits_value_zero_extension};
use crate::boolean::Boolean;
use crate::environment::Environment;
use crate::mode::Mode;
use vstd::arithmetic::power2::pow2;
use vstd::prelude::*;

verus! {

/// A field element, owned as a bit sequence of length equal to the field's
/// bit length, least-significant bit first.  The number the bits stand for
/// is [`FieldElement::value`]; when the element was built from fewer bits
/// than the field has, the top bits are constant zeros and the value stays
/// strictly below `2^(field_bits - 1)`, hence below the prime modulus.
pub struct FieldElement {
    /// The element's bit expansion, least-significant bit first.
    pub bits_le: Vec<Boolean>,
}

impl FieldElement {
    /// The truth values of the element's bits, least-significant first.
    pub open spec fn bit_values(&self) -> Seq<bool> {
        self.bits_le@.map_values(|b: Boolean| b.value)
    }

    /// The number the element stands for: the positional sum of its bits.
    pub open spec fn value(&self) -> nat {
        bits_value(self.bit_values())
    }

    /// The element has one wire per bit position of a field `env` describes.
    pub open spec fn wf(&self, env: Environment) -> bool {
        self.bits_le@.len() == env.spec_field_bits()
    }

    /// Builds the field element whose value is the positional sum of the
    /// given bits.  The given wires themselves become the element's
    /// low-order bits — shared handles, no copies of allocations — and the
    /// remaining positions are filled with constant zero wires, so the
    /// ledger records no new variable and no new constraint: the
    /// environment is left exactly as it was.
    pub fn from_bits_le(env: &mut Environment, bits: &Vec<Boolean>) -> (f: FieldElement)
        requires
            old(env).wf(),
            bits@.len() <= old(env).spec_field_bits(),
        ensures
            *final(env) == *old(env),
            f.wf(*old(env)),
            f.bits_le@ == bits@ + Seq::new(
                (old(env).spec_field_bits() - bits@.len()) as nat,
                |i: int| Boolean { mode: Mode::Constant, value: false },
            ),
            f.bit_values() == bits@.map_values(|b: Boolean| b.value) + Seq::new(
                (old(env).spec_field_bits() - bits@.len()) as nat,
                |i: int| false,
            ),
            f.value() == bits_value(bits@.map_values(|b: Boolean| b.value)),
    {
        let field_bits = env.field_bits();
        let mut out: Vec<Boolean> = Vec::new();
        let mut i: usize = 0;
        while i < bits.len()
            invariant
                i <= bits@.len(),
                out@ =~= bits@.take(i as int),
            decreases bits@.len() - i,
        {
            out.push(bits[i]);
            i = i + 1;
        }
        assert(out@ =~= bits@);
        while out.len() < field_bits
            invariant
                bits@.len() <= out@.len() <= field_bits,
                out@ =~= bits@ + Seq::new(
                    (out@.len() - bits@.len()) as nat,
                    |i: int| Boolean { mode: Mode::Constant, value: false },
                ),
            decreases field_bits - out@.len(),
        {
            out.push(Boolean::constant(false));
        }
        let f = FieldElement { bits_le: out };
        proof {
            let vals = bits@.map_values(|b: Boolean| b.value);
            assert(f.bit_values() =~= vals + Seq::new(
                (field_bits - bits@.len()) as nat,
                |i: int| false,
            ));
            lemma_bits_value_zero_extension(vals, field_bits as nat);
        }
        f
    }

    /// The number of bit positions the element owns.
    pub fn size_in_bits(&self) -> (n: usize)
        ensures
            n == self.bits_le@.len(),
    {
        self.bits_le.len()
    }

    /// Reads the truth values off the element's wires, least-significant
    /// bit first.
    pub fn to_bits_le(&self) -> (v: Vec<bool>)
        ensures
            v@ == self.bit_values(),
    {
        let mut v: Vec<bool> = Vec::new();
        let mut i: usize = 0;
        while i < self.bits_le.len()
            invariant
                i <= self.bits_le@.len(),
                v@ =~= self.bit_values().take(i as int),
            decreases self.bits_le@.len() - i,
        {
            v.push(self.bits_le[i].value);
            i = i + 1;
        }
        proof {
            assert(v@ =~= self.bit_values());
        }
        v
    }
}

/// A field element's value is below `2^n` for its `n` bit positions.
/// (For an embedded integer the bound is sharper: its zero-extended top
/// bits keep the value below `2^(n-1)`, hence below the prime modulus of
/// an `n`-bit field.)
pub proof fn lemma_field_value_bound(f: FieldElement)
    ensures
        f.value() < pow2(f.bits_le@.len()),
{
    lemma_bits_value_bound(f.bit_values());
}

} // verus!
