//! The mathematical model of little-endian bit sequences: the number a
//! sequence stands for, the low bits of a number, and the laws relating
//! the two (round trip, zero extension, injectivity).

use vstd::arithmetic::power2::{
    lemma2_to64, lemma2_to64_rest, lemma_pow2_adds, lemma_pow2_pos, pow2,
};
use vstd::prelude::*;

verus! {

/// The number a least-significant-first bit sequence stands for:
/// the positional sum over all positions i of s[i] * 2^i.
pub open spec fn bits_value(s: Seq<bool>) -> nat
    decreases s.len(),
{
    if s.len() == 0 {
        0
    } else {
        (if s[0] {
            1nat
        } else {
            0nat
        }) + 2 * bits_value(s.skip(1))
    }
}

/// The low `len` bits of `v`, least-significant bit first.
pub open spec fn bits_of(v: nat, len: nat) -> Seq<bool>
    decreases len,
{
    if len == 0 {
        Seq::empty()
    } else {
        seq![v % 2 == 1] + bits_of(v / 2, (len - 1) as nat)
    }
}

/// A positional sum over `s.len()` bits is below 2^s.len().
pub proof fn lemma_bits_value_bound(s: Seq<bool>)
    ensures
        bits_value(s) < pow2(s.len()),
    decreases s.len(),
{
    if s.len() == 0 {
        lemma_pow2_pos(0);
        lemma2_to64();
    } else {
        lemma_bits_value_bound(s.skip(1));
        lemma_pow2_adds(1, (s.len() - 1) as nat);
        lemma2_to64();
    }
}

/// Appending a false bit at the top leaves the positional sum unchanged.
pub proof fn lemma_bits_value_push_false(s: Seq<bool>)
    ensures
        bits_value(s.push(false)) == bits_value(s),
    decreases s.len(),
{
    if s.len() == 0 {
        assert(s.push(false)[0] == false);
        assert(s.push(false).skip(1) =~= Seq::<bool>::empty());
        assert(bits_value(s.push(false)) == 2 * bits_value(s.push(false).skip(1)));
        assert(bits_value(Seq::<bool>::empty()) == 0);
    } else {
        lemma_bits_value_push_false(s.skip(1));
        assert(s.push(false).skip(1) =~= s.skip(1).push(false));
        assert(s.push(false)[0] == s[0]);
        assert(bits_value(s.push(false)) == (if s[0] {
            1nat
        } else {
            0nat
        }) + 2 * bits_value(s.skip(1).push(false)));
        assert(bits_value(s) == (if s[0] {
            1nat
        } else {
            0nat
        }) + 2 * bits_value(s.skip(1)));
    }
}

/// Zero-extending a bit sequence leaves the positional sum unchanged.
pub proof fn lemma_bits_value_zero_extension(s: Seq<bool>, n: nat)
    requires
        s.len() <= n,
    ensures
        bits_value(s + Seq::new((n - s.len()) as nat, |i: int| false)) == bits_value(s),
    decreases n - s.len(),
{
    if s.len() == n {
        assert(s + Seq::new(0, |i: int| false) =~= s);
    } else {
        lemma_bits_value_zero_extension(s.push(false), n);
        assert(s + Seq::new((n - s.len()) as nat, |i: int| false) =~= s.push(false) + Seq::new(
            (n - s.push(false).len()) as nat,
            |i: int| false,
        ));
        lemma_bits_value_push_false(s);
    }
}

/// Expanding the positional sum of a sequence back into as many bits as the
/// sequence has recovers the sequence itself.
pub proof fn lemma_bits_of_bits_value(s: Seq<bool>)
    ensures
        bits_of(bits_value(s), s.len()) == s,
    decreases s.len(),
{
    if s.len() == 0 {
        assert(bits_of(bits_value(s), 0) =~= s);
    } else {
        let r = bits_value(s.skip(1));
        let v = bits_value(s);
        assert(v == (if s[0] {
            1nat
        } else {
            0nat
        }) + 2 * r);
        assert(v % 2 == (if s[0] {
            1int
        } else {
            0int
        }) && v / 2 == r) by (nonlinear_arith)
            requires
                v == (if s[0] {
                    1nat
                } else {
                    0nat
                }) + 2 * r,
        ;
        lemma_bits_of_bits_value(s.skip(1));
        assert(bits_of(v, s.len()) =~= s);
    }
}

/// The positional sum of the low `len` bits of `v` is `v` itself, as long
/// as `v` fits in `len` bits.
pub proof fn lemma_bits_value_bits_of(v: nat, len: nat)
    requires
        v < pow2(len),
    ensures
        bits_value(bits_of(v, len)) == v,
    decreases len,
{
    if len == 0 {
        lemma2_to64();
    } else {
        let s = bits_of(v, len);
        assert(s[0] == (v % 2 == 1));
        assert(s.skip(1) =~= bits_of(v / 2, (len - 1) as nat));
        lemma_pow2_adds(1, (len - 1) as nat);
        lemma2_to64();
        assert(v / 2 < pow2((len - 1) as nat) && v == 2 * (v / 2) + v % 2 && v % 2 < 2)
            by (nonlinear_arith)
            requires
                v < pow2(len),
                pow2(len) == 2 * pow2((len - 1) as nat),
        {
        }
        lemma_bits_value_bits_of(v / 2, (len - 1) as nat);
    }
}

/// Round-trip identity: take any bit sequence, form the number it stands
/// for, and expand that number back out to `n >= s.len()` bits.  The result
/// is the original sequence followed by zeros alone.
pub proof fn lemma_round_trip(s: Seq<bool>, n: nat)
    requires
        s.len() <= n,
    ensures
        bits_of(bits_value(s), n) == s + Seq::new((n - s.len()) as nat, |i: int| false),
{
    let t = s + Seq::new((n - s.len()) as nat, |i: int| false);
    lemma_bits_value_zero_extension(s, n);
    lemma_bits_of_bits_value(t);
}

/// Injectivity: two bit sequences of one length with the same positional
/// sum are the same sequence; hence distinct same-width bit patterns stand
/// for distinct numbers.
pub proof fn lemma_bits_value_injective(s1: Seq<bool>, s2: Seq<bool>)
    requires
        s1.len() == s2.len(),
        bits_value(s1) == bits_value(s2),
    ensures
        s1 == s2,
{
    lemma_bits_of_bits_value(s1);
    lemma_bits_of_bits_value(s2);
}

/// Concrete powers of two at every supported integer width, and one past
/// the widest, for reasoning about value bounds.
pub proof fn lemma_pow2_widths()
    ensures
        pow2(8) == 0x100,
        pow2(16) == 0x10000,
        pow2(32) == 0x100000000,
        pow2(64) == 0x10000000000000000,
        pow2(128) == 0x100000000000000000000000000000000,
        pow2(7) == 0x80,
        pow2(15) == 0x8000,
        pow2(31) == 0x80000000,
        pow2(63) == 0x8000000000000000,
        pow2(127) == 0x80000000000000000000000000000000,
{
    lemma2_to64();
    lemma2_to64_rest();
    lemma_pow2_adds(64, 64);
    lemma_pow2_adds(64, 63);
}

} // verus!
