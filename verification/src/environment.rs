//! The constraint-system context: it knows the target field's bit length
//! and keeps the ledger of allocated circuit variables and recorded
//! constraints.  The embedding is proved to leave this ledger untouched.

use crate::mode::Mode;
use vstd::prelude::*;

verus! {

/// The widest supported integer, in bits.  A field must be strictly wider
/// than every integer embedded into it, so an environment is only accepted
/// when its field bit length exceeds this.
pub const MAX_INTEGER_BITS: usize = 128;

/// The circuit environment: the field's bit length (the size in bits of
/// the prime modulus) and the constraint-system ledger.  A prime of `n`
/// bits is at least `2^(n-1)`, so any value built from fewer than `n` bits
/// stays strictly below the modulus.
pub struct Environment {
    field_bits: usize,
    num_constants: u64,
    num_public: u64,
    num_private: u64,
    num_constraints: u64,
}

impl Environment {
    /// The bit length of the field modulus.
    pub closed spec fn spec_field_bits(&self) -> usize {
        self.field_bits
    }

    /// How many constant wires the ledger has recorded.
    pub closed spec fn spec_num_constants(&self) -> u64 {
        self.num_constants
    }

    /// How many public input wires the ledger has recorded.
    pub closed spec fn spec_num_public(&self) -> u64 {
        self.num_public
    }

    /// How many private witness wires the ledger has recorded.
    pub closed spec fn spec_num_private(&self) -> u64 {
        self.num_private
    }

    /// How many algebraic constraints the ledger has recorded.
    pub closed spec fn spec_num_constraints(&self) -> u64 {
        self.num_constraints
    }

    /// A well-formed environment pairs the field with every supported
    /// integer width: the field is strictly wider than all of them.
    pub open spec fn wf(&self) -> bool {
        self.spec_field_bits() > MAX_INTEGER_BITS
    }

    /// The ledger has room to record `n` more wires of any one mode.
    pub open spec fn has_room(&self, n: nat) -> bool {
        &&& self.spec_num_constants() + n <= u64::MAX
        &&& self.spec_num_public() + n <= u64::MAX
        &&& self.spec_num_private() + n <= u64::MAX
    }

    /// `self` is `pre` after recording exactly `n` wires of mode `mode`:
    /// the matching counter grew by `n` and nothing else moved.
    pub open spec fn allocated_from(&self, pre: Environment, mode: Mode, n: nat) -> bool {
        &&& self.spec_field_bits() == pre.spec_field_bits()
        &&& self.spec_num_constraints() == pre.spec_num_constraints()
        &&& self.spec_num_constants() == pre.spec_num_constants() + (if mode is Constant {
            n
        } else {
            0
        })
        &&& self.spec_num_public() == pre.spec_num_public() + (if mode is Public {
            n
        } else {
            0
        })
        &&& self.spec_num_private() == pre.spec_num_private() + (if mode is Private {
            n
        } else {
            0
        })
    }

    /// Sets up an environment over a field of `field_bits` bits with an
    /// empty ledger.  A field too narrow for the widest supported integer
    /// is rejected outright: no width is ever silently truncated.
    pub fn new(field_bits: usize) -> (r: Option<Environment>)
        ensures
            r is Some <==> field_bits > MAX_INTEGER_BITS,
            r matches Some(env) ==> {
                &&& env.wf()
                &&& env.spec_field_bits() == field_bits
                &&& env.spec_num_constants() == 0
                &&& env.spec_num_public() == 0
                &&& env.spec_num_private() == 0
                &&& env.spec_num_constraints() == 0
            },
    {
        if field_bits > MAX_INTEGER_BITS {
            Some(
                Environment {
                    field_bits,
                    num_constants: 0,
                    num_public: 0,
                    num_private: 0,
                    num_constraints: 0,
                },
            )
        } else {
            None
        }
    }

    /// Records one freshly declared wire of the given mode in the ledger.
    pub fn record_wire(&mut self, mode: Mode)
        requires
            old(self).has_room(1),
        ensures
            final(self).allocated_from(*old(self), mode, 1),
    {
        match mode {
            Mode::Constant => self.num_constants = self.num_constants + 1,
            Mode::Public => self.num_public = self.num_public + 1,
            Mode::Private => self.num_private = self.num_private + 1,
        }
    }

    /// The bit length of the field modulus.
    #[verifier::when_used_as_spec(spec_field_bits)]
    pub fn field_bits(&self) -> (n: usize)
        ensures
            n == self.spec_field_bits(),
    {
        self.field_bits
    }

    /// How many constant wires the ledger has recorded.
    #[verifier::when_used_as_spec(spec_num_constants)]
    pub fn num_constants(&self) -> (n: u64)
        ensures
            n == self.spec_num_constants(),
    {
        self.num_constants
    }

    /// How many public input wires the ledger has recorded.
    #[verifier::when_used_as_spec(spec_num_public)]
    pub fn num_public(&self) -> (n: u64)
        ensures
            n == self.spec_num_public(),
    {
        self.num_public
    }

    /// How many private witness wires the ledger has recorded.
    #[verifier::when_used_as_spec(spec_num_private)]
    pub fn num_private(&self) -> (n: u64)
        ensures
            n == self.spec_num_private(),
    {
        self.num_private
    }

    /// How many algebraic constraints the ledger has recorded.
    #[verifier::when_used_as_spec(spec_num_constraints)]
    pub fn num_constraints(&self) -> (n: u64)
        ensures
            n == self.spec_num_constraints(),
    {
        self.num_constraints
    }
}

} // verus!
