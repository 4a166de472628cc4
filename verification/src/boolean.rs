//! A circuit boolean: one wire carrying a truth value, tagged with the
//! mode it was allocated under.

use crate::environment::Environment;
use crate::mode::Mode;
use vstd::prelude::*;

verus! {

/// One boolean-valued circuit wire.  Copying a `Boolean` copies the wire
/// handle, not the allocation: the ledger is only touched by [`Boolean::new`].
#[derive(Clone, Copy, PartialEq, Eq, Structural, Debug)]
pub struct Boolean {
    /// How the wire was allocated.
    pub mode: Mode,
    /// The truth value the wire carries.
    pub value: bool,
}

impl Boolean {
    /// A compile-time constant wire.  Such a literal is folded directly
    /// into linear combinations and needs no ledger entry, whatever the
    /// mode of the values around it.
    pub fn constant(value: bool) -> (b: Boolean)
        ensures
            b.mode == Mode::Constant,
            b.value == value,
    {
        Boolean { mode: Mode::Constant, value }
    }

    /// Declares a fresh wire of the given mode and records it in the
    /// environment's ledger.
    pub fn new(env: &mut Environment, mode: Mode, value: bool) -> (b: Boolean)
        requires
            old(env).has_room(1),
        ensures
            b.mode == mode,
            b.value == value,
            final(env).allocated_from(*old(env), mode, 1),
    {
        env.record_wire(mode);
        Boolean { mode, value }
    }
}

} // verus!
