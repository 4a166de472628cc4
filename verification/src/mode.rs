//! The circuit mode of a value: whether its wires are baked-in constants,
//! publicly-witnessed inputs or privately-witnessed inputs.

use vstd::prelude::*;

verus! {

/// How a circuit value's wires are allocated.  The mode is attached to a
/// value when it is constructed and never changes afterwards; it decides
/// allocation behaviour, never the value's mathematical content.
#[derive(Clone, Copy, PartialEq, Eq, Structural, Debug)]
pub enum Mode {
    /// The wires are circuit-time constants.
    Constant,
    /// The wires are publicly-witnessed inputs.
    Public,
    /// The wires are privately-witnessed inputs.
    Private,
}

} // verus!
