//! Canonical embedding of fixed-width integers into elements of a prime
//! field inside an arithmetic-circuit constraint system.
//!
//! An [`integer::Integer`] carries its two's-complement / unsigned binary
//! expansion as a sequence of circuit booleans, least-significant bit first,
//! together with a [`mode::Mode`] saying whether those wires are baked-in
//! constants, public inputs or private witnesses.  The embedding
//! ([`integer::Integer::to_field`]) reinterprets those same wires as the
//! low-order bits of a [`field::FieldElement`], zero-extended with constant
//! wires up to the field's bit length, allocating nothing new in the
//! [`environment::Environment`] ledger.

pub mod bits;
pub mod boolean;
pub mod environment;
pub mod field;
pub mod integer;
pub mod mode;
