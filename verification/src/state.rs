//! The access modes of an [`Environment`](crate::Environment), as types.
//!
//! An environment starts in [`Init`] and is moved, exactly once and by value,
//! into one of three terminal modes. Each accessor of the environment is
//! declared only for the modes whose capability trait it carries, so reading
//! an argument as a pointer in a mode that declared it an integer is not a
//! runtime error but an impossibility of the public surface. The capability
//! traits are implemented for these types alone, and no constructor produces
//! an environment in a foreign state, so a handler cannot smuggle in a mode
//! of its own.

use vstd::prelude::*;

verus! {

/// An access mode of an environment; only the types below carry it.
pub trait State {}

/// Modes whose first two arguments are plain integers.
pub trait PrimIn: State {}

/// Modes whose last two arguments are plain integers.
pub trait PrimOut: State {}

/// Modes whose first two arguments are an input pointer and length.
pub trait BufIn: State {}

/// Modes whose last two arguments are an output pointer and a pointer to the
/// declared output capacity.
pub trait BufOut: State {}

/// The initial mode: no argument may be read yet; only a transition into a
/// terminal mode is offered.
pub struct Init;

/// Terminal mode: all four arguments are plain integers.
pub struct OnlyIn;

/// Terminal mode: integer inputs, buffer output.
pub struct PrimInBufOut;

/// Terminal mode: buffer input, buffer output.
pub struct BufInBufOut;

impl State for Init {}

impl State for OnlyIn {}

impl State for PrimInBufOut {}

impl State for BufInBufOut {}

impl PrimIn for OnlyIn {}

impl PrimOut for OnlyIn {}

impl PrimIn for PrimInBufOut {}

impl BufOut for PrimInBufOut {}

impl BufIn for BufInBufOut {}

impl BufOut for BufInBufOut {}

} // verus!
