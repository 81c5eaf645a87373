//! Systems: the callable units that stages execute.
//!
//! A system is a value the embedding program supplies; the runtime treats it
//! as stateless and type-erased.  One program-chosen type implements this
//! trait — typically an enum with one variant per system — so stages can
//! hold systems of any shape in one ordered list.

use crate::state::State;

use vstd::prelude::*;

verus! {

/// A callable over the shared state.
///
/// The runtime promises nothing about what `run` does to the state: the
/// system may read and write anything.  What the runtime does guarantee —
/// in `Stage::run`'s contract — is when a system is invoked at all: only
/// when its declared parameter list resolves against the state of the
/// moment without an aliasing conflict.
pub trait System<R, L, M> {
    /// Invokes the system once, with exclusive access to the whole state
    /// for the duration of the call.
    fn run(&self, state: &mut State<R, L, M>);
}

} // verus!
