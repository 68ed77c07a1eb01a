//! The two states of a capability, as types.
use vstd::prelude::*;

verus! {

/// A capability that is there. The field is the capability's own logic: the
/// function that writes a value into a sink, or reads one from a source.
pub struct Present<F>(pub F);

/// A capability that is not there. It fits every value type, sink and source.
#[derive(Clone, Copy, Debug)]
pub struct Absent;

} // verus!
