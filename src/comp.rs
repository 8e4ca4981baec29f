use vstd::prelude::*;

verus! {

/// Identifies an event of the Compound chain; ordered as a pair.
pub type EventId = (u64, u64);

/// An event of the Compound chain; it carries nothing yet.
#[derive(Clone, Copy, Debug, PartialEq, Eq, Structural)]
pub struct Event {}

} // verus!
