use vstd::prelude::*;

verus! {

/// Identifies an event of the Tezos chain; ordered as a pair.
pub type EventId = (u128, u128);

/// An event of the Tezos chain; it carries nothing yet.
#[derive(Clone, Copy, Debug, PartialEq, Eq, Structural)]
pub struct Event {}

} // verus!
