//! Settlement engine of a single covered call option: the state of one
//! instance, the rules of each transition, and the token movements that a
//! transition orders. The engine decides; the host carries the movements out
//! and commits the next state once they have all succeeded.
use vstd::prelude::*;

pub mod engine;
pub mod errors;
pub mod laws;
pub mod ledger;
pub mod terms;
pub mod trace;

verus! {

} // verus!
