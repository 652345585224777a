use vstd::prelude::*;

pub mod calendar;
pub mod clock;
pub mod dependency;
pub mod errors;
pub mod events;
pub mod frames;
pub mod laws;
pub mod local_time;
pub mod priority;
pub mod schedule;
pub mod scheduling;
pub mod store;

verus! {

} // verus!
