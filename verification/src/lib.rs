use vstd::prelude::*;

pub mod agents;
pub mod datetime;
pub mod http;
pub mod json;
pub mod knowledge;
pub mod model;
pub mod queue;
pub mod search;
pub mod text;

verus! {

} // verus!
