//! A controller that keeps a fleet of canisters funded with cycles: a registry of
//! monitored canisters with their funding and obtain strategies, a resolver from obtain
//! strategies to executable actions, and the decisions of the periodic scan.

use vstd::prelude::*;

pub mod cmc;
pub mod errors;
pub mod laws;
pub mod manager;
pub mod registry;
pub mod strategy;

verus! {

} // verus!
