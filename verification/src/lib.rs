use vstd::prelude::*;

pub mod common;
pub mod skill;
pub mod server;
pub mod unit;

verus! {

} // verus!
