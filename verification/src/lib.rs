use vstd::prelude::*;

pub mod account;
pub mod alarm;
pub mod api;
pub mod bill;
pub mod model;
pub mod entries;
pub mod text;
pub mod time;

verus! {

} // verus!
