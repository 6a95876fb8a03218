use vstd::prelude::*;

pub mod codec;
pub mod sources;
pub mod api;
pub mod session;
pub mod offer;
pub mod config;
pub mod frontend;

verus! {

} // verus!
