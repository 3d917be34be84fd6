use vstd::prelude::*;

pub mod config;
pub mod filter;
pub mod logger;
pub mod normalize;
pub mod observer;
pub mod pattern;
pub mod status;
pub mod text;

verus! {

} // verus!
