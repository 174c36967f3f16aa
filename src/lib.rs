use vstd::prelude::*;

pub mod config;
pub mod language;
pub mod path;
pub mod resolve;
pub mod submit;
pub mod task;

verus! {

} // verus!
