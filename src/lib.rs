use vstd::prelude::*;

pub mod cleanup;
pub mod command;
pub mod paths;
pub mod progress;
pub mod render;

verus! {

} // verus!
