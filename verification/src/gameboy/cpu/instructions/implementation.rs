use vstd::prelude::*;

pub mod alu;
pub mod jp;
pub mod jr;
pub mod ld;
pub mod misc;
pub mod stack;

verus! {

} // verus!
