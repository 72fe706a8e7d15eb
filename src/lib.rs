//! A toroidal Game of Life whose state lives in a pair of buffers that
//! alternate between "current" and "next", with the per-tick scheduling
//! that drives a transition step followed by a draw.
use vstd::prelude::*;

pub mod grid;
pub mod life;
pub mod patterns;
pub mod buffers;
pub mod schedule;
pub mod seed;
pub mod upload;

verus! {

} // verus!
