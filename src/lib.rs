//! A session-oriented front end for the libtess2 polygon tessellator.
//!
//! The geometry engine itself is reached through C calls, which the caller
//! makes. This crate keeps what a session has been given (its contours and
//! option values), decides what is handed to each call of every solve, and
//! turns the engine's flat output buffers into vertex and index lists.
use vstd::prelude::*;

pub mod calls;
pub mod codes;
pub mod extract;
pub mod session;

pub use calls::{contour_call, option_call, triangle_solve_call, ContourCall, OptionCall, SolveCall};
pub use codes::{ElementType, TesselatorOption, WindingRule};
pub use extract::{collect_indices, collect_vertices, tesselation_result, TESS_UNDEF};
pub use session::Session;

verus! {

} // verus!
