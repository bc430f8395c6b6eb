//! The exit codes of the program.

use vstd::prelude::*;

verus! {

pub const SUCCESS: i32 = 0;

pub const SERVER_UNREACHABLE: i32 = 1;

/// The model, or a part of it, was not found.
pub const MODEL_NOT_FOUND: i32 = 2;

/// The generation failed or was cancelled.
pub const GENERATION_FAILED: i32 = 3;

pub const BAD_REQUEST: i32 = 4;

pub const UNKNOWN: i32 = 5;

} // verus!
