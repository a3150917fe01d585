//! Lyrics-resolution engine for synchronized-lyrics (LRC) lookup.
//!
//! Turns raw track metadata into a lookup query (with user-directed field
//! suppression), interprets the lyrics service's responses, ranks search
//! candidates by duration proximity under a tolerance window, and drives the
//! exact-get-then-search-fallback resolution protocol as a pure state machine.
//! All remote and file I/O lives outside this crate; the engine works on plain
//! values and hands decisions back to its caller.

use vstd::prelude::*;

pub mod client;
pub mod model;
pub mod numfmt;
pub mod query;
pub mod resolve;
pub mod select;

verus! {

/// Absolute difference of two durations, in seconds.
pub open spec fn spec_abs_diff(a: u64, b: u64) -> int {
    if a >= b {
        a - b
    } else {
        b - a
    }
}

/// Absolute difference of two durations, in seconds.
pub fn abs_diff(a: u64, b: u64) -> (r: u64)
    ensures
        r == spec_abs_diff(a, b),
{
    if a >= b {
        a - b
    } else {
        b - a
    }
}

} // verus!
