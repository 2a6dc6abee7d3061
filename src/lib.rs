//! Typed, read-only views over host-owned packet, flow and event records,
//! address text marshaling, and the state machine of the diagnostic sink.
use vstd::prelude::*;

pub mod cstr;
pub mod data_event;
pub mod error;
pub mod experimental;
pub mod flow;
pub mod inspector;
pub mod log_file;
pub mod packet;
pub mod sfip;
pub mod snort;

verus! {

/// Sum of two sizes; the sum must fit in `usize`.
pub fn add(left: usize, right: usize) -> (r: usize)
    requires
        left + right <= usize::MAX,
    ensures
        r == left + right,
{
    left + right
}

} // verus!
