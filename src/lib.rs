//! Telemetry monitor core: bus frame classification and decoding, change
//! detection of the decoded measurement, status text, display protocol plans
//! and the monitor loop's decision step.
use vstd::prelude::*;

pub mod frame;
pub mod tracker;
pub mod text;
pub mod display;
pub mod monitor;

verus! {

} // verus!
