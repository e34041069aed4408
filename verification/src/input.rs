//! Mouse input: raw-input events, the relative-motion batcher used by the
//! forwarder, and the replay grouping used by the agent.
pub mod cursor_capture;
pub mod forwarder;
pub mod raw_input;
pub mod replay;

use vstd::prelude::*;

verus! {

/// Input capture hook; capturing is done by the forwarder and the cursor clip, so it does nothing.
pub fn capture_input() {
}

/// Input release hook; releasing is done by the forwarder and the cursor clip, so it does nothing.
pub fn release_input() {
}

} // verus!
