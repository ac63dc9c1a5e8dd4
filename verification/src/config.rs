//! Resolution, frame rate and delay limits.
use vstd::prelude::*;

verus! {

/// Width of the captured picture, in pixels.
pub const VIDEO_WIDTH: usize = 1280;

/// Height of the captured picture, in pixels.
pub const VIDEO_HEIGHT: usize = 720;

/// Frames captured per second.
pub const FPS: usize = 60;

/// The delay selected at start-up: two seconds.
pub const INITIAL_DELAY_FRAMES: usize = FPS * 2;

/// The largest delay that can be selected: fifteen seconds.
pub const MAX_DELAY_FRAMES: usize = FPS * 15;

/// One press of a delay button moves the delay by half a second.
pub const DELAY_STEP_FRAMES: usize = FPS / 2;

} // verus!
