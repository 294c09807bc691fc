//! Positions in the frame script.
//!
//! One frame: wait for the slot, get an image, fill in the frame's data,
//! record the scene and, over it, the overlay, submit, present.

use vstd::prelude::*;

verus! {

pub const WAIT_FENCE: u8 = 0;

pub const RESET_FENCE: u8 = 1;

pub const ACQUIRE_IMAGE: u8 = 2;

pub const READ_CLOCK: u8 = 3;

pub const WRITE_UNIFORMS: u8 = 4;

pub const RECORD_SCENE: u8 = 5;

pub const RECORD_OVERLAY: u8 = 6;

pub const FINISH_RECORDING: u8 = 7;

pub const SUBMIT: u8 = 8;

pub const PRESENT: u8 = 9;

/// The last position of the script.
pub const LAST: u8 = PRESENT;

} // verus!
