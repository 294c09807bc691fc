//! Positions in the recreation script.
//!
//! The device is drained, what hangs on the swapchain goes and the swapchain
//! after it, and all of it is built again for the new size.

use vstd::prelude::*;

verus! {

pub const WAIT_DEVICE_IDLE: u8 = 0;

pub const DESTROY_SYNC_OBJECTS: u8 = 1;

pub const DESTROY_FRAMEBUFFERS: u8 = 2;

pub const DESTROY_IMAGE_VIEWS: u8 = 3;

pub const DESTROY_RENDER_PASS: u8 = 4;

pub const DESTROY_SWAPCHAIN: u8 = 5;

pub const QUERY_SURFACE: u8 = 6;

pub const CREATE_SWAPCHAIN: u8 = 7;

pub const NOTIFY_OVERLAY: u8 = 8;

pub const CREATE_RENDER_PASS: u8 = 9;

pub const CREATE_FRAMEBUFFERS: u8 = 10;

pub const CREATE_SYNC_OBJECTS: u8 = 11;

/// The last position of the script.
pub const LAST: u8 = CREATE_SYNC_OBJECTS;

} // verus!
