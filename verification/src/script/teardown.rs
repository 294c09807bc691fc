//! Positions in the teardown script.
//!
//! The device is drained and everything goes, dependents first, the
//! allocator last.

use vstd::prelude::*;

verus! {

pub const WAIT_DEVICE_IDLE: u8 = 0;

pub const DESTROY_SYNC_OBJECTS: u8 = 1;

pub const DESTROY_VERTEX_BUFFER: u8 = 2;

pub const FREE_VERTEX_MEMORY: u8 = 3;

pub const DESTROY_UNIFORM_BUFFERS: u8 = 4;

pub const FREE_UNIFORM_MEMORY: u8 = 5;

pub const DESTROY_PIPELINE: u8 = 6;

pub const DESTROY_PIPELINE_LAYOUT: u8 = 7;

pub const DESTROY_FRAMEBUFFERS: u8 = 8;

pub const DESTROY_IMAGE_VIEWS: u8 = 9;

pub const DESTROY_RENDER_PASS: u8 = 10;

pub const DESTROY_DESCRIPTOR_SET_LAYOUTS: u8 = 11;

pub const DESTROY_DESCRIPTOR_POOL: u8 = 12;

pub const DESTROY_SWAPCHAIN: u8 = 13;

pub const RELEASE_ALLOCATOR: u8 = 14;

/// The last position of the script.
pub const LAST: u8 = RELEASE_ALLOCATOR;

} // verus!
