//! Positions in the construction script.
//!
//! Everything a renderer owns is created here, once: first what the
//! swapchain's image count sizes, then the vertex buffer by way of a staging
//! buffer, last the ring.

use vstd::prelude::*;

verus! {

pub const QUERY_SURFACE: u8 = 0;

pub const CREATE_SWAPCHAIN: u8 = 1;

pub const CREATE_UNIFORM_BUFFERS: u8 = 2;

pub const ALLOCATE_UNIFORM_MEMORY: u8 = 3;

pub const BIND_UNIFORM_MEMORY: u8 = 4;

pub const CREATE_DESCRIPTOR_POOL: u8 = 5;

pub const CREATE_DESCRIPTOR_SET_LAYOUTS: u8 = 6;

pub const CREATE_DESCRIPTOR_SETS: u8 = 7;

pub const CREATE_RENDER_PASS: u8 = 8;

pub const CREATE_FRAMEBUFFERS: u8 = 9;

pub const CREATE_PIPELINE: u8 = 10;

pub const CREATE_STAGING_BUFFER: u8 = 11;

pub const ALLOCATE_STAGING_MEMORY: u8 = 12;

pub const BIND_STAGING_MEMORY: u8 = 13;

pub const FILL_STAGING_BUFFER: u8 = 14;

pub const CREATE_VERTEX_BUFFER: u8 = 15;

pub const ALLOCATE_VERTEX_MEMORY: u8 = 16;

pub const BIND_VERTEX_MEMORY: u8 = 17;

pub const SUBMIT_COPY: u8 = 18;

pub const WAIT_QUEUE_IDLE: u8 = 19;

pub const FREE_COPY_COMMAND_BUFFER: u8 = 20;

pub const FREE_STAGING_MEMORY: u8 = 21;

pub const DESTROY_STAGING_BUFFER: u8 = 22;

pub const CREATE_COMMAND_BUFFERS: u8 = 23;

pub const CREATE_SYNC_OBJECTS: u8 = 24;

/// The last position of the script.
pub const LAST: u8 = CREATE_SYNC_OBJECTS;

} // verus!
