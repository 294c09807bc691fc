//! The scripts a renderer follows: for each phase of its life the commands
//! it hands out, by position.

pub mod construct;
pub mod frame;
pub mod recreate;
pub mod teardown;
