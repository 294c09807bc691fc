//! Frame lifecycle of a swapchain-backed renderer.
//!
//! The crate decides; the host performs. Every device operation a renderer
//! needs is a [`command::Command`]; the host carries it out on the GPU and
//! reports back, and [`renderer::Renderer`] answers with the next command.
//!
//! - [`surface`] chooses format, extent and image count of a swapchain.
//! - [`shader`] decodes shader binaries into words.
//! - [`rotation`] turns elapsed time into an angle.
//! - [`command`] is the vocabulary between renderer and host, [`script`]
//!   the order of the commands in each phase of a renderer's life, and
//!   [`ownership`] what each command does to what the renderer owns.
//! - [`model`] is the renderer as a state machine over plain values;
//!   [`laws`] and [`protocol`] are what is proved of it.
//! - [`renderer`] is the executable renderer, held to the model.
//! - [`host`] decides what the application shell does with each signal of
//!   the event loop.
//! - [`vulkan`] holds the few numbers of Vulkan the rules mention.

pub mod command;
pub mod host;
pub mod laws;
pub mod model;
pub mod ownership;
pub mod protocol;
pub mod renderer;
pub mod rotation;
pub mod script;
pub mod shader;
pub mod surface;
pub mod vulkan;
