//! The numbers Vulkan assigns to the few enumerants the renderer's rules
//! mention, and the calls that fetch them from `ash`.

use vstd::prelude::*;

verus! {

/// `VK_FORMAT_R8G8B8A8_UNORM`.
pub const FORMAT_R8G8B8A8_UNORM: i32 = 37;

/// `VK_FORMAT_B8G8R8A8_UNORM`.
pub const FORMAT_B8G8R8A8_UNORM: i32 = 44;

/// `VK_PRESENT_MODE_FIFO_KHR`.
pub const PRESENT_MODE_FIFO: i32 = 2;

/// `VK_SUBOPTIMAL_KHR`.
pub const SUBOPTIMAL: i32 = 1_000_001_003;

/// `VK_ERROR_OUT_OF_DATE_KHR`.
pub const ERROR_OUT_OF_DATE: i32 = -1_000_001_004;

/// `VK_PIPELINE_STAGE_COLOR_ATTACHMENT_OUTPUT_BIT`.
pub const STAGE_COLOR_ATTACHMENT_OUTPUT: u32 = 0x400;

/// `VK_FENCE_CREATE_SIGNALED_BIT`.
pub const FENCE_SIGNALED: u32 = 1;

/// The width a surface reports when it leaves the extent to the swapchain.
pub const UNDEFINED_EXTENT: u32 = 0xFFFF_FFFF;

/// The timeout that never runs out.
pub const NO_TIMEOUT: u64 = 0xFFFF_FFFF_FFFF_FFFF;

/// Trusted: `ash::vk::Format::R8G8B8A8_UNORM.as_raw()`. `as_raw` returns the
/// wrapped integer, and `ash` defines the constant as `Self(37)`.
#[verifier::external_body]
pub(crate) fn format_r8g8b8a8_unorm() -> (raw: i32)
    ensures
        raw == FORMAT_R8G8B8A8_UNORM,
{
    ash::vk::Format::R8G8B8A8_UNORM.as_raw()
}

/// Trusted: `ash::vk::Format::B8G8R8A8_UNORM.as_raw()`. `as_raw` returns the
/// wrapped integer, and `ash` defines the constant as `Self(44)`.
#[verifier::external_body]
pub(crate) fn format_b8g8r8a8_unorm() -> (raw: i32)
    ensures
        raw == FORMAT_B8G8R8A8_UNORM,
{
    ash::vk::Format::B8G8R8A8_UNORM.as_raw()
}

/// Trusted: `ash::vk::PresentModeKHR::FIFO.as_raw()`. `as_raw` returns the
/// wrapped integer, and `ash` defines the constant as `Self(2)`.
#[verifier::external_body]
pub(crate) fn present_mode_fifo() -> (raw: i32)
    ensures
        raw == PRESENT_MODE_FIFO,
{
    ash::vk::PresentModeKHR::FIFO.as_raw()
}

/// Trusted: `ash::vk::Result::SUBOPTIMAL_KHR.as_raw()`. `as_raw` returns the
/// wrapped integer, and `ash` defines the constant as `Self(1_000_001_003)`.
#[verifier::external_body]
pub(crate) fn result_suboptimal() -> (raw: i32)
    ensures
        raw == SUBOPTIMAL,
{
    ash::vk::Result::SUBOPTIMAL_KHR.as_raw()
}

/// Trusted: `ash::vk::Result::ERROR_OUT_OF_DATE_KHR.as_raw()`. `as_raw`
/// returns the wrapped integer, and `ash` defines the constant as
/// `Self(-1_000_001_004)`.
#[verifier::external_body]
pub(crate) fn result_error_out_of_date() -> (raw: i32)
    ensures
        raw == ERROR_OUT_OF_DATE,
{
    ash::vk::Result::ERROR_OUT_OF_DATE_KHR.as_raw()
}

/// Trusted: `ash::vk::PipelineStageFlags::COLOR_ATTACHMENT_OUTPUT.as_raw()`.
/// `as_raw` returns the wrapped flags, and `ash` defines the constant as
/// `Self(0b100_0000_0000)`.
#[verifier::external_body]
pub(crate) fn stage_color_attachment_output() -> (raw: u32)
    ensures
        raw == STAGE_COLOR_ATTACHMENT_OUTPUT,
{
    ash::vk::PipelineStageFlags::COLOR_ATTACHMENT_OUTPUT.as_raw()
}

/// Trusted: `ash::vk::FenceCreateFlags::SIGNALED.as_raw()`. `as_raw` returns
/// the wrapped flags, and `ash` defines the constant as `Self(0b1)`.
#[verifier::external_body]
pub(crate) fn fence_signaled() -> (raw: u32)
    ensures
        raw == FENCE_SIGNALED,
{
    ash::vk::FenceCreateFlags::SIGNALED.as_raw()
}

} // verus!
