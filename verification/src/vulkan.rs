//! Numbers that the Vulkan headers fix and that the selection rules of this
//! library depend on. The executable takes each from the `ash` bindings; the
//! contracts pin the value, so that proofs can speak of it.

use vstd::prelude::*;

verus! {

/// `VK_FORMAT_R8G8B8A8_SRGB`: four 8-bit channels, sRGB encoded.
pub const FORMAT_R8G8B8A8_SRGB: i32 = 43;

/// `VK_COLOR_SPACE_EXTENDED_SRGB_NONLINEAR_EXT`.
pub const COLOR_SPACE_EXTENDED_SRGB_NONLINEAR: i32 = 1_000_104_014;

/// `VK_PRESENT_MODE_MAILBOX_KHR`: the newest finished image replaces the one
/// that waits, without tearing.
pub const PRESENT_MODE_MAILBOX: i32 = 1;

/// `VK_PRESENT_MODE_FIFO_KHR`: images queue up for the vertical blank. Every
/// device that can present offers it.
pub const PRESENT_MODE_FIFO: i32 = 2;

/// The number of `ash::vk::Format::R8G8B8A8_SRGB`, read with `as_raw`.
/// Trusted: that `ash` defines the constant as 43.
#[verifier::external_body]
pub(crate) fn format_r8g8b8a8_srgb() -> (r: i32)
    ensures
        r == FORMAT_R8G8B8A8_SRGB,
{
    ash::vk::Format::R8G8B8A8_SRGB.as_raw()
}

/// The number of `ash::vk::ColorSpaceKHR::EXTENDED_SRGB_NONLINEAR_EXT`, read
/// with `as_raw`. Trusted: that `ash` defines the constant as 1000104014.
#[verifier::external_body]
pub(crate) fn color_space_extended_srgb_nonlinear() -> (r: i32)
    ensures
        r == COLOR_SPACE_EXTENDED_SRGB_NONLINEAR,
{
    ash::vk::ColorSpaceKHR::EXTENDED_SRGB_NONLINEAR_EXT.as_raw()
}

/// The number of `ash::vk::PresentModeKHR::MAILBOX`, read with `as_raw`.
/// Trusted: that `ash` defines the constant as 1.
#[verifier::external_body]
pub(crate) fn present_mode_mailbox() -> (r: i32)
    ensures
        r == PRESENT_MODE_MAILBOX,
{
    ash::vk::PresentModeKHR::MAILBOX.as_raw()
}

/// The number of `ash::vk::PresentModeKHR::FIFO`, read with `as_raw`.
/// Trusted: that `ash` defines the constant as 2.
#[verifier::external_body]
pub(crate) fn present_mode_fifo() -> (r: i32)
    ensures
        r == PRESENT_MODE_FIFO,
{
    ash::vk::PresentModeKHR::FIFO.as_raw()
}

} // verus!
