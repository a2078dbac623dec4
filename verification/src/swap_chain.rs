//! Configuration of a swapchain from what a surface supports, and the
//! swapchain as the library holds it once the device has created it.

use crate::resources::Release;
use crate::vulkan::{
    color_space_extended_srgb_nonlinear, format_r8g8b8a8_srgb, present_mode_fifo,
    present_mode_mailbox, COLOR_SPACE_EXTENDED_SRGB_NONLINEAR, FORMAT_R8G8B8A8_SRGB,
    PRESENT_MODE_FIFO, PRESENT_MODE_MAILBOX,
};
use vstd::prelude::*;

verus! {

/// Width and height in pixels.
#[derive(Clone, Copy, Debug, PartialEq, Eq, Structural)]
pub struct Extent2D {
    pub width: u32,
    pub height: u32,
}

/// A pixel format with the colour space it is shown in, both as the device
/// numbers them.
#[derive(Clone, Copy, Debug, PartialEq, Eq, Structural)]
pub struct SurfaceFormat {
    pub format: i32,
    pub color_space: i32,
}

/// What a surface allows of the swapchains made for it.
///
/// A `max_image_count` of zero means that the surface sets no upper limit. A
/// `current_extent` of width `u32::MAX` means that the surface takes whatever
/// extent the swapchain is created with.
#[derive(Clone, Copy, Debug, PartialEq, Eq, Structural)]
pub struct SurfaceCapabilities {
    pub min_image_count: u32,
    pub max_image_count: u32,
    pub current_extent: Extent2D,
    pub min_image_extent: Extent2D,
    pub max_image_extent: Extent2D,
    pub current_transform: u32,
}

/// The capabilities, formats and present modes that a device reports for a
/// surface.
#[derive(Clone, Debug, PartialEq, Eq)]
pub struct SwapChainSupport {
    pub capabilities: SurfaceCapabilities,
    pub surface_formats: Vec<SurfaceFormat>,
    pub present_modes: Vec<i32>,
}

/// The queue families that draw and that present, as far as the device has
/// them.
#[derive(Clone, Copy, Debug, PartialEq, Eq, Structural)]
pub struct QueueFamilyIndices {
    pub graphics_family: Option<u32>,
    pub present_family: Option<u32>,
}

/// Who may access the swapchain images.
#[derive(Clone, Copy, Debug, PartialEq, Eq, Structural)]
pub enum SharingMode {
    /// One queue family at a time.
    Exclusive,
    /// The graphics and the present family, which differ, at the same time.
    Concurrent { graphics_family: u32, present_family: u32 },
}

/// What the swapchain images are used for.
#[derive(Clone, Copy, Debug, PartialEq, Eq, Structural)]
pub enum ImageUsage {
    ColorAttachment,
    TransientAttachment,
}

/// How the alpha channel is treated when the image is composed on screen.
#[derive(Clone, Copy, Debug, PartialEq, Eq, Structural)]
pub enum CompositeAlpha {
    Opaque,
    PreMultiplied,
    PostMultiplied,
    Inherit,
}

/// Everything the device must be told to create the swapchain.
#[derive(Clone, Copy, Debug, PartialEq, Eq, Structural)]
pub struct SwapChainPlan {
    pub min_image_count: u32,
    pub surface_format: SurfaceFormat,
    pub extent: Extent2D,
    pub image_array_layers: u32,
    pub image_usage: ImageUsage,
    pub pre_transform: u32,
    pub composite_alpha: CompositeAlpha,
    pub present_mode: i32,
    pub clipped: bool,
    pub sharing_mode: SharingMode,
}

/// Why no swapchain can be planned or held.
#[derive(Clone, Copy, Debug, PartialEq, Eq, Structural)]
pub enum SwapChainError {
    /// The surface reports no format at all.
    NoSurfaceFormat,
    /// The surface leaves the extent open but its smallest extent exceeds its
    /// largest.
    InvalidExtentBounds,
    /// One more image than the minimum cannot be counted in 32 bits.
    ImageCountOverflow,
    /// The graphics and present families differ and one of them is missing.
    MissingQueueFamily,
    /// The numbers of images and of image views differ.
    ImageViewMismatch,
}

/// Width of a `current_extent` that leaves the extent to the application.
pub const UNDEFINED_EXTENT: u32 = 0xffff_ffff;

/// The format this library asks for when the surface has it.
pub open spec fn preferred_surface_format() -> SurfaceFormat {
    SurfaceFormat {
        format: FORMAT_R8G8B8A8_SRGB,
        color_space: COLOR_SPACE_EXTENDED_SRGB_NONLINEAR,
    }
}

/// The preferred format if the surface offers it, else the first it offers.
pub open spec fn chosen_surface_format(formats: Seq<SurfaceFormat>) -> SurfaceFormat
    recommends
        formats.len() > 0,
{
    if formats.contains(preferred_surface_format()) {
        preferred_surface_format()
    } else {
        formats[0]
    }
}

/// Mailbox if the surface offers it, else FIFO.
pub open spec fn chosen_present_mode(present_modes: Seq<i32>) -> i32 {
    if present_modes.contains(PRESENT_MODE_MAILBOX) {
        PRESENT_MODE_MAILBOX
    } else {
        PRESENT_MODE_FIFO
    }
}

/// `value`, moved into `min..=max` where it lies outside.
pub open spec fn clamped(value: u32, min: u32, max: u32) -> u32
    recommends
        min <= max,
{
    if value < min {
        min
    } else if value > max {
        max
    } else {
        value
    }
}

impl SurfaceCapabilities {
    /// The surface leaves the extent to the application.
    pub open spec fn extent_is_open(self) -> bool {
        self.current_extent.width == UNDEFINED_EXTENT
    }

    /// The smallest extent does not exceed the largest in either direction.
    pub open spec fn extent_bounds_ordered(self) -> bool {
        &&& self.min_image_extent.width <= self.max_image_extent.width
        &&& self.min_image_extent.height <= self.max_image_extent.height
    }

    /// One image more than the minimum is past both the surface's limit, if
    /// it has one, and 32 bits.
    pub open spec fn image_count_overflows(self) -> bool {
        self.min_image_count == u32::MAX && self.max_image_count == 0
    }
}

/// The surface's own extent where it fixes one, else the window's size moved
/// into the bounds that the surface sets.
pub open spec fn chosen_extent(capabilities: SurfaceCapabilities, window: Extent2D) -> Extent2D {
    if !capabilities.extent_is_open() {
        capabilities.current_extent
    } else {
        Extent2D {
            width: clamped(
                window.width,
                capabilities.min_image_extent.width,
                capabilities.max_image_extent.width,
            ),
            height: clamped(
                window.height,
                capabilities.min_image_extent.height,
                capabilities.max_image_extent.height,
            ),
        }
    }
}

/// One image more than the surface's minimum, but no more than its maximum
/// where it has one.
pub open spec fn chosen_image_count(capabilities: SurfaceCapabilities) -> int {
    let wanted = capabilities.min_image_count + 1;
    if capabilities.max_image_count > 0 && wanted > capabilities.max_image_count {
        capabilities.max_image_count as int
    } else {
        wanted
    }
}

impl QueueFamilyIndices {
    /// The two families differ and one of them is missing.
    pub open spec fn incomplete(self) -> bool {
        self.graphics_family != self.present_family && (self.graphics_family is None
            || self.present_family is None)
    }
}

/// Exclusive when one family both draws and presents, else concurrent
/// between the two.
pub open spec fn chosen_sharing_mode(families: QueueFamilyIndices) -> SharingMode
    recommends
        !families.incomplete(),
{
    if families.graphics_family != families.present_family {
        SharingMode::Concurrent {
            graphics_family: families.graphics_family->0,
            present_family: families.present_family->0,
        }
    } else {
        SharingMode::Exclusive
    }
}

/// The first reason, if any, for which no swapchain can be planned.
pub open spec fn plan_error(
    formats: Seq<SurfaceFormat>,
    capabilities: SurfaceCapabilities,
    families: QueueFamilyIndices,
) -> Option<SwapChainError> {
    if formats.len() == 0 {
        Some(SwapChainError::NoSurfaceFormat)
    } else if capabilities.extent_is_open() && !capabilities.extent_bounds_ordered() {
        Some(SwapChainError::InvalidExtentBounds)
    } else if capabilities.image_count_overflows() {
        Some(SwapChainError::ImageCountOverflow)
    } else if families.incomplete() {
        Some(SwapChainError::MissingQueueFamily)
    } else {
        None
    }
}

/// The swapchain to create for a surface with the given support, a window of
/// size `window` and the given queue families.
pub open spec fn planned_swap_chain(
    formats: Seq<SurfaceFormat>,
    present_modes: Seq<i32>,
    capabilities: SurfaceCapabilities,
    window: Extent2D,
    families: QueueFamilyIndices,
) -> SwapChainPlan {
    SwapChainPlan {
        min_image_count: chosen_image_count(capabilities) as u32,
        surface_format: chosen_surface_format(formats),
        extent: chosen_extent(capabilities, window),
        image_array_layers: 1,
        image_usage: ImageUsage::TransientAttachment,
        pre_transform: capabilities.current_transform,
        composite_alpha: CompositeAlpha::Opaque,
        present_mode: chosen_present_mode(present_modes),
        clipped: true,
        sharing_mode: chosen_sharing_mode(families),
    }
}

/// Picks the surface format: four 8-bit sRGB channels in the extended
/// non-linear sRGB colour space where the surface offers that, else the first
/// format in the surface's list.
pub fn choose_swap_surface_format(formats: &[SurfaceFormat]) -> (r: SurfaceFormat)
    requires
        formats@.len() > 0,
    ensures
        r == chosen_surface_format(formats@),
{
    let format: i32 = format_r8g8b8a8_srgb();
    let color_space: i32 = color_space_extended_srgb_nonlinear();
    let mut i: usize = 0;
    while i < formats.len()
        invariant
            i <= formats@.len(),
            format == FORMAT_R8G8B8A8_SRGB,
            color_space == COLOR_SPACE_EXTENDED_SRGB_NONLINEAR,
            forall|k: int| 0 <= k < i ==> formats@[k] != preferred_surface_format(),
        decreases formats@.len() - i,
    {
        if formats[i].format == format && formats[i].color_space == color_space {
            assert(formats@[i as int] == preferred_surface_format());
            return formats[i];
        }
        i += 1;
    }
    formats[0]
}

/// Picks the present mode: mailbox where the surface offers it, else FIFO.
pub fn choose_present_mode(present_modes: &[i32]) -> (r: i32)
    ensures
        r == chosen_present_mode(present_modes@),
{
    let mailbox: i32 = present_mode_mailbox();
    let mut i: usize = 0;
    while i < present_modes.len()
        invariant
            i <= present_modes@.len(),
            mailbox == PRESENT_MODE_MAILBOX,
            forall|k: int| 0 <= k < i ==> present_modes@[k] != PRESENT_MODE_MAILBOX,
        decreases present_modes@.len() - i,
    {
        if present_modes[i] == mailbox {
            assert(present_modes@[i as int] == PRESENT_MODE_MAILBOX);
            return mailbox;
        }
        i += 1;
    }
    present_mode_fifo()
}

/// Moves `value` into `min..=max`.
pub fn clamp(value: u32, min: u32, max: u32) -> (r: u32)
    requires
        min <= max,
    ensures
        r == clamped(value, min, max),
        min <= r <= max,
{
    if value < min {
        min
    } else if value > max {
        max
    } else {
        value
    }
}

/// Picks the extent of the swapchain images: the surface's current extent
/// where it fixes one, else the window's size, each direction moved into the
/// surface's bounds.
pub fn choose_swap_extent(capabilities: &SurfaceCapabilities, window: Extent2D) -> (r: Extent2D)
    requires
        capabilities.extent_is_open() ==> capabilities.extent_bounds_ordered(),
    ensures
        r == chosen_extent(*capabilities, window),
{
    if capabilities.current_extent.width != UNDEFINED_EXTENT {
        capabilities.current_extent
    } else {
        Extent2D {
            width: clamp(
                window.width,
                capabilities.min_image_extent.width,
                capabilities.max_image_extent.width,
            ),
            height: clamp(
                window.height,
                capabilities.min_image_extent.height,
                capabilities.max_image_extent.height,
            ),
        }
    }
}

/// Picks the number of images to ask for: one more than the surface's
/// minimum, so that the application never waits for the driver to hand one
/// back, but no more than the surface's maximum where it has one.
pub fn choose_image_count(capabilities: &SurfaceCapabilities) -> (r: u32)
    requires
        !capabilities.image_count_overflows(),
    ensures
        r == chosen_image_count(*capabilities),
{
    if capabilities.max_image_count > 0 && capabilities.min_image_count
        >= capabilities.max_image_count {
        capabilities.max_image_count
    } else {
        capabilities.min_image_count + 1
    }
}

/// Picks the sharing mode of the images.
pub fn choose_sharing_mode(families: &QueueFamilyIndices) -> (r: SharingMode)
    requires
        !families.incomplete(),
    ensures
        r == chosen_sharing_mode(*families),
{
    match (families.graphics_family, families.present_family) {
        (Some(graphics_family), Some(present_family)) => {
            if graphics_family != present_family {
                SharingMode::Concurrent { graphics_family, present_family }
            } else {
                SharingMode::Exclusive
            }
        },
        _ => SharingMode::Exclusive,
    }
}

/// Plans the swapchain for a surface: format, present mode, extent, number of
/// images and sharing mode are chosen as the functions above say; the images
/// have one layer, are used as transient attachments, keep the surface's
/// current transform, are composed opaque, and pixels that are hidden may be
/// skipped.
///
/// Fails, without choosing anything, for the first of these reasons that
/// holds: the surface reports no format; it leaves the extent open with
/// bounds that cannot be met; the image count cannot be represented; a queue
/// family is missing.
pub fn plan_swap_chain(
    support: &SwapChainSupport,
    window: Extent2D,
    families: &QueueFamilyIndices,
) -> (r: Result<SwapChainPlan, SwapChainError>)
    ensures
        match plan_error(support.surface_formats@, support.capabilities, *families) {
            Some(e) => r == Err::<SwapChainPlan, SwapChainError>(e),
            None => r == Ok::<SwapChainPlan, SwapChainError>(
                planned_swap_chain(
                    support.surface_formats@,
                    support.present_modes@,
                    support.capabilities,
                    window,
                    *families,
                ),
            ),
        },
{
    let capabilities = &support.capabilities;
    if support.surface_formats.len() == 0 {
        return Err(SwapChainError::NoSurfaceFormat);
    }
    if capabilities.current_extent.width == UNDEFINED_EXTENT && (
    capabilities.min_image_extent.width > capabilities.max_image_extent.width
        || capabilities.min_image_extent.height > capabilities.max_image_extent.height) {
        return Err(SwapChainError::InvalidExtentBounds);
    }
    if capabilities.min_image_count == u32::MAX && capabilities.max_image_count == 0 {
        return Err(SwapChainError::ImageCountOverflow);
    }
    let families_differ = match (families.graphics_family, families.present_family) {
        (Some(g), Some(p)) => g != p,
        (None, None) => false,
        _ => true,
    };
    if families_differ && (families.graphics_family.is_none()
        || families.present_family.is_none()) {
        return Err(SwapChainError::MissingQueueFamily);
    }
    let surface_format = choose_swap_surface_format(support.surface_formats.as_slice());
    let present_mode: i32 = choose_present_mode(support.present_modes.as_slice());
    let extent = choose_swap_extent(capabilities, window);
    let min_image_count: u32 = choose_image_count(capabilities);
    let sharing_mode = choose_sharing_mode(families);
    Ok(
        SwapChainPlan {
            min_image_count,
            surface_format,
            extent,
            image_array_layers: 1,
            image_usage: ImageUsage::TransientAttachment,
            pre_transform: capabilities.current_transform,
            composite_alpha: CompositeAlpha::Opaque,
            present_mode,
            clipped: true,
            sharing_mode,
        },
    )
}

/// Dimensionality of an image view.
#[derive(Clone, Copy, Debug, PartialEq, Eq, Structural)]
pub enum ImageViewType {
    OneD,
    TwoD,
    ThreeD,
    Cube,
}

/// Where a channel of an image view takes its value from.
#[derive(Clone, Copy, Debug, PartialEq, Eq, Structural)]
pub enum ComponentSwizzle {
    Identity,
    Zero,
    One,
    R,
    G,
    B,
    A,
}

/// The part of an image that a view shows.
#[derive(Clone, Copy, Debug, PartialEq, Eq, Structural)]
pub enum ImageAspect {
    Color,
    Depth,
    Stencil,
}

/// A view to create of one image.
#[derive(Clone, Copy, Debug, PartialEq, Eq, Structural)]
pub struct ImageViewRequest {
    pub image: u64,
    pub view_type: ImageViewType,
    pub format: i32,
    pub r: ComponentSwizzle,
    pub g: ComponentSwizzle,
    pub b: ComponentSwizzle,
    pub a: ComponentSwizzle,
    pub aspect: ImageAspect,
    pub base_mip_level: u32,
    pub level_count: u32,
    pub base_array_layer: u32,
    pub layer_count: u32,
}

/// The view through which a swapchain image is rendered to: two-dimensional,
/// in the image's own format, every channel in its place, showing the colour
/// of the first `mip_levels` levels of the only layer.
pub open spec fn color_view_of(image: u64, format: i32, mip_levels: u32) -> ImageViewRequest {
    ImageViewRequest {
        image,
        view_type: ImageViewType::TwoD,
        format,
        r: ComponentSwizzle::Identity,
        g: ComponentSwizzle::Identity,
        b: ComponentSwizzle::Identity,
        a: ComponentSwizzle::Identity,
        aspect: ImageAspect::Color,
        base_mip_level: 0,
        level_count: mip_levels,
        base_array_layer: 0,
        layer_count: 1,
    }
}

/// Lists the views to create of the swapchain images: one per image, in the
/// order of the images.
pub fn create_image_views(images: &[u64], surface_format: &SurfaceFormat, mip_levels: u32) -> (r:
    Vec<ImageViewRequest>)
    ensures
        r@.len() == images@.len(),
        forall|i: int|
            0 <= i < images@.len() ==> r@[i] == color_view_of(
                images@[i],
                surface_format.format,
                mip_levels,
            ),
{
    let mut requests: Vec<ImageViewRequest> = Vec::new();
    let mut i: usize = 0;
    while i < images.len()
        invariant
            i <= images@.len(),
            requests@.len() == i,
            forall|k: int|
                0 <= k < i ==> requests@[k] == color_view_of(
                    images@[k],
                    surface_format.format,
                    mip_levels,
                ),
        decreases images@.len() - i,
    {
        requests.push(
            ImageViewRequest {
                image: images[i],
                view_type: ImageViewType::TwoD,
                format: surface_format.format,
                r: ComponentSwizzle::Identity,
                g: ComponentSwizzle::Identity,
                b: ComponentSwizzle::Identity,
                a: ComponentSwizzle::Identity,
                aspect: ImageAspect::Color,
                base_mip_level: 0,
                level_count: mip_levels,
                base_array_layer: 0,
                layer_count: 1,
            },
        );
        i += 1;
    }
    requests
}

/// A swapchain that the device has created: its handle, the format and
/// extent of its images, the images and one view of each.
#[derive(Debug, PartialEq, Eq)]
pub struct SwapChain {
    swap_chain: u64,
    image_format: i32,
    extent: Extent2D,
    images: Vec<u64>,
    image_views: Vec<u64>,
}

/// Mathematical content of a [`SwapChain`].
pub struct SwapChainView {
    pub swap_chain: u64,
    pub image_format: i32,
    pub extent: Extent2D,
    pub images: Seq<u64>,
    pub image_views: Seq<u64>,
}

impl View for SwapChain {
    type V = SwapChainView;

    closed spec fn view(&self) -> SwapChainView {
        SwapChainView {
            swap_chain: self.swap_chain,
            image_format: self.image_format,
            extent: self.extent,
            images: self.images@,
            image_views: self.image_views@,
        }
    }
}

impl SwapChainView {
    /// Every image has its view, and the images can be counted in 32 bits.
    pub open spec fn well_formed(self) -> bool {
        self.images.len() == self.image_views.len() && self.images.len() <= u32::MAX
    }

    /// What is given back when the swapchain goes: every view, in order, then
    /// the swapchain itself. The images belong to the swapchain and go with it.
    pub open spec fn releases(self) -> Seq<Release> {
        Seq::new(self.image_views.len(), |i: int| Release::ImageView(self.image_views[i])).push(
            Release::Swapchain(self.swap_chain),
        )
    }
}

impl SwapChain {
    /// Holds together what the device returned for `plan`: the swapchain, its
    /// images and the views made of them. Fails where the views do not match
    /// the images one to one, or there are more than 32 bits can count.
    pub fn new(plan: &SwapChainPlan, swap_chain: u64, images: Vec<u64>, image_views: Vec<u64>) -> (r:
        Result<SwapChain, SwapChainError>)
        ensures
            r is Ok <==> images@.len() == image_views@.len() && images@.len() <= u32::MAX,
            r matches Ok(s) ==> s@ == (SwapChainView {
                swap_chain,
                image_format: plan.surface_format.format,
                extent: plan.extent,
                images: images@,
                image_views: image_views@,
            }) && s@.well_formed(),
            r matches Err(e) ==> e == SwapChainError::ImageViewMismatch,
    {
        if images.len() != image_views.len() || images.len() > 0xffff_ffff {
            return Err(SwapChainError::ImageViewMismatch);
        }
        Ok(
            SwapChain {
                swap_chain,
                image_format: plan.surface_format.format,
                extent: plan.extent,
                images,
                image_views,
            },
        )
    }

    /// The handle of the swapchain.
    pub fn handle(&self) -> (r: u64)
        ensures
            r == self@.swap_chain,
    {
        self.swap_chain
    }

    /// The format of the images.
    pub fn image_format(&self) -> (r: i32)
        ensures
            r == self@.image_format,
    {
        self.image_format
    }

    /// The extent of the images.
    pub fn extent(&self) -> (r: Extent2D)
        ensures
            r == self@.extent,
    {
        self.extent
    }

    /// The images.
    pub fn images(&self) -> (r: &Vec<u64>)
        ensures
            r@ == self@.images,
    {
        &self.images
    }

    /// The views of the images, in the order of the images.
    pub fn image_views(&self) -> (r: &Vec<u64>)
        ensures
            r@ == self@.image_views,
    {
        &self.image_views
    }

    /// Number of images.
    pub fn image_count(&self) -> (r: usize)
        ensures
            r == self@.images.len(),
    {
        self.images.len()
    }

    /// Appends to `out` what is given back when the swapchain goes.
    pub fn push_releases(&self, out: &mut Vec<Release>)
        ensures
            final(out)@ == old(out)@ + self@.releases(),
    {
        let ghost head = out@;
        let mut i: usize = 0;
        while i < self.image_views.len()
            invariant
                i <= self.image_views@.len(),
                out@ == head + Seq::new(
                    i as nat,
                    |k: int| Release::ImageView(self.image_views@[k]),
                ),
            decreases self.image_views@.len() - i,
        {
            out.push(Release::ImageView(self.image_views[i]));
            assert(out@ =~= head + Seq::new(
                (i + 1) as nat,
                |k: int| Release::ImageView(self.image_views@[k]),
            ));
            i += 1;
        }
        out.push(Release::Swapchain(self.swap_chain));
        assert(out@ =~= head + self@.releases());
    }
}

} // verus!
