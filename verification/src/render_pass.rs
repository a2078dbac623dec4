//! The render pass that every shape's pipeline is built against.
//!
//! The pass has three attachments: a multisampled colour target and a
//! multisampled depth target, both cleared at the start of each frame, and a
//! single-sample target into which the colour is resolved for presentation.
//! One subpass writes all three. The description is plain data; the caller
//! hands its content to the device.

use vstd::prelude::*;

verus! {

/// Samples per pixel of an attachment.
#[derive(Clone, Copy, Debug, PartialEq, Eq, Structural)]
pub enum SampleCount {
    One,
    Two,
    Four,
    Eight,
    Sixteen,
    ThirtyTwo,
    SixtyFour,
}

/// What happens to an attachment's content when the pass begins.
#[derive(Clone, Copy, Debug, PartialEq, Eq, Structural)]
pub enum LoadOp {
    Load,
    Clear,
    DontCare,
}

/// What happens to an attachment's content when the pass ends.
#[derive(Clone, Copy, Debug, PartialEq, Eq, Structural)]
pub enum StoreOp {
    Store,
    DontCare,
}

/// Layout of an image at some point of the pass.
#[derive(Clone, Copy, Debug, PartialEq, Eq, Structural)]
pub enum ImageLayout {
    Undefined,
    ColorAttachmentOptimal,
    DepthStencilAttachmentOptimal,
    PresentSrc,
}

/// One attachment of a render pass. `format` is the device's number for it.
#[derive(Clone, Copy, Debug, PartialEq, Eq, Structural)]
pub struct AttachmentDescription {
    pub format: i32,
    pub samples: SampleCount,
    pub load_op: LoadOp,
    pub store_op: StoreOp,
    pub stencil_load_op: LoadOp,
    pub stencil_store_op: StoreOp,
    pub initial_layout: ImageLayout,
    pub final_layout: ImageLayout,
}

/// Use of an attachment by a subpass: its position in the pass's attachment
/// list and the layout it has while the subpass runs.
#[derive(Clone, Copy, Debug, PartialEq, Eq, Structural)]
pub struct AttachmentReference {
    pub attachment: u32,
    pub layout: ImageLayout,
}

/// The single graphics subpass.
#[derive(Clone, Copy, Debug, PartialEq, Eq, Structural)]
pub struct SubpassDescription {
    pub color: AttachmentReference,
    pub depth_stencil: AttachmentReference,
    pub resolve: AttachmentReference,
}

/// Pipeline stages of a dependency.
#[derive(Clone, Copy, Debug, PartialEq, Eq, Structural)]
pub struct StageMask {
    pub color_attachment_output: bool,
    pub early_fragment_tests: bool,
}

/// Memory accesses of a dependency.
#[derive(Clone, Copy, Debug, PartialEq, Eq, Structural)]
pub struct AccessMask {
    pub color_attachment_write: bool,
    pub depth_stencil_attachment_write: bool,
}

/// One side of a dependency: a subpass of this pass, or whatever ran before it.
#[derive(Clone, Copy, Debug, PartialEq, Eq, Structural)]
pub enum SubpassRef {
    External,
    Index(u32),
}

/// An ordering between two subpasses.
#[derive(Clone, Copy, Debug, PartialEq, Eq, Structural)]
pub struct SubpassDependency {
    pub src_subpass: SubpassRef,
    pub dst_subpass: SubpassRef,
    pub src_stage_mask: StageMask,
    pub dst_stage_mask: StageMask,
    pub src_access_mask: AccessMask,
    pub dst_access_mask: AccessMask,
}

/// A render pass: its attachments in list order (colour first, then depth,
/// then the resolve target), its subpass and the dependency of that subpass
/// on what came before.
#[derive(Clone, Copy, Debug, PartialEq, Eq, Structural)]
pub struct RenderPassDescription {
    pub color: AttachmentDescription,
    pub depth: AttachmentDescription,
    pub resolve: AttachmentDescription,
    pub subpass: SubpassDescription,
    pub dependency: SubpassDependency,
}

/// Number of attachments of the pass.
pub const ATTACHMENT_COUNT: u32 = 3;

/// Position of the colour attachment in the attachment list.
pub const COLOR_ATTACHMENT: u32 = 0;

/// Position of the depth attachment in the attachment list.
pub const DEPTH_ATTACHMENT: u32 = 1;

/// Position of the resolve attachment in the attachment list.
pub const RESOLVE_ATTACHMENT: u32 = 2;

/// An attachment whose content is cleared when the pass begins, is not kept
/// when it ends, and ends in `final_layout`.
pub open spec fn cleared_attachment(
    format: i32,
    samples: SampleCount,
    final_layout: ImageLayout,
) -> AttachmentDescription {
    AttachmentDescription {
        format,
        samples,
        load_op: LoadOp::Clear,
        store_op: StoreOp::DontCare,
        stencil_load_op: LoadOp::DontCare,
        stencil_store_op: StoreOp::DontCare,
        initial_layout: ImageLayout::Undefined,
        final_layout,
    }
}

/// The single-sample attachment that is handed to presentation.
pub open spec fn present_attachment(format: i32) -> AttachmentDescription {
    AttachmentDescription {
        format,
        samples: SampleCount::One,
        load_op: LoadOp::DontCare,
        store_op: StoreOp::DontCare,
        stencil_load_op: LoadOp::DontCare,
        stencil_store_op: StoreOp::DontCare,
        initial_layout: ImageLayout::Undefined,
        final_layout: ImageLayout::PresentSrc,
    }
}

/// The stages in which colour and depth are written.
pub open spec fn attachment_stages() -> StageMask {
    StageMask { color_attachment_output: true, early_fragment_tests: true }
}

/// The render pass for a swapchain of format `image_format`, a depth buffer of
/// format `depth_format` and `samples` samples per pixel.
pub open spec fn render_pass_description(
    image_format: i32,
    depth_format: i32,
    samples: SampleCount,
) -> RenderPassDescription {
    RenderPassDescription {
        color: cleared_attachment(image_format, samples, ImageLayout::ColorAttachmentOptimal),
        depth: cleared_attachment(
            depth_format,
            samples,
            ImageLayout::DepthStencilAttachmentOptimal,
        ),
        resolve: present_attachment(image_format),
        subpass: SubpassDescription {
            color: AttachmentReference {
                attachment: COLOR_ATTACHMENT,
                layout: ImageLayout::ColorAttachmentOptimal,
            },
            depth_stencil: AttachmentReference {
                attachment: DEPTH_ATTACHMENT,
                layout: ImageLayout::DepthStencilAttachmentOptimal,
            },
            resolve: AttachmentReference {
                attachment: RESOLVE_ATTACHMENT,
                layout: ImageLayout::ColorAttachmentOptimal,
            },
        },
        dependency: SubpassDependency {
            src_subpass: SubpassRef::External,
            dst_subpass: SubpassRef::Index(0),
            src_stage_mask: attachment_stages(),
            dst_stage_mask: attachment_stages(),
            src_access_mask: AccessMask {
                color_attachment_write: false,
                depth_stencil_attachment_write: false,
            },
            dst_access_mask: AccessMask {
                color_attachment_write: true,
                depth_stencil_attachment_write: true,
            },
        },
    }
}

impl RenderPassDescription {
    /// The attachment at position `i` of the attachment list.
    pub open spec fn attachment(self, i: int) -> AttachmentDescription {
        if i == COLOR_ATTACHMENT {
            self.color
        } else if i == DEPTH_ATTACHMENT {
            self.depth
        } else {
            self.resolve
        }
    }

    /// What a device needs of a pass with a multisample resolve: every
    /// reference names an attachment of the list, colour and depth have the
    /// same number of samples, the resolve target has one, and a dependency
    /// never runs from a later subpass to an earlier one.
    pub open spec fn coherent(self) -> bool {
        &&& self.subpass.color.attachment < ATTACHMENT_COUNT
        &&& self.subpass.depth_stencil.attachment < ATTACHMENT_COUNT
        &&& self.subpass.resolve.attachment < ATTACHMENT_COUNT
        &&& self.subpass.color.attachment != self.subpass.resolve.attachment
        &&& self.subpass.color.attachment != self.subpass.depth_stencil.attachment
        &&& self.subpass.depth_stencil.attachment != self.subpass.resolve.attachment
        &&& self.attachment(self.subpass.color.attachment as int).samples == self.attachment(
            self.subpass.depth_stencil.attachment as int,
        ).samples
        &&& self.attachment(self.subpass.resolve.attachment as int).samples == SampleCount::One
        &&& self.attachment(self.subpass.color.attachment as int).format == self.attachment(
            self.subpass.resolve.attachment as int,
        ).format
        &&& self.dependency.dst_subpass == SubpassRef::Index(0)
        &&& self.dependency.src_subpass == SubpassRef::External
    }
}

/// Describes the render pass for a swapchain of format `image_format`, a depth
/// buffer of format `depth_format` and `samples` samples per pixel.
///
/// Colour and depth are cleared at the start of each frame. The subpass waits,
/// before it writes colour or depth, for the colour-output and early-fragment
/// stages of whatever was submitted before, so that a frame never writes an
/// attachment that the previous frame is still using.
pub fn create_render_pass(image_format: i32, depth_format: i32, samples: SampleCount) -> (r:
    RenderPassDescription)
    ensures
        r == render_pass_description(image_format, depth_format, samples),
        r.coherent(),
{
    let stages = StageMask { color_attachment_output: true, early_fragment_tests: true };
    RenderPassDescription {
        color: AttachmentDescription {
            format: image_format,
            samples,
            load_op: LoadOp::Clear,
            store_op: StoreOp::DontCare,
            stencil_load_op: LoadOp::DontCare,
            stencil_store_op: StoreOp::DontCare,
            initial_layout: ImageLayout::Undefined,
            final_layout: ImageLayout::ColorAttachmentOptimal,
        },
        depth: AttachmentDescription {
            format: depth_format,
            samples,
            load_op: LoadOp::Clear,
            store_op: StoreOp::DontCare,
            stencil_load_op: LoadOp::DontCare,
            stencil_store_op: StoreOp::DontCare,
            initial_layout: ImageLayout::Undefined,
            final_layout: ImageLayout::DepthStencilAttachmentOptimal,
        },
        resolve: AttachmentDescription {
            format: image_format,
            samples: SampleCount::One,
            load_op: LoadOp::DontCare,
            store_op: StoreOp::DontCare,
            stencil_load_op: LoadOp::DontCare,
            stencil_store_op: StoreOp::DontCare,
            initial_layout: ImageLayout::Undefined,
            final_layout: ImageLayout::PresentSrc,
        },
        subpass: SubpassDescription {
            color: AttachmentReference {
                attachment: COLOR_ATTACHMENT,
                layout: ImageLayout::ColorAttachmentOptimal,
            },
            depth_stencil: AttachmentReference {
                attachment: DEPTH_ATTACHMENT,
                layout: ImageLayout::DepthStencilAttachmentOptimal,
            },
            resolve: AttachmentReference {
                attachment: RESOLVE_ATTACHMENT,
                layout: ImageLayout::ColorAttachmentOptimal,
            },
        },
        dependency: SubpassDependency {
            src_subpass: SubpassRef::External,
            dst_subpass: SubpassRef::Index(0),
            src_stage_mask: stages,
            dst_stage_mask: stages,
            src_access_mask: AccessMask {
                color_attachment_write: false,
                depth_stencil_attachment_write: false,
            },
            dst_access_mask: AccessMask {
                color_attachment_write: true,
                depth_stencil_attachment_write: true,
            },
        },
    }
}

} // verus!
