//! The framebuffers of a swapchain: one per image, each tying the colour and
//! depth targets of the frame to the view of that image.

use crate::resources::Release;
use crate::swap_chain::{Extent2D, SwapChain};
use vstd::prelude::*;

verus! {

/// A framebuffer to create. The attachments are in the order of the render
/// pass: colour, depth, then the swapchain image that the colour is resolved
/// into.
#[derive(Clone, Copy, Debug, PartialEq, Eq, Structural)]
pub struct FramebufferRequest {
    pub render_pass: u64,
    pub colour_view: u64,
    pub depth_view: u64,
    pub image_view: u64,
    pub width: u32,
    pub height: u32,
    pub layers: u32,
}

/// The framebuffers that the device created, in the order of the swapchain
/// images.
#[derive(Debug, PartialEq, Eq)]
pub struct FrameBuffers(pub Vec<u64>);

impl View for FrameBuffers {
    type V = Seq<u64>;

    open spec fn view(&self) -> Seq<u64> {
        self.0@
    }
}

/// The framebuffer of the swapchain image with view `image_view`.
pub open spec fn frame_buffer_for(
    render_pass: u64,
    colour_view: u64,
    depth_view: u64,
    image_view: u64,
    extent: Extent2D,
) -> FramebufferRequest {
    FramebufferRequest {
        render_pass,
        colour_view,
        depth_view,
        image_view,
        width: extent.width,
        height: extent.height,
        layers: 1,
    }
}

/// What is given back when the framebuffers go: each of them, in order.
pub open spec fn frame_buffers_releases(frame_buffers: Seq<u64>) -> Seq<Release> {
    Seq::new(frame_buffers.len(), |i: int| Release::Framebuffer(frame_buffers[i]))
}

/// Lists the framebuffers to create for a swapchain: one per image, in the
/// order of the images, as large as the images, one layer deep.
pub fn create_frame_buffers(
    swap_chain: &SwapChain,
    render_pass: u64,
    colour_view: u64,
    depth_view: u64,
) -> (r: Vec<FramebufferRequest>)
    requires
        swap_chain@.well_formed(),
    ensures
        r@.len() == swap_chain@.images.len(),
        forall|i: int|
            0 <= i < r@.len() ==> r@[i] == frame_buffer_for(
                render_pass,
                colour_view,
                depth_view,
                swap_chain@.image_views[i],
                swap_chain@.extent,
            ),
{
    let image_views = swap_chain.image_views();
    let extent = swap_chain.extent();
    let mut requests: Vec<FramebufferRequest> = Vec::new();
    let mut i: usize = 0;
    while i < image_views.len()
        invariant
            swap_chain@.well_formed(),
            image_views@ == swap_chain@.image_views,
            extent == swap_chain@.extent,
            i <= swap_chain@.images.len(),
            requests@.len() == i,
            forall|k: int|
                0 <= k < i ==> requests@[k] == frame_buffer_for(
                    render_pass,
                    colour_view,
                    depth_view,
                    swap_chain@.image_views[k],
                    swap_chain@.extent,
                ),
        decreases swap_chain@.images.len() - i,
    {
        requests.push(
            FramebufferRequest {
                render_pass,
                colour_view,
                depth_view,
                image_view: image_views[i],
                width: extent.width,
                height: extent.height,
                layers: 1,
            },
        );
        i += 1;
    }
    requests
}

impl FrameBuffers {
    /// Wraps the framebuffers that the device created.
    pub fn new(frame_buffers: Vec<u64>) -> (r: FrameBuffers)
        ensures
            r@ == frame_buffers@,
    {
        FrameBuffers(frame_buffers)
    }

    /// Appends to `out` what is given back when the framebuffers go.
    pub fn push_releases(&self, out: &mut Vec<Release>)
        ensures
            final(out)@ == old(out)@ + frame_buffers_releases(self@),
    {
        let ghost head = out@;
        let mut i: usize = 0;
        while i < self.0.len()
            invariant
                i <= self@.len(),
                out@ == head + frame_buffers_releases(self@.take(i as int)),
            decreases self@.len() - i,
        {
            out.push(Release::Framebuffer(self.0[i]));
            assert(out@ =~= head + frame_buffers_releases(self@.take(i + 1)));
            i += 1;
        }
        assert(self@.take(i as int) =~= self@);
    }
}

} // verus!
