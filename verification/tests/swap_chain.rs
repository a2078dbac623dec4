use lambda_engine::render_pass::{
    create_render_pass, AccessMask, AttachmentDescription, AttachmentReference, ImageLayout,
    LoadOp, SampleCount, StageMask, StoreOp, SubpassRef, ATTACHMENT_COUNT, COLOR_ATTACHMENT,
    DEPTH_ATTACHMENT, RESOLVE_ATTACHMENT,
};
use lambda_engine::resources::Release;
use lambda_engine::swap_chain::{
    choose_image_count, choose_present_mode, choose_sharing_mode, choose_swap_extent,
    choose_swap_surface_format, clamp, create_image_views, plan_swap_chain, ComponentSwizzle,
    CompositeAlpha, Extent2D, ImageAspect, ImageUsage, ImageViewRequest, ImageViewType,
    QueueFamilyIndices, SharingMode, SurfaceCapabilities, SurfaceFormat, SwapChain,
    SwapChainError, SwapChainPlan, SwapChainSupport, UNDEFINED_EXTENT,
};
use lambda_engine::vulkan::{
    COLOR_SPACE_EXTENDED_SRGB_NONLINEAR, FORMAT_R8G8B8A8_SRGB, PRESENT_MODE_FIFO,
    PRESENT_MODE_MAILBOX,
};

const PREFERRED: SurfaceFormat =
    SurfaceFormat { format: FORMAT_R8G8B8A8_SRGB, color_space: COLOR_SPACE_EXTENDED_SRGB_NONLINEAR };
const BGRA: SurfaceFormat = SurfaceFormat { format: 50, color_space: 0 };
const RGBA_PLAIN: SurfaceFormat = SurfaceFormat { format: FORMAT_R8G8B8A8_SRGB, color_space: 0 };

fn capabilities(min: u32, max: u32, current: Extent2D) -> SurfaceCapabilities {
    SurfaceCapabilities {
        min_image_count: min,
        max_image_count: max,
        current_extent: current,
        min_image_extent: Extent2D { width: 100, height: 50 },
        max_image_extent: Extent2D { width: 4000, height: 2000 },
        current_transform: 1,
    }
}

const OPEN: Extent2D = Extent2D { width: u32::MAX, height: u32::MAX };
const SAME: QueueFamilyIndices =
    QueueFamilyIndices { graphics_family: Some(0), present_family: Some(0) };

#[test]
fn the_numbers_are_those_of_the_bindings() {
    assert_eq!(FORMAT_R8G8B8A8_SRGB, ash::vk::Format::R8G8B8A8_SRGB.as_raw());
    assert_eq!(
        COLOR_SPACE_EXTENDED_SRGB_NONLINEAR,
        ash::vk::ColorSpaceKHR::EXTENDED_SRGB_NONLINEAR_EXT.as_raw()
    );
    assert_eq!(PRESENT_MODE_MAILBOX, ash::vk::PresentModeKHR::MAILBOX.as_raw());
    assert_eq!(PRESENT_MODE_FIFO, ash::vk::PresentModeKHR::FIFO.as_raw());
    assert_eq!(UNDEFINED_EXTENT, u32::MAX);
}

#[test]
fn the_preferred_format_is_chosen_wherever_it_stands() {
    assert_eq!(choose_swap_surface_format(&[PREFERRED]), PREFERRED);
    assert_eq!(choose_swap_surface_format(&[BGRA, RGBA_PLAIN, PREFERRED]), PREFERRED);
    assert_eq!(choose_swap_surface_format(&[BGRA, PREFERRED, RGBA_PLAIN]), PREFERRED);
}

#[test]
fn without_the_preferred_format_the_first_is_chosen() {
    assert_eq!(choose_swap_surface_format(&[BGRA, RGBA_PLAIN]), BGRA);
    assert_eq!(choose_swap_surface_format(&[RGBA_PLAIN, BGRA]), RGBA_PLAIN);
    let other_space =
        SurfaceFormat { format: 44, color_space: COLOR_SPACE_EXTENDED_SRGB_NONLINEAR };
    assert_eq!(choose_swap_surface_format(&[other_space, BGRA]), other_space);
}

#[test]
fn mailbox_is_chosen_where_offered_and_fifo_otherwise() {
    assert_eq!(choose_present_mode(&[0, 1, 2]), PRESENT_MODE_MAILBOX);
    assert_eq!(choose_present_mode(&[2, 1]), 1);
    assert_eq!(choose_present_mode(&[0, 2, 3]), PRESENT_MODE_FIFO);
    assert_eq!(choose_present_mode(&[]), 2);
    assert_eq!(choose_present_mode(&[0, 3]), 2);
}

#[test]
fn a_fixed_extent_is_taken_as_it_is() {
    let fixed = Extent2D { width: 1280, height: 720 };
    let caps = capabilities(2, 0, fixed);
    assert_eq!(choose_swap_extent(&caps, Extent2D { width: 10, height: 10 }), fixed);
    let odd = Extent2D { width: 5, height: u32::MAX };
    assert_eq!(choose_swap_extent(&capabilities(2, 0, odd), fixed), odd);
}

#[test]
fn an_open_extent_is_the_window_within_the_bounds() {
    let caps = capabilities(2, 0, OPEN);
    assert_eq!(
        choose_swap_extent(&caps, Extent2D { width: 800, height: 600 }),
        Extent2D { width: 800, height: 600 }
    );
    assert_eq!(
        choose_swap_extent(&caps, Extent2D { width: 10, height: 3000 }),
        Extent2D { width: 100, height: 2000 }
    );
    assert_eq!(
        choose_swap_extent(&caps, Extent2D { width: 5000, height: 0 }),
        Extent2D { width: 4000, height: 50 }
    );
    let open_width_only = Extent2D { width: u32::MAX, height: 7 };
    assert_eq!(
        choose_swap_extent(&capabilities(2, 0, open_width_only), Extent2D { width: 800, height: 600 }),
        Extent2D { width: 800, height: 600 }
    );
}

#[test]
fn clamp_moves_into_the_range() {
    assert_eq!(clamp(5, 10, 20), 10);
    assert_eq!(clamp(15, 10, 20), 15);
    assert_eq!(clamp(25, 10, 20), 20);
    assert_eq!(clamp(10, 10, 10), 10);
    assert_eq!(clamp(0, 0, u32::MAX), 0);
    for v in [0u32, 9, 10, 11, 19, 20, 21, u32::MAX] {
        assert_eq!(clamp(v, 10, 20), v.clamp(10, 20));
    }
}

#[test]
fn one_image_more_than_the_minimum_up_to_the_maximum() {
    assert_eq!(choose_image_count(&capabilities(2, 0, OPEN)), 3);
    assert_eq!(choose_image_count(&capabilities(2, 8, OPEN)), 3);
    assert_eq!(choose_image_count(&capabilities(2, 3, OPEN)), 3);
    assert_eq!(choose_image_count(&capabilities(2, 2, OPEN)), 2);
    assert_eq!(choose_image_count(&capabilities(5, 3, OPEN)), 3);
    assert_eq!(choose_image_count(&capabilities(0, 0, OPEN)), 1);
    assert_eq!(choose_image_count(&capabilities(u32::MAX, 7, OPEN)), 7);
    assert_eq!(choose_image_count(&capabilities(u32::MAX - 1, 0, OPEN)), u32::MAX);
    assert_eq!(choose_image_count(&capabilities(u32::MAX, u32::MAX, OPEN)), u32::MAX);
}

#[test]
fn sharing_is_concurrent_between_different_families() {
    assert_eq!(choose_sharing_mode(&SAME), SharingMode::Exclusive);
    assert_eq!(
        choose_sharing_mode(&QueueFamilyIndices { graphics_family: Some(0), present_family: Some(2) }),
        SharingMode::Concurrent { graphics_family: 0, present_family: 2 }
    );
    assert_eq!(
        choose_sharing_mode(&QueueFamilyIndices { graphics_family: None, present_family: None }),
        SharingMode::Exclusive
    );
}

#[test]
fn plan_puts_the_choices_together() {
    let support = SwapChainSupport {
        capabilities: capabilities(2, 0, OPEN),
        surface_formats: vec![BGRA, PREFERRED],
        present_modes: vec![2, 1],
    };
    let families = QueueFamilyIndices { graphics_family: Some(1), present_family: Some(3) };
    assert_eq!(
        plan_swap_chain(&support, Extent2D { width: 800, height: 600 }, &families),
        Ok(SwapChainPlan {
            min_image_count: 3,
            surface_format: PREFERRED,
            extent: Extent2D { width: 800, height: 600 },
            image_array_layers: 1,
            image_usage: ImageUsage::TransientAttachment,
            pre_transform: 1,
            composite_alpha: CompositeAlpha::Opaque,
            present_mode: 1,
            clipped: true,
            sharing_mode: SharingMode::Concurrent { graphics_family: 1, present_family: 3 },
        })
    );
}

#[test]
fn plan_errors_come_in_their_order() {
    let window = Extent2D { width: 800, height: 600 };
    let mut bad_bounds = capabilities(u32::MAX, 0, OPEN);
    bad_bounds.min_image_extent.width = 5000;
    let missing = QueueFamilyIndices { graphics_family: Some(0), present_family: None };
    let nothing = SwapChainSupport {
        capabilities: bad_bounds,
        surface_formats: vec![],
        present_modes: vec![],
    };
    assert_eq!(plan_swap_chain(&nothing, window, &missing), Err(SwapChainError::NoSurfaceFormat));
    let bounds = SwapChainSupport { surface_formats: vec![BGRA], ..nothing.clone() };
    assert_eq!(plan_swap_chain(&bounds, window, &missing), Err(SwapChainError::InvalidExtentBounds));
    let count = SwapChainSupport {
        capabilities: capabilities(u32::MAX, 0, OPEN),
        ..bounds.clone()
    };
    assert_eq!(plan_swap_chain(&count, window, &missing), Err(SwapChainError::ImageCountOverflow));
    let families = SwapChainSupport { capabilities: capabilities(2, 0, OPEN), ..bounds.clone() };
    assert_eq!(plan_swap_chain(&families, window, &missing), Err(SwapChainError::MissingQueueFamily));
    let other = QueueFamilyIndices { graphics_family: None, present_family: Some(1) };
    assert_eq!(plan_swap_chain(&families, window, &other), Err(SwapChainError::MissingQueueFamily));
    assert!(plan_swap_chain(&families, window, &SAME).is_ok());
}

#[test]
fn bad_bounds_do_not_matter_for_a_fixed_extent() {
    let mut caps = capabilities(2, 0, Extent2D { width: 640, height: 480 });
    caps.min_image_extent.height = 9000;
    let support =
        SwapChainSupport { capabilities: caps, surface_formats: vec![BGRA], present_modes: vec![] };
    let plan = plan_swap_chain(&support, Extent2D { width: 1, height: 1 }, &SAME).unwrap();
    assert_eq!(plan.extent, Extent2D { width: 640, height: 480 });
    assert_eq!(plan.present_mode, PRESENT_MODE_FIFO);
    assert_eq!(plan.surface_format, BGRA);
    assert_eq!(plan.sharing_mode, SharingMode::Exclusive);
}

#[test]
fn image_views_are_two_dimensional_colour_views_of_each_image() {
    let views = create_image_views(&[7, 8, 9], &BGRA, 1);
    assert_eq!(views.len(), 3);
    for (i, view) in views.iter().enumerate() {
        assert_eq!(
            *view,
            ImageViewRequest {
                image: 7 + i as u64,
                view_type: ImageViewType::TwoD,
                format: 50,
                r: ComponentSwizzle::Identity,
                g: ComponentSwizzle::Identity,
                b: ComponentSwizzle::Identity,
                a: ComponentSwizzle::Identity,
                aspect: ImageAspect::Color,
                base_mip_level: 0,
                level_count: 1,
                base_array_layer: 0,
                layer_count: 1,
            }
        );
    }
    assert_eq!(create_image_views(&[], &BGRA, 4), vec![]);
    assert_eq!(create_image_views(&[1], &BGRA, 4)[0].level_count, 4);
}

#[test]
fn a_swap_chain_holds_what_the_device_returned() {
    let support = SwapChainSupport {
        capabilities: capabilities(2, 0, OPEN),
        surface_formats: vec![PREFERRED],
        present_modes: vec![],
    };
    let plan = plan_swap_chain(&support, Extent2D { width: 800, height: 600 }, &SAME).unwrap();
    let swap_chain = SwapChain::new(&plan, 99, vec![1, 2, 3], vec![4, 5, 6]).unwrap();
    assert_eq!(swap_chain.handle(), 99);
    assert_eq!(swap_chain.image_format(), FORMAT_R8G8B8A8_SRGB);
    assert_eq!(swap_chain.extent(), Extent2D { width: 800, height: 600 });
    assert_eq!(swap_chain.images(), &vec![1, 2, 3]);
    assert_eq!(swap_chain.image_views(), &vec![4, 5, 6]);
    assert_eq!(swap_chain.image_count(), 3);
    let mut releases = vec![Release::Framebuffer(0)];
    swap_chain.push_releases(&mut releases);
    assert_eq!(
        releases,
        vec![
            Release::Framebuffer(0),
            Release::ImageView(4),
            Release::ImageView(5),
            Release::ImageView(6),
            Release::Swapchain(99),
        ]
    );
}

#[test]
fn a_swap_chain_needs_a_view_for_every_image() {
    let support = SwapChainSupport {
        capabilities: capabilities(2, 0, OPEN),
        surface_formats: vec![PREFERRED],
        present_modes: vec![],
    };
    let plan = plan_swap_chain(&support, Extent2D { width: 800, height: 600 }, &SAME).unwrap();
    assert_eq!(
        SwapChain::new(&plan, 99, vec![1, 2, 3], vec![4, 5]),
        Err(SwapChainError::ImageViewMismatch)
    );
    assert_eq!(SwapChain::new(&plan, 99, vec![], vec![4]), Err(SwapChainError::ImageViewMismatch));
    assert!(SwapChain::new(&plan, 99, vec![], vec![]).is_ok());
}

#[test]
fn the_render_pass_has_colour_depth_and_resolve() {
    let pass = create_render_pass(43, 126, SampleCount::Four);
    let cleared = |format: i32, final_layout: ImageLayout| AttachmentDescription {
        format,
        samples: SampleCount::Four,
        load_op: LoadOp::Clear,
        store_op: StoreOp::DontCare,
        stencil_load_op: LoadOp::DontCare,
        stencil_store_op: StoreOp::DontCare,
        initial_layout: ImageLayout::Undefined,
        final_layout,
    };
    assert_eq!(pass.color, cleared(43, ImageLayout::ColorAttachmentOptimal));
    assert_eq!(pass.depth, cleared(126, ImageLayout::DepthStencilAttachmentOptimal));
    assert_eq!(
        pass.resolve,
        AttachmentDescription {
            format: 43,
            samples: SampleCount::One,
            load_op: LoadOp::DontCare,
            store_op: StoreOp::DontCare,
            stencil_load_op: LoadOp::DontCare,
            stencil_store_op: StoreOp::DontCare,
            initial_layout: ImageLayout::Undefined,
            final_layout: ImageLayout::PresentSrc,
        }
    );
    assert_eq!((COLOR_ATTACHMENT, DEPTH_ATTACHMENT, RESOLVE_ATTACHMENT, ATTACHMENT_COUNT), (0, 1, 2, 3));
    assert_eq!(
        pass.subpass.color,
        AttachmentReference { attachment: 0, layout: ImageLayout::ColorAttachmentOptimal }
    );
    assert_eq!(
        pass.subpass.depth_stencil,
        AttachmentReference { attachment: 1, layout: ImageLayout::DepthStencilAttachmentOptimal }
    );
    assert_eq!(
        pass.subpass.resolve,
        AttachmentReference { attachment: 2, layout: ImageLayout::ColorAttachmentOptimal }
    );
}

#[test]
fn the_subpass_waits_for_what_was_written_before() {
    let pass = create_render_pass(43, 126, SampleCount::One);
    let stages = StageMask { color_attachment_output: true, early_fragment_tests: true };
    assert_eq!(pass.dependency.src_subpass, SubpassRef::External);
    assert_eq!(pass.dependency.dst_subpass, SubpassRef::Index(0));
    assert_eq!(pass.dependency.src_stage_mask, stages);
    assert_eq!(pass.dependency.dst_stage_mask, stages);
    assert_eq!(
        pass.dependency.src_access_mask,
        AccessMask { color_attachment_write: false, depth_stencil_attachment_write: false }
    );
    assert_eq!(
        pass.dependency.dst_access_mask,
        AccessMask { color_attachment_write: true, depth_stencil_attachment_write: true }
    );
    assert_eq!(pass.color.samples, SampleCount::One);
    assert_eq!(pass.depth.samples, pass.color.samples);
}
