use lambda_engine::display::{
    handle_inputs, CameraAction, ControlFlow, ElementState, InputEvent, InputOutcome,
};
use lambda_engine::memory::{find_memory_type, MAX_MEMORY_TYPES};
use lambda_engine::resources::{
    push_buffer_releases, push_model_buffers_releases, push_pipeline_releases,
    push_texture_releases, Buffer, GraphicsPipeline, ModelBuffers, Release, Texture,
};

const DEVICE_LOCAL: u32 = 0b001;
const HOST_VISIBLE: u32 = 0b010;
const HOST_COHERENT: u32 = 0b100;

#[test]
fn the_first_suitable_memory_type_is_found() {
    let types = [DEVICE_LOCAL, HOST_VISIBLE | HOST_COHERENT, HOST_VISIBLE, DEVICE_LOCAL | HOST_VISIBLE];
    assert_eq!(find_memory_type(&types, 0b1111, DEVICE_LOCAL), Some(0));
    assert_eq!(find_memory_type(&types, 0b1111, HOST_VISIBLE), Some(1));
    assert_eq!(find_memory_type(&types, 0b1111, HOST_VISIBLE | HOST_COHERENT), Some(1));
    assert_eq!(find_memory_type(&types, 0b1111, DEVICE_LOCAL | HOST_VISIBLE), Some(3));
    assert_eq!(find_memory_type(&types, 0b1111, 0), Some(0));
}

#[test]
fn memory_types_outside_the_filter_are_passed_over() {
    let types = [DEVICE_LOCAL, HOST_VISIBLE | HOST_COHERENT, HOST_VISIBLE, DEVICE_LOCAL | HOST_VISIBLE];
    assert_eq!(find_memory_type(&types, 0b1110, DEVICE_LOCAL), Some(3));
    assert_eq!(find_memory_type(&types, 0b1100, HOST_VISIBLE), Some(2));
    assert_eq!(find_memory_type(&types, 0b0001, HOST_VISIBLE), None);
    assert_eq!(find_memory_type(&types, 0, 0), None);
    assert_eq!(find_memory_type(&types, 0b1_0000, 0), None);
}

#[test]
fn no_memory_type_is_found_where_none_has_the_properties() {
    let types = [DEVICE_LOCAL, HOST_VISIBLE];
    assert_eq!(find_memory_type(&types, u32::MAX, HOST_COHERENT), None);
    assert_eq!(find_memory_type(&types, u32::MAX, DEVICE_LOCAL | HOST_VISIBLE), None);
    assert_eq!(find_memory_type(&[], u32::MAX, 0), None);
}

#[test]
fn at_most_thirty_two_memory_types_are_looked_at() {
    assert_eq!(MAX_MEMORY_TYPES, 32);
    let mut types = vec![0u32; 40];
    types[31] = HOST_VISIBLE;
    types[35] = DEVICE_LOCAL;
    assert_eq!(find_memory_type(&types, u32::MAX, HOST_VISIBLE), Some(31));
    assert_eq!(find_memory_type(&types, u32::MAX, DEVICE_LOCAL), None);
}

fn outcome(control_flow: ControlFlow, mouse_pressed: bool, camera: CameraAction) -> InputOutcome {
    InputOutcome { control_flow, mouse_pressed, camera }
}

#[test]
fn closing_the_own_window_ends_the_loop() {
    assert_eq!(
        handle_inputs(InputEvent::CloseRequested { own_window: true }, false),
        outcome(ControlFlow::Exit, false, CameraAction::Ignore)
    );
    assert_eq!(
        handle_inputs(InputEvent::CloseRequested { own_window: false }, true),
        outcome(ControlFlow::Poll, true, CameraAction::Ignore)
    );
}

#[test]
fn keys_with_a_code_go_to_the_camera() {
    assert_eq!(
        handle_inputs(
            InputEvent::KeyboardInput { key: Some(17), state: ElementState::Pressed },
            false
        ),
        outcome(
            ControlFlow::Poll,
            false,
            CameraAction::ProcessKeyboard { key: 17, state: ElementState::Pressed }
        )
    );
    assert_eq!(
        handle_inputs(InputEvent::KeyboardInput { key: None, state: ElementState::Released }, true),
        outcome(ControlFlow::Poll, true, CameraAction::Ignore)
    );
}

#[test]
fn mouse_buttons_are_remembered() {
    assert_eq!(
        handle_inputs(InputEvent::MouseInput { state: ElementState::Pressed }, false),
        outcome(ControlFlow::Poll, true, CameraAction::Ignore)
    );
    assert_eq!(
        handle_inputs(InputEvent::MouseInput { state: ElementState::Released }, true),
        outcome(ControlFlow::Poll, false, CameraAction::Ignore)
    );
}

#[test]
fn the_mouse_moves_the_camera_only_while_a_button_is_down() {
    assert_eq!(
        handle_inputs(InputEvent::MouseMotion, true),
        outcome(ControlFlow::Poll, true, CameraAction::ProcessMouse)
    );
    assert_eq!(
        handle_inputs(InputEvent::MouseMotion, false),
        outcome(ControlFlow::Poll, false, CameraAction::Ignore)
    );
    assert_eq!(
        handle_inputs(InputEvent::MouseWheel, false),
        outcome(ControlFlow::Poll, false, CameraAction::ProcessScroll)
    );
    assert_eq!(
        handle_inputs(InputEvent::Other, true),
        outcome(ControlFlow::Poll, true, CameraAction::Ignore)
    );
}

#[test]
fn release_lists_of_the_parts() {
    let mut out = Vec::new();
    push_buffer_releases(&mut out, &Buffer { buffer: 1, memory: 2 });
    assert_eq!(out, vec![Release::Buffer(1), Release::Memory(2)]);
    push_texture_releases(&mut out, &Texture { image: 3, memory: 4, image_view: 5, sampler: 6 });
    assert_eq!(
        out[2..],
        [Release::Sampler(6), Release::ImageView(5), Release::Image(3), Release::Memory(4)]
    );
    let mut out = Vec::new();
    push_model_buffers_releases(
        &mut out,
        &ModelBuffers { vertex: Buffer { buffer: 1, memory: 2 }, index: None },
    );
    assert_eq!(out, vec![Release::Buffer(1), Release::Memory(2)]);
    let mut out = Vec::new();
    push_pipeline_releases(
        &mut out,
        &GraphicsPipeline {
            pipeline: 1,
            layout: 2,
            descriptor_set_layout: 3,
            descriptor_pool: 4,
            descriptor_sets: vec![],
            uniform_buffers: vec![],
        },
    );
    assert_eq!(
        out,
        vec![
            Release::Pipeline(1),
            Release::PipelineLayout(2),
            Release::DescriptorPool(4),
            Release::DescriptorSetLayout(3),
        ]
    );
}
