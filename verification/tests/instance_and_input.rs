use vulkan_setup::initialization::{
    application_info, check_validation_layer, enabled_layers, instance_extensions,
    plan_instance, validation_layer_name, InstanceError, MAX_FRAMES_IN_FLIGHT,
};
use vulkan_setup::input::{process_inputs, HeldKeys, InputStep};
use vulkan_setup::memory::vertex_buffer_size;

fn name(s: &str) -> Vec<u8> {
    s.as_bytes().to_vec()
}

fn no_keys() -> HeldKeys {
    HeldKeys {
        w: false,
        s: false,
        a: false,
        d: false,
        arrow_right: false,
        arrow_left: false,
        arrow_up: false,
        arrow_down: false,
    }
}

#[test]
fn application_description() {
    let info = application_info();
    assert_eq!(info.application_name, "Vulkan Tutorial (Rust)\0");
    assert_eq!(info.engine_name, "No Engine\0");
    assert_eq!(info.application_version, 1 << 22);
    assert_eq!(info.engine_version, 1 << 22);
    assert_eq!(info.api_version, (1 << 22) | (3 << 12) | 216);
}

#[test]
fn frames_in_flight() {
    assert_eq!(MAX_FRAMES_IN_FLIGHT, 2);
}

#[test]
fn validation_layer_is_khronos() {
    assert_eq!(validation_layer_name(), name("VK_LAYER_KHRONOS_validation"));
}

#[test]
fn validation_requested_but_missing() {
    let layer = validation_layer_name();
    let available = vec![name("VK_LAYER_other")];
    let r = check_validation_layer(true, &available, &layer);
    assert!(matches!(r, Err(InstanceError::ValidationLayerUnsupported)));
    assert_eq!(r.unwrap_err().message(), "Validation layer requested but not supported.");
    assert!(check_validation_layer(false, &available, &layer).is_ok());
    assert!(check_validation_layer(true, &vec![layer.clone()], &layer).is_ok());
}

#[test]
fn layers_only_with_validation() {
    let layer = validation_layer_name();
    assert_eq!(enabled_layers(true, &layer), vec![layer.clone()]);
    assert!(enabled_layers(false, &layer).is_empty());
}

#[test]
fn debug_utils_only_with_validation() {
    let window = vec![name("VK_KHR_surface"), name("VK_KHR_xlib_surface")];
    assert_eq!(instance_extensions(&window, false), window);
    let mut expected = window.clone();
    expected.push(name("VK_EXT_debug_utils"));
    assert_eq!(instance_extensions(&window, true), expected);
}

#[test]
fn plan_with_validation() {
    let window = vec![name("VK_KHR_surface")];
    let available = vec![name("VK_LAYER_KHRONOS_validation")];
    let plan = plan_instance(true, &available, &window).unwrap();
    assert_eq!(plan.layers, vec![name("VK_LAYER_KHRONOS_validation")]);
    assert_eq!(plan.extensions, vec![name("VK_KHR_surface"), name("VK_EXT_debug_utils")]);
    assert_eq!(plan.validation_layer, name("VK_LAYER_KHRONOS_validation"));
    assert_eq!(plan.application.api_version, (1 << 22) | (3 << 12) | 216);
}

#[test]
fn plan_without_validation_ignores_layers() {
    let window = vec![name("VK_KHR_surface")];
    let plan = plan_instance(false, &Vec::new(), &window).unwrap();
    assert!(plan.layers.is_empty());
    assert_eq!(plan.extensions, window);
}

#[test]
fn plan_fails_without_validation_layer() {
    let r = plan_instance(true, &Vec::new(), &Vec::new());
    assert!(matches!(r, Err(InstanceError::ValidationLayerUnsupported)));
}

#[test]
fn no_keys_no_steps() {
    assert!(process_inputs(&no_keys()).is_empty());
}

#[test]
fn steps_follow_key_order() {
    let mut keys = no_keys();
    keys.arrow_down = true;
    keys.d = true;
    keys.w = true;
    keys.arrow_left = true;
    assert_eq!(
        process_inputs(&keys),
        vec![InputStep::Forward, InputStep::StrafeD, InputStep::YawLeft, InputStep::PitchDown]
    );
}

#[test]
fn all_keys_all_steps() {
    let keys = HeldKeys {
        w: true,
        s: true,
        a: true,
        d: true,
        arrow_right: true,
        arrow_left: true,
        arrow_up: true,
        arrow_down: true,
    };
    assert_eq!(
        process_inputs(&keys),
        vec![
            InputStep::Forward,
            InputStep::Backward,
            InputStep::StrafeA,
            InputStep::StrafeD,
            InputStep::YawRight,
            InputStep::YawLeft,
            InputStep::PitchUp,
            InputStep::PitchDown,
        ]
    );
}

#[test]
fn vertex_buffer_sizes() {
    assert_eq!(vertex_buffer_size(20, 3), 60);
    assert_eq!(vertex_buffer_size(32, 0), 0);
}
