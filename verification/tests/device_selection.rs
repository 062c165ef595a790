use vulkan_setup::device::{
    check_physical_device, check_physical_device_extensions, find_queue_families,
    get_max_msaa_samples,
    has_suitable_device, optional_device_extensions, pick_physical_device,
    required_device_extensions, select_device_extensions, unique_queue_families,
    DeviceCheckError, DeviceReport, QueueFamilyIndices, SwapchainSupportCounts,
};

fn name(s: &str) -> Vec<u8> {
    s.as_bytes().to_vec()
}

fn good_report() -> DeviceReport {
    DeviceReport {
        queue_families: Some(QueueFamilyIndices { graphics: 0, present: 1 }),
        extensions: Some(vec![name("VK_KHR_swapchain"), name("VK_KHR_maintenance4")]),
        swapchain_support: Some(SwapchainSupportCounts { formats: 2, present_modes: 3 }),
        sampler_anisotropy: true,
        discrete_gpu: true,
        framebuffer_color_sample_counts: 0b0001111,
        framebuffer_depth_sample_counts: 0b0000111,
    }
}

fn unsuitable_message(r: Result<(), DeviceCheckError>) -> &'static str {
    match r {
        Err(DeviceCheckError::Unsuitable(e)) => e.0,
        other => panic!("expected an unsuitable device, got {:?}", other),
    }
}

#[test]
fn good_device_passes() {
    assert!(check_physical_device(&good_report()).is_ok());
}

#[test]
fn missing_queue_families_fail_first() {
    let mut r = good_report();
    r.queue_families = None;
    r.sampler_anisotropy = false;
    assert!(matches!(check_physical_device(&r), Err(DeviceCheckError::MissingQueueFamilies)));
}

#[test]
fn failed_extension_query_fails() {
    let mut r = good_report();
    r.extensions = None;
    assert!(matches!(check_physical_device(&r), Err(DeviceCheckError::ExtensionQueryFailed)));
}

#[test]
fn failed_swapchain_query_fails() {
    let mut r = good_report();
    r.swapchain_support = None;
    assert!(matches!(check_physical_device(&r), Err(DeviceCheckError::SwapchainQueryFailed)));
}

#[test]
fn no_formats_is_insufficient_swapchain_support() {
    let mut r = good_report();
    r.swapchain_support = Some(SwapchainSupportCounts { formats: 0, present_modes: 3 });
    r.discrete_gpu = false;
    assert_eq!(unsuitable_message(check_physical_device(&r)), "Insufficient swapchain support.");
}

#[test]
fn no_present_modes_is_insufficient_swapchain_support() {
    let mut r = good_report();
    r.swapchain_support = Some(SwapchainSupportCounts { formats: 1, present_modes: 0 });
    assert_eq!(unsuitable_message(check_physical_device(&r)), "Insufficient swapchain support.");
}

#[test]
fn no_anisotropy_fails_before_device_type() {
    let mut r = good_report();
    r.sampler_anisotropy = false;
    r.discrete_gpu = false;
    assert_eq!(unsuitable_message(check_physical_device(&r)), "No sampler anisotropy.");
}

#[test]
fn integrated_gpu_fails() {
    let mut r = good_report();
    r.discrete_gpu = false;
    assert_eq!(unsuitable_message(check_physical_device(&r)), "Is not a DISCRETE_GPU");
}

#[test]
fn extension_check_passes_even_without_swapchain() {
    let available = vec![name("VK_KHR_maintenance4")];
    let required = required_device_extensions();
    assert!(check_physical_device_extensions(&available, &required).is_ok());
    assert!(check_physical_device_extensions(&Vec::new(), &required).is_ok());
}

#[test]
fn required_extensions_are_swapchain() {
    assert_eq!(required_device_extensions(), vec![name("VK_KHR_swapchain")]);
}

#[test]
fn optional_extensions_in_order() {
    let expected: Vec<Vec<u8>> = [
        "VK_KHR_swapchain",
        "VK_KHR_dedicated_allocation",
        "VK_KHR_bind_memory2",
        "VK_KHR_maintenance4",
        "VK_KHR_maintenance5",
        "VK_EXT_memory_budget",
        "VK_KHR_buffer_device_address",
        "VK_EXT_memory_priority",
        "VK_AMD_device_coherent_memory",
        "VK_KHR_external_memory_win32",
    ]
    .iter()
    .map(|s| name(s))
    .collect();
    assert_eq!(optional_device_extensions(), expected);
}

#[test]
fn selected_extensions_are_the_offered_optional_ones() {
    let compatible = vec![
        name("VK_EXT_memory_budget"),
        name("VK_KHR_some_other"),
        name("VK_KHR_swapchain"),
        name("VK_KHR_swapchain"),
    ];
    assert_eq!(
        select_device_extensions(&compatible),
        vec![name("VK_KHR_swapchain"), name("VK_EXT_memory_budget")]
    );
}

#[test]
fn nothing_offered_selects_nothing() {
    assert!(select_device_extensions(&Vec::new()).is_empty());
}

#[test]
fn max_msaa_examples() {
    assert_eq!(get_max_msaa_samples(0b1111111, 0b1111111), 64);
    assert_eq!(get_max_msaa_samples(0b0001111, 0b0000111), 4);
    assert_eq!(get_max_msaa_samples(0b1000001, 0b0100001), 1);
    assert_eq!(get_max_msaa_samples(0, 0), 1);
    assert_eq!(get_max_msaa_samples(0b0100010, 0b1100010), 32);
    assert_eq!(get_max_msaa_samples(u32::MAX, 0b10), 2);
}

#[test]
fn max_msaa_is_symmetric() {
    for (c, d) in [(0b0001111u32, 0b0000111u32), (0b1000110, 0b0110110), (0x7f, 0x10)] {
        assert_eq!(get_max_msaa_samples(c, d), get_max_msaa_samples(d, c));
    }
}

#[test]
fn queue_families_same_index_once() {
    assert_eq!(unique_queue_families(&QueueFamilyIndices { graphics: 2, present: 2 }), vec![2]);
    assert_eq!(unique_queue_families(&QueueFamilyIndices { graphics: 0, present: 3 }), vec![0, 3]);
}

#[test]
fn picks_first_suitable_device() {
    let mut first = good_report();
    first.discrete_gpu = false;
    let mut second = good_report();
    second.framebuffer_color_sample_counts = 0b1111111;
    second.framebuffer_depth_sample_counts = 0b0011111;
    let third = good_report();
    let reports = vec![first, second, third];
    assert!(has_suitable_device(&reports));
    let picked = pick_physical_device(&reports);
    assert_eq!(picked.index, 1);
    assert_eq!(picked.msaa_samples, 16);
    assert_eq!(
        picked.device_extensions,
        vec![name("VK_KHR_swapchain"), name("VK_KHR_maintenance4")]
    );
}

#[test]
fn no_suitable_device() {
    let mut only = good_report();
    only.sampler_anisotropy = false;
    assert!(!has_suitable_device(&vec![only]));
    assert!(!has_suitable_device(&Vec::new()));
}

#[test]
fn queue_families_first_of_each() {
    let q = find_queue_families(&vec![false, true, true], &vec![true, false, true]).unwrap();
    assert_eq!((q.graphics, q.present), (1, 0));
    assert!(find_queue_families(&vec![false, false], &vec![true]).is_none());
    assert!(find_queue_families(&vec![true], &vec![]).is_none());
}
