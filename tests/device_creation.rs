use kajiya_backend::device::{missing_device_extension, plan_device, select_universal_queue, Device};
use kajiya_backend::features::{
    device_feature_table, enabled_extension_names, first_missing_mandatory, negotiate_features,
    unset_feature_flag, DeviceCreateError, FeatureBundle, FeatureFlag, RAY_TRACING_BUNDLE,
};
use kajiya_backend::frame::{CommandBuffer, DeviceFrame};

const CORE: [&str; 10] = [
    "VK_EXT_descriptor_indexing",
    "VK_EXT_scalar_block_layout",
    "VK_KHR_maintenance1",
    "VK_KHR_maintenance2",
    "VK_KHR_maintenance3",
    "VK_KHR_get_memory_requirements2",
    "VK_KHR_imageless_framebuffer",
    "VK_KHR_image_format_list",
    "VK_KHR_descriptor_update_template",
    "VK_KHR_shader_float16_int8",
];

const RAY_TRACING: [&str; 6] = [
    "VK_KHR_vulkan_memory_model",
    "VK_KHR_pipeline_library",
    "VK_KHR_deferred_host_operations",
    "VK_EXT_buffer_device_address",
    "VK_KHR_acceleration_structure",
    "VK_KHR_ray_tracing_pipeline",
];

fn strings(names: &[&str]) -> Vec<String> {
    names.iter().map(|s| s.to_string()).collect()
}

fn frame(base: u64) -> DeviceFrame {
    DeviceFrame::new(CommandBuffer::new(base, base + 1), CommandBuffer::new(base + 2, base + 3))
}

fn core_device(samplers: Vec<u64>, limit: u32) -> Result<Device, DeviceCreateError> {
    let plan = plan_device(&strings(&CORE), false, &vec![1]).unwrap();
    let flags = plan.table()[0].feature_flags.clone();
    Device::create(plan, flags, frame(10), frame(20), samplers, CommandBuffer::new(30, 31), limit)
}

#[test]
fn missing_mandatory_extension_fails() {
    let supported = strings(&CORE[1..]);
    assert_eq!(
        missing_device_extension(&supported, false),
        Some("VK_EXT_descriptor_indexing".to_string())
    );
    let mut without_last = strings(&CORE[..9]);
    without_last.extend(strings(&RAY_TRACING));
    assert_eq!(
        missing_device_extension(&without_last, false),
        Some("VK_KHR_shader_float16_int8".to_string())
    );
    assert_eq!(missing_device_extension(&strings(&CORE), false), None);
}

#[test]
fn missing_swapchain_fails_only_when_presenting() {
    let supported = strings(&CORE);
    assert_eq!(missing_device_extension(&supported, false), None);
    assert!(plan_device(&supported, false, &vec![1]).is_ok());
    assert_eq!(
        missing_device_extension(&supported, true),
        Some("VK_KHR_swapchain".to_string())
    );
    let mut with_swapchain = supported.clone();
    with_swapchain.push("VK_KHR_swapchain".to_string());
    assert_eq!(missing_device_extension(&with_swapchain, true), None);
    let plan = plan_device(&with_swapchain, true, &vec![1]).unwrap();
    assert_eq!(plan.extensions().last().unwrap(), "VK_KHR_swapchain");
}

#[test]
fn partial_ray_tracing_bundle_is_disabled() {
    let mut supported = strings(&CORE);
    supported.extend(strings(&RAY_TRACING[..5]));
    assert_eq!(missing_device_extension(&supported, false), None);
    let plan = plan_device(&supported, false, &vec![1]).unwrap();
    assert!(!plan.ray_tracing_enabled());
    assert_eq!(plan.extensions(), &strings(&CORE));
    let core_flags = plan.table()[0].feature_flags.clone();
    assert_eq!(plan.unset_feature(&core_flags), None);
    let d = Device::create(plan, core_flags, frame(10), frame(20), (1..=8).collect(), CommandBuffer::new(30, 31), 1000)
        .unwrap();
    assert!(!d.ray_tracing_enabled());
    assert_eq!(d.extensions(), &strings(&CORE));
    assert!(d.has_feature(FeatureFlag::ShaderInt8));
    assert!(!d.has_feature(FeatureFlag::RayTracingPipeline));
}

#[test]
fn full_ray_tracing_bundle_is_enabled() {
    let mut supported = strings(&RAY_TRACING);
    supported.extend(strings(&CORE));
    supported.push("VK_KHR_unrelated".to_string());
    let plan = plan_device(&supported, false, &vec![1]).unwrap();
    assert!(plan.ray_tracing_enabled());
    let mut expected = strings(&CORE);
    expected.extend(strings(&RAY_TRACING));
    assert_eq!(plan.extensions(), &expected);
}

#[test]
fn no_graphics_queue_is_a_recoverable_error() {
    let supported = strings(&CORE);
    assert_eq!(
        plan_device(&supported, false, &vec![0b110, 0b100]).err(),
        Some(DeviceCreateError::NoSuitableQueue)
    );
    let plan = plan_device(&supported, false, &vec![0b110, 0b111]).unwrap();
    assert_eq!(plan.queue_family_index(), 1);
    let flags = plan.table()[0].feature_flags.clone();
    let d = Device::create(plan, flags, frame(10), frame(20), (1..=8).collect(), CommandBuffer::new(30, 31), 1000)
        .unwrap();
    assert_eq!(d.queue_family_index(), 1);
}

#[test]
fn queue_selection_takes_the_first_graphics_family() {
    assert_eq!(select_universal_queue(&vec![]), Err(DeviceCreateError::NoSuitableQueue));
    assert_eq!(select_universal_queue(&vec![2, 4, 3, 1]), Ok(2));
    assert_eq!(select_universal_queue(&vec![0xffff_fffe]), Err(DeviceCreateError::NoSuitableQueue));
}

#[test]
fn feature_flags_are_checked_per_enabled_bundle() {
    let table = device_feature_table(false);
    let core_flags = table[0].feature_flags.clone();
    let without_rt = vec![true, false];
    assert_eq!(unset_feature_flag(&table, &without_rt, &core_flags), None);
    let with_rt = vec![true, true];
    assert_eq!(
        unset_feature_flag(&table, &with_rt, &core_flags),
        Some(FeatureFlag::ShaderUniformBufferArrayNonUniformIndexing)
    );
    let mut partial = core_flags.clone();
    partial.retain(|f| *f != FeatureFlag::ShaderInt8);
    assert_eq!(unset_feature_flag(&table, &without_rt, &partial), Some(FeatureFlag::ShaderInt8));
}

#[test]
fn plan_checks_reported_features() {
    let mut supported = strings(&CORE);
    supported.extend(strings(&RAY_TRACING));
    let plan = plan_device(&supported, false, &vec![1]).unwrap();
    let mut all = plan.table()[0].feature_flags.clone();
    assert_eq!(
        plan.unset_feature(&all),
        Some(FeatureFlag::ShaderUniformBufferArrayNonUniformIndexing)
    );
    all.extend(plan.table()[RAY_TRACING_BUNDLE].feature_flags.iter().copied());
    assert_eq!(plan.unset_feature(&all), None);
}

#[test]
fn negotiation_on_a_custom_table() {
    let table = vec![
        FeatureBundle {
            name: "a".to_string(),
            extensions: strings(&["x", "y"]),
            feature_flags: vec![],
            mandatory: false,
        },
        FeatureBundle {
            name: "b".to_string(),
            extensions: strings(&["z"]),
            feature_flags: vec![],
            mandatory: true,
        },
    ];
    assert_eq!(negotiate_features(&table, &strings(&["z", "x"])), vec![false, true]);
    assert_eq!(negotiate_features(&table, &strings(&["z", "x", "y"])), vec![true, true]);
    assert_eq!(first_missing_mandatory(&table, &strings(&["x", "y"])), Some("z".to_string()));
    assert_eq!(first_missing_mandatory(&table, &strings(&["z"])), None);
    assert_eq!(enabled_extension_names(&table, &vec![true, true]), strings(&["x", "y", "z"]));
    assert_eq!(enabled_extension_names(&table, &vec![false, true]), strings(&["z"]));
}

#[test]
fn feature_table_layout() {
    let t = device_feature_table(true);
    assert_eq!(t.len(), 3);
    assert_eq!(t[0].extensions, strings(&CORE));
    assert!(t[0].mandatory);
    assert_eq!(t[RAY_TRACING_BUNDLE].extensions, strings(&RAY_TRACING));
    assert!(!t[RAY_TRACING_BUNDLE].mandatory);
    assert_eq!(t[0].feature_flags.len(), 14);
    assert_eq!(t[1].feature_flags.len(), 8);
    assert_eq!(device_feature_table(false).len(), 2);
}

#[test]
fn create_and_destroy_without_frames_needs_no_wait() {
    let plan = plan_device(&strings(&CORE), false, &vec![1]).unwrap();
    let flags = plan.table()[0].feature_flags.clone();
    let d = Device::create(plan, flags, frame(10), frame(20), (1..=8).collect(), CommandBuffer::new(30, 31), 1000)
        .unwrap();
    assert!(!d.needs_idle_wait());
    assert!(!d.ray_tracing_enabled());
    drop(d);
}

#[test]
fn create_rejects_bad_samplers() {
    let plan = plan_device(&strings(&CORE), false, &vec![1]).unwrap();
    let mk = |s: Vec<u64>| {
        core_device(s, 1000).err()
    };
    assert_eq!(mk(vec![1, 2, 3]), Some(DeviceCreateError::InvalidSamplers));
    assert_eq!(mk(vec![1, 2, 3, 4, 5, 6, 7, 1]), Some(DeviceCreateError::InvalidSamplers));
    assert_eq!(mk(vec![0, 2, 3, 4, 5, 6, 7, 8]), Some(DeviceCreateError::InvalidSamplers));
    assert_eq!(mk(vec![1, 2, 3, 4, 5, 6, 7, 8]), None);
}

#[test]
fn setup_command_buffer_cycle() {
    let plan = plan_device(&strings(&CORE), false, &vec![1]).unwrap();
    let flags = plan.table()[0].feature_flags.clone();
    let mut d = Device::create(plan, flags, frame(10), frame(20), (1..=8).collect(), CommandBuffer::new(30, 31), 1000)
        .unwrap();
    assert_eq!(d.queue_family_index(), 0);
    assert_eq!(d.setup_command_buffer().raw, 30);
    assert!(d.submit_setup_cb().is_err());
    assert_eq!(d.begin_setup_cb(), Ok(30));
    assert!(d.begin_setup_cb().is_err());
    assert_eq!(d.submit_setup_cb(), Ok(30));
    assert!(d.needs_idle_wait());
    d.device_idle();
    assert!(!d.needs_idle_wait());
    assert_eq!(d.begin_setup_cb(), Ok(30));
}

#[test]
fn bindless_descriptor_count() {
    let plan = plan_device(&strings(&CORE), false, &vec![1]).unwrap();
    let mk = |limit: u32| {
        core_device((1..=8).collect(), limit).unwrap()
    };
    assert_eq!(mk(1000).max_bindless_descriptor_count(), 968);
    assert_eq!(mk(32).max_bindless_descriptor_count(), 0);
    assert_eq!(mk(u32::MAX).max_bindless_descriptor_count(), 512 * 1024);
    assert_eq!(mk(512 * 1024 + 32).max_bindless_descriptor_count(), 512 * 1024);
}
