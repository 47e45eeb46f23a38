use kajiya_backend::instance::DeviceBuilder;

#[test]
fn builder_defaults() {
    let b = DeviceBuilder::default();
    assert!(b.required_extensions.is_empty());
    assert!(!b.graphics_debugging);
    assert_eq!(b.extension_names(), vec!["VK_KHR_get_physical_device_properties2".to_string()]);
    assert!(b.layer_names().is_empty());
}

#[test]
fn builder_setters() {
    let b = DeviceBuilder::new()
        .required_extensions(vec!["VK_KHR_surface".to_string()])
        .graphics_debugging(true);
    assert!(b.graphics_debugging);
    assert_eq!(b.required_extensions, vec!["VK_KHR_surface".to_string()]);
    assert_eq!(b.layer_names(), vec!["VK_LAYER_KHRONOS_validation".to_string()]);
    assert_eq!(
        b.instance_extensions(),
        vec![
            "VK_KHR_surface".to_string(),
            "VK_KHR_get_physical_device_properties2".to_string(),
            "VK_EXT_debug_report".to_string(),
            "VK_EXT_debug_utils".to_string(),
        ]
    );
}
