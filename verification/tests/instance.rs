use sourcerenderer_vulkan::instance_setup::{select_instance_extensions, select_instance_layers};

fn names(list: &[&str]) -> Vec<String> {
    list.iter().map(|s| s.to_string()).collect()
}

#[test]
fn validation_layer_only_with_debug_layers() {
    let reported = names(&["VK_LAYER_MESA_device_select", "VK_LAYER_KHRONOS_validation"]);
    assert_eq!(select_instance_layers(&reported, true), (names(&["VK_LAYER_KHRONOS_validation"]), true));
    assert_eq!(select_instance_layers(&reported, false), (vec![], false));
    assert_eq!(select_instance_layers(&names(&["VK_LAYER_MESA_device_select"]), true), (vec![], false));
}

#[test]
fn instance_extensions_take_the_first_platform_surface() {
    let reported = names(&[
        "VK_KHR_device_group_creation",
        "VK_KHR_xcb_surface",
        "VK_KHR_surface",
        "VK_KHR_wayland_surface",
        "VK_EXT_debug_utils",
    ]);
    let s = select_instance_extensions(&reported);
    assert_eq!(s.enabled, names(&["VK_KHR_xcb_surface", "VK_KHR_surface", "VK_EXT_debug_utils"]));
    assert!(s.surface && s.platform_surface && s.debug_utils);
}

#[test]
fn missing_surface_extension_is_reported() {
    let s = select_instance_extensions(&names(&["VK_KHR_win32_surface"]));
    assert!(!s.surface);
    assert!(s.platform_surface);
    assert!(!s.debug_utils);
    assert_eq!(s.enabled, names(&["VK_KHR_win32_surface"]));
}
