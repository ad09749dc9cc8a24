use vkrs::error::FatalError;
use vkrs::extensions::{
    check_device_extension_support, check_required_extensions, contains_name,
    get_required_device_extensions, get_required_extensions, missing_line,
};
use vkrs::validation::{check_validation_layer_support, get_validation_layer_names};

fn names(list: &[&str]) -> Vec<String> {
    list.iter().map(|name| name.to_string()).collect()
}

#[test]
fn nothing_is_missing_where_all_is_available() {
    let available = names(&["VK_KHR_surface", "VK_KHR_xcb_surface", "VK_EXT_debug_utils"]);
    let required = names(&["VK_EXT_debug_utils", "VK_KHR_surface"]);
    assert_eq!(check_required_extensions(&available, &required), Ok(()));
    assert_eq!(check_required_extensions(&available, &names(&[])), Ok(()));
}

#[test]
fn one_missing_extension_is_named() {
    let available = names(&["VK_KHR_surface"]);
    let required = names(&["VK_KHR_surface", "VK_KHR_xcb_surface"]);
    assert_eq!(
        check_required_extensions(&available, &required),
        Err("VK_KHR_xcb_surface".to_string())
    );
}

#[test]
fn missing_extensions_are_joined_in_order() {
    let available = names(&["VK_KHR_surface"]);
    let required =
        names(&["VK_EXT_debug_utils", "VK_KHR_surface", "VK_KHR_xcb_surface", "VK_KHR_display"]);
    assert_eq!(
        check_required_extensions(&available, &required),
        Err("VK_EXT_debug_utils, VK_KHR_xcb_surface, VK_KHR_display".to_string())
    );
    assert_eq!(
        check_required_extensions(&names(&[]), &names(&["b", "a", "b"])),
        Err("b, a, b".to_string())
    );
}

#[test]
fn missing_line_is_empty_where_nothing_is_missing() {
    assert_eq!(missing_line(&names(&["a", "b"]), &names(&["b"])), (0, String::new()));
    assert_eq!(
        missing_line(&names(&["a"]), &names(&["b", "a", "c"])),
        (2, "b, c".to_string())
    );
    assert_eq!(missing_line(&names(&[]), &names(&["a"])), (1, "a".to_string()));
}

#[test]
fn name_without_letters_is_missing_like_any_other() {
    assert_eq!(check_required_extensions(&names(&[]), &names(&[""])), Err(String::new()));
    assert_eq!(
        check_required_extensions(&names(&[]), &names(&["", "a"])),
        Err(", a".to_string())
    );
    assert_eq!(
        check_required_extensions(&names(&["a"]), &names(&["b", "", "a", ""])),
        Err("b, , ".to_string())
    );
    assert_eq!(check_required_extensions(&names(&["", "a"]), &names(&["", "a"])), Ok(()));
    assert_eq!(missing_line(&names(&[]), &names(&["", ""])), (2, ", ".to_string()));
}

#[test]
fn names_are_compared_whole() {
    assert!(contains_name(&names(&["VK_KHR_swapchain"]), &"VK_KHR_swapchain".to_string()));
    assert!(!contains_name(&names(&["VK_KHR_swapchain"]), &"VK_KHR_swap".to_string()));
    assert!(!contains_name(&names(&["VK_KHR_swap"]), &"VK_KHR_swapchain".to_string()));
    assert!(!contains_name(&names(&[]), &"".to_string()));
}

#[test]
fn validation_adds_the_debug_extension() {
    let window = names(&["VK_KHR_surface", "VK_KHR_xcb_surface"]);
    assert_eq!(
        get_required_extensions(window.clone(), true),
        names(&["VK_KHR_surface", "VK_KHR_xcb_surface", "VK_EXT_debug_utils"])
    );
    assert_eq!(get_required_extensions(window.clone(), false), window);
    assert_eq!(get_required_extensions(names(&[]), true), names(&["VK_EXT_debug_utils"]));
}

#[test]
fn debug_extension_name_is_that_of_the_driver() {
    let required = get_required_extensions(names(&[]), true);
    assert_eq!(required[0], ash::extensions::ext::DebugUtils::name().to_str().unwrap());
}

#[test]
fn swapchain_is_the_required_device_extension() {
    assert_eq!(get_required_device_extensions(), names(&["VK_KHR_swapchain"]));
    assert_eq!(
        get_required_device_extensions()[0],
        ash::extensions::khr::Swapchain::name().to_str().unwrap()
    );
}

#[test]
fn device_needs_the_swapchain_extension() {
    assert!(check_device_extension_support(&names(&["VK_KHR_maintenance1", "VK_KHR_swapchain"])));
    assert!(!check_device_extension_support(&names(&["VK_KHR_maintenance1"])));
    assert!(!check_device_extension_support(&names(&["VK_KHR_swapchain_mutable_format"])));
    assert!(!check_device_extension_support(&names(&[])));
}

#[test]
fn validation_needs_the_khronos_layer() {
    assert_eq!(get_validation_layer_names(true), names(&["VK_LAYER_KHRONOS_validation"]));
    assert_eq!(get_validation_layer_names(false), names(&[]));
}

#[test]
fn validation_layer_is_checked_only_with_validation() {
    let available = names(&["VK_LAYER_MESA_overlay", "VK_LAYER_KHRONOS_validation"]);
    assert_eq!(check_validation_layer_support(&available, true), Ok(()));
    assert_eq!(check_validation_layer_support(&available, false), Ok(()));
    let available = names(&["VK_LAYER_MESA_overlay"]);
    assert_eq!(
        check_validation_layer_support(&available, true),
        Err("VK_LAYER_KHRONOS_validation".to_string())
    );
    assert_eq!(check_validation_layer_support(&available, false), Ok(()));
}

#[test]
fn fatal_errors_name_what_is_missing() {
    let missing = check_required_extensions(&names(&[]), &names(&["a", "b"])).unwrap_err();
    assert_eq!(
        FatalError::MissingExtensions { names: missing }.message(),
        "Missing extensions: a, b"
    );
    assert_eq!(
        FatalError::MissingValidationLayers { names: "VK_LAYER_KHRONOS_validation".to_string() }
            .message(),
        "Missing validation layers: VK_LAYER_KHRONOS_validation"
    );
    assert_eq!(FatalError::NoSuitableDevice.message(), "Failed to find a suitable device.");
    assert_eq!(
        FatalError::GraphicsCall { call: "queue_submit".to_string() }.message(),
        "Graphics call failed: queue_submit"
    );
}

#[test]
fn fatal_errors_end_with_a_failure() {
    assert_eq!(FatalError::NoSuitableDevice.exit_code(), 1);
    assert_ne!(FatalError::MissingExtensions { names: String::new() }.exit_code(), 0);
}
