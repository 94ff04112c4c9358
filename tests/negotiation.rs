use renderer::builder::{build_request, check_catalog, requested_extensions, requested_layers, BootstrapConfig};
use renderer::error::{BootstrapError, DriverError};
use renderer::names::{contains_name, debug_utils_extension_name, khronos_validation_layer, same_name};

fn name(s: &str) -> Vec<u8> {
    s.as_bytes().to_vec()
}

fn window_extensions() -> Vec<Vec<u8>> {
    vec![name("VK_KHR_surface"), name("VK_KHR_xcb_surface")]
}

#[test]
fn debug_extension_name_is_debug_utils() {
    assert_eq!(debug_utils_extension_name(), b"VK_EXT_debug_utils".to_vec());
}

#[test]
fn validation_layer_is_khronos() {
    assert_eq!(khronos_validation_layer(), b"VK_LAYER_KHRONOS_validation".to_vec());
}

#[test]
fn names_compare_by_bytes() {
    assert!(same_name(&name("abc"), &name("abc")));
    assert!(!same_name(&name("abc"), &name("abd")));
    assert!(!same_name(&name("abc"), &name("ab")));
    assert!(same_name(&name(""), &name("")));
}

#[test]
fn contains_finds_listed_names_only() {
    let list = vec![name("VK_LAYER_A"), name("VK_LAYER_KHRONOS_validation")];
    assert!(contains_name(&list, &name("VK_LAYER_KHRONOS_validation")));
    assert!(!contains_name(&list, &name("VK_LAYER_B")));
    assert!(!contains_name(&Vec::new(), &name("VK_LAYER_A")));
}

#[test]
fn config_versions_are_one_zero_zero() {
    let c = BootstrapConfig::new(true);
    assert_eq!(c.application_version, 1 << 22);
    assert_eq!(c.api_version, 1 << 22);
    assert_eq!(c.application_name, "Cool Renderer");
    assert_eq!(c.engine_name, "No Engine");
    assert!(c.diagnostics_enabled);
    assert!(!BootstrapConfig::new(false).diagnostics_enabled);
}

#[test]
fn catalog_with_layer_passes() {
    let c = BootstrapConfig::new(true);
    let listed = Ok(vec![name("VK_LAYER_MESA_overlay"), name("VK_LAYER_KHRONOS_validation")]);
    assert_eq!(check_catalog(&c, &listed), Ok(()));
}

#[test]
fn catalog_without_layer_is_missing_validation_layer() {
    let c = BootstrapConfig::new(true);
    let listed = Ok(vec![name("VK_LAYER_MESA_overlay")]);
    assert_eq!(check_catalog(&c, &listed), Err(BootstrapError::MissingValidationLayer));
    assert_eq!(check_catalog(&c, &Ok(Vec::new())), Err(BootstrapError::MissingValidationLayer));
}

#[test]
fn failed_listing_is_propagated() {
    let c = BootstrapConfig::new(true);
    let e = DriverError { code: -1 };
    assert_eq!(check_catalog(&c, &Err(e)), Err(BootstrapError::LayerQueryFailed(e)));
}

#[test]
fn quiet_config_ignores_listing() {
    let c = BootstrapConfig::new(false);
    assert_eq!(check_catalog(&c, &Err(DriverError { code: -1 })), Ok(()));
    assert_eq!(check_catalog(&c, &Ok(Vec::new())), Ok(()));
}

#[test]
fn quiet_request_has_no_layers_and_window_extensions_only() {
    let c = BootstrapConfig::new(false);
    let r = build_request(&c, &Ok(Vec::new()), window_extensions()).unwrap();
    assert!(r.layers.is_empty());
    assert_eq!(r.extensions, window_extensions());
    assert_eq!(r.application_name, "Cool Renderer");
    assert_eq!(r.engine_name, "No Engine");
    assert_eq!(r.api_version, 1 << 22);
}

#[test]
fn diagnostic_request_appends_debug_extension_once() {
    let c = BootstrapConfig::new(true);
    let listed = Ok(vec![name("VK_LAYER_KHRONOS_validation")]);
    let r = build_request(&c, &listed, window_extensions()).unwrap();
    assert_eq!(r.layers, vec![name("VK_LAYER_KHRONOS_validation")]);
    let mut expected = window_extensions();
    expected.push(name("VK_EXT_debug_utils"));
    assert_eq!(r.extensions, expected);
    let n = r.extensions.iter().filter(|e| e.as_slice() == b"VK_EXT_debug_utils").count();
    assert_eq!(n, 1);
}

#[test]
fn diagnostic_request_without_layer_fails() {
    let c = BootstrapConfig::new(true);
    let r = build_request(&c, &Ok(vec![name("VK_LAYER_OTHER")]), window_extensions());
    assert!(matches!(r, Err(BootstrapError::MissingValidationLayer)));
}

#[test]
fn layer_and_extension_lists_follow_config() {
    let on = BootstrapConfig::new(true);
    let off = BootstrapConfig::new(false);
    assert_eq!(requested_layers(&on), vec![name("VK_LAYER_KHRONOS_validation")]);
    assert!(requested_layers(&off).is_empty());
    assert_eq!(requested_extensions(&off, Vec::new()), Vec::<Vec<u8>>::new());
    assert_eq!(requested_extensions(&on, Vec::new()), vec![name("VK_EXT_debug_utils")]);
}

#[test]
fn catalog_verdict_ignores_order_and_repeats() {
    let c = BootstrapConfig::new(true);
    let a = Ok(vec![name("X"), name("VK_LAYER_KHRONOS_validation")]);
    let b = Ok(vec![name("VK_LAYER_KHRONOS_validation"), name("X"), name("X")]);
    assert_eq!(check_catalog(&c, &a), check_catalog(&c, &b));
}
