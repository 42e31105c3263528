use hidlink::descriptor::DeviceDescriptor;
use hidlink::descriptor::string_or_empty;
use hidlink::error::HidFailure;
use hidlink::resolver::resolve_string;

#[test]
fn absent_backend_strings_default_to_empty() {
    let descriptor = DeviceDescriptor::from_backend_fields(
        "/dev/hidraw0".to_string(),
        0x046d,
        0xc216,
        None,
        0x0100,
        None,
        None,
        0x0001,
        0x0004,
        -1,
    );
    assert_eq!(descriptor.path, "/dev/hidraw0");
    assert_eq!(descriptor.vendor_id, 0x046d);
    assert_eq!(descriptor.product_id, 0xc216);
    assert_eq!(descriptor.serial_number, "");
    assert_eq!(descriptor.release_number, 0x0100);
    assert_eq!(descriptor.manufacturer_string, "");
    assert_eq!(descriptor.product_string, "");
    assert_eq!(descriptor.usage_page, 0x0001);
    assert_eq!(descriptor.usage, 0x0004);
    assert_eq!(descriptor.interface_number, -1);
}

#[test]
fn present_backend_strings_are_kept() {
    let descriptor = DeviceDescriptor::from_backend_fields(
        "path-7".to_string(),
        1,
        2,
        Some("SER-42".to_string()),
        3,
        Some("maker".to_string()),
        Some("gadget".to_string()),
        4,
        5,
        0,
    );
    assert_eq!(descriptor.serial_number, "SER-42");
    assert_eq!(descriptor.manufacturer_string, "maker");
    assert_eq!(descriptor.product_string, "gadget");
}

#[test]
fn string_or_empty_collapses_absence() {
    assert_eq!(string_or_empty(Some("abc".to_string())), "abc");
    assert_eq!(string_or_empty(None), "");
}

#[test]
fn resolve_string_returns_present_string() {
    let resolved = resolve_string(Ok(Some("Maker Inc".to_string())));
    assert_eq!(resolved, "Maker Inc");
}

#[test]
fn resolve_string_collapses_absent_and_failed() {
    assert_eq!(resolve_string(Ok(None)), "");
    assert_eq!(resolve_string(Err(HidFailure::IoError)), "");
    assert_eq!(resolve_string(Err(HidFailure::NotOpen)), "");
}
