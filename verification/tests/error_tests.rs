use hidlink::error::HidFailure;

#[test]
fn message_names_each_failure() {
    assert_eq!(
        HidFailure::BackendUnavailable.message(),
        "failed to create the device backend"
    );
    assert_eq!(HidFailure::NotOpen.message(), "device not open");
    assert_eq!(HidFailure::OpenFailed.message(), "failed to open device");
    assert_eq!(HidFailure::IoError.message(), "device request failed");
    assert_eq!(
        HidFailure::EncodingError.message(),
        "string not representable in the platform encoding"
    );
}

#[test]
fn failure_categories_are_distinct() {
    assert_eq!(HidFailure::NotOpen, HidFailure::NotOpen);
    assert_ne!(HidFailure::NotOpen, HidFailure::IoError);
    assert_ne!(HidFailure::OpenFailed, HidFailure::BackendUnavailable);
}
