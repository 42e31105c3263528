use hidlink::enumerate::list_devices;
use hidlink::enumerate::try_list_devices;
use hidlink::error::HidFailure;

#[test]
fn enumeration_is_a_sequence_not_a_failure() {
    // On a host with no HID devices this returns the empty sequence; it
    // never panics and never signals failure through the sentinel surface.
    let devices = list_devices();
    for device in &devices {
        // Every entry is a fully built descriptor: its string fields are
        // owned values, present even when the device reported none.
        let rendered = format!("{:?}", device);
        assert!(!rendered.is_empty());
    }
}

#[test]
fn enumeration_fails_only_when_the_backend_is_unavailable() {
    match try_list_devices() {
        Ok(_) => {}
        Err(failure) => assert_eq!(failure, HidFailure::BackendUnavailable),
    }
}

#[test]
fn enumeration_is_a_fresh_snapshot_each_call() {
    let first = list_devices().len();
    let second = list_devices().len();
    assert_eq!(first, second);
}
