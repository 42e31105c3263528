use hidlink::error::HidFailure;
use hidlink::session::DeviceSession;

// Vendor/product ids from the reserved-for-testing range, which no real
// device on the test host carries.
const NO_SUCH_VID: u16 = 0xDEAD;
const NO_SUCH_PID: u16 = 0xBEEF;

#[test]
fn new_session_is_closed() {
    let session = DeviceSession::new();
    assert!(!session.is_open());
}

#[test]
fn default_session_is_closed() {
    let session = DeviceSession::default();
    assert!(!session.is_open());
}

#[test]
fn close_is_idempotent() {
    let mut session = DeviceSession::new();
    session.close();
    session.close();
    assert!(!session.is_open());
}

#[test]
fn closed_write_returns_minus_one() {
    let mut session = DeviceSession::new();
    assert_eq!(session.write(&[0u8, 1, 2]), -1);
    assert!(!session.is_open());
}

#[test]
fn closed_read_returns_empty_buffer() {
    let mut session = DeviceSession::new();
    assert!(session.read(64).is_empty());
    assert!(!session.is_open());
}

#[test]
fn closed_read_timeout_returns_empty_buffer() {
    let mut session = DeviceSession::new();
    assert!(session.read_timeout(64, 0).is_empty());
    assert!(session.read_timeout(64, -1).is_empty());
    assert!(!session.is_open());
}

#[test]
fn closed_send_feature_report_returns_false() {
    let mut session = DeviceSession::new();
    assert!(!session.send_feature_report(&[0u8, 7]));
    assert!(!session.is_open());
}

#[test]
fn closed_get_feature_report_returns_empty_buffer() {
    let mut session = DeviceSession::new();
    assert!(session.get_feature_report(3).is_empty());
    assert!(!session.is_open());
}

#[test]
fn closed_set_blocking_mode_returns_false() {
    let mut session = DeviceSession::new();
    assert!(!session.set_blocking_mode(true));
    assert!(!session.set_blocking_mode(false));
    assert!(!session.is_open());
}

#[test]
fn closed_get_device_info_returns_nothing() {
    let session = DeviceSession::new();
    assert!(session.get_device_info().is_none());
}

#[test]
fn closed_string_getters_return_empty() {
    let session = DeviceSession::new();
    assert_eq!(session.get_manufacturer_string(), "");
    assert_eq!(session.get_product_string(), "");
    assert_eq!(session.get_serial_number_string(), "");
    assert_eq!(session.get_indexed_string(1), "");
}

#[test]
fn closed_try_operations_report_not_open() {
    let mut session = DeviceSession::new();
    assert_eq!(session.try_write(&[0u8]).unwrap_err(), HidFailure::NotOpen);
    assert_eq!(session.try_read(16).unwrap_err(), HidFailure::NotOpen);
    assert_eq!(
        session.try_read_timeout(16, 0).unwrap_err(),
        HidFailure::NotOpen
    );
    assert_eq!(
        session.try_send_feature_report(&[0u8]).unwrap_err(),
        HidFailure::NotOpen
    );
    assert_eq!(
        session.try_get_feature_report(0).unwrap_err(),
        HidFailure::NotOpen
    );
    assert_eq!(
        session.try_set_blocking_mode(true).unwrap_err(),
        HidFailure::NotOpen
    );
    assert_eq!(
        session.try_get_device_info().unwrap_err(),
        HidFailure::NotOpen
    );
    assert_eq!(
        session.try_get_manufacturer_string().unwrap_err(),
        HidFailure::NotOpen
    );
    assert_eq!(
        session.try_get_product_string().unwrap_err(),
        HidFailure::NotOpen
    );
    assert_eq!(
        session.try_get_serial_number_string().unwrap_err(),
        HidFailure::NotOpen
    );
    assert_eq!(
        session.try_get_indexed_string(0).unwrap_err(),
        HidFailure::NotOpen
    );
    assert!(!session.is_open());
}

#[test]
fn open_with_nonexistent_ids_fails_and_stays_closed() {
    let mut session = DeviceSession::new();
    assert!(!session.open(NO_SUCH_VID, NO_SUCH_PID));
    assert!(!session.is_open());
}

#[test]
fn open_serial_with_nonexistent_ids_fails_and_stays_closed() {
    let mut session = DeviceSession::new();
    assert!(!session.open_serial(NO_SUCH_VID, NO_SUCH_PID, "NO-SUCH-SERIAL"));
    assert!(!session.is_open());
}

#[test]
fn open_path_with_nul_byte_is_encoding_error() {
    let mut session = DeviceSession::new();
    assert_eq!(
        session.try_open_path("bad\0path").unwrap_err(),
        HidFailure::EncodingError
    );
    assert!(!session.open_path("bad\0path"));
    assert!(!session.is_open());
}

#[test]
fn open_path_with_nonexistent_path_fails_and_stays_closed() {
    let mut session = DeviceSession::new();
    assert!(!session.open_path("/no/such/hid/device/path"));
    assert!(!session.is_open());
}

#[test]
fn failed_open_reports_a_category_not_a_panic() {
    let mut session = DeviceSession::new();
    match session.try_open(NO_SUCH_VID, NO_SUCH_PID) {
        Ok(()) => panic!("a reserved id pair must not resolve to a device"),
        Err(failure) => assert!(
            failure == HidFailure::OpenFailed || failure == HidFailure::BackendUnavailable
        ),
    }
    assert!(!session.is_open());
}
