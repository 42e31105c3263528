//! Trusted boundary to the platform HID capability.
//!
//! Everything the library needs from the `hidapi` crate passes through
//! the declarations and wrappers in this module.  Each wrapper makes one
//! backend call and converts its arguments and result; what a contract
//! here claims is exactly what the backend's source shows of every
//! possible outcome, since reads, writes and opens depend on the devices
//! attached at run time.
//!
//! The backend's per-handle metadata query is deliberately not wrapped:
//! on the compiled Linux backend it indexes the first entry of a vector
//! that is empty for a device whose report descriptor lists no usages,
//! aborting the process.  The enumeration path drops such entries
//! harmlessly, so the library resolves an open device's metadata by
//! re-enumerating instead (see the session's string and info getters).

use vstd::prelude::*;
use vstd::string::StringSliceAdditionalSpecFns;

verus! {

#[verifier::external_type_specification]
#[verifier::external_body]
pub struct ExHidApi(hidapi::HidApi);

#[verifier::external_type_specification]
#[verifier::external_body]
pub struct ExHidDevice(hidapi::HidDevice);

#[verifier::external_type_specification]
#[verifier::external_body]
pub struct ExDeviceInfo(hidapi::DeviceInfo);

#[verifier::external_type_specification]
#[verifier::external_body]
pub struct ExHidError(hidapi::HidError);

/// Relies on `hidapi::HidApi::new`: creates a fresh backend context and
/// indexes the currently attached devices; fails when the device
/// subsystem cannot be initialized.
#[verifier::external_body]
pub(crate) fn api_new() -> Result<hidapi::HidApi, hidapi::HidError> {
    hidapi::HidApi::new()
}

/// Relies on `hidapi::HidApi::device_list`: hands out the context's
/// device index, one entry per attached device, in backend order.
#[verifier::external_body]
pub(crate) fn api_device_infos(api: &hidapi::HidApi) -> Vec<hidapi::DeviceInfo> {
    api.device_list().cloned().collect()
}

/// Relies on `hidapi::HidApi::open`: opens the first indexed device with
/// the given vendor and product ids; fails when none matches or the
/// backend rejects the open.
#[verifier::external_body]
pub(crate) fn api_open(
    api: &hidapi::HidApi,
    vid: u16,
    pid: u16,
) -> Result<hidapi::HidDevice, hidapi::HidError> {
    api.open(vid, pid)
}

/// Relies on `hidapi::HidApi::open_serial`: like `open`, additionally
/// filtered by exact serial-number match.
#[verifier::external_body]
pub(crate) fn api_open_serial(
    api: &hidapi::HidApi,
    vid: u16,
    pid: u16,
    serial: &str,
) -> Result<hidapi::HidDevice, hidapi::HidError> {
    api.open_serial(vid, pid, serial)
}

/// Relies on `hidapi::HidApi::open_path`: opens the device at the exact
/// platform path; fails when the path does not name a device the
/// backend can open.  The platform takes the path as a NUL-terminated C
/// string, so a path with an interior NUL byte cannot be handed over
/// and is excluded here; the backend itself rejects every handed-over
/// path it cannot open, without panicking.
#[verifier::external_body]
pub(crate) fn api_open_path(
    api: &hidapi::HidApi,
    path: &str,
) -> Result<hidapi::HidDevice, hidapi::HidError>
    requires
        forall|i: int| 0 <= i < path.spec_bytes().len() ==> path.spec_bytes()[i] != 0u8,
{
    let mut bytes = path.as_bytes().to_vec();
    bytes.push(0);
    api.open_path(core::ffi::CStr::from_bytes_with_nul(&bytes).unwrap())
}

/// Relies on `hidapi::DeviceInfo::path`: the opaque platform identifier
/// of the enumerated device, rendered as text.
#[verifier::external_body]
pub(crate) fn info_path(info: &hidapi::DeviceInfo) -> String {
    info.path().to_string_lossy().to_string()
}

/// Relies on `hidapi::DeviceInfo::vendor_id`.
#[verifier::external_body]
pub(crate) fn info_vendor_id(info: &hidapi::DeviceInfo) -> u16 {
    info.vendor_id()
}

/// Relies on `hidapi::DeviceInfo::product_id`.
#[verifier::external_body]
pub(crate) fn info_product_id(info: &hidapi::DeviceInfo) -> u16 {
    info.product_id()
}

/// Relies on `hidapi::DeviceInfo::serial_number`: present only when the
/// backend recorded a serial-number string for the device.
#[verifier::external_body]
pub(crate) fn info_serial_number(info: &hidapi::DeviceInfo) -> Option<String> {
    info.serial_number().map(|s| s.to_string())
}

/// Relies on `hidapi::DeviceInfo::release_number`.
#[verifier::external_body]
pub(crate) fn info_release_number(info: &hidapi::DeviceInfo) -> u16 {
    info.release_number()
}

/// Relies on `hidapi::DeviceInfo::manufacturer_string`.
#[verifier::external_body]
pub(crate) fn info_manufacturer_string(info: &hidapi::DeviceInfo) -> Option<String> {
    info.manufacturer_string().map(|s| s.to_string())
}

/// Relies on `hidapi::DeviceInfo::product_string`.
#[verifier::external_body]
pub(crate) fn info_product_string(info: &hidapi::DeviceInfo) -> Option<String> {
    info.product_string().map(|s| s.to_string())
}

/// Relies on `hidapi::DeviceInfo::usage_page`.
#[verifier::external_body]
pub(crate) fn info_usage_page(info: &hidapi::DeviceInfo) -> u16 {
    info.usage_page()
}

/// Relies on `hidapi::DeviceInfo::usage`.
#[verifier::external_body]
pub(crate) fn info_usage(info: &hidapi::DeviceInfo) -> u16 {
    info.usage()
}

/// Relies on `hidapi::DeviceInfo::interface_number`: -1 when not
/// applicable on the platform.
#[verifier::external_body]
pub(crate) fn info_interface_number(info: &hidapi::DeviceInfo) -> i32 {
    info.interface_number()
}

/// Relies on `hidapi::HidDevice::write`: sends the buffer verbatim and,
/// on success, returns the number of bytes actually written out of
/// `data`, which never exceeds the buffer's length.
#[verifier::external_body]
pub(crate) fn dev_write(
    dev: &hidapi::HidDevice,
    data: &[u8],
) -> (outcome: Result<usize, hidapi::HidError>)
    ensures
        outcome matches Ok(written) ==> written <= data@.len(),
{
    dev.write(data)
}

/// Relies on `hidapi::HidDevice::read`: fills a prefix of `buf` with the
/// bytes received and returns their count, never more than the buffer
/// holds; waits according to the handle's blocking mode.
#[verifier::external_body]
pub(crate) fn dev_read(
    dev: &hidapi::HidDevice,
    buf: &mut Vec<u8>,
) -> (outcome: Result<usize, hidapi::HidError>)
    ensures
        final(buf)@.len() == old(buf)@.len(),
        outcome matches Ok(received) ==> received <= old(buf)@.len(),
{
    dev.read(buf.as_mut_slice())
}

/// Relies on `hidapi::HidDevice::read_timeout`: like `read`, but waits at
/// most `timeout` milliseconds; -1 blocks indefinitely, 0 polls once.
#[verifier::external_body]
pub(crate) fn dev_read_timeout(
    dev: &hidapi::HidDevice,
    buf: &mut Vec<u8>,
    timeout: i32,
) -> (outcome: Result<usize, hidapi::HidError>)
    ensures
        final(buf)@.len() == old(buf)@.len(),
        outcome matches Ok(received) ==> received <= old(buf)@.len(),
{
    dev.read_timeout(buf.as_mut_slice(), timeout)
}

/// Relies on `hidapi::HidDevice::send_feature_report`: hands the framed
/// buffer to the device over the control endpoint, verbatim.
#[verifier::external_body]
pub(crate) fn dev_send_feature_report(
    dev: &hidapi::HidDevice,
    data: &[u8],
) -> Result<(), hidapi::HidError> {
    dev.send_feature_report(data)
}

/// Relies on `hidapi::HidDevice::get_feature_report`: fills a prefix of
/// `buf` (whose first byte names the requested Report ID) and returns how
/// many bytes are meaningful, never more than the buffer holds.
#[verifier::external_body]
pub(crate) fn dev_get_feature_report(
    dev: &hidapi::HidDevice,
    buf: &mut Vec<u8>,
) -> (outcome: Result<usize, hidapi::HidError>)
    ensures
        final(buf)@.len() == old(buf)@.len(),
        outcome matches Ok(received) ==> received <= old(buf)@.len(),
{
    dev.get_feature_report(buf.as_mut_slice())
}

/// Relies on `hidapi::HidDevice::set_blocking_mode`: switches how later
/// `read` calls on this handle wait for data.
#[verifier::external_body]
pub(crate) fn dev_set_blocking_mode(
    dev: &hidapi::HidDevice,
    blocking: bool,
) -> Result<(), hidapi::HidError> {
    dev.set_blocking_mode(blocking)
}

/// Relies on `hidapi::HidDevice::get_indexed_string`: the device string
/// at the given descriptor index, `Ok(None)` when absent.  The compiled
/// Linux backend leaves this at the crate's unimplemented default, which
/// returns an error unconditionally — the same holds for every hidraw
/// backend, so callers see a plain query failure.
#[verifier::external_body]
pub(crate) fn dev_get_indexed_string(
    dev: &hidapi::HidDevice,
    index: i32,
) -> Result<Option<String>, hidapi::HidError> {
    dev.get_indexed_string(index)
}

} // verus!
