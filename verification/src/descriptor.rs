//! Static metadata of an attached HID device.
//!
//! A descriptor is built fresh on each enumeration or `get_device_info`
//! call and is immutable once constructed.  Vendor and product ids are
//! always present; every string field defaults to the empty string when
//! the backend reports no value, never to a null-like placeholder.

use vstd::prelude::*;

use crate::backend;

verus! {

/// The static metadata of one attached device.
#[derive(Clone, Debug)]
pub struct DeviceDescriptor {
    /// Opaque platform identifier of the device.
    pub path: String,
    /// 16-bit vendor id.
    pub vendor_id: u16,
    /// 16-bit product id.
    pub product_id: u16,
    /// Serial number; empty when the device reports none.
    pub serial_number: String,
    /// Release/firmware number.
    pub release_number: u16,
    /// Manufacturer string; empty when the device reports none.
    pub manufacturer_string: String,
    /// Product string; empty when the device reports none.
    pub product_string: String,
    /// HID usage page.
    pub usage_page: u16,
    /// HID usage within the usage page.
    pub usage: u16,
    /// USB interface number; -1 when not applicable.
    pub interface_number: i32,
}

/// The characters a possibly-absent backend string contributes to a
/// descriptor: the string itself when present, nothing when absent.
pub open spec fn text_or_empty(text: Option<String>) -> Seq<char> {
    match text {
        Some(s) => s@,
        None => Seq::<char>::empty(),
    }
}

/// Collapses a possibly-absent backend string to the descriptor's
/// convention: absent becomes the empty string.
pub fn string_or_empty(text: Option<String>) -> (out: String)
    ensures
        out@ == text_or_empty(text),
{
    match text {
        Some(s) => s,
        None => String::new(),
    }
}

impl DeviceDescriptor {
    /// Builds a descriptor from the plain values the backend reports for
    /// one device, defaulting each absent string to empty.
    pub fn from_backend_fields(
        path: String,
        vendor_id: u16,
        product_id: u16,
        serial_number: Option<String>,
        release_number: u16,
        manufacturer_string: Option<String>,
        product_string: Option<String>,
        usage_page: u16,
        usage: u16,
        interface_number: i32,
    ) -> (descriptor: DeviceDescriptor)
        ensures
            descriptor.path == path,
            descriptor.vendor_id == vendor_id,
            descriptor.product_id == product_id,
            descriptor.serial_number@ == text_or_empty(serial_number),
            descriptor.release_number == release_number,
            descriptor.manufacturer_string@ == text_or_empty(manufacturer_string),
            descriptor.product_string@ == text_or_empty(product_string),
            descriptor.usage_page == usage_page,
            descriptor.usage == usage,
            descriptor.interface_number == interface_number,
    {
        DeviceDescriptor {
            path,
            vendor_id,
            product_id,
            serial_number: string_or_empty(serial_number),
            release_number,
            manufacturer_string: string_or_empty(manufacturer_string),
            product_string: string_or_empty(product_string),
            usage_page,
            usage,
            interface_number,
        }
    }
}

/// Maps one backend enumeration entry to a fresh descriptor, reading
/// each field through the trusted boundary; the opaque entry alone
/// decides the values, with absent strings defaulting to empty.
pub fn descriptor_from_info(info: &hidapi::DeviceInfo) -> DeviceDescriptor {
    DeviceDescriptor::from_backend_fields(
        backend::info_path(info),
        backend::info_vendor_id(info),
        backend::info_product_id(info),
        backend::info_serial_number(info),
        backend::info_release_number(info),
        backend::info_manufacturer_string(info),
        backend::info_product_string(info),
        backend::info_usage_page(info),
        backend::info_usage(info),
        backend::info_interface_number(info),
    )
}

} // verus!
