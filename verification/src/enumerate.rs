//! Device enumeration: a snapshot of the attached HID devices.
//!
//! Each call opens a transient backend context, maps every indexed
//! device to a fresh descriptor in backend enumeration order, and
//! retains no handle.  A system with zero devices yields an empty
//! sequence; only a backend that cannot be initialized at all counts as
//! a failure, and the sentinel surface turns even that into an empty
//! sequence.

use vstd::prelude::*;

use crate::backend;
use crate::descriptor::DeviceDescriptor;
use crate::descriptor::descriptor_from_info;
use crate::error::HidFailure;

verus! {

/// Maps a backend device index to descriptors, one per entry, keeping
/// the backend's enumeration order.
pub fn descriptors_from_infos(infos: &Vec<hidapi::DeviceInfo>) -> (descriptors: Vec<
    DeviceDescriptor,
>)
    ensures
        descriptors@.len() == infos@.len(),
{
    let mut descriptors: Vec<DeviceDescriptor> = Vec::new();
    let mut i: usize = 0;
    while i < infos.len()
        invariant
            i <= infos@.len(),
            descriptors@.len() == i,
        decreases infos@.len() - i,
    {
        descriptors.push(descriptor_from_info(&infos[i]));
        i = i + 1;
    }
    descriptors
}

/// Lists the currently attached devices over a transient backend
/// context; fails only when the device subsystem cannot be initialized.
pub fn try_list_devices() -> (outcome: Result<Vec<DeviceDescriptor>, HidFailure>)
    ensures
        outcome is Err ==> outcome == Err::<Vec<DeviceDescriptor>, HidFailure>(
            HidFailure::BackendUnavailable,
        ),
{
    match backend::api_new() {
        Ok(api) => {
            let infos = backend::api_device_infos(&api);
            Ok(descriptors_from_infos(&infos))
        },
        Err(_) => Err(HidFailure::BackendUnavailable),
    }
}

/// Sentinel surface of `try_list_devices`: the full ordered snapshot,
/// empty when no device is attached or the backend is unavailable —
/// enumeration itself is never a loud failure.
pub fn list_devices() -> Vec<DeviceDescriptor> {
    match try_list_devices() {
        Ok(descriptors) => descriptors,
        Err(_) => Vec::new(),
    }
}

} // verus!
