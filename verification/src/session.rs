//! The device session: a Closed/Open state machine over at most one
//! backend handle.
//!
//! A session starts Closed.  It becomes Open only through a successful
//! `open`, `open_serial` or `open_path` call, each of which re-creates
//! the backend context independently of any prior enumeration.  Opening
//! over an already-Open session replaces the handle, releasing the old
//! one.  Every data-path operation on a Closed session returns the
//! defined `NotOpen` failure and leaves the session unchanged; no
//! operation panics.
//!
//! Alongside the handle the session keeps the identity the device was
//! selected by, so metadata and string queries can find the same device
//! again in a live enumeration — the backend's per-handle metadata
//! query can abort the process on a device whose report descriptor
//! lists no usages, while the enumeration path skips such entries.

use vstd::prelude::*;
use vstd::string::StringSliceAdditionalSpecFns;

use crate::backend;
use crate::codec;
use crate::descriptor::DeviceDescriptor;
use crate::descriptor::descriptor_from_info;
use crate::error::HidFailure;
use crate::resolver::resolve_string;

verus! {

/// Whether a byte sequence holds a NUL byte, which the platform's
/// C-string path encoding cannot represent.
pub open spec fn has_nul_byte(bytes: Seq<u8>) -> bool {
    exists|i: int| 0 <= i < bytes.len() && bytes[i] == 0u8
}

/// Checks a caller-supplied path for NUL bytes before it is handed to
/// the platform, which requires a NUL-terminated encoding.
fn contains_nul(path: &str) -> (found: bool)
    ensures
        found == has_nul_byte(path.spec_bytes()),
{
    let bytes = path.as_bytes();
    let mut i: usize = 0;
    while i < bytes.len()
        invariant
            i <= bytes@.len(),
            bytes@ == path.spec_bytes(),
            forall|j: int| 0 <= j < i ==> bytes@[j] != 0u8,
        decreases bytes@.len() - i,
    {
        if bytes[i] == 0 {
            return true;
        }
        i = i + 1;
    }
    false
}

/// How the open handle's device was selected, kept so the session can
/// find the same device again in a live enumeration.
enum OpenIdentity {
    /// The first device matching a vendor/product id pair, the order the
    /// backend's own open uses.
    ByIds(u16, u16),
    /// The device matching a vendor/product id pair and this exact
    /// serial number.
    BySerial(u16, u16, String),
    /// The device at this exact platform path.
    ByPath(String),
}

/// Whether one enumeration entry describes the device an identity names.
fn identity_matches(identity: &OpenIdentity, info: &hidapi::DeviceInfo) -> bool {
    match identity {
        OpenIdentity::ByIds(vid, pid) => {
            backend::info_vendor_id(info) == *vid && backend::info_product_id(info) == *pid
        },
        OpenIdentity::BySerial(vid, pid, serial) => {
            backend::info_vendor_id(info) == *vid && backend::info_product_id(info) == *pid
                && match backend::info_serial_number(info) {
                Some(found) => found == *serial,
                None => false,
            }
        },
        OpenIdentity::ByPath(path) => {
            let found = backend::info_path(info);
            found == *path
        },
    }
}

/// The first enumeration entry the identity names, if any.
fn find_identity(infos: &Vec<hidapi::DeviceInfo>, identity: &OpenIdentity) -> (found: Option<
    usize,
>)
    ensures
        found matches Some(index) ==> index < infos@.len(),
{
    let mut i: usize = 0;
    while i < infos.len()
        invariant
            i <= infos@.len(),
        decreases infos@.len() - i,
    {
        if identity_matches(identity, &infos[i]) {
            return Some(i);
        }
        i = i + 1;
    }
    None
}

/// A communication session with at most one HID device.
///
/// The single optional field makes the ownership invariant structural:
/// a session in the Open state holds exactly one backend handle (with
/// the identity it was selected by), a Closed session holds none, and
/// replacing the field on re-open releases the previous handle.
pub struct DeviceSession {
    dev: Option<(hidapi::HidDevice, OpenIdentity)>,
}

impl Default for DeviceSession {
    /// A fresh session, in the Closed state, exactly as `new` builds it.
    fn default() -> (session: Self)
        ensures
            !session.spec_is_open(),
    {
        DeviceSession::new()
    }
}

impl DeviceSession {
    /// Whether the session is in the Open state, holding a handle.
    pub closed spec fn spec_is_open(&self) -> bool {
        self.dev is Some
    }

    /// Reports the session's current state.
    #[verifier::when_used_as_spec(spec_is_open)]
    pub fn is_open(&self) -> (open: bool)
        ensures
            open == self.spec_is_open(),
    {
        self.dev.is_some()
    }

    /// A fresh session, in the Closed state.
    pub fn new() -> (session: DeviceSession)
        ensures
            !session.spec_is_open(),
    {
        DeviceSession { dev: None }
    }

    /// Releases the handle, if any, returning the session to Closed;
    /// idempotent when already Closed.
    pub fn close(&mut self)
        ensures
            !final(self).spec_is_open(),
    {
        self.dev = None;
    }

    /// Finds the open session's device in a fresh enumeration, by the
    /// identity it was opened with; the entry carries the device's
    /// current backend-reported metadata.  A session whose device has
    /// gone away since the open reports a plain query failure.
    fn live_info(&self) -> (outcome: Result<(Vec<hidapi::DeviceInfo>, usize), HidFailure>)
        ensures
            !self.spec_is_open() ==> outcome == Err::<
                (Vec<hidapi::DeviceInfo>, usize),
                HidFailure,
            >(HidFailure::NotOpen),
            outcome is Ok ==> self.spec_is_open(),
            self.spec_is_open() ==> (outcome is Ok || outcome == Err::<
                (Vec<hidapi::DeviceInfo>, usize),
                HidFailure,
            >(HidFailure::IoError)),
            outcome matches Ok(found) ==> found.1 < found.0@.len(),
    {
        match &self.dev {
            Some((_, identity)) => match backend::api_new() {
                Ok(api) => {
                    let infos = backend::api_device_infos(&api);
                    match find_identity(&infos, identity) {
                        Some(index) => Ok((infos, index)),
                        None => Err(HidFailure::IoError),
                    }
                },
                Err(_) => Err(HidFailure::IoError),
            },
            None => Err(HidFailure::NotOpen),
        }
    }

    /// Opens the first device matching the vendor/product id pair over a
    /// fresh backend context.  On failure the session is left exactly as
    /// it was, Closed or still Open on the previous handle.
    pub fn try_open(&mut self, vid: u16, pid: u16) -> (outcome: Result<(), HidFailure>)
        ensures
            outcome is Ok ==> final(self).spec_is_open(),
            outcome is Err ==> *final(self) == *old(self),
            outcome is Err ==> (outcome->Err_0 == HidFailure::BackendUnavailable
                || outcome->Err_0 == HidFailure::OpenFailed),
    {
        match backend::api_new() {
            Ok(api) => match backend::api_open(&api, vid, pid) {
                Ok(dev) => {
                    self.dev = Some((dev, OpenIdentity::ByIds(vid, pid)));
                    Ok(())
                },
                Err(_) => Err(HidFailure::OpenFailed),
            },
            Err(_) => Err(HidFailure::BackendUnavailable),
        }
    }

    /// Like `try_open`, additionally filtered by exact serial-number
    /// match.
    pub fn try_open_serial(&mut self, vid: u16, pid: u16, serial: &str) -> (outcome: Result<
        (),
        HidFailure,
    >)
        ensures
            outcome is Ok ==> final(self).spec_is_open(),
            outcome is Err ==> *final(self) == *old(self),
            outcome is Err ==> (outcome->Err_0 == HidFailure::BackendUnavailable
                || outcome->Err_0 == HidFailure::OpenFailed),
    {
        match backend::api_new() {
            Ok(api) => match backend::api_open_serial(&api, vid, pid, serial) {
                Ok(dev) => {
                    self.dev = Some((dev, OpenIdentity::BySerial(vid, pid, serial.to_owned())));
                    Ok(())
                },
                Err(_) => Err(HidFailure::OpenFailed),
            },
            Err(_) => Err(HidFailure::BackendUnavailable),
        }
    }

    /// Opens the device at an exact opaque platform path.  A path the
    /// platform encoding cannot represent is rejected as
    /// `EncodingError`, exactly when it holds a NUL byte; a handed-over
    /// path the backend cannot open fails as `OpenFailed`.
    pub fn try_open_path(&mut self, path: &str) -> (outcome: Result<(), HidFailure>)
        ensures
            outcome is Ok ==> final(self).spec_is_open(),
            outcome is Err ==> *final(self) == *old(self),
            (outcome == Err::<(), HidFailure>(HidFailure::EncodingError)) == has_nul_byte(
                path.spec_bytes(),
            ),
            outcome is Err ==> (outcome->Err_0 == HidFailure::BackendUnavailable
                || outcome->Err_0 == HidFailure::OpenFailed || outcome->Err_0
                == HidFailure::EncodingError),
    {
        if contains_nul(path) {
            return Err(HidFailure::EncodingError);
        }
        proof {
            assert forall|i: int|
                0 <= i < path.spec_bytes().len() implies path.spec_bytes()[i] != 0u8 by {
                if path.spec_bytes()[i] == 0u8 {
                    assert(has_nul_byte(path.spec_bytes()));
                }
            }
        }
        match backend::api_new() {
            Ok(api) => match backend::api_open_path(&api, path) {
                Ok(dev) => {
                    self.dev = Some((dev, OpenIdentity::ByPath(path.to_owned())));
                    Ok(())
                },
                Err(_) => Err(HidFailure::OpenFailed),
            },
            Err(_) => Err(HidFailure::BackendUnavailable),
        }
    }

    /// Sends one report.  The buffer must already carry the leading
    /// Report ID byte and is passed to the backend verbatim; on success
    /// the count of bytes actually written is returned.
    pub fn try_write(&mut self, data: &[u8]) -> (outcome: Result<usize, HidFailure>)
        ensures
            *final(self) == *old(self),
            !old(self).spec_is_open() ==> outcome == Err::<usize, HidFailure>(HidFailure::NotOpen),
            outcome matches Ok(written) ==> written <= data@.len(),
            outcome is Ok ==> old(self).spec_is_open(),
            old(self).spec_is_open() ==> (outcome is Ok || outcome == Err::<usize, HidFailure>(
                HidFailure::IoError,
            )),
    {
        match &self.dev {
            Some((dev, _)) => match backend::dev_write(dev, data) {
                Ok(written) => Ok(written),
                Err(_) => Err(HidFailure::IoError),
            },
            None => Err(HidFailure::NotOpen),
        }
    }

    /// Reads one report into a fresh `size`-byte scratch buffer,
    /// waiting according to the session's blocking mode, and returns
    /// only the bytes actually received, truncated rather than
    /// zero-padded.
    pub fn try_read(&mut self, size: u32) -> (outcome: Result<Vec<u8>, HidFailure>)
        ensures
            *final(self) == *old(self),
            !old(self).spec_is_open() ==> outcome == Err::<Vec<u8>, HidFailure>(
                HidFailure::NotOpen,
            ),
            outcome matches Ok(data) ==> data@.len() <= size,
            outcome is Ok ==> old(self).spec_is_open(),
            old(self).spec_is_open() ==> (outcome is Ok || outcome == Err::<Vec<u8>, HidFailure>(
                HidFailure::IoError,
            )),
    {
        match &self.dev {
            Some((dev, _)) => {
                let mut buf = codec::scratch_buffer(size as usize);
                match backend::dev_read(dev, &mut buf) {
                    Ok(received) => Ok(codec::received_prefix(&buf, received)),
                    Err(_) => Err(HidFailure::IoError),
                }
            },
            None => Err(HidFailure::NotOpen),
        }
    }

    /// Like `try_read`, but waits at most `timeout_ms` milliseconds: -1
    /// blocks indefinitely, 0 is a single non-blocking poll.
    pub fn try_read_timeout(&mut self, size: u32, timeout_ms: i32) -> (outcome: Result<
        Vec<u8>,
        HidFailure,
    >)
        ensures
            *final(self) == *old(self),
            !old(self).spec_is_open() ==> outcome == Err::<Vec<u8>, HidFailure>(
                HidFailure::NotOpen,
            ),
            outcome matches Ok(data) ==> data@.len() <= size,
            outcome is Ok ==> old(self).spec_is_open(),
            old(self).spec_is_open() ==> (outcome is Ok || outcome == Err::<Vec<u8>, HidFailure>(
                HidFailure::IoError,
            )),
    {
        match &self.dev {
            Some((dev, _)) => {
                let mut buf = codec::scratch_buffer(size as usize);
                match backend::dev_read_timeout(dev, &mut buf, timeout_ms) {
                    Ok(received) => Ok(codec::received_prefix(&buf, received)),
                    Err(_) => Err(HidFailure::IoError),
                }
            },
            None => Err(HidFailure::NotOpen),
        }
    }

    /// Sends one feature report over the control endpoint.  The buffer
    /// must already carry the leading Report ID byte and goes out
    /// verbatim.
    pub fn try_send_feature_report(&mut self, data: &[u8]) -> (outcome: Result<(), HidFailure>)
        ensures
            *final(self) == *old(self),
            !old(self).spec_is_open() ==> outcome == Err::<(), HidFailure>(HidFailure::NotOpen),
            outcome is Ok ==> old(self).spec_is_open(),
            old(self).spec_is_open() ==> (outcome is Ok || outcome == Err::<(), HidFailure>(
                HidFailure::IoError,
            )),
    {
        match &self.dev {
            Some((dev, _)) => match backend::dev_send_feature_report(dev, data) {
                Ok(_) => Ok(()),
                Err(_) => Err(HidFailure::IoError),
            },
            None => Err(HidFailure::NotOpen),
        }
    }

    /// Reads the feature report with the given Report ID through a
    /// two-byte probe buffer; the returned payload excludes the leading
    /// Report ID byte, so it is always at least one byte shorter than
    /// what the backend reported meaningful.
    pub fn try_get_feature_report(&mut self, report_id: u8) -> (outcome: Result<
        Vec<u8>,
        HidFailure,
    >)
        ensures
            *final(self) == *old(self),
            !old(self).spec_is_open() ==> outcome == Err::<Vec<u8>, HidFailure>(
                HidFailure::NotOpen,
            ),
            outcome matches Ok(payload) ==> payload@.len() <= 1,
            outcome is Ok ==> old(self).spec_is_open(),
            old(self).spec_is_open() ==> (outcome is Ok || outcome == Err::<Vec<u8>, HidFailure>(
                HidFailure::IoError,
            )),
    {
        match &self.dev {
            Some((dev, _)) => {
                let mut probe = codec::feature_probe(report_id);
                match backend::dev_get_feature_report(dev, &mut probe) {
                    Ok(received) => {
                        if received >= 1 {
                            Ok(codec::strip_report_id(&probe, received))
                        } else {
                            Ok(Vec::new())
                        }
                    },
                    Err(_) => Err(HidFailure::IoError),
                }
            },
            None => Err(HidFailure::NotOpen),
        }
    }

    /// Switches how later `read` calls on this session wait for data;
    /// `read_timeout` is unaffected, its explicit timeout rules.
    pub fn try_set_blocking_mode(&mut self, blocking: bool) -> (outcome: Result<(), HidFailure>)
        ensures
            *final(self) == *old(self),
            !old(self).spec_is_open() ==> outcome == Err::<(), HidFailure>(HidFailure::NotOpen),
            outcome is Ok ==> old(self).spec_is_open(),
            old(self).spec_is_open() ==> (outcome is Ok || outcome == Err::<(), HidFailure>(
                HidFailure::IoError,
            )),
    {
        match &self.dev {
            Some((dev, _)) => match backend::dev_set_blocking_mode(dev, blocking) {
                Ok(_) => Ok(()),
                Err(_) => Err(HidFailure::IoError),
            },
            None => Err(HidFailure::NotOpen),
        }
    }

    /// The open device's current metadata, built into a fresh descriptor
    /// on every call rather than cached from open time: the session's
    /// device is found again in a live enumeration, so the entry
    /// reflects what the backend reports now.
    pub fn try_get_device_info(&self) -> (outcome: Result<DeviceDescriptor, HidFailure>)
        ensures
            !self.spec_is_open() ==> outcome == Err::<DeviceDescriptor, HidFailure>(
                HidFailure::NotOpen,
            ),
            outcome is Ok ==> self.spec_is_open(),
            self.spec_is_open() ==> (outcome is Ok || outcome == Err::<
                DeviceDescriptor,
                HidFailure,
            >(HidFailure::IoError)),
    {
        match self.live_info() {
            Ok((infos, index)) => Ok(descriptor_from_info(&infos[index])),
            Err(failure) => Err(failure),
        }
    }

    /// Queries the open device for its manufacturer string, with the
    /// three-way outcome: a failure, success with no string present, or
    /// success with the string.
    pub fn try_get_manufacturer_string(&self) -> (outcome: Result<Option<String>, HidFailure>)
        ensures
            !self.spec_is_open() ==> outcome == Err::<Option<String>, HidFailure>(
                HidFailure::NotOpen,
            ),
            outcome is Ok ==> self.spec_is_open(),
            self.spec_is_open() ==> (outcome is Ok || outcome == Err::<Option<String>, HidFailure>(
                HidFailure::IoError,
            )),
    {
        match self.live_info() {
            Ok((infos, index)) => Ok(backend::info_manufacturer_string(&infos[index])),
            Err(failure) => Err(failure),
        }
    }

    /// Queries the open device for its product string, with the same
    /// three-way outcome as the manufacturer string.
    pub fn try_get_product_string(&self) -> (outcome: Result<Option<String>, HidFailure>)
        ensures
            !self.spec_is_open() ==> outcome == Err::<Option<String>, HidFailure>(
                HidFailure::NotOpen,
            ),
            outcome is Ok ==> self.spec_is_open(),
            self.spec_is_open() ==> (outcome is Ok || outcome == Err::<Option<String>, HidFailure>(
                HidFailure::IoError,
            )),
    {
        match self.live_info() {
            Ok((infos, index)) => Ok(backend::info_product_string(&infos[index])),
            Err(failure) => Err(failure),
        }
    }

    /// Queries the open device for its serial-number string, with the
    /// same three-way outcome as the manufacturer string.
    pub fn try_get_serial_number_string(&self) -> (outcome: Result<Option<String>, HidFailure>)
        ensures
            !self.spec_is_open() ==> outcome == Err::<Option<String>, HidFailure>(
                HidFailure::NotOpen,
            ),
            outcome is Ok ==> self.spec_is_open(),
            self.spec_is_open() ==> (outcome is Ok || outcome == Err::<Option<String>, HidFailure>(
                HidFailure::IoError,
            )),
    {
        match self.live_info() {
            Ok((infos, index)) => Ok(backend::info_serial_number(&infos[index])),
            Err(failure) => Err(failure),
        }
    }

    /// Queries the open device for the string at a caller-supplied
    /// descriptor index, with the same three-way outcome.
    pub fn try_get_indexed_string(&self, index: i32) -> (outcome: Result<Option<String>, HidFailure>)
        ensures
            !self.spec_is_open() ==> outcome == Err::<Option<String>, HidFailure>(
                HidFailure::NotOpen,
            ),
            outcome is Ok ==> self.spec_is_open(),
            self.spec_is_open() ==> (outcome is Ok || outcome == Err::<Option<String>, HidFailure>(
                HidFailure::IoError,
            )),
    {
        match &self.dev {
            Some((dev, _)) => match backend::dev_get_indexed_string(dev, index) {
                Ok(text) => Ok(text),
                Err(_) => Err(HidFailure::IoError),
            },
            None => Err(HidFailure::NotOpen),
        }
    }

    /// Sentinel surface of `try_get_manufacturer_string`: the string
    /// when present, else empty — absence and failure are
    /// indistinguishable here by design.
    pub fn get_manufacturer_string(&self) -> (text: String)
        ensures
            !self.spec_is_open() ==> text@ == Seq::<char>::empty(),
    {
        resolve_string(self.try_get_manufacturer_string())
    }

    /// Sentinel surface of `try_get_product_string`.
    pub fn get_product_string(&self) -> (text: String)
        ensures
            !self.spec_is_open() ==> text@ == Seq::<char>::empty(),
    {
        resolve_string(self.try_get_product_string())
    }

    /// Sentinel surface of `try_get_serial_number_string`.
    pub fn get_serial_number_string(&self) -> (text: String)
        ensures
            !self.spec_is_open() ==> text@ == Seq::<char>::empty(),
    {
        resolve_string(self.try_get_serial_number_string())
    }

    /// Sentinel surface of `try_get_indexed_string`.
    pub fn get_indexed_string(&self, index: i32) -> (text: String)
        ensures
            !self.spec_is_open() ==> text@ == Seq::<char>::empty(),
    {
        resolve_string(self.try_get_indexed_string(index))
    }

    /// Sentinel surface of `try_open`: true exactly on success; a failed
    /// open leaves the session as it was.
    pub fn open(&mut self, vid: u16, pid: u16) -> (opened: bool)
        ensures
            opened ==> final(self).spec_is_open(),
            !opened ==> *final(self) == *old(self),
    {
        match self.try_open(vid, pid) {
            Ok(_) => true,
            Err(_) => false,
        }
    }

    /// Sentinel surface of `try_open_serial`.
    pub fn open_serial(&mut self, vid: u16, pid: u16, serial: &str) -> (opened: bool)
        ensures
            opened ==> final(self).spec_is_open(),
            !opened ==> *final(self) == *old(self),
    {
        match self.try_open_serial(vid, pid, serial) {
            Ok(_) => true,
            Err(_) => false,
        }
    }

    /// Sentinel surface of `try_open_path`.
    pub fn open_path(&mut self, path: &str) -> (opened: bool)
        ensures
            opened ==> final(self).spec_is_open(),
            !opened ==> *final(self) == *old(self),
            has_nul_byte(path.spec_bytes()) ==> !opened,
    {
        match self.try_open_path(path) {
            Ok(_) => true,
            Err(_) => false,
        }
    }

    /// Sentinel surface of `try_write`: the count of bytes written, or
    /// -1 on any failure; -1 always on a Closed session.
    pub fn write(&mut self, data: &[u8]) -> (written: i32)
        requires
            data@.len() <= i32::MAX,
        ensures
            *final(self) == *old(self),
            -1 <= written <= data@.len(),
            !old(self).spec_is_open() ==> written == -1,
    {
        match self.try_write(data) {
            Ok(count) => count as i32,
            Err(_) => -1,
        }
    }

    /// Sentinel surface of `try_read`: the received bytes, or an empty
    /// buffer on any failure; empty always on a Closed session.
    pub fn read(&mut self, size: u32) -> (data: Vec<u8>)
        ensures
            *final(self) == *old(self),
            data@.len() <= size,
            !old(self).spec_is_open() ==> data@.len() == 0,
    {
        match self.try_read(size) {
            Ok(data) => data,
            Err(_) => Vec::new(),
        }
    }

    /// Sentinel surface of `try_read_timeout`.
    pub fn read_timeout(&mut self, size: u32, timeout_ms: i32) -> (data: Vec<u8>)
        ensures
            *final(self) == *old(self),
            data@.len() <= size,
            !old(self).spec_is_open() ==> data@.len() == 0,
    {
        match self.try_read_timeout(size, timeout_ms) {
            Ok(data) => data,
            Err(_) => Vec::new(),
        }
    }

    /// Sentinel surface of `try_send_feature_report`: true exactly on
    /// success; false always on a Closed session.
    pub fn send_feature_report(&mut self, data: &[u8]) -> (sent: bool)
        ensures
            *final(self) == *old(self),
            !old(self).spec_is_open() ==> !sent,
            sent ==> old(self).spec_is_open(),
    {
        match self.try_send_feature_report(data) {
            Ok(_) => true,
            Err(_) => false,
        }
    }

    /// Sentinel surface of `try_get_feature_report`: the payload without
    /// its Report ID byte, or an empty buffer on any failure; empty
    /// always on a Closed session.
    pub fn get_feature_report(&mut self, report_id: u8) -> (payload: Vec<u8>)
        ensures
            *final(self) == *old(self),
            payload@.len() <= 1,
            !old(self).spec_is_open() ==> payload@.len() == 0,
    {
        match self.try_get_feature_report(report_id) {
            Ok(payload) => payload,
            Err(_) => Vec::new(),
        }
    }

    /// Sentinel surface of `try_set_blocking_mode`: true exactly on
    /// success; false always on a Closed session.
    pub fn set_blocking_mode(&mut self, blocking: bool) -> (changed: bool)
        ensures
            *final(self) == *old(self),
            !old(self).spec_is_open() ==> !changed,
            changed ==> old(self).spec_is_open(),
    {
        match self.try_set_blocking_mode(blocking) {
            Ok(_) => true,
            Err(_) => false,
        }
    }

    /// Sentinel surface of `try_get_device_info`: the live metadata, or
    /// nothing on any failure; nothing always on a Closed session.
    pub fn get_device_info(&self) -> (descriptor: Option<DeviceDescriptor>)
        ensures
            !self.spec_is_open() ==> descriptor is None,
            descriptor is Some ==> self.spec_is_open(),
    {
        match self.try_get_device_info() {
            Ok(descriptor) => Some(descriptor),
            Err(_) => None,
        }
    }
}

} // verus!
