//! The failure taxonomy of the library.
//!
//! Every operation recovers locally and reports one of these categories
//! through its `Result`; the sentinel surface maps them onto the defined
//! sentinel values (false, -1, an empty buffer, an empty string).  The
//! embedding layer decides whether to log the diagnostic text.

use vstd::prelude::*;

verus! {

/// Why an operation failed.
#[derive(Clone, Copy, Debug, PartialEq, Eq, Structural)]
pub enum HidFailure {
    /// The device subsystem could not be initialized.
    BackendUnavailable,
    /// A data-path operation was attempted on a Closed session.
    NotOpen,
    /// No matching device was found, or the backend rejected the open.
    OpenFailed,
    /// The backend rejected a read, write, feature-report, string, or
    /// blocking-mode call on an open handle.
    IoError,
    /// A caller-supplied path string cannot be represented in the
    /// platform's required encoding.
    EncodingError,
}

impl HidFailure {
    /// The human-readable diagnostic carried by each failure category.
    pub open spec fn message_spec(self) -> Seq<char> {
        match self {
            HidFailure::BackendUnavailable => "failed to create the device backend"@,
            HidFailure::NotOpen => "device not open"@,
            HidFailure::OpenFailed => "failed to open device"@,
            HidFailure::IoError => "device request failed"@,
            HidFailure::EncodingError => "string not representable in the platform encoding"@,
        }
    }

    /// The diagnostic to emit when this failure is surfaced as a side
    /// effect, as the embedding layer sees fit.
    pub fn message(&self) -> (text: String)
        ensures
            text@ == self.message_spec(),
    {
        match self {
            HidFailure::BackendUnavailable => "failed to create the device backend".to_owned(),
            HidFailure::NotOpen => "device not open".to_owned(),
            HidFailure::OpenFailed => "failed to open device".to_owned(),
            HidFailure::IoError => "device request failed".to_owned(),
            HidFailure::EncodingError => {
                "string not representable in the platform encoding".to_owned()
            },
        }
    }
}

} // verus!
