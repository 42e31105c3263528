//! String-descriptor retrieval protocol.
//!
//! A backend string query has a three-way outcome: failure, success with
//! no string present, success with a string.  This layer deliberately
//! collapses the first two onto the empty string, so a caller cannot
//! tell a device with no serial number from a failed query — a
//! documented limitation to preserve, not a defect.

use vstd::prelude::*;

use crate::error::HidFailure;

verus! {

/// Collapses the three-way backend outcome to the surface convention: a
/// present string is returned as it is; an absent string and a failed
/// query both become the empty string.
pub fn resolve_string(outcome: Result<Option<String>, HidFailure>) -> (text: String)
    ensures
        outcome matches Ok(Some(present)) ==> text == present,
        outcome matches Ok(None) ==> text@ == Seq::<char>::empty(),
        outcome is Err ==> text@ == Seq::<char>::empty(),
{
    match outcome {
        Ok(Some(present)) => present,
        Ok(None) => String::new(),
        Err(_) => String::new(),
    }
}

} // verus!
