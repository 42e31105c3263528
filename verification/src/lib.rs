//! A session-oriented HID (Human Interface Device) communication layer.
//!
//! The crate enumerates attached HID devices, opens a session against one
//! by vendor/product identifiers, serial number, or platform path, and
//! performs bounded read/write and feature-report exchanges with the
//! mandatory leading Report-ID byte framed correctly.

pub mod backend;
pub mod codec;
pub mod descriptor;
pub mod enumerate;
pub mod error;
pub mod resolver;
pub mod session;
