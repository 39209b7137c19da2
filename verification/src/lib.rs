//! Device-access layer for a USB peripheral.
//!
//! The crate discovers devices matching a vendor/product identity, walks
//! configuration descriptors into flat endpoint records, manages the
//! kernel-driver binding and the interface claim around a single
//! vendor-defined control-transfer report read, and guarantees that cleanup
//! (release the interface, reattach the kernel driver) runs on every exit
//! path of that read, including failure paths.

pub mod binding;
pub mod descriptor;
pub mod discovery;
pub mod errors;
pub mod report;
pub mod session;
mod usb;
