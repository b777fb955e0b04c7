//! Verified handling of libvirt domain handles: ownership and release of the
//! native handle, marshaling of string arguments and results, and translation
//! of the native library's sentinel return values into typed results.
pub mod error;
pub mod marshal;
pub mod connect;
pub mod reply;
pub mod sys;
pub mod flags;
pub mod domain;
