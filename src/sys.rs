//! The native library's own records, as the binding receives them.
use vstd::prelude::*;

verus! {

/// The native domain object. It is never seen from Rust: a handle to it is
/// its address, carried as a `usize`.
#[allow(non_camel_case_types)]
pub struct virDomain {}

/// The record the native info query fills in, its fields widened to 64 bits.
#[allow(non_camel_case_types)]
#[allow(non_snake_case)]
#[derive(Clone, Copy, Debug, PartialEq, Eq)]
pub struct virDomainInfo {
    pub state: u64,
    pub maxMem: u64,
    pub memory: u64,
    pub nrVirtCpu: u32,
    pub cpuTime: u64,
}

} // verus!
