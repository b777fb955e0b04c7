//! The hypervisor connection as domain operations see it.
use vstd::prelude::*;

verus! {

/// A connection to the hypervisor, held as its native handle (an address,
/// zero when null). Domain operations borrow it and never release it.
pub struct Connect {
    ptr: usize,
}

impl Connect {
    pub closed spec fn handle(&self) -> usize {
        self.ptr
    }

    /// Wraps a native connection handle.
    pub fn new(ptr: usize) -> (r: Connect)
        ensures
            r.handle() == ptr,
    {
        Connect { ptr }
    }

    /// The native connection handle, lent to a native entry point.
    pub fn as_ptr(&self) -> (r: usize)
        ensures
            r == self.handle(),
    {
        self.ptr
    }
}

} // verus!
