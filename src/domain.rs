//! The owning wrapper around a native domain handle, and its operations.
//!
//! Every operation takes the native entry point it relays to as a closure
//! (`native`), which receives the handle and the marshaled arguments and
//! returns the raw native result, and a `last_error` closure that captures
//! the native library's last-error state. The contracts state the result for
//! whatever the entry point returned.
use vstd::prelude::*;
use vstd::string::StringSliceAdditionalSpecFns;

use crate::connect::Connect;
use crate::error::{DomainError, Error};
use crate::flags::{
    DomainCreateFlags, DomainDefineFlags, DomainMemoryModFlags, DomainSaveRestoreFlags, DomainState,
    DomainVcpuFlags, DomainXMLFlags,
};
use crate::marshal::{c_bool, c_string, has_nul};
use crate::reply::{
    captured, count_reply, fail, flag_reply, relayed, relayed_uuid, status_reply, text_relayed, text_reply, uuid_reply,
    FAILURE, UUID_BUFLEN,
};
use crate::sys::virDomainInfo;

verus! {

/// A snapshot of a domain's state and resources.
#[derive(Clone, Copy, Debug, PartialEq, Eq)]
pub struct DomainInfo {
    pub state: DomainState,
    pub max_mem: u64,
    pub memory: u64,
    pub nr_virt_cpu: u32,
    pub cpu_time: u64,
}

/// The snapshot that a native info record stands for, field by field.
pub open spec fn info_of(raw: virDomainInfo) -> DomainInfo {
    DomainInfo {
        state: raw.state as u32,
        max_mem: raw.maxMem,
        memory: raw.memory,
        nr_virt_cpu: raw.nrVirtCpu,
        cpu_time: raw.cpuTime,
    }
}

/// A domain (virtual machine), owning its native handle: an address, zero
/// once released.
pub struct Domain {
    ptr: usize,
    /// How many times the native release entry point was called for this
    /// wrapper.
    releases: Ghost<nat>,
}

/// `r` is what a native handle-returning call that gave `p` becomes.
pub open spec fn handle_relayed<E: FnOnce() -> Error>(
    p: usize,
    last_error: E,
    r: Result<Domain, DomainError>,
) -> bool {
    if p == 0 {
        r is Err && captured(last_error, r->Err_0)
    } else {
        r matches Ok(d) && d.handle() == p
    }
}

/// What releasing `pre` may leave (`post`), depending on whether the release
/// succeeded: a released domain stays as it is; otherwise the native release
/// entry point is called once more, and the handle is cleared on success and
/// kept on failure.
pub open spec fn release_step(pre: Domain, post: Domain, ok: bool) -> bool {
    if pre.is_released() {
        ok && post == pre
    } else {
        &&& post.native_releases() == pre.native_releases() + 1
        &&& ok ==> post.is_released()
        &&& !ok ==> post.handle() == pre.handle()
    }
}

/// Releasing a released domain is a no-op that succeeds: the domain stays as
/// it is and the native release entry point is not called again.
pub proof fn lemma_release_idempotent(d: Domain, post: Domain, ok: bool)
    requires
        d.is_released(),
        release_step(d, post, ok),
    ensures
        ok,
        post == d,
        post.native_releases() == d.native_releases(),
{
}

/// A domain is released through the native library exactly once: whether it
/// is released explicitly and then again as it goes out of scope, or only as
/// it goes out of scope, the native release entry point is called once.
pub proof fn lemma_released_once(d0: Domain, d1: Domain, d2: Domain, ok1: bool, ok2: bool)
    requires
        !d0.is_released(),
        d0.native_releases() == 0,
        release_step(d0, d1, ok1),
        ok1,
    ensures
        d1.native_releases() == 1,
        release_step(d1, d2, ok2) ==> ok2 && d2.native_releases() == 1,
{
}

fn info_reply<E: FnOnce() -> Error>(ret: (i32, virDomainInfo), last_error: E) -> (r: Result<
    DomainInfo,
    DomainError,
>)
    requires
        last_error.requires(()),
    ensures
        relayed(ret.0 == FAILURE, last_error, r, info_of(ret.1)),
{
    if ret.0 == FAILURE {
        return fail(last_error);
    }
    let raw = ret.1;
    Ok(DomainInfo {
        state: #[verifier::truncate] (raw.state as DomainState),
        max_mem: raw.maxMem,
        memory: raw.memory,
        nr_virt_cpu: raw.nrVirtCpu,
        cpu_time: raw.cpuTime,
    })
}

fn handle_reply<E: FnOnce() -> Error>(p: usize, last_error: E) -> (r: Result<Domain, DomainError>)
    requires
        last_error.requires(()),
    ensures
        handle_relayed(p, last_error, r),
{
    if p == 0 {
        fail(last_error)
    } else {
        Ok(Domain::new(p))
    }
}

impl Domain {
    /// The native handle held, zero once released.
    pub closed spec fn handle(&self) -> usize {
        self.ptr
    }

    /// How many times the native release entry point was called for this
    /// wrapper.
    pub closed spec fn native_releases(&self) -> nat {
        self.releases@
    }

    pub open spec fn is_released(&self) -> bool {
        self.handle() == 0
    }

    /// Takes ownership of a native handle.
    pub fn new(ptr: usize) -> (r: Domain)
        ensures
            r.handle() == ptr,
            r.native_releases() == 0,
    {
        Domain { ptr, releases: Ghost(0) }
    }

    /// Whether the handle has been released.
    pub fn released(&self) -> (r: bool)
        ensures
            r == self.is_released(),
    {
        self.ptr == 0
    }

    /// Releases the native handle through `native` (the native free entry
    /// point). A released domain is left as it is, with no native call. On
    /// failure the handle is kept.
    pub fn free<N, E>(&mut self, native: N, last_error: E) -> (r: Result<(), DomainError>) where
        N: FnOnce(usize) -> i32,
        E: FnOnce() -> Error,
        requires
            native.requires((old(self).handle(),)),
            last_error.requires(()),
        ensures
            old(self).is_released() ==> r == Ok::<(), DomainError>(()) && *final(self) == *old(
                self,
            ),
            !old(self).is_released() ==> exists|ret: i32|
                native.ensures((old(self).handle(),), ret) && relayed(
                    ret == FAILURE,
                    last_error,
                    r,
                    (),
                ),
            release_step(*old(self), *final(self), r is Ok),
    {
        if self.ptr == 0 {
            return Ok(());
        }
        let ret = native(self.ptr);
        proof {
            self.releases = Ghost(self.releases@ + 1);
        }
        let r = status_reply(ret, last_error);
        if r.is_ok() {
            self.ptr = 0;
        }
        r
    }

    /// The numeric id of a running domain.
    pub fn get_id<N, E>(&self, native: N, last_error: E) -> (r: Result<u32, DomainError>) where
        N: FnOnce(usize) -> i32,
        E: FnOnce() -> Error,
        requires
            native.requires((self.handle(),)),
            last_error.requires(()),
        ensures
            exists|ret: i32|
                native.ensures((self.handle(),), ret) && relayed(
                    ret == FAILURE,
                    last_error,
                    r,
                    ret as u32,
                ),
    {
        let ret = native(self.ptr);
        count_reply(ret, last_error)
    }

    /// Looks up a running domain by its numeric id.
    pub fn lookup_by_id<N, E>(conn: &Connect, id: u32, native: N, last_error: E) -> (r: Result<
        Domain,
        DomainError,
    >) where N: FnOnce(usize, i32) -> usize, E: FnOnce() -> Error,
        requires
            native.requires((conn.handle(), id as i32)),
            last_error.requires(()),
        ensures
            exists|p: usize|
                native.ensures((conn.handle(), id as i32), p) && handle_relayed(p, last_error, r),
    {
        let p = native(conn.as_ptr(), id as i32);
        handle_reply(p, last_error)
    }

    /// Looks up a domain by name.
    pub fn lookup_by_name<N, E>(conn: &Connect, id: &str, native: N, last_error: E) -> (r: Result<
        Domain,
        DomainError,
    >) where N: FnOnce(usize, Vec<u8>) -> usize, E: FnOnce() -> Error,
        requires
            forall|c: Vec<u8>| native.requires((conn.handle(), c)),
            last_error.requires(()),
        ensures
            has_nul(id.spec_bytes()) ==> r == Err::<Domain, DomainError>(
                DomainError::InvalidArgumentEncoding,
            ),
            !has_nul(id.spec_bytes()) ==> exists|c: Vec<u8>, p: usize|
                c@ == id.spec_bytes().push(0) && native.ensures((conn.handle(), c), p)
                    && handle_relayed(p, last_error, r),
    {
        let c = match c_string(id) {
            Ok(c) => c,
            Err(e) => return Err(e),
        };
        let p = native(conn.as_ptr(), c);
        handle_reply(p, last_error)
    }

    /// The domain's name.
    pub fn get_name<N, E>(&self, native: N, last_error: E) -> (r: Result<String, DomainError>) where
        N: FnOnce(usize) -> Option<Vec<u8>>,
        E: FnOnce() -> Error,
        requires
            native.requires((self.handle(),)),
            last_error.requires(()),
        ensures
            exists|ret: Option<Vec<u8>>|
                native.ensures((self.handle(),), ret) && text_relayed(ret, last_error, r),
    {
        let ret = native(self.ptr);
        text_reply(ret, last_error)
    }

    /// The domain's UUID in its 36-character text form.
    pub fn get_uuid_string<N, E>(&self, native: N, last_error: E) -> (r: Result<String, DomainError>) where
        N: FnOnce(usize) -> (i32, [u8; UUID_BUFLEN]),
        E: FnOnce() -> Error,
        requires
            native.requires((self.handle(),)),
            last_error.requires(()),
        ensures
            exists|ret: (i32, [u8; UUID_BUFLEN])|
                native.ensures((self.handle(),), ret) && relayed_uuid(ret, last_error, r),
    {
        let ret = native(self.ptr);
        uuid_reply(ret, last_error)
    }

    /// The domain's state and resources.
    pub fn get_info<N, E>(&self, native: N, last_error: E) -> (r: Result<DomainInfo, DomainError>) where
        N: FnOnce(usize) -> (i32, virDomainInfo),
        E: FnOnce() -> Error,
        requires
            native.requires((self.handle(),)),
            last_error.requires(()),
        ensures
            exists|ret: (i32, virDomainInfo)|
                native.ensures((self.handle(),), ret) && relayed(
                    ret.0 == FAILURE,
                    last_error,
                    r,
                    info_of(ret.1),
                ),
    {
        let ret = native(self.ptr);
        info_reply(ret, last_error)
    }
    /// Stops the domain at once.
    pub fn destroy<N, E>(&self, native: N, last_error: E) -> (r: Result<(), DomainError>) where
        N: FnOnce(usize) -> i32,
        E: FnOnce() -> Error,
        requires
            native.requires((self.handle(),)),
            last_error.requires(()),
        ensures
            exists|ret: i32|
                native.ensures((self.handle(),), ret) && relayed(ret == FAILURE, last_error, r, ()),
    {
        let ret = native(self.ptr);
        status_reply(ret, last_error)
    }

    /// Asks the domain's guest to shut down.
    pub fn shutdown<N, E>(&self, native: N, last_error: E) -> (r: Result<(), DomainError>) where
        N: FnOnce(usize) -> i32,
        E: FnOnce() -> Error,
        requires
            native.requires((self.handle(),)),
            last_error.requires(()),
        ensures
            exists|ret: i32|
                native.ensures((self.handle(),), ret) && relayed(ret == FAILURE, last_error, r, ()),
    {
        let ret = native(self.ptr);
        status_reply(ret, last_error)
    }

    /// Asks the domain's guest to reboot.
    pub fn reboot<N, E>(&self, native: N, last_error: E) -> (r: Result<(), DomainError>) where
        N: FnOnce(usize) -> i32,
        E: FnOnce() -> Error,
        requires
            native.requires((self.handle(),)),
            last_error.requires(()),
        ensures
            exists|ret: i32|
                native.ensures((self.handle(),), ret) && relayed(ret == FAILURE, last_error, r, ()),
    {
        let ret = native(self.ptr);
        status_reply(ret, last_error)
    }

    /// Pauses the domain.
    pub fn suspend<N, E>(&self, native: N, last_error: E) -> (r: Result<(), DomainError>) where
        N: FnOnce(usize) -> i32,
        E: FnOnce() -> Error,
        requires
            native.requires((self.handle(),)),
            last_error.requires(()),
        ensures
            exists|ret: i32|
                native.ensures((self.handle(),), ret) && relayed(ret == FAILURE, last_error, r, ()),
    {
        let ret = native(self.ptr);
        status_reply(ret, last_error)
    }

    /// Resumes a paused domain.
    pub fn resume<N, E>(&self, native: N, last_error: E) -> (r: Result<(), DomainError>) where
        N: FnOnce(usize) -> i32,
        E: FnOnce() -> Error,
        requires
            native.requires((self.handle(),)),
            last_error.requires(()),
        ensures
            exists|ret: i32|
                native.ensures((self.handle(),), ret) && relayed(ret == FAILURE, last_error, r, ()),
    {
        let ret = native(self.ptr);
        status_reply(ret, last_error)
    }

    /// Removes a persistent domain's definition.
    pub fn undefine<N, E>(&self, native: N, last_error: E) -> (r: Result<(), DomainError>) where
        N: FnOnce(usize) -> i32,
        E: FnOnce() -> Error,
        requires
            native.requires((self.handle(),)),
            last_error.requires(()),
        ensures
            exists|ret: i32|
                native.ensures((self.handle(),), ret) && relayed(ret == FAILURE, last_error, r, ()),
    {
        let ret = native(self.ptr);
        status_reply(ret, last_error)
    }

    /// Whether the domain is running.
    pub fn is_active<N, E>(&self, native: N, last_error: E) -> (r: Result<bool, DomainError>) where
        N: FnOnce(usize) -> i32,
        E: FnOnce() -> Error,
        requires
            native.requires((self.handle(),)),
            last_error.requires(()),
        ensures
            exists|ret: i32|
                native.ensures((self.handle(),), ret) && relayed(ret == FAILURE, last_error, r, ret == 1),
    {
        let ret = native(self.ptr);
        flag_reply(ret, last_error)
    }

    /// Whether the domain's live configuration differs from its stored one.
    pub fn is_updated<N, E>(&self, native: N, last_error: E) -> (r: Result<bool, DomainError>) where
        N: FnOnce(usize) -> i32,
        E: FnOnce() -> Error,
        requires
            native.requires((self.handle(),)),
            last_error.requires(()),
        ensures
            exists|ret: i32|
                native.ensures((self.handle(),), ret) && relayed(ret == FAILURE, last_error, r, ret == 1),
    {
        let ret = native(self.ptr);
        flag_reply(ret, last_error)
    }

    /// Whether the domain starts with the host.
    pub fn get_autostart<N, E>(&self, native: N, last_error: E) -> (r: Result<bool, DomainError>) where
        N: FnOnce(usize) -> i32,
        E: FnOnce() -> Error,
        requires
            native.requires((self.handle(),)),
            last_error.requires(()),
        ensures
            exists|ret: i32|
                native.ensures((self.handle(),), ret) && relayed(ret == FAILURE, last_error, r, ret == 1),
    {
        let ret = native(self.ptr);
        flag_reply(ret, last_error)
    }

    /// The domain's virtual CPU count, as `flags` select it.
    pub fn get_vcpus_flags<N, E>(&self, flags: DomainVcpuFlags, native: N, last_error: E) -> (r: Result<u32, DomainError>) where
        N: FnOnce(usize, DomainVcpuFlags) -> i32,
        E: FnOnce() -> Error,
        requires
            native.requires((self.handle(), flags)),
            last_error.requires(()),
        ensures
            exists|ret: i32|
                native.ensures((self.handle(), flags), ret) && relayed(ret == FAILURE, last_error, r, ret as u32),
    {
        let ret = native(self.ptr, flags);
        count_reply(ret, last_error)
    }

    /// Sets whether the domain starts with the host; the result is the native "applied" signal.
    pub fn set_autostart<N, E>(&self, autostart: bool, native: N, last_error: E) -> (r: Result<bool, DomainError>) where
        N: FnOnce(usize, u32) -> i32,
        E: FnOnce() -> Error,
        requires
            native.requires((self.handle(), c_bool(autostart))),
            last_error.requires(()),
        ensures
            exists|ret: i32|
                native.ensures((self.handle(), c_bool(autostart)), ret) && relayed(ret == FAILURE, last_error, r, ret == 1),
    {
        let flag: u32 = if autostart {
            1
        } else {
            0
        };
        let ret = native(self.ptr, flag);
        flag_reply(ret, last_error)
    }

    /// Sets the domain's maximum memory.
    pub fn set_max_memory<N, E>(&self, memory: u64, native: N, last_error: E) -> (r: Result<bool, DomainError>) where
        N: FnOnce(usize, u64) -> i32,
        E: FnOnce() -> Error,
        requires
            native.requires((self.handle(), memory)),
            last_error.requires(()),
        ensures
            exists|ret: i32|
                native.ensures((self.handle(), memory), ret) && relayed(ret == FAILURE, last_error, r, ret == 1),
    {
        let ret = native(self.ptr, memory);
        flag_reply(ret, last_error)
    }

    /// Sets the domain's current memory.
    pub fn set_memory<N, E>(&self, memory: u64, native: N, last_error: E) -> (r: Result<bool, DomainError>) where
        N: FnOnce(usize, u64) -> i32,
        E: FnOnce() -> Error,
        requires
            native.requires((self.handle(), memory)),
            last_error.requires(()),
        ensures
            exists|ret: i32|
                native.ensures((self.handle(), memory), ret) && relayed(ret == FAILURE, last_error, r, ret == 1),
    {
        let ret = native(self.ptr, memory);
        flag_reply(ret, last_error)
    }

    /// Sets the domain's memory, as `flags` select.
    pub fn set_memory_flags<N, E>(&self, memory: u64, flags: DomainMemoryModFlags, native: N, last_error: E) -> (r: Result<bool, DomainError>) where
        N: FnOnce(usize, u64, DomainMemoryModFlags) -> i32,
        E: FnOnce() -> Error,
        requires
            native.requires((self.handle(), memory, flags)),
            last_error.requires(()),
        ensures
            exists|ret: i32|
                native.ensures((self.handle(), memory, flags), ret) && relayed(ret == FAILURE, last_error, r, ret == 1),
    {
        let ret = native(self.ptr, memory, flags);
        flag_reply(ret, last_error)
    }

    /// Sets the period of the domain's memory statistics.
    pub fn set_memory_stats_period<N, E>(&self, period: i32, flags: DomainMemoryModFlags, native: N, last_error: E) -> (r: Result<bool, DomainError>) where
        N: FnOnce(usize, i32, DomainMemoryModFlags) -> i32,
        E: FnOnce() -> Error,
        requires
            native.requires((self.handle(), period, flags)),
            last_error.requires(()),
        ensures
            exists|ret: i32|
                native.ensures((self.handle(), period, flags), ret) && relayed(ret == FAILURE, last_error, r, ret == 1),
    {
        let ret = native(self.ptr, period, flags);
        flag_reply(ret, last_error)
    }

    /// Sets the domain's virtual CPU count.
    pub fn set_vcpus<N, E>(&self, vcpus: u32, native: N, last_error: E) -> (r: Result<bool, DomainError>) where
        N: FnOnce(usize, u32) -> i32,
        E: FnOnce() -> Error,
        requires
            native.requires((self.handle(), vcpus)),
            last_error.requires(()),
        ensures
            exists|ret: i32|
                native.ensures((self.handle(), vcpus), ret) && relayed(ret == FAILURE, last_error, r, ret == 1),
    {
        let ret = native(self.ptr, vcpus);
        flag_reply(ret, last_error)
    }

    /// Sets the domain's virtual CPU count, as `flags` select.
    pub fn set_vcpus_flags<N, E>(&self, vcpus: u32, flags: DomainVcpuFlags, native: N, last_error: E) -> (r: Result<bool, DomainError>) where
        N: FnOnce(usize, u32, DomainVcpuFlags) -> i32,
        E: FnOnce() -> Error,
        requires
            native.requires((self.handle(), vcpus, flags)),
            last_error.requires(()),
        ensures
            exists|ret: i32|
                native.ensures((self.handle(), vcpus, flags), ret) && relayed(ret == FAILURE, last_error, r, ret == 1),
    {
        let ret = native(self.ptr, vcpus, flags);
        flag_reply(ret, last_error)
    }

    /// The guest's hostname.
    pub fn get_hostname<N, E>(&self, flags: u32, native: N, last_error: E) -> (r: Result<String, DomainError>) where
        N: FnOnce(usize, u32) -> Option<Vec<u8>>,
        E: FnOnce() -> Error,
        requires
            native.requires((self.handle(), flags)),
            last_error.requires(()),
        ensures
            exists|ret: Option<Vec<u8>>|
                native.ensures((self.handle(), flags), ret) && text_relayed(ret, last_error, r),
    {
        let ret = native(self.ptr, flags);
        text_reply(ret, last_error)
    }

    /// The domain's XML description, as `flags` select.
    pub fn get_xml_desc<N, E>(&self, flags: DomainXMLFlags, native: N, last_error: E) -> (r: Result<String, DomainError>) where
        N: FnOnce(usize, DomainXMLFlags) -> Option<Vec<u8>>,
        E: FnOnce() -> Error,
        requires
            native.requires((self.handle(), flags)),
            last_error.requires(()),
        ensures
            exists|ret: Option<Vec<u8>>|
                native.ensures((self.handle(), flags), ret) && text_relayed(ret, last_error, r),
    {
        let ret = native(self.ptr, flags);
        text_reply(ret, last_error)
    }

    /// A new connection wrapper around the connection this domain belongs to.
    pub fn get_connect<N, E>(&self, native: N, last_error: E) -> (r: Result<Connect, DomainError>) where
        N: FnOnce(usize) -> usize,
        E: FnOnce() -> Error,
        requires
            native.requires((self.handle(),)),
            last_error.requires(()),
        ensures
            exists|p: usize|
                native.ensures((self.handle(),), p) && if p == 0 {
                    r is Err && captured(last_error, r->Err_0)
                } else {
                    r matches Ok(c) && c.handle() == p
                },
    {
        let p = native(self.ptr);
        if p == 0 {
            return fail(last_error);
        }
        Ok(Connect::new(p))
    }

    /// Starts a domain on `conn`.
    pub fn create<N, E>(conn: &Connect, native: N, last_error: E) -> (r: Result<Domain, DomainError>) where
        N: FnOnce(usize) -> usize,
        E: FnOnce() -> Error,
        requires
            native.requires((conn.handle(),)),
            last_error.requires(()),
        ensures
            exists|p: usize| native.ensures((conn.handle(),), p) && handle_relayed(p, last_error, r),
    {
        let p = native(conn.as_ptr());
        handle_reply(p, last_error)
    }

    /// Looks up a domain by the text form of its UUID, which the native library checks.
    pub fn lookup_by_uuid_string<N, E>(conn: &Connect, uuid: &str, native: N, last_error: E) -> (r: Result<
        Domain,
        DomainError,
    >) where N: FnOnce(usize, Vec<u8>) -> usize, E: FnOnce() -> Error,
        requires
            forall|c: Vec<u8>| native.requires((conn.handle(), c)),
            last_error.requires(()),
        ensures
            has_nul(uuid.spec_bytes()) ==> r == Err::<Domain, DomainError>(
                DomainError::InvalidArgumentEncoding,
            ),
            !has_nul(uuid.spec_bytes()) ==> exists|c: Vec<u8>, p: usize|
                c@ == uuid.spec_bytes().push(0) && native.ensures((conn.handle(), c), p)
                    && handle_relayed(p, last_error, r),
    {
        let c = match c_string(uuid) {
            Ok(c) => c,
            Err(e) => return Err(e),
        };
        let p = native(conn.as_ptr(), c);
        handle_reply(p, last_error)
    }

    /// Creates and starts a transient domain from its XML description.
    pub fn create_xml<N, E>(conn: &Connect, xml: &str, flags: DomainCreateFlags, native: N, last_error: E) -> (r: Result<
        Domain,
        DomainError,
    >) where N: FnOnce(usize, Vec<u8>, DomainCreateFlags) -> usize, E: FnOnce() -> Error,
        requires
            forall|c: Vec<u8>| native.requires((conn.handle(), c, flags)),
            last_error.requires(()),
        ensures
            has_nul(xml.spec_bytes()) ==> r == Err::<Domain, DomainError>(
                DomainError::InvalidArgumentEncoding,
            ),
            !has_nul(xml.spec_bytes()) ==> exists|c: Vec<u8>, p: usize|
                c@ == xml.spec_bytes().push(0) && native.ensures((conn.handle(), c, flags), p)
                    && handle_relayed(p, last_error, r),
    {
        let c = match c_string(xml) {
            Ok(c) => c,
            Err(e) => return Err(e),
        };
        let p = native(conn.as_ptr(), c, flags);
        handle_reply(p, last_error)
    }

    /// Defines a persistent domain from its XML description, without starting it.
    pub fn define_xml<N, E>(conn: &Connect, xml: &str, native: N, last_error: E) -> (r: Result<
        Domain,
        DomainError,
    >) where N: FnOnce(usize, Vec<u8>) -> usize, E: FnOnce() -> Error,
        requires
            forall|c: Vec<u8>| native.requires((conn.handle(), c)),
            last_error.requires(()),
        ensures
            has_nul(xml.spec_bytes()) ==> r == Err::<Domain, DomainError>(
                DomainError::InvalidArgumentEncoding,
            ),
            !has_nul(xml.spec_bytes()) ==> exists|c: Vec<u8>, p: usize|
                c@ == xml.spec_bytes().push(0) && native.ensures((conn.handle(), c), p)
                    && handle_relayed(p, last_error, r),
    {
        let c = match c_string(xml) {
            Ok(c) => c,
            Err(e) => return Err(e),
        };
        let p = native(conn.as_ptr(), c);
        handle_reply(p, last_error)
    }

    /// Defines a persistent domain from its XML description, as `flags` select.
    pub fn define_xml_flags<N, E>(conn: &Connect, xml: &str, flags: DomainDefineFlags, native: N, last_error: E) -> (r: Result<
        Domain,
        DomainError,
    >) where N: FnOnce(usize, Vec<u8>, DomainDefineFlags) -> usize, E: FnOnce() -> Error,
        requires
            forall|c: Vec<u8>| native.requires((conn.handle(), c, flags)),
            last_error.requires(()),
        ensures
            has_nul(xml.spec_bytes()) ==> r == Err::<Domain, DomainError>(
                DomainError::InvalidArgumentEncoding,
            ),
            !has_nul(xml.spec_bytes()) ==> exists|c: Vec<u8>, p: usize|
                c@ == xml.spec_bytes().push(0) && native.ensures((conn.handle(), c, flags), p)
                    && handle_relayed(p, last_error, r),
    {
        let c = match c_string(xml) {
            Ok(c) => c,
            Err(e) => return Err(e),
        };
        let p = native(conn.as_ptr(), c, flags);
        handle_reply(p, last_error)
    }

    /// Restores a domain from the state saved at `path`. The restored domain is
    /// not returned: look it up to get a handle.
    pub fn domain_restore<N, E>(conn: &Connect, path: &str, native: N, last_error: E) -> (r: Result<
        (),
        DomainError,
    >) where N: FnOnce(usize, Vec<u8>) -> i32, E: FnOnce() -> Error,
        requires
            forall|c: Vec<u8>| native.requires((conn.handle(), c)),
            last_error.requires(()),
        ensures
            has_nul(path.spec_bytes()) ==> r == Err::<(), DomainError>(
                DomainError::InvalidArgumentEncoding,
            ),
            !has_nul(path.spec_bytes()) ==> exists|c: Vec<u8>, p: i32|
                c@ == path.spec_bytes().push(0) && native.ensures((conn.handle(), c), p)
                    && relayed(p == FAILURE, last_error, r, ()),
    {
        let c = match c_string(path) {
            Ok(c) => c,
            Err(e) => return Err(e),
        };
        let p = native(conn.as_ptr(), c);
        status_reply(p, last_error)
    }

    /// Restores a domain from the state saved at `path`, as `flags` select. The
    /// restored domain is not returned: look it up to get a handle.
    pub fn domain_restore_flags<N, E>(conn: &Connect, path: &str, flags: DomainSaveRestoreFlags, native: N, last_error: E) -> (r: Result<
        (),
        DomainError,
    >) where N: FnOnce(usize, Vec<u8>, DomainSaveRestoreFlags) -> i32, E: FnOnce() -> Error,
        requires
            forall|c: Vec<u8>| native.requires((conn.handle(), c, flags)),
            last_error.requires(()),
        ensures
            has_nul(path.spec_bytes()) ==> r == Err::<(), DomainError>(
                DomainError::InvalidArgumentEncoding,
            ),
            !has_nul(path.spec_bytes()) ==> exists|c: Vec<u8>, p: i32|
                c@ == path.spec_bytes().push(0) && native.ensures((conn.handle(), c, flags), p)
                    && relayed(p == FAILURE, last_error, r, ()),
    {
        let c = match c_string(path) {
            Ok(c) => c,
            Err(e) => return Err(e),
        };
        let p = native(conn.as_ptr(), c, flags);
        status_reply(p, last_error)
    }
}

} // verus!
