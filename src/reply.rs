//! Translation of the native library's sentinel return values into results.
//!
//! A native entry point signals failure with a sentinel (-1, or a null
//! handle or string); the details are then read from the library's last-error
//! state. Each function here takes the raw return value and a `last_error`
//! closure that captures that state, and calls the closure only on failure,
//! right after the failing call and before any other native call.
use vstd::prelude::*;

use crate::error::{DomainError, Error};
use crate::marshal::{c_text, string_from_c, text_of};
use vstd::utf8::{
    encode_utf8, encode_utf8_decode_utf8, encode_utf8_valid_utf8, is_ascii_chars,
    is_ascii_chars_encode_utf8,
};

verus! {

/// Length of the buffer the native UUID query writes: 36 characters and a NUL.
pub const UUID_BUFLEN: usize = 37;

/// The value an integer entry point returns on failure.
pub const FAILURE: i32 = -1;

/// `e` is a native failure carrying a diagnostic that `last_error` can return.
pub open spec fn captured<E: FnOnce() -> Error>(last_error: E, e: DomainError) -> bool {
    match e {
        DomainError::NativeCallFailure(d) => last_error.ensures((), d),
        DomainError::InvalidArgumentEncoding => false,
    }
}

/// `r` is what a native call becomes: the captured failure when the call
/// `failed`, `v` otherwise.
pub open spec fn relayed<T, E: FnOnce() -> Error>(
    failed: bool,
    last_error: E,
    r: Result<T, DomainError>,
    v: T,
) -> bool {
    if failed {
        r is Err && captured(last_error, r->Err_0)
    } else {
        r == Ok::<T, DomainError>(v)
    }
}

/// Captures the last error after a failed native call.
pub(crate) fn fail<T, E: FnOnce() -> Error>(last_error: E) -> (r: Result<T, DomainError>)
    requires
        last_error.requires(()),
    ensures
        r is Err && captured(last_error, r->Err_0),
{
    let d = last_error();
    Err(DomainError::NativeCallFailure(d))
}

/// Outcome of an entry point that returns -1 on failure and 0 on success.
pub fn status_reply<E: FnOnce() -> Error>(ret: i32, last_error: E) -> (r: Result<(), DomainError>)
    requires
        last_error.requires(()),
    ensures
        relayed(ret == FAILURE, last_error, r, ()),
{
    if ret == FAILURE {
        fail(last_error)
    } else {
        Ok(())
    }
}

/// Outcome of an entry point that returns -1 on failure, else 1 for yes.
pub fn flag_reply<E: FnOnce() -> Error>(ret: i32, last_error: E) -> (r: Result<bool, DomainError>)
    requires
        last_error.requires(()),
    ensures
        relayed(ret == FAILURE, last_error, r, ret == 1),
{
    if ret == FAILURE {
        fail(last_error)
    } else {
        Ok(ret == 1)
    }
}

/// Outcome of an entry point that returns -1 on failure, else a count.
pub fn count_reply<E: FnOnce() -> Error>(ret: i32, last_error: E) -> (r: Result<u32, DomainError>)
    requires
        last_error.requires(()),
    ensures
        relayed(ret == FAILURE, last_error, r, ret as u32),
{
    if ret == FAILURE {
        fail(last_error)
    } else {
        Ok(ret as u32)
    }
}

/// `r` is what a native string-returning call that gave `ret` becomes.
pub open spec fn text_relayed<E: FnOnce() -> Error>(
    ret: Option<Vec<u8>>,
    last_error: E,
    r: Result<String, DomainError>,
) -> bool {
    &&& ret is None ==> r is Err && captured(last_error, r->Err_0)
    &&& ret matches Some(b) ==> (r matches Ok(s) && exists|t: Seq<u8>|
        c_text(b@, t) && s@ == text_of(t))
}

/// `r` is what the native UUID query that gave `ret` becomes.
pub open spec fn relayed_uuid<E: FnOnce() -> Error>(
    ret: (i32, [u8; UUID_BUFLEN]),
    last_error: E,
    r: Result<String, DomainError>,
) -> bool {
    &&& ret.0 == FAILURE ==> r is Err && captured(last_error, r->Err_0)
    &&& ret.0 != FAILURE ==> (r matches Ok(s) && exists|t: Seq<u8>|
        c_text(ret.1@, t) && s@ == text_of(t))
}

/// Reading back a UUID: when the native query reports success and wrote the
/// 36 ASCII characters of `uuid` and a NUL into its buffer, the result is
/// exactly `uuid`, with nothing cut off and nothing of the buffer after it.
pub proof fn lemma_uuid_text_exact<E: FnOnce() -> Error>(
    uuid: Seq<char>,
    ret: (i32, [u8; UUID_BUFLEN]),
    last_error: E,
    r: Result<String, DomainError>,
)
    requires
        uuid.len() == 36,
        is_ascii_chars(uuid),
        !uuid.contains('\0'),
        ret.0 != FAILURE,
        ret.1@ == encode_utf8(uuid).push(0),
        relayed_uuid(ret, last_error, r),
    ensures
        r matches Ok(s) && s@ == uuid,
{
    broadcast use {encode_utf8_decode_utf8, encode_utf8_valid_utf8};

    let e = encode_utf8(uuid);
    is_ascii_chars_encode_utf8(uuid);
    assert forall|i: int| 0 <= i < e.len() implies e[i] != 0 by {
        assert(uuid[i] as u8 == e[i]);
        assert(uuid[i] != '\0');
    }
    let s = r->Ok_0;
    let t = choose|t: Seq<u8>| c_text(ret.1@, t) && s@ == text_of(t);
    if t.len() < 36 {
        assert(ret.1@[t.len() as int] == e[t.len() as int]);
    } else if t.len() == 37 {
        assert(t[36] == 0);
    }
    assert(t =~= e);
}

/// Outcome of the native UUID query: its status and the buffer it wrote.
pub fn uuid_reply<E: FnOnce() -> Error>(ret: (i32, [u8; UUID_BUFLEN]), last_error: E) -> (r: Result<
    String,
    DomainError,
>)
    requires
        last_error.requires(()),
    ensures
        relayed_uuid(ret, last_error, r),
{
    if ret.0 == FAILURE {
        fail(last_error)
    } else {
        Ok(string_from_c(ret.1.as_slice()))
    }
}

/// Outcome of an entry point that returns a C string, `None` for null; the
/// text is copied into an owned string, invalid UTF-8 replaced.
pub fn text_reply<E: FnOnce() -> Error>(ret: Option<Vec<u8>>, last_error: E) -> (r: Result<
    String,
    DomainError,
>)
    requires
        last_error.requires(()),
    ensures
        text_relayed(ret, last_error, r),
{
    match ret {
        None => fail(last_error),
        Some(b) => Ok(string_from_c(b.as_slice())),
    }
}

} // verus!
