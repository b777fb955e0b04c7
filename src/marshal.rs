//! Conversions between Rust strings and the native library's C strings.
use vstd::prelude::*;

use vstd::string::StringSliceAdditionalSpecFns;
use vstd::utf8::{decode_utf8, valid_utf8};

use crate::error::DomainError;

verus! {

/// Whether the byte sequence holds a NUL byte.
pub open spec fn has_nul(b: Seq<u8>) -> bool {
    exists|i: int| 0 <= i < b.len() && b[i] == 0
}

/// Encodes `s` as a NUL-terminated C string: its UTF-8 bytes followed by a
/// single NUL. Fails when `s` itself holds a NUL byte.
pub fn c_string(s: &str) -> (r: Result<Vec<u8>, DomainError>)
    ensures
        has_nul(s.spec_bytes()) <==> r is Err,
        r is Err ==> r == Err::<Vec<u8>, DomainError>(DomainError::InvalidArgumentEncoding),
        r matches Ok(v) ==> v@ == s.spec_bytes().push(0),
{
    let bytes: &[u8] = s.as_bytes();
    let mut out: Vec<u8> = Vec::new();
    let mut i: usize = 0;
    while i < bytes.len()
        invariant
            0 <= i <= bytes@.len(),
            bytes@ == s.spec_bytes(),
            out@ == bytes@.subrange(0, i as int),
            forall|j: int| 0 <= j < i ==> bytes@[j] != 0,
        decreases bytes@.len() - i,
    {
        if bytes[i] == 0 {
            return Err(DomainError::InvalidArgumentEncoding);
        }
        out.push(bytes[i]);
        i = i + 1;
    }
    out.push(0);
    assert(bytes@.subrange(0, i as int) == bytes@);
    Ok(out)
}

/// A boolean as the native library takes it: 1 for true, 0 for false.
pub open spec fn c_bool(b: bool) -> u32 {
    if b {
        1
    } else {
        0
    }
}

/// Name for what `String::from_utf8_lossy` makes of a byte sequence.
pub uninterp spec fn lossy_utf8(b: Seq<u8>) -> Seq<char>;

/// The text that bytes from the native library stand for: the characters
/// they encode when they are valid UTF-8, else their lossy decoding.
pub open spec fn text_of(b: Seq<u8>) -> Seq<char> {
    if valid_utf8(b) {
        decode_utf8(b)
    } else {
        lossy_utf8(b)
    }
}

/// Relies on `String::from_utf8_lossy`: the text depends on the bytes alone,
/// and valid UTF-8 comes back as the characters it encodes.
#[verifier::external_body]
fn decode_lossy(b: &[u8]) -> (r: String)
    ensures
        r@ == lossy_utf8(b@),
        r@ == text_of(b@),
{
    String::from_utf8_lossy(b).into_owned()
}

/// The text of a C string read out of `buf`: the bytes before the first NUL,
/// or all of `buf` when it holds none.
pub open spec fn c_text(buf: Seq<u8>, t: Seq<u8>) -> bool {
    &&& t.len() <= buf.len()
    &&& t == buf.subrange(0, t.len() as int)
    &&& !has_nul(t)
    &&& (t.len() == buf.len() || buf[t.len() as int] == 0)
}

/// The bytes of `buf` before its first NUL, all of them if it holds none.
pub fn until_nul(buf: &[u8]) -> (r: Vec<u8>)
    ensures
        c_text(buf@, r@),
{
    let mut out: Vec<u8> = Vec::new();
    let mut i: usize = 0;
    while i < buf.len() && buf[i] != 0
        invariant
            0 <= i <= buf@.len(),
            out@ == buf@.subrange(0, i as int),
            forall|j: int| 0 <= j < i ==> buf@[j] != 0,
        decreases buf@.len() - i,
    {
        out.push(buf[i]);
        i = i + 1;
    }
    out
}

/// Decodes the text of a C string held in `buf`, replacing invalid UTF-8.
pub fn string_from_c(buf: &[u8]) -> (r: String)
    ensures
        exists|t: Seq<u8>| c_text(buf@, t) && r@ == text_of(t),
{
    let t = until_nul(buf);
    decode_lossy(t.as_slice())
}

} // verus!
