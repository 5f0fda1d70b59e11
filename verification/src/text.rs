//! Byte strings as the native layer hands them over, and their conversion
//! to and from Rust strings.

use std::borrow::Cow;
use std::string::FromUtf8Error;
use vstd::prelude::*;
use vstd::slice::slice_subrange;
use vstd::slice::slice_to_vec;
use vstd::utf8::decode_utf8;
use vstd::utf8::valid_utf8;

use crate::error::fails_with;
use crate::error::from_libgphoto2;
use crate::error::native_error;
use crate::error::Error;
use crate::error::GP_ERROR_BAD_PARAMETERS;
use crate::error::GP_ERROR_CORRUPTED_DATA;

verus! {

/// The error type of `String::from_utf8`, carried through unopened.
#[verifier::external_type_specification]
#[verifier::external_body]
pub struct ExFromUtf8Error(FromUtf8Error);

/// `String::from_utf8`: the bytes are accepted exactly when they are valid
/// UTF-8, and the string then holds the characters that they encode.
pub assume_specification[ String::from_utf8 ](bytes: Vec<u8>) -> (r: Result<String, FromUtf8Error>)
    ensures
        r is Ok <==> valid_utf8(bytes@),
        r matches Ok(s) ==> s@ == decode_utf8(bytes@),
;

/// The characters that `String::from_utf8_lossy` makes of `bytes`, with the
/// replacement character in place of each invalid sequence.
pub uninterp spec fn utf8_lossy(bytes: Seq<u8>) -> Seq<char>;

/// `String::from_utf8_lossy`: the result is a function of the bytes alone,
/// and valid UTF-8 is decoded as it stands.
pub assume_specification<'a>[ String::from_utf8_lossy ](bytes: &'a [u8]) -> (r: Cow<'a, str>)
    ensures
        r@ == utf8_lossy(bytes@),
        valid_utf8(bytes@) ==> r@ == decode_utf8(bytes@),
;

/// The length of the C string that starts `bytes`: the index of the first
/// NUL byte, or the whole length where there is none.
pub open spec fn c_len(bytes: Seq<u8>) -> int {
    match bytes.index_of_first(0u8) {
        Some(i) => i,
        None => bytes.len() as int,
    }
}

/// The C string that starts `bytes`: what stands before the first NUL byte.
pub open spec fn c_text(bytes: Seq<u8>) -> Seq<u8> {
    bytes.take(c_len(bytes))
}

/// `c_len` is within the buffer, no NUL byte stands before it, and a NUL
/// byte stands at it unless it is the end of the buffer.
pub proof fn c_len_bounds(bytes: Seq<u8>)
    ensures
        0 <= c_len(bytes) <= bytes.len(),
        forall|i: int| 0 <= i < c_len(bytes) ==> bytes[i] != 0u8,
        c_len(bytes) < bytes.len() ==> bytes[c_len(bytes)] == 0u8,
        c_len(bytes) < bytes.len() <==> bytes.contains(0u8),
{
    bytes.index_of_first_ensures(0u8);
}

/// An index that has the three properties of `c_len` is `c_len`.
pub proof fn c_len_unique(bytes: Seq<u8>, n: int)
    requires
        0 <= n <= bytes.len(),
        forall|i: int| 0 <= i < n ==> bytes[i] != 0u8,
        n < bytes.len() ==> bytes[n] == 0u8,
    ensures
        c_len(bytes) == n,
{
    c_len_bounds(bytes);
    let m = c_len(bytes);
    if m < n {
        assert(bytes[m] != 0u8);
    } else if n < m {
        assert(bytes[n] == 0u8);
    }
}

/// The length of the C string that starts `bytes`.
pub fn c_text_len(bytes: &[u8]) -> (n: usize)
    ensures
        n == c_len(bytes@),
{
    let mut i: usize = 0;
    while i < bytes.len() && bytes[i] != 0
        invariant
            i <= bytes.len(),
            forall|j: int| 0 <= j < i ==> bytes@[j] != 0u8,
        decreases bytes.len() - i,
    {
        i += 1;
    }
    proof {
        c_len_unique(bytes@, i as int);
    }
    i
}

/// Whether a NUL byte occurs in `bytes`.
pub fn has_nul(bytes: &[u8]) -> (found: bool)
    ensures
        found == bytes@.contains(0u8),
{
    let n = c_text_len(bytes);
    proof {
        c_len_bounds(bytes@);
    }
    n < bytes.len()
}

/// Prepares `bytes` for a native call that takes a C string: the bytes with
/// a terminating NUL appended. Bytes that hold a NUL themselves cannot be
/// handed over and are refused as bad parameters.
pub fn c_string(bytes: &[u8]) -> (r: Result<Vec<u8>, Error>)
    ensures
        !bytes@.contains(0u8) ==> (r matches Ok(v) && v@ == bytes@.push(0u8)),
        bytes@.contains(0u8) ==> fails_with(r, native_error(GP_ERROR_BAD_PARAMETERS, None)),
{
    if has_nul(bytes) {
        Err(from_libgphoto2(GP_ERROR_BAD_PARAMETERS))
    } else {
        let mut v = slice_to_vec(bytes);
        v.push(0u8);
        Ok(v)
    }
}

/// The number of entries that the native layer counted. A count is never
/// negative: a negative one means that the binding itself is wrong, and the
/// caller stops there instead of asking.
pub fn count_of(count: i32) -> (n: usize)
    requires
        count >= 0,
    ensures
        n == count,
{
    count as usize
}

/// Whether two byte strings are equal.
pub fn bytes_eq(a: &[u8], b: &[u8]) -> (equal: bool)
    ensures
        equal == (a@ == b@),
{
    if a.len() != b.len() {
        return false;
    }
    let mut i: usize = 0;
    while i < a.len()
        invariant
            a.len() == b.len(),
            i <= a.len(),
            forall|j: int| 0 <= j < i ==> a@[j] == b@[j],
        decreases a.len() - i,
    {
        if a[i] != b[i] {
            return false;
        }
        i += 1;
    }
    assert(a@ =~= b@);
    true
}

/// Copies the C string that starts `buffer`.
pub fn c_text_of(buffer: &[u8]) -> (text: Vec<u8>)
    ensures
        text@ == c_text(buffer@),
{
    let n = c_text_len(buffer);
    proof {
        c_len_bounds(buffer@);
    }
    let text = slice_to_vec(slice_subrange(buffer, 0, n));
    assert(text@ =~= c_text(buffer@));
    text
}

/// Decodes native text without losing anything: the C string that starts
/// the buffer must be valid UTF-8, else the text is reported as corrupted.
pub fn camera_text_to_string(text: &[u8]) -> (r: Result<String, Error>)
    ensures
        valid_utf8(c_text(text@)) ==> (r matches Ok(s) && s@ == decode_utf8(c_text(text@))),
        !valid_utf8(c_text(text@)) ==> fails_with(r, native_error(GP_ERROR_CORRUPTED_DATA, None)),
{
    match String::from_utf8(c_text_of(text)) {
        Ok(s) => Ok(s),
        Err(_) => Err(from_libgphoto2(GP_ERROR_CORRUPTED_DATA)),
    }
}

/// Decodes native text leniently: invalid sequences become the replacement
/// character.
pub fn lossy_string(bytes: &[u8]) -> (s: String)
    ensures
        s@ == utf8_lossy(bytes@),
        valid_utf8(bytes@) ==> s@ == decode_utf8(bytes@),
{
    match String::from_utf8_lossy(bytes) {
        Cow::Borrowed(text) => text.to_owned(),
        Cow::Owned(text) => text,
    }
}

} // verus!
