//! Strict text conversion.
//!
//! Summary, manual and driver texts read from a camera must be valid UTF-8;
//! unlike the lossy decoding used for names and labels, an invalid byte
//! sequence here is reported as corrupted data instead of being patched
//! over with replacement characters.  The bytes are consumed either way.

use vstd::prelude::*;

use crate::error::{classify, from_libgphoto2, Error, ErrorKind, GP_ERROR_CORRUPTED_DATA};

verus! {

/// The decoding of a byte sequence as UTF-8 text: the character sequence
/// when the bytes are valid UTF-8, and nothing otherwise.
pub uninterp spec fn utf8_chars(bytes: Seq<u8>) -> Option<Seq<char>>;

/// Relies on `String::from_utf8`: returns the decoded string exactly when
/// the bytes are valid UTF-8, and the result depends on the bytes alone.
/// An empty byte sequence is valid and decodes to the empty string.
#[verifier::external_body]
fn utf8_decode(bytes: Vec<u8>) -> (r: Option<String>)
    ensures
        r is Some <==> utf8_chars(bytes@) is Some,
        r is Some ==> r.unwrap()@ == utf8_chars(bytes@).unwrap(),
        bytes@.len() == 0 ==> r is Some && r.unwrap()@.len() == 0,
{
    String::from_utf8(bytes).ok()
}

/// Converts a camera text buffer, taken as the plain bytes before the C
/// string terminator, into an owned string.  The bytes are consumed; when
/// they are not valid UTF-8 the conversion fails with a
/// [`ErrorKind::CorruptedData`] error instead.
pub fn camera_text_to_string(bytes: Vec<u8>) -> (r: Result<String, Error>)
    ensures
        r is Ok <==> utf8_chars(bytes@) is Some,
        r is Ok ==> r.unwrap()@ == utf8_chars(bytes@).unwrap(),
        r is Err ==> r.unwrap_err().spec_code() == GP_ERROR_CORRUPTED_DATA && classify(
            r.unwrap_err().spec_code(),
        ) == ErrorKind::CorruptedData,
{
    match utf8_decode(bytes) {
        Some(s) => Ok(s),
        None => Err(from_libgphoto2(GP_ERROR_CORRUPTED_DATA)),
    }
}

} // verus!
