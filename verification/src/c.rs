//! Specific for C types.

use crate::error::PointerError;
use crate::validation::not_null_pointer;
use core::str::Utf8Error;
use vstd::prelude::*;
use vstd::string::*;
use vstd::utf8::*;

verus! {

/// Calls `core::str::from_utf8`. Trusted: it succeeds exactly on bytes that
/// are valid UTF-8, and the text it then gives is made of those very bytes.
/// Nothing is claimed of the error it gives otherwise.
#[verifier::external_body]
fn from_utf8<'a>(bytes: &'a [u8]) -> (decoded: Result<&'a str, Utf8Error>)
    ensures
        decoded is Ok <==> valid_utf8(bytes@),
        decoded matches Ok(text) ==> text.spec_bytes() == bytes@,
{
    core::str::from_utf8(bytes)
}

/// The text of the C string that lies at `address` and whose bytes, up to
/// its terminator, are `bytes`.
///
/// The address is checked first: for the null address the bytes are not
/// looked at. Bytes that are not valid UTF-8 are reported, with the cause
/// that decoding gave.
pub fn ref_str<'a>(address: usize, bytes: &'a [u8]) -> (text: Result<&'a str, PointerError>)
    ensures
        match text {
            Ok(text) => address != 0 && valid_utf8(bytes@) && text@ == decode_utf8(bytes@),
            Err(PointerError::Null) => address == 0,
            Err(PointerError::Utf8Error(_)) => address != 0 && !valid_utf8(bytes@),
            Err(_) => false,
        },
{
    match not_null_pointer(address) {
        Err(error) => Err(error),
        Ok(()) => match from_utf8(bytes) {
            Ok(text) => {
                proof {
                    encode_utf8_decode_utf8(text@);
                }
                Ok(text)
            },
            Err(cause) => Err(PointerError::from(cause)),
        },
    }
}

} // verus!
