//! Text as the engine hands it over: byte strings that are meant to be UTF-8.
//!
//! The engine keeps every name, tag and message as a byte string. The typed
//! model holds them as `String`, so each one is checked and decoded here.

use vstd::prelude::*;
use vstd::string::*;
use vstd::utf8::*;

verus! {

/// `core::str::Utf8Error`, declared so that the result of
/// `core::str::from_utf8` can be named. Nothing is known of its contents.
#[verifier::external_type_specification]
#[verifier::external_body]
pub struct ExUtf8Error(core::str::Utf8Error);

/// `core::str::from_utf8` succeeds exactly on the byte strings that are valid
/// UTF-8, and the string slice it returns consists of the bytes it was given.
/// This is taken from the function's documentation and is not proved.
pub assume_specification[ core::str::from_utf8 ](v: &[u8]) -> (res: Result<
    &str,
    core::str::Utf8Error,
>)
    ensures
        res is Ok <==> valid_utf8(v@),
        res matches Ok(s) ==> s.spec_bytes() == v@,
;

/// The characters of an optional text.
pub open spec fn text_view(t: Option<String>) -> Option<Seq<char>> {
    match t {
        Some(s) => Some(s@),
        None => None,
    }
}

/// What an optional byte string of the engine means as text: nothing when the
/// engine left it out, and nothing when its bytes are not valid UTF-8.
pub open spec fn text_of(raw: Option<Vec<u8>>) -> Option<Seq<char>> {
    match raw {
        Some(bytes) => if valid_utf8(bytes@) {
            Some(decode_utf8(bytes@))
        } else {
            None
        },
        None => None,
    }
}

/// Whether `raw` is valid UTF-8.
pub fn is_text(raw: &Vec<u8>) -> (b: bool)
    ensures
        b == valid_utf8(raw@),
{
    core::str::from_utf8(raw.as_slice()).is_ok()
}

/// Decodes a byte string that is known to be valid UTF-8.
pub fn decode_required(raw: &Vec<u8>) -> (t: String)
    requires
        valid_utf8(raw@),
    ensures
        t@ == decode_utf8(raw@),
{
    match core::str::from_utf8(raw.as_slice()) {
        Ok(s) => {
            proof {
                encode_utf8_decode_utf8(s@);
            }
            s.to_owned()
        },
        Err(_) => vstd::pervasive::unreached(),
    }
}

/// Decodes an optional byte string: absent stays absent, and bytes that are
/// not valid UTF-8 count as absent.
pub fn decode_optional(raw: &Option<Vec<u8>>) -> (t: Option<String>)
    ensures
        text_view(t) == text_of(*raw),
{
    match raw {
        Some(bytes) => {
            match core::str::from_utf8(bytes.as_slice()) {
                Ok(s) => {
                    proof {
                        encode_utf8_decode_utf8(s@);
                    }
                    Some(s.to_owned())
                },
                Err(_) => None,
            }
        },
        None => None,
    }
}

} // verus!
