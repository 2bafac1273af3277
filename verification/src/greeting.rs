//! The greeting that the library answers with.

use vstd::prelude::*;
use vstd::string::{StringExecFns, StringSliceAdditionalSpecFns};
use vstd::utf8::{decode_utf8, valid_utf8};

verus! {

/// Who is greeted when the name that was passed is not UTF-8.
pub const DEFAULT_RECIPIENT: &'static str = "there";

/// `core::str::from_utf8`: the bytes are returned as a string exactly when
/// they are well-formed UTF-8, and the string then has these bytes.
#[verifier::external_body]
fn str_from_utf8(bytes: &[u8]) -> (text: Option<&str>)
    ensures
        text is Some <==> valid_utf8(bytes@),
        text matches Some(s) ==> s.spec_bytes() == bytes@,
{
    core::str::from_utf8(bytes).ok()
}

/// The recipient that the bytes of a name stand for.
pub open spec fn recipient_of(to: Seq<u8>) -> Seq<char> {
    if valid_utf8(to) {
        decode_utf8(to)
    } else {
        DEFAULT_RECIPIENT@
    }
}

/// Greets the recipient whose name is given as bytes: `Hello ` and the name,
/// or `Hello there` where the bytes are not UTF-8.
pub fn rust_greeting(to: &[u8]) -> (greeting: String)
    ensures
        greeting@ == "Hello "@ + recipient_of(to@),
{
    let recipient = match str_from_utf8(to) {
        Some(name) => {
            proof {
                vstd::utf8::encode_utf8_decode_utf8(name@);
            }
            name
        },
        None => DEFAULT_RECIPIENT,
    };
    String::from_str("Hello ").concat(recipient)
}

} // verus!
