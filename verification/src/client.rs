//! The HTTP client a probe carries, and what is taken on trust about building one.

use vstd::prelude::*;
use vstd::utf8::encode_utf8;
use reqwest::blocking::Client;

verus! {

/// The blocking HTTP client of `reqwest`. Nothing inside it is visible to the
/// proofs: a probe only carries it.
#[verifier::external_type_specification]
#[verifier::external_body]
pub struct ExClient(reqwest::blocking::Client);

/// The error type of `reqwest`, opaque to the proofs.
#[verifier::external_type_specification]
#[verifier::external_body]
pub struct ExError(reqwest::Error);

/// A byte that may stand in an HTTP header value: 32 and above but for 127,
/// and the horizontal tab.
pub open spec fn header_byte(byte: u8) -> bool {
    (byte >= 32 && byte != 127) || byte == 9
}

/// Bytes that an HTTP header can carry as its value.
pub open spec fn header_bytes(bytes: Seq<u8>) -> bool {
    forall|i: int| 0 <= i < bytes.len() ==> header_byte(#[trigger] bytes[i])
}

/// Calls `reqwest::blocking::Client::builder()`, sets `user_agent` on the
/// builder and calls `build()`.
///
/// Trusted: a user agent with a byte that no header value may hold always
/// ends in an error. The builder turns the text into a header value, which
/// fails on such a byte, keeps that failure and hands it out from `build()`.
/// Whether any other user agent yields a client is up to the TLS backend and
/// the system configuration, so nothing is claimed of it. `build()` is
/// documented to panic inside an async runtime.
#[verifier::external_body]
pub(crate) fn build_client(user_agent: &str) -> (built: Result<Client, reqwest::Error>)
    ensures
        !header_bytes(encode_utf8(user_agent@)) ==> built is Err,
{
    Client::builder().user_agent(user_agent).build()
}

/// Formats a `reqwest::Error` with its `Display` impl. Nothing is claimed of
/// the text.
#[verifier::external_body]
pub(crate) fn describe(error: &reqwest::Error) -> (text: String) {
    format!("{error}")
}

} // verus!
