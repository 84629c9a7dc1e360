//! Terminal bytes as base64 text, the form in which frames carry them.

use base64::Engine;
use vstd::prelude::*;

verus! {

/// What `STANDARD.encode` of `base64` writes for these bytes.
pub uninterp spec fn base64_text(data: Seq<u8>) -> Seq<char>;

/// What `STANDARD.decode` of `base64` reads from a text, or nothing where it
/// reports an error.
pub uninterp spec fn base64_bytes(text: Seq<char>) -> Option<Seq<u8>>;

/// Whether the base64 text of `len` bytes, four characters for each three bytes
/// begun, is no longer than the longest string that can be allocated.
pub open spec fn encodable(len: nat) -> bool {
    (len + 2) / 3 * 4 <= isize::MAX
}

/// The error of `base64`'s decoder.
#[verifier::external_type_specification]
#[verifier::external_body]
pub struct ExBase64DecodeError(base64::DecodeError);

/// `STANDARD.encode` of `base64`: the text is a function of the bytes, and
/// `STANDARD.decode` reads the bytes back from it. It panics where the text would
/// not fit in memory, which `requires` leaves out.
#[verifier::external_body]
fn encode_standard(data: &Vec<u8>) -> (r: String)
    requires
        encodable(data@.len()),
    ensures
        r@ == base64_text(data@),
        base64_bytes(r@) == Some(data@),
{
    base64::engine::general_purpose::STANDARD.encode(data)
}

/// `STANDARD.decode` of `base64`: its result is a function of the text.
#[verifier::external_body]
fn decode_standard(text: &str) -> (r: Result<Vec<u8>, base64::DecodeError>)
    ensures
        match r {
            Ok(data) => base64_bytes(text@) == Some(data@),
            Err(_) => base64_bytes(text@) is None,
        },
{
    base64::engine::general_purpose::STANDARD.decode(text)
}

/// Whether so many bytes can be put into a frame.
pub fn can_encode(len: usize) -> (r: bool)
    ensures
        r == encodable(len as nat),
{
    let groups: usize = len / 3 + if len % 3 == 0 { 0 } else { 1 };
    groups <= (isize::MAX as usize) / 4
}

/// The base64 text of the bytes, from which they can be read back.
pub fn encode_payload(data: &Vec<u8>) -> (r: String)
    requires
        encodable(data@.len()),
    ensures
        r@ == base64_text(data@),
        base64_bytes(r@) == Some(data@),
{
    encode_standard(data)
}

/// The bytes that a base64 text holds, if it is one.
pub fn decode_payload(text: &str) -> (r: Option<Vec<u8>>)
    ensures
        match r {
            Some(data) => base64_bytes(text@) == Some(data@),
            None => base64_bytes(text@) is None,
        },
{
    match decode_standard(text) {
        Ok(data) => Some(data),
        Err(_) => None,
    }
}

} // verus!
