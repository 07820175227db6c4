//! Files the blog serves from its database: stored either as text or as
//! base64, and always sent as raw bytes with their media type.

use vstd::prelude::*;
use vstd::utf8::encode_utf8;
use base64::Engine;

verus! {

/// A stored file: its media type, its content, and whether the content is base64.
#[derive(Clone, Debug)]
pub struct File {
    pub mime: String,
    pub content: String,
    pub base64: bool,
}

#[verifier::external_type_specification]
#[verifier::external_body]
pub struct ExDecodeError(base64::DecodeError);

/// What the standard base64 engine (standard alphabet, canonical padding)
/// decodes `input` to, or `None` where it refuses the input.
pub uninterp spec fn base64_standard_decode(input: Seq<u8>) -> Option<Seq<u8>>;

/// Calls `decode` of base64's `STANDARD` engine. Claimed: the call returns the
/// bytes that `base64_standard_decode` names for the input, and fails exactly
/// where that name is `None`; what decoding computes is left to the crate.
#[verifier::external_body]
fn base64_decode(input: &[u8]) -> (r: Result<Vec<u8>, base64::DecodeError>)
    ensures
        match base64_standard_decode(input@) {
            Some(bytes) => r matches Ok(v) && v@ == bytes,
            None => r is Err,
        },
{
    base64::engine::general_purpose::STANDARD.decode(input)
}

/// The body sent for decoded content: the decoded bytes, or nothing where the
/// content was not valid base64.
pub fn decoded_or_empty(decoded: Option<Vec<u8>>) -> (body: Vec<u8>)
    ensures
        match decoded {
            Some(v) => body@ == v@,
            None => body@ == Seq::<u8>::empty(),
        },
{
    match decoded {
        Some(v) => v,
        None => Vec::new(),
    }
}

/// The bytes sent for a stored file: its text as UTF-8, or, for base64 content,
/// the decoded bytes (nothing where the content does not decode).
pub open spec fn body_spec(content: Seq<char>, is_base64: bool) -> Seq<u8> {
    if !is_base64 {
        encode_utf8(content)
    } else {
        match base64_standard_decode(encode_utf8(content)) {
            Some(bytes) => bytes,
            None => Seq::empty(),
        }
    }
}

/// The bytes sent for `file`.
pub fn file_body(file: &File) -> (body: Vec<u8>)
    ensures
        body@ == body_spec(file.content@, file.base64),
{
    let bytes = file.content.as_str().as_bytes();
    if !file.base64 {
        file.content.as_str().as_bytes_vec()
    } else {
        let decoded = match base64_decode(bytes) {
            Ok(v) => Some(v),
            Err(_) => None,
        };
        decoded_or_empty(decoded)
    }
}

/// The reply for `file`: its media type and the bytes sent.
pub fn file_reply(file: &File) -> (reply: (String, Vec<u8>))
    ensures
        reply.0@ == file.mime@,
        reply.1@ == body_spec(file.content@, file.base64),
{
    (file.mime.clone(), file_body(file))
}

} // verus!
