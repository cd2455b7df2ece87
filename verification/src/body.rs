//! The wire form of a message body: base64 text, or nothing.

use crate::error::ProxyError;
use base64::prelude::BASE64_STANDARD;
use base64::{DecodeError, Engine};
use vstd::prelude::*;

verus! {

/// `base64::DecodeError`, of which the verifier sees nothing but the name.
#[verifier::external_type_specification]
#[verifier::external_body]
pub struct ExDecodeError(DecodeError);

/// The most bytes that are encoded at once: with more, the text would not
/// fit the address space of a 32-bit machine.
pub const MAX_ENCODABLE_BYTES: usize = 1610612733;

/// The standard base64 text of a byte string, with padding.
pub uninterp spec fn base64_text(bytes: Seq<u8>) -> Seq<char>;

/// The byte string that a text is the standard base64 form of, if any.
pub uninterp spec fn base64_bytes(text: Seq<char>) -> Option<Seq<u8>>;

/// `Engine::encode` of `BASE64_STANDARD`. The text is a function of the
/// bytes, and decoding it gives the bytes back.
#[verifier::external_body]
fn encode(bytes: &Vec<u8>) -> (text: String)
    requires
        bytes.len() <= MAX_ENCODABLE_BYTES,
    ensures
        text@ == base64_text(bytes@),
        base64_bytes(text@) == Some(bytes@),
{
    BASE64_STANDARD.encode(bytes)
}

/// `Engine::decode` of `BASE64_STANDARD`: the bytes of which the text is
/// the base64 form, or the reason why it is none.
#[verifier::external_body]
fn decode(text: &str) -> (r: Result<Vec<u8>, DecodeError>)
    ensures
        match base64_bytes(text@) {
            Some(bytes) => r is Ok && r->Ok_0@ == bytes,
            None => r is Err,
        },
{
    BASE64_STANDARD.decode(text.as_bytes())
}

/// The description that a `DecodeError` gives of itself through `Display`.
#[verifier::external_body]
fn describe(e: &DecodeError) -> (text: String) {
    e.to_string()
}

/// The wire form of a body.
pub open spec fn encoded(body: Option<Seq<u8>>) -> Option<Seq<char>> {
    match body {
        Some(bytes) => Some(base64_text(bytes)),
        None => None,
    }
}

/// The body that a wire form stands for; `Err` where the text is no base64.
pub open spec fn decoded(wire: Option<Seq<char>>) -> Result<Option<Seq<u8>>, ()> {
    match wire {
        Some(text) => match base64_bytes(text) {
            Some(bytes) => Ok(Some(bytes)),
            None => Err(()),
        },
        None => Ok(None),
    }
}

/// The body of a message in its wire form. What comes out decodes to the
/// body that went in.
pub fn serialize(v: &Option<Vec<u8>>) -> (wire: Option<String>)
    requires
        v matches Some(bytes) ==> bytes.len() <= MAX_ENCODABLE_BYTES,
    ensures
        wire.deep_view() == encoded(v.deep_view()),
        decoded(wire.deep_view()) == Ok::<Option<Seq<u8>>, ()>(v.deep_view()),
{
    match v {
        Some(bytes) => {
            assert(bytes.deep_view() =~= bytes@);
            Some(encode(bytes))
        },
        None => None,
    }
}

/// The body of a message from its wire form. A text that is no base64 is
/// an error.
pub fn deserialize(wire: Option<String>) -> (r: Result<Option<Vec<u8>>, ProxyError>)
    ensures
        match decoded(wire.deep_view()) {
            Ok(body) => r is Ok && r->Ok_0.deep_view() == body,
            Err(_) => r matches Err(e) && e is Json,
        },
{
    match wire {
        Some(text) => match decode(text.as_str()) {
            Ok(bytes) => {
                assert(bytes.deep_view() =~= bytes@);
                Ok(Some(bytes))
            },
            Err(e) => Err(ProxyError::Json(describe(&e))),
        },
        None => Ok(None),
    }
}

/// Encodes a body where it is small enough to be encoded, and says so where
/// it is not.
pub fn try_serialize(v: &Option<Vec<u8>>) -> (r: Result<Option<String>, ProxyError>)
    ensures
        r is Ok <==> (v matches Some(bytes) ==> bytes.len() <= MAX_ENCODABLE_BYTES),
        r matches Ok(wire) ==> wire.deep_view() == encoded(v.deep_view()) && decoded(
            wire.deep_view(),
        ) == Ok::<Option<Seq<u8>>, ()>(v.deep_view()),
        r matches Err(e) ==> e is Json,
{
    let fits = match v {
        Some(bytes) => bytes.len() <= MAX_ENCODABLE_BYTES,
        None => true,
    };
    if fits {
        Ok(serialize(v))
    } else {
        Err(ProxyError::Json(String::from_str("body is too large to encode")))
    }
}

} // verus!
