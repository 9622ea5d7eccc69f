//! HTTP header fields as plain text and bytes, and the checks that the `http`
//! crate makes on them.

use http::header::{HeaderName, HeaderValue, InvalidHeaderName, InvalidHeaderValue};
use std::str::FromStr;
use vstd::prelude::*;

verus! {

/// A header value that `http` has accepted.
#[verifier::external_type_specification]
#[verifier::external_body]
pub struct ExHeaderValue(HeaderValue);

/// `http`'s refusal of a header name.
#[verifier::external_type_specification]
#[verifier::external_body]
pub struct ExInvalidHeaderName(InvalidHeaderName);

/// `http`'s refusal of a header value.
#[verifier::external_type_specification]
#[verifier::external_body]
pub struct ExInvalidHeaderValue(InvalidHeaderValue);

/// One header of an HTTP message.
pub struct HeaderField {
    pub name: String,
    pub value: Vec<u8>,
}

impl View for HeaderField {
    type V = (Seq<char>, Seq<u8>);

    open spec fn view(&self) -> (Seq<char>, Seq<u8>) {
        (self.name@, self.value@)
    }
}

/// The views of a run of header fields.
pub open spec fn field_views(fields: Seq<HeaderField>) -> Seq<(Seq<char>, Seq<u8>)> {
    fields.map_values(|field: HeaderField| field@)
}

/// A byte that may stand in a header value: anything from the space upwards
/// but DEL, and the tab.
pub open spec fn is_value_byte(byte: u8) -> bool {
    byte >= 32 && byte != 127 || byte == 9
}

/// A byte of visible ASCII: space to `~`, and the tab.
pub open spec fn is_visible_byte(byte: u8) -> bool {
    32 <= byte < 127 || byte == 9
}

/// Every byte of `bytes` may stand in a header value.
pub open spec fn is_value(bytes: Seq<u8>) -> bool {
    forall|i: int| 0 <= i < bytes.len() ==> is_value_byte(#[trigger] bytes[i])
}

/// Every byte of `bytes` is visible ASCII.
pub open spec fn is_visible(bytes: Seq<u8>) -> bool {
    forall|i: int| 0 <= i < bytes.len() ==> is_visible_byte(#[trigger] bytes[i])
}

/// The text whose characters are the bytes of `bytes`, one for one.
pub open spec fn text_of(bytes: Seq<u8>) -> Seq<char> {
    Seq::new(bytes.len(), |i: int| bytes[i] as char)
}

/// The name under which `http` files a header called `name`, or none where
/// it refuses the name.
pub uninterp spec fn normalized_name(name: Seq<char>) -> Option<Seq<char>>;

/// The bytes that a header value holds.
pub uninterp spec fn value_bytes(value: HeaderValue) -> Seq<u8>;

/// `HeaderName::from_str`, with the accepted name handed back as text.
/// Trusted: the outcome is `normalized_name`.
#[verifier::external_body]
pub(crate) fn header_name_from_str(name: &str) -> (parsed: Result<String, InvalidHeaderName>)
    ensures
        normalized_name(name@) == match parsed {
            Ok(normal) => Some(normal@),
            Err(_) => None,
        },
{
    HeaderName::from_str(name).map(|normal| normal.as_str().to_string())
}

/// `HeaderValue::from_bytes`. Trusted: the call accepts `bytes` exactly when
/// each of them may stand in a header value, and the value then holds them.
#[verifier::external_body]
pub(crate) fn header_value_from_bytes(bytes: &[u8]) -> (parsed: Result<
    HeaderValue,
    InvalidHeaderValue,
>)
    ensures
        parsed is Ok <==> is_value(bytes@),
        parsed matches Ok(value) ==> value_bytes(value) == bytes@,
{
    HeaderValue::from_bytes(bytes)
}

/// `HeaderValue::to_str`, with the text handed back owned. Trusted: the call
/// yields text exactly when the value is all visible ASCII, and the text is
/// then the value's bytes read as characters.
#[verifier::external_body]
pub(crate) fn header_value_to_str(value: &HeaderValue) -> (text: Option<String>)
    ensures
        text is Some <==> is_visible(value_bytes(*value)),
        text matches Some(s) ==> s@ == text_of(value_bytes(*value)),
{
    value.to_str().ok().map(|s| s.to_string())
}

} // verus!
