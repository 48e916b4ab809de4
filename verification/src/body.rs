//! The response body: the bytes that arrived, and the text they stand for.
//!
//! The length of a body is counted on the bytes received, never taken from a
//! `Content-Length` header. The text is decoded with the character set that the
//! `Content-Type` header declares, and as UTF-8 where it declares none that is
//! known. Decoding replaces what is malformed and so never fails. The whole
//! buffer is decoded in that one encoding, a byte-order mark included.

use crate::headers::{content_type_name, first_header, header_entries, header_value_bytes};
use bytes::Bytes;
use encoding_rs::Encoding;
use mime::Mime;
use reqwest::header::{HeaderMap, HeaderValue};
use vstd::prelude::*;

verus! {

/// `bytes::Bytes`, held as it is. What it holds is named by [`bytes_view`].
#[verifier::external_type_specification]
#[verifier::external_body]
pub struct ExBytes(Bytes);

/// `reqwest::Error`, carried through: nothing is known of a value.
#[verifier::external_type_specification]
#[verifier::external_body]
pub struct ExTransportError(reqwest::Error);

/// The bytes that a `Bytes` buffer holds, in order.
pub uninterp spec fn bytes_view(buffer: Bytes) -> Seq<u8>;

/// The value of parameter `attr` in the media type `content_type`, as the `mime`
/// crate finds it: what `Mime::get_param` gives after `content_type` was parsed,
/// and `None` where it does not parse or has no such parameter.
pub uninterp spec fn media_type_param(content_type: Seq<char>, attr: Seq<char>) -> Option<Seq<char>>;

/// The text that `bytes` decode to under the encoding that `label` stands for,
/// as `encoding_rs` decodes it: what `Encoding::decode_without_bom_handling`
/// gives for the encoding that `Encoding::for_label` finds, and `None` where it
/// finds none. Every byte is decoded in that encoding: a byte-order mark at the
/// start neither changes the encoding nor is it left out.
pub uninterp spec fn decoded_text(label: Seq<char>, bytes: Seq<u8>) -> Option<Seq<char>>;

/// The longest body that is decoded. The decoder sets aside up to three bytes
/// of text, and a few more, for each byte of input, and panics where that
/// count does not fit.
pub const MAX_BODY_LEN: usize = usize::MAX / 8;

/// The text of an optional string.
pub open spec fn text_of(found: Option<String>) -> Option<Seq<char>> {
    match found {
        Some(s) => Some(s@),
        None => None,
    }
}

/// Whether a byte is a visible ASCII character, a space or a tab.
pub open spec fn is_visible_ascii(b: u8) -> bool {
    32 <= b < 127 || b == 9
}

/// Whether every byte is visible ASCII.
pub open spec fn all_visible_ascii(bytes: Seq<u8>) -> bool {
    forall|i: int| 0 <= i < bytes.len() ==> is_visible_ascii(#[trigger] bytes[i])
}

/// Whether every character is an ASCII character.
pub open spec fn is_ascii_text(text: Seq<char>) -> bool {
    forall|i: int| 0 <= i < text.len() ==> (#[trigger] text[i]) as u32 <= 127
}

/// ASCII bytes as characters.
pub open spec fn ascii_chars(bytes: Seq<u8>) -> Seq<char> {
    Seq::new(bytes.len(), |i: int| bytes[i] as char)
}

/// `Bytes::as_ref`: the buffer as a slice.
#[verifier::external_body]
pub(crate) fn bytes_slice(buffer: &Bytes) -> (slice: &[u8])
    ensures
        slice@ == bytes_view(*buffer),
{
    buffer.as_ref()
}

/// `HeaderValue::to_str`: the value as text, where all of its bytes are
/// visible ASCII; nothing otherwise.
#[verifier::external_body]
pub(crate) fn header_text(value: &HeaderValue) -> (text: Option<&str>)
    ensures
        match text {
            Some(s) => all_visible_ascii(header_value_bytes(*value)) && s@ == ascii_chars(
                header_value_bytes(*value),
            ),
            None => !all_visible_ascii(header_value_bytes(*value)),
        },
{
    value.to_str().ok()
}

/// Parses `content_type` with `Mime::from_str` and looks `attr` up with
/// `Mime::get_param`. The result is a function of the two texts alone, named
/// by [`media_type_param`]. Only ASCII text is handed to the parser.
#[verifier::external_body]
pub(crate) fn parameter_of(content_type: &str, attr: &str) -> (value: Option<String>)
    requires
        is_ascii_text(content_type@),
    ensures
        text_of(value) == media_type_param(content_type@, attr@),
{
    let parsed: Mime = match content_type.parse() {
        Ok(parsed) => parsed,
        Err(_) => return None,
    };
    parsed.get_param(attr).map(|value| value.as_str().to_string())
}

/// Looks the encoding up with `Encoding::for_label` and decodes the whole
/// input with `Encoding::decode_without_bom_handling`, which replaces what is
/// malformed and takes a byte-order mark for what it is in that encoding. The
/// result is a function of label and bytes alone, named by [`decoded_text`].
/// The label `utf-8` is known. The input must be no longer than
/// [`MAX_BODY_LEN`].
#[verifier::external_body]
pub(crate) fn decode_labelled(label: &str, bytes: &[u8]) -> (text: Option<String>)
    requires
        bytes@.len() <= MAX_BODY_LEN,
    ensures
        text_of(text) == decoded_text(label@, bytes@),
        label@ == "utf-8"@ ==> text is Some,
{
    match Encoding::for_label(label.as_bytes()) {
        Some(encoding) => Some(encoding.decode_without_bom_handling(bytes).0.into_owned()),
        None => None,
    }
}

/// A decoded response body.
#[derive(Debug, PartialEq, Eq)]
pub struct Body {
    /// The text that the bytes stand for.
    pub text: String,
    /// The number of bytes that arrived. This is not the length of `text`.
    pub length: usize,
}

/// Why there is no body: its bytes could not be read.
#[derive(Debug)]
pub struct DecodeError {
    pub source: reqwest::Error,
}

/// The character set that the headers declare: the `charset` parameter of the
/// first `Content-Type` value, where that value is visible ASCII and a media
/// type with such a parameter.
pub open spec fn declared_charset(entries: Map<Seq<char>, Seq<Seq<u8>>>) -> Option<Seq<char>> {
    if entries.contains_key("content-type"@) && all_visible_ascii(entries["content-type"@][0]) {
        media_type_param(ascii_chars(entries["content-type"@][0]), "charset"@)
    } else {
        None
    }
}

/// The text of a body: decoded as the declared character set where one is
/// declared and known, and as UTF-8 otherwise.
pub open spec fn body_text(entries: Map<Seq<char>, Seq<Seq<u8>>>, bytes: Seq<u8>) -> Seq<char> {
    match declared_charset(entries) {
        Some(label) => match decoded_text(label, bytes) {
            Some(text) => text,
            None => decoded_text("utf-8"@, bytes).unwrap(),
        },
        None => decoded_text("utf-8"@, bytes).unwrap(),
    }
}

/// Tells whether a buffer is short enough to be decoded.
pub fn can_decode(buffer: &Bytes) -> (yes: bool)
    ensures
        yes == (bytes_view(*buffer).len() <= MAX_BODY_LEN),
{
    bytes_slice(buffer).len() <= MAX_BODY_LEN
}

/// Finds the character set that the headers declare.
pub fn charset_of(headers: &HeaderMap<HeaderValue>) -> (label: Option<String>)
    ensures
        text_of(label) == declared_charset(header_entries(*headers)),
{
    let name = content_type_name();
    match first_header(headers, &name) {
        Some(value) => match header_text(value) {
            Some(content_type) => parameter_of(content_type, "charset"),
            None => None,
        },
        None => None,
    }
}

/// Decodes `bytes` as UTF-8, replacing what is malformed.
fn decode_utf8(bytes: &[u8]) -> (text: String)
    requires
        bytes@.len() <= MAX_BODY_LEN,
    ensures
        Some(text@) == decoded_text("utf-8"@, bytes@),
{
    match decode_labelled("utf-8", bytes) {
        Some(text) => text,
        None => String::new(),
    }
}

/// Turns the bytes of a response into a [`Body`].
///
/// A failure to read the bytes is handed on. Bytes that were read always give
/// a body: its length is their number, its text what they decode to.
pub fn process_body(bytes: Result<Bytes, reqwest::Error>, headers: &HeaderMap<HeaderValue>) -> (body:
    Result<Body, DecodeError>)
    requires
        bytes matches Ok(buffer) ==> bytes_view(buffer).len() <= MAX_BODY_LEN,
    ensures
        match bytes {
            Ok(buffer) => body matches Ok(found) && found.length == bytes_view(buffer).len()
                && found.text@ == body_text(header_entries(*headers), bytes_view(buffer)),
            Err(failure) => body matches Err(error) && error.source == failure,
        },
{
    let buffer = match bytes {
        Ok(buffer) => buffer,
        Err(source) => return Err(DecodeError { source }),
    };
    let data = bytes_slice(&buffer);
    let length = data.len();
    let text = match charset_of(headers) {
        Some(label) => match decode_labelled(label.as_str(), data) {
            Some(text) => text,
            None => decode_utf8(data),
        },
        None => decode_utf8(data),
    };
    Ok(Body { text, length })
}

} // verus!
