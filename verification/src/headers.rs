//! The header collection of the `http` crate, as the library sees it.
//!
//! A `HeaderMap` is kept as it is. Verified code reads and fills it through the
//! functions of this module, whose contracts are stated over
//! [`header_entries`]: for each header name the values held under it, in the
//! order in which they were added. The contracts are taken from the
//! documentation and source of `http`; they are believed, not proved.

use reqwest::header::{HeaderMap, HeaderName, HeaderValue};
use vstd::prelude::*;

verus! {

/// `http::HeaderMap`, held as it is. What it holds is named by
/// [`header_entries`] and [`header_count`].
#[verifier::external_type_specification]
#[verifier::external_body]
#[verifier::reject_recursive_types(T)]
pub struct ExHeaderMap<T>(HeaderMap<T>);

/// `http::HeaderName`, held as it is. Its text is named by [`header_name_text`].
#[verifier::external_type_specification]
#[verifier::external_body]
pub struct ExHeaderName(HeaderName);

/// `http::HeaderValue`, held as it is. Its bytes are named by
/// [`header_value_bytes`].
#[verifier::external_type_specification]
#[verifier::external_body]
pub struct ExHeaderValue(HeaderValue);

/// The text of a header name, as `HeaderName::as_str` gives it: always lower case.
pub uninterp spec fn header_name_text(name: HeaderName) -> Seq<char>;

/// The bytes of a header value, as `HeaderValue::as_bytes` gives them.
pub uninterp spec fn header_value_bytes(value: HeaderValue) -> Seq<u8>;

/// What a header map holds: under the text of each name that is present, the
/// bytes of its values, oldest first. A name that is present has at least one
/// value.
pub uninterp spec fn header_entries(map: HeaderMap<HeaderValue>) -> Map<Seq<char>, Seq<Seq<u8>>>;

/// The number of values in a header map, as `HeaderMap::len` gives it.
pub uninterp spec fn header_count(map: HeaderMap<HeaderValue>) -> nat;

/// The most values that this library puts into one header map: a value is
/// added only to a map that holds fewer.
///
/// `HeaderMap` panics when its table would have to grow beyond 32768 slots. It
/// asks for a larger table when three quarters of the slots are taken, or, after
/// a run of colliding names, when a fifth of them are: 6553.6 of 32768. A map
/// that holds fewer than 6554 names is therefore never asked to grow beyond
/// that size, and a map with fewer than 6554 values holds no more names than
/// values.
pub const MAX_HEADERS: usize = 6554;

/// The entries of a map that holds nothing.
pub open spec fn no_entries() -> Map<Seq<char>, Seq<Seq<u8>>> {
    Map::empty()
}

/// The values under `name`, or none where the name is absent.
pub open spec fn values_of(entries: Map<Seq<char>, Seq<Seq<u8>>>, name: Seq<char>) -> Seq<Seq<u8>> {
    if entries.contains_key(name) {
        entries[name]
    } else {
        Seq::empty()
    }
}

/// The entries after one more value was added under `name`.
pub open spec fn appended(
    entries: Map<Seq<char>, Seq<Seq<u8>>>,
    name: Seq<char>,
    value: Seq<u8>,
) -> Map<Seq<char>, Seq<Seq<u8>>> {
    entries.insert(name, values_of(entries, name).push(value))
}

/// The entries after `value` took the place of every value under `name`.
pub open spec fn replaced(
    entries: Map<Seq<char>, Seq<Seq<u8>>>,
    name: Seq<char>,
    value: Seq<u8>,
) -> Map<Seq<char>, Seq<Seq<u8>>> {
    entries.insert(name, seq![value])
}

/// `HeaderMap::new`: a map without entries.
#[verifier::external_body]
pub(crate) fn new_header_map() -> (map: HeaderMap<HeaderValue>)
    ensures
        header_entries(map) == no_entries(),
        header_count(map) == 0,
{
    HeaderMap::new()
}

/// `HeaderMap::append`: the value is added behind those that the name already
/// has; other names keep their values. The map must hold fewer than
/// [`MAX_HEADERS`] values, so that it cannot be at capacity.
#[verifier::external_body]
pub(crate) fn append_header(map: &mut HeaderMap<HeaderValue>, name: HeaderName, value: HeaderValue)
    requires
        header_count(*old(map)) < MAX_HEADERS,
    ensures
        header_entries(*final(map)) == appended(
            header_entries(*old(map)),
            header_name_text(name),
            header_value_bytes(value),
        ),
        header_count(*final(map)) == header_count(*old(map)) + 1,
{
    map.append(name, value);
}

/// `HeaderMap::insert`: the value becomes the only one under its name; other
/// names keep their values. The map must hold fewer than [`MAX_HEADERS`]
/// values, so that it cannot be at capacity.
#[verifier::external_body]
pub(crate) fn insert_header(map: &mut HeaderMap<HeaderValue>, name: HeaderName, value: HeaderValue)
    requires
        header_count(*old(map)) < MAX_HEADERS,
    ensures
        header_entries(*final(map)) == replaced(
            header_entries(*old(map)),
            header_name_text(name),
            header_value_bytes(value),
        ),
        header_count(*final(map)) <= header_count(*old(map)) + 1,
{
    map.insert(name, value);
}

/// `HeaderMap::get`: the first value under the name, if the name is present.
#[verifier::external_body]
pub(crate) fn first_header<'a>(map: &'a HeaderMap<HeaderValue>, name: &HeaderName) -> (value: Option<
    &'a HeaderValue,
>)
    ensures
        match value {
            Some(v) => header_entries(*map).contains_key(header_name_text(*name))
                && header_entries(*map)[header_name_text(*name)].len() > 0
                && header_value_bytes(*v) == header_entries(*map)[header_name_text(*name)][0],
            None => !header_entries(*map).contains_key(header_name_text(*name)),
        },
{
    map.get(name)
}

/// The constant `CONTENT_TYPE` of `http::header`, whose text is `content-type`.
#[verifier::external_body]
pub(crate) fn content_type_name() -> (name: HeaderName)
    ensures
        header_name_text(name) == "content-type"@,
{
    reqwest::header::CONTENT_TYPE
}

} // verus!
