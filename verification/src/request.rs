//! What is sent: the configuration of one request, and the request made from it.

use crate::headers::{
    append_header, appended, content_type_name, header_count, header_entries, header_name_text,
    header_value_bytes, insert_header, new_header_map, no_entries, replaced, values_of,
    MAX_HEADERS,
};
use reqwest::header::{HeaderMap, HeaderName, HeaderValue};
use reqwest::{Method, Url, Version};
use vstd::prelude::*;

verus! {

/// `http::Method`, carried through: nothing is known of a value.
#[verifier::external_type_specification]
#[verifier::external_body]
pub struct ExMethod(Method);

/// `url::Url`, carried through: nothing is known of a value.
#[verifier::external_type_specification]
#[verifier::external_body]
pub struct ExUrl(Url);

/// `http::Version`, carried through: nothing is known of a value.
#[verifier::external_type_specification]
#[verifier::external_body]
pub struct ExVersion(Version);

/// Everything that decides what one request looks like.
pub struct RequestConfig {
    pub url: Url,
    pub method: Method,
    /// The protocol version to insist on, if any.
    pub version: Option<Version>,
    /// The caller's headers, in the order given. A name may occur more than once.
    pub headers: Vec<(HeaderName, HeaderValue)>,
    pub body: Option<String>,
    /// Replaces whatever `Content-Type` the caller's headers carry.
    pub content_type: Option<HeaderValue>,
    pub auth_user: Option<String>,
    pub auth_pw: Option<String>,
    /// Whether the response body is left unread.
    pub without_body: bool,
    /// A ready-made authorization header. Replaces a caller's header of that name.
    pub token_auth: Option<(HeaderName, HeaderValue)>,
}

/// User name and password for HTTP basic authentication.
#[derive(Debug, PartialEq, Eq)]
pub struct BasicAuth {
    pub user: String,
    pub password: Option<String>,
}

/// A request, ready to be handed to the transport.
pub struct PreparedRequest {
    pub method: Method,
    pub url: Url,
    pub headers: HeaderMap<HeaderValue>,
    pub version: Option<Version>,
    pub body: Option<String>,
    pub basic_auth: Option<BasicAuth>,
}

/// The entries of a map to which the given headers were appended one by one.
pub open spec fn user_headers(headers: Seq<(HeaderName, HeaderValue)>) -> Map<
    Seq<char>,
    Seq<Seq<u8>>,
>
    decreases headers.len(),
{
    if headers.len() == 0 {
        no_entries()
    } else {
        appended(
            user_headers(headers.drop_last()),
            header_name_text(headers.last().0),
            header_value_bytes(headers.last().1),
        )
    }
}

/// The headers of the request that `cfg` describes: the caller's headers first,
/// then the token header, then the content type, each of the latter two in
/// place of all earlier values under its name.
pub open spec fn merged_headers(cfg: RequestConfig) -> Map<Seq<char>, Seq<Seq<u8>>> {
    let user = user_headers(cfg.headers@);
    let with_token = match cfg.token_auth {
        Some((name, value)) => replaced(user, header_name_text(name), header_value_bytes(value)),
        None => user,
    };
    match cfg.content_type {
        Some(value) => replaced(with_token, "content-type"@, header_value_bytes(value)),
        None => with_token,
    }
}

/// The credentials that `cfg` asks for: those of basic authentication where a
/// user name is given, none otherwise. A password without a user name is ignored.
pub open spec fn credentials(cfg: RequestConfig) -> Option<BasicAuth> {
    match cfg.auth_user {
        Some(user) => Some(BasicAuth { user, password: cfg.auth_pw }),
        None => None,
    }
}

/// The number of values that the request of `cfg` puts into its header map,
/// one after the other: the caller's headers, the token header and the content
/// type.
pub open spec fn header_demand(cfg: RequestConfig) -> nat {
    cfg.headers@.len() + if cfg.token_auth is Some {
        1nat
    } else {
        0nat
    } + if cfg.content_type is Some {
        1nat
    } else {
        0nat
    }
}

/// Tells whether the headers of `cfg` fit into one header map, so that
/// [`prepare_request`] can be called.
pub fn can_prepare(cfg: &RequestConfig) -> (yes: bool)
    ensures
        yes == (header_demand(*cfg) <= MAX_HEADERS),
{
    let mut room: usize = MAX_HEADERS;
    if cfg.token_auth.is_some() {
        room = room - 1;
    }
    if cfg.content_type.is_some() {
        room = room - 1;
    }
    cfg.headers.len() <= room
}

/// Appends the caller's headers to an empty map, in their order.
fn collect_headers(headers: Vec<(HeaderName, HeaderValue)>) -> (map: HeaderMap<HeaderValue>)
    requires
        headers.len() <= MAX_HEADERS,
    ensures
        header_entries(map) == user_headers(headers@),
        header_count(map) == headers.len(),
{
    let mut map = new_header_map();
    let ghost all = headers@;
    for pair in it: headers
        invariant
            it.seq() == all,
            all.len() <= MAX_HEADERS,
            header_entries(map) == user_headers(all.take(it.index() as int)),
            header_count(map) == it.index(),
    {
        let (name, value) = pair;
        proof {
            let i = it.index() as int;
            assert(all.take(i + 1).drop_last() == all.take(i));
            assert(all.take(i + 1).last() == all[i]);
        }
        append_header(&mut map, name, value);
    }
    proof {
        assert(all.take(all.len() as int) == all);
    }
    map
}

/// Builds the request that `cfg` describes.
///
/// The caller's headers come first, in their order; the token header and then
/// the content type replace what stands under their names. Basic authentication
/// is asked for only where a user name is given. The headers must fit into one
/// header map: [`can_prepare`] tells whether they do.
pub fn prepare_request(cfg: RequestConfig) -> (request: PreparedRequest)
    requires
        header_demand(cfg) <= MAX_HEADERS,
    ensures
        request.method == cfg.method,
        request.url == cfg.url,
        request.version == cfg.version,
        request.body == cfg.body,
        request.basic_auth == credentials(cfg),
        header_entries(request.headers) == merged_headers(cfg),
{
    let RequestConfig {
        url,
        method,
        version,
        headers,
        body,
        content_type,
        auth_user,
        auth_pw,
        without_body: _,
        token_auth,
    } = cfg;
    let mut map = collect_headers(headers);
    if let Some((name, value)) = token_auth {
        insert_header(&mut map, name, value);
    }
    if let Some(value) = content_type {
        insert_header(&mut map, content_type_name(), value);
    }
    let basic_auth = match auth_user {
        Some(user) => Some(BasicAuth { user, password: auth_pw }),
        None => None,
    };
    PreparedRequest { method, url, headers: map, version, body, basic_auth }
}

/// The values that the caller gave under `name`, in the order given.
pub open spec fn given_values(headers: Seq<(HeaderName, HeaderValue)>, name: Seq<char>) -> Seq<
    Seq<u8>,
>
    decreases headers.len(),
{
    if headers.len() == 0 {
        Seq::empty()
    } else if header_name_text(headers.last().0) == name {
        given_values(headers.drop_last(), name).push(header_value_bytes(headers.last().1))
    } else {
        given_values(headers.drop_last(), name)
    }
}

/// The caller's headers keep their order, and a name that is given more than
/// once keeps every value: under each name stand the values given under it,
/// in the order given.
pub proof fn lemma_user_headers_keep_order(headers: Seq<(HeaderName, HeaderValue)>, name: Seq<char>)
    ensures
        values_of(user_headers(headers), name) == given_values(headers, name),
        user_headers(headers).contains_key(name) <==> given_values(headers, name).len() > 0,
    decreases headers.len(),
{
    if headers.len() > 0 {
        lemma_user_headers_keep_order(headers.drop_last(), name);
    }
}

/// The content type and the token header take precedence over the caller's
/// headers: each stands alone under its name, the content type also where
/// the token header has the same name. Headers of other names are the
/// caller's.
pub proof fn lemma_overrides_take_precedence(cfg: RequestConfig)
    ensures
        cfg.content_type matches Some(value) ==> values_of(merged_headers(cfg), "content-type"@)
            == seq![header_value_bytes(value)],
        cfg.token_auth matches Some((name, value)) ==> cfg.content_type is None
            || header_name_text(name) != "content-type"@ ==> values_of(
            merged_headers(cfg),
            header_name_text(name),
        ) == seq![header_value_bytes(value)],
        forall|other: Seq<char>|
            !(cfg.content_type is Some && other == "content-type"@) && !(cfg.token_auth matches Some(
                (name, _),
            ) && other == header_name_text(name)) ==> #[trigger] values_of(
                merged_headers(cfg),
                other,
            ) == values_of(user_headers(cfg.headers@), other),
{
}

} // verus!
