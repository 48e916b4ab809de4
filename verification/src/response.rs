//! What comes back: the response as the transport delivers it, and the steps
//! from there to a [`ProcessedResponse`].
//!
//! The transport is driven from outside this library. It sends the prepared
//! request once and hands the outcome to [`on_sent`]: a failure to send, or
//! the [`ResponseHead`] that it captured before it touched the body. A failure
//! to send is the only thing that fails the exchange. Where the body is
//! wanted, the transport reads it and hands the outcome to [`on_body`].

use crate::body::{body_text, bytes_view, process_body, Body, DecodeError, MAX_BODY_LEN};
use crate::headers::header_entries;
use bytes::Bytes;
use reqwest::header::{HeaderMap, HeaderValue};
use reqwest::tls::TlsInfo;
use reqwest::{StatusCode, Url, Version};
use vstd::prelude::*;

verus! {

/// `http::StatusCode`, carried through: nothing is known of a value.
#[verifier::external_type_specification]
#[verifier::external_body]
pub struct ExStatusCode(StatusCode);

/// `reqwest::tls::TlsInfo`, carried through: nothing is known of a value.
#[verifier::external_type_specification]
#[verifier::external_body]
pub struct ExTlsInfo(TlsInfo);

/// Everything a response tells before its body is read, captured in one step.
pub struct ResponseHead {
    pub version: Version,
    pub status: StatusCode,
    pub headers: HeaderMap<HeaderValue>,
    /// The address that answered, after redirects.
    pub final_url: Url,
    pub tls_info: Option<TlsInfo>,
}

/// A completed exchange.
pub struct ProcessedResponse {
    pub version: Version,
    pub status: StatusCode,
    pub headers: HeaderMap<HeaderValue>,
    /// `None` where the body was not asked for. Where it was, a body that could
    /// not be read is reported here and does not fail the exchange.
    pub body: Option<Result<Body, DecodeError>>,
    pub final_url: Url,
    pub tls_info: Option<TlsInfo>,
}

/// What the transport does after the head of a response arrived.
pub enum NextStep {
    /// Read the whole body, then call [`on_body`] with this head.
    ReadBody(ResponseHead),
    /// Nothing more: the exchange is complete.
    Finish(ProcessedResponse),
}

impl ResponseHead {
    /// The response made of this head and `body`.
    pub open spec fn with_body(self, body: Option<Result<Body, DecodeError>>) -> ProcessedResponse {
        ProcessedResponse {
            version: self.version,
            status: self.status,
            headers: self.headers,
            body,
            final_url: self.final_url,
            tls_info: self.tls_info,
        }
    }

    /// Completes the head with `body`.
    pub fn complete(self, body: Option<Result<Body, DecodeError>>) -> (response: ProcessedResponse)
        ensures
            response == self.with_body(body),
    {
        ProcessedResponse {
            version: self.version,
            status: self.status,
            headers: self.headers,
            body,
            final_url: self.final_url,
            tls_info: self.tls_info,
        }
    }
}

/// Decides whether the body is read. Without a body the exchange is complete,
/// and its `body` is `None`.
pub fn on_response(head: ResponseHead, without_body: bool) -> (next: NextStep)
    ensures
        next == if without_body {
            NextStep::Finish(head.with_body(None))
        } else {
            NextStep::ReadBody(head)
        },
{
    if without_body {
        NextStep::Finish(head.complete(None))
    } else {
        NextStep::ReadBody(head)
    }
}

/// Takes the outcome of sending. A failure to send fails the exchange and is
/// returned as it is. A response that arrived goes on as [`on_response`] says.
pub fn on_sent(outcome: Result<ResponseHead, reqwest::Error>, without_body: bool) -> (next: Result<
    NextStep,
    reqwest::Error,
>)
    ensures
        match outcome {
            Ok(head) => next matches Ok(step) && step == if without_body {
                NextStep::Finish(head.with_body(None))
            } else {
                NextStep::ReadBody(head)
            },
            Err(failure) => next matches Err(error) && error == failure,
        },
{
    match outcome {
        Ok(head) => Ok(on_response(head, without_body)),
        Err(failure) => Err(failure),
    }
}

/// Completes the exchange with what reading the body gave. The exchange
/// succeeds either way: bytes become a decoded [`Body`], a failure to read them
/// stands in its place.
pub fn on_body(head: ResponseHead, bytes: Result<Bytes, reqwest::Error>) -> (response:
    ProcessedResponse)
    requires
        bytes matches Ok(buffer) ==> bytes_view(buffer).len() <= MAX_BODY_LEN,
    ensures
        response.version == head.version,
        response.status == head.status,
        response.headers == head.headers,
        response.final_url == head.final_url,
        response.tls_info == head.tls_info,
        match bytes {
            Ok(buffer) => response.body matches Some(Ok(found)) && found.length == bytes_view(
                buffer,
            ).len() && found.text@ == body_text(header_entries(head.headers), bytes_view(buffer)),
            Err(failure) => response.body matches Some(Err(error)) && error.source == failure,
        },
{
    let body = process_body(bytes, &head.headers);
    head.complete(Some(body))
}

} // verus!
