//! The evaluation core of an HTTP monitoring check.
//!
//! One request is sent, the response is captured and its body decoded, and what
//! was measured is held against thresholds. The outcome is a collection of
//! results with one overall state, a summary and performance data.
//!
//! - [`request`] turns a configuration into a request that is ready to send.
//! - [`response`] takes what the transport delivers and completes the exchange.
//! - [`body`] decodes the bytes of a body and counts them.
//! - [`headers`] is the header collection of the `http` crate, with what this
//!   library relies on.
//! - [`level`] classifies a measured value by a warning and a critical bound.
//! - [`metric`] is a measured value as performance data.
//! - [`result`] is the outcome of one check, [`collection`] that of several.
//! - [`fetcher`] is the check of the response time.
//! - [`measure`], [`state`], [`text`] and [`error`] hold what the others share.
//!
//! The transport itself is not part of the library: sending and reading are
//! done by the caller, between the steps that [`request`] and [`response`]
//! decide.

pub mod body;
pub mod collection;
pub mod error;
pub mod fetcher;
pub mod headers;
pub mod level;
pub mod measure;
pub mod metric;
pub mod request;
pub mod response;
pub mod result;
pub mod state;
pub mod text;
