//! A small client library for a DNS-over-HTTPS JSON API.
//!
//! A [`api::DoH`] value collects the query name and the optional request
//! parameters, and renders them as a request URL. The response body, a JSON
//! document, is decoded into a typed [`api::Dns`] value. Failures are
//! classified by [`error::Error`] into transport and decode failures.

pub mod api;
pub mod error;
pub mod json;
