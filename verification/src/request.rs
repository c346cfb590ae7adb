//! Building the outgoing request.

use vstd::prelude::*;
use crate::error::{Failure, RequestError};
use crate::host::RawOptions;
use crate::header::{pairs, Header, Pair};
use crate::options::{resolve, resolved};
use crate::target::{parse_url, parse_view, parsed_url};
use crate::verb::Verb;

verus! {

/// A request that is ready to be sent.
#[derive(Clone, Debug, PartialEq, Eq)]
pub struct Request {
    pub verb: Verb,
    /// The absolute URL, as the parser serialised it.
    pub url: String,
    /// The headers to apply, in order.
    pub headers: Vec<Header>,
    /// The body to attach, if any, sent as UTF-8.
    pub body: Option<String>,
    /// Whether the response body is to be read once the response arrives.
    pub read_body: bool,
}

/// The mathematical value of a [`Request`].
pub struct RequestModel {
    pub verb: Verb,
    pub url: Seq<char>,
    pub headers: Seq<Pair>,
    pub body: Option<Seq<char>>,
    pub read_body: bool,
}

impl View for Request {
    type V = RequestModel;

    open spec fn view(&self) -> RequestModel {
        RequestModel {
            verb: self.verb,
            url: self.url@,
            headers: pairs(self.headers@),
            body: match self.body {
                Some(b) => Some(b@),
                None => None,
            },
            read_body: self.read_body,
        }
    }
}

/// The request that a call stands for, given what the URL parser made of its
/// URL. A URL that did not parse fails the call whatever the options hold;
/// otherwise the options decide, and the request carries them unchanged.
pub open spec fn planned(
    verb: Verb,
    parsed: Result<Seq<char>, Seq<char>>,
    raw: Option<RawOptions>,
) -> Result<RequestModel, Failure> {
    match parsed {
        Err(message) => Err(Failure::InvalidUrl(message)),
        Ok(url) => match resolved(raw) {
            Err(f) => Err(f),
            Ok(o) => Ok(
                RequestModel { verb, url, headers: o.headers, body: o.body, read_body: o.read_body },
            ),
        },
    }
}

/// Builds the request from the outcome of parsing the URL and the options.
pub fn build_request(verb: Verb, parsed: Result<String, String>, raw: &Option<RawOptions>) -> (r:
    Result<Request, RequestError>)
    ensures
        match planned(verb, parse_view(parsed), *raw) {
            Ok(m) => r matches Ok(q) && q@ == m,
            Err(f) => r matches Err(e) && e@ == f,
        },
{
    match parsed {
        Err(message) => Err(RequestError::InvalidUrl(message)),
        Ok(url) => match resolve(raw) {
            Err(e) => Err(e),
            Ok(o) => Ok(
                Request { verb, url, headers: o.headers, body: o.body, read_body: o.read_body },
            ),
        },
    }
}

/// Parses `url` and validates the options, in that order. No request comes
/// out of a call that fails here, so nothing of it can reach the network.
pub fn prepare(verb: Verb, url: &str, raw: &Option<RawOptions>) -> (r: Result<
    Request,
    RequestError,
>)
    ensures
        match planned(verb, parsed_url(url@), *raw) {
            Ok(m) => r matches Ok(q) && q@ == m,
            Err(f) => r matches Err(e) && e@ == f,
        },
{
    build_request(verb, parse_url(url), raw)
}

/// Prepares a GET request.
pub fn get(url: &str, raw: &Option<RawOptions>) -> (r: Result<Request, RequestError>)
    ensures
        match planned(Verb::Get, parsed_url(url@), *raw) {
            Ok(m) => r matches Ok(q) && q@ == m,
            Err(f) => r matches Err(e) && e@ == f,
        },
{
    prepare(Verb::Get, url, raw)
}

/// Prepares a POST request.
pub fn post(url: &str, raw: &Option<RawOptions>) -> (r: Result<Request, RequestError>)
    ensures
        match planned(Verb::Post, parsed_url(url@), *raw) {
            Ok(m) => r matches Ok(q) && q@ == m,
            Err(f) => r matches Err(e) && e@ == f,
        },
{
    prepare(Verb::Post, url, raw)
}

/// Prepares a PUT request.
pub fn put(url: &str, raw: &Option<RawOptions>) -> (r: Result<Request, RequestError>)
    ensures
        match planned(Verb::Put, parsed_url(url@), *raw) {
            Ok(m) => r matches Ok(q) && q@ == m,
            Err(f) => r matches Err(e) && e@ == f,
        },
{
    prepare(Verb::Put, url, raw)
}

/// Prepares a DELETE request.
pub fn delete(url: &str, raw: &Option<RawOptions>) -> (r: Result<Request, RequestError>)
    ensures
        match planned(Verb::Delete, parsed_url(url@), *raw) {
            Ok(m) => r matches Ok(q) && q@ == m,
            Err(f) => r matches Err(e) && e@ == f,
        },
{
    prepare(Verb::Delete, url, raw)
}

/// Prepares a PATCH request.
pub fn patch(url: &str, raw: &Option<RawOptions>) -> (r: Result<Request, RequestError>)
    ensures
        match planned(Verb::Patch, parsed_url(url@), *raw) {
            Ok(m) => r matches Ok(q) && q@ == m,
            Err(f) => r matches Err(e) && e@ == f,
        },
{
    prepare(Verb::Patch, url, raw)
}

} // verus!
