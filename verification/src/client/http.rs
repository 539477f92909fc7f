//! HTTP calls as values, and what a response means.
//!
//! Nothing here touches the network. A call is described by an [`HttpCall`];
//! whoever issues it reports the status and the body back and learns from
//! [`check_status`] and [`decode_body`] what the caller is owed.

use crate::error::{HttpFailure, PosthogError};
use crate::json::{json_from_slice, parse_json};
use serde_json::Value;
use vstd::prelude::*;

verus! {

/// The request methods that HTTP itself defines.
#[derive(Clone, Copy, Debug, PartialEq, Eq, Structural)]
pub enum HttpMethod {
    Options,
    Get,
    Post,
    Put,
    Delete,
    Head,
    Trace,
    Connect,
    Patch,
}

/// One HTTP call, fully determined: where it goes, how, and with what.
#[derive(Debug, PartialEq)]
pub struct HttpCall {
    pub method: HttpMethod,
    pub url: String,
    /// Header names with their values, in the order in which they are set.
    pub headers: Vec<(String, String)>,
    pub body: Value,
}

/// The headers of every call: the body is JSON and so is the answer.
pub open spec fn json_headers() -> Seq<(Seq<char>, Seq<char>)> {
    seq![("Content-Type"@, "application/json"@), ("Accept"@, "application/json"@)]
}

/// Headers as plain text, name and value.
pub open spec fn header_views(headers: Seq<(String, String)>) -> Seq<(Seq<char>, Seq<char>)> {
    headers.map_values(|header: (String, String)| (header.0@, header.1@))
}

/// The address of an endpoint below a base URL: the two joined by one slash.
pub open spec fn endpoint_url(base_url: Seq<char>, endpoint: Seq<char>) -> Seq<char> {
    base_url + "/"@ + endpoint
}

/// Whether a status code reports success: 200 up to and excluding 300.
pub open spec fn is_success(status: u16) -> bool {
    200 <= status < 300
}

/// Joins a base URL and an endpoint.
pub fn join_url(base_url: &String, endpoint: &str) -> (url: String)
    ensures
        url@ == endpoint_url(base_url@, endpoint@),
{
    let mut url = base_url.clone();
    url.append("/");
    url.append(endpoint);
    url
}

/// The two headers that mark a JSON exchange.
pub fn content_headers() -> (headers: Vec<(String, String)>)
    ensures
        header_views(headers@) == json_headers(),
{
    let mut headers: Vec<(String, String)> = Vec::new();
    headers.push(("Content-Type".to_owned(), "application/json".to_owned()));
    headers.push(("Accept".to_owned(), "application/json".to_owned()));
    headers
}

/// Judges the status of a response: success lets the body be read, any other
/// status is the error.
pub fn check_status(status: u16) -> (checked: Result<(), PosthogError>)
    ensures
        is_success(status) ==> checked is Ok,
        !is_success(status) ==> (checked matches Err(
            PosthogError::HttpError(HttpFailure::Status(code)),
        ) && code == status),
{
    if 200 <= status && status < 300 {
        Ok(())
    } else {
        Err(PosthogError::HttpError(HttpFailure::Status(status)))
    }
}

/// Reads the body of a successful response as a JSON document.
pub fn decode_body(bytes: &[u8]) -> (decoded: Result<Value, PosthogError>)
    ensures
        match json_from_slice(bytes@) {
            Ok(document) => (decoded matches Ok(value) && value == document),
            Err(message) => (decoded matches Err(
                PosthogError::HttpError(HttpFailure::Decode(text)),
            ) && text@ == message),
        },
{
    match parse_json(bytes) {
        Ok(document) => Ok(document),
        Err(message) => Err(PosthogError::HttpError(HttpFailure::Decode(message))),
    }
}

/// The error for a call that got no response at all.
pub fn transport_failure(message: String) -> (error: PosthogError)
    ensures
        error == PosthogError::HttpError(HttpFailure::Transport(message)),
{
    PosthogError::HttpError(HttpFailure::Transport(message))
}

} // verus!
