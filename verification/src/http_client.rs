//! The decisions of the HTTP request proxy: which methods it forwards, when a
//! response carries a body, and what it reports when a request fails.
//!
//! Sending the request and reading the response are left to the host; every
//! function here maps plain values to plain values.

use crate::text::same_text;
use std::collections::HashMap;
use vstd::prelude::*;
use vstd::string::StringExecFns;

verus! {

/// A request as the frontend hands it over.
#[derive(Debug)]
pub struct HttpRequest {
    pub url: String,
    pub method: String,
    pub headers: HashMap<String, String>,
    pub body: Option<String>,
}

/// A response as it is handed back to the frontend.
#[derive(Debug)]
pub struct HttpResponse {
    pub status: u16,
    pub headers: HashMap<String, String>,
    pub body: String,
}

/// The methods that the proxy forwards.
#[derive(Debug, Clone, Copy, PartialEq, Eq, Structural)]
pub enum HttpMethod {
    Get,
    Post,
    Put,
    Delete,
    Patch,
}

/// What `str::to_uppercase` returns for a string with these characters: its
/// uppercase form under Unicode's case mapping, which depends on the
/// characters alone.
pub uninterp spec fn uppercase(s: Seq<char>) -> Seq<char>;

/// `str::to_uppercase` allocates the uppercase form of the string it is given.
pub assume_specification[ str::to_uppercase ](s: &str) -> (upper: String)
    ensures
        upper@ == uppercase(s@),
;

/// The method that an uppercase method name stands for, if the proxy forwards it.
pub open spec fn method_named(upper: Seq<char>) -> Option<HttpMethod> {
    if upper == "GET"@ {
        Some(HttpMethod::Get)
    } else if upper == "POST"@ {
        Some(HttpMethod::Post)
    } else if upper == "PUT"@ {
        Some(HttpMethod::Put)
    } else if upper == "DELETE"@ {
        Some(HttpMethod::Delete)
    } else if upper == "PATCH"@ {
        Some(HttpMethod::Patch)
    } else {
        None
    }
}

/// The message for a method name that the proxy does not forward.
pub open spec fn unsupported_method_message(upper: Seq<char>) -> Seq<char> {
    "Unsupported HTTP method: "@ + upper
}

/// The outcome of classifying an uppercase method name.
pub open spec fn method_outcome(upper: Seq<char>) -> Result<HttpMethod, Seq<char>> {
    match method_named(upper) {
        Some(method) => Ok(method),
        None => Err(unsupported_method_message(upper)),
    }
}

/// The view of a classification: the error message by its characters.
pub open spec fn method_result_view(r: Result<HttpMethod, String>) -> Result<
    HttpMethod,
    Seq<char>,
> {
    match r {
        Ok(method) => Ok(method),
        Err(message) => Err(message@),
    }
}

/// Classifies a method name that is already in uppercase. The five forwarded
/// methods are recognised by exact match; any other name is reported back in
/// the error message.
pub fn classify_method(upper: &str) -> (r: Result<HttpMethod, String>)
    ensures
        method_result_view(r) == method_outcome(upper@),
{
    if same_text(upper, "GET") {
        Ok(HttpMethod::Get)
    } else if same_text(upper, "POST") {
        Ok(HttpMethod::Post)
    } else if same_text(upper, "PUT") {
        Ok(HttpMethod::Put)
    } else if same_text(upper, "DELETE") {
        Ok(HttpMethod::Delete)
    } else if same_text(upper, "PATCH") {
        Ok(HttpMethod::Patch)
    } else {
        Err("Unsupported HTTP method: ".to_owned().concat(upper))
    }
}

/// Classifies a method name in any letter case: the name is brought to
/// uppercase and then classified as `classify_method` does.
pub fn parse_method(method: &str) -> (r: Result<HttpMethod, String>)
    ensures
        method_result_view(r) == method_outcome(uppercase(method@)),
{
    let upper = method.to_uppercase();
    classify_method(upper.as_str())
}

/// Statuses that never come with a body: 204, 304 and every 1xx.
pub open spec fn status_without_body(status: u16) -> bool {
    status == 204 || status == 304 || 100 <= status <= 199
}

/// Whether a response to a request with this uppercase method name and this
/// status carries a body.
pub open spec fn body_expected(upper: Seq<char>, status: u16) -> bool {
    upper != "HEAD"@ && !status_without_body(status)
}

/// Decides, for a method name already in uppercase, whether the response
/// body is to be read: never for `HEAD`, never for 204, 304 or a 1xx status.
pub fn response_has_body(upper: &str, status: u16) -> (has_body: bool)
    ensures
        has_body == body_expected(upper@, status),
{
    if same_text(upper, "HEAD") {
        false
    } else if status == 204 || status == 304 {
        false
    } else if 100 <= status && status <= 199 {
        false
    } else {
        true
    }
}

/// Decides whether the response body is to be read, for a method name in any
/// letter case.
pub fn should_have_body(method: &str, status: u16) -> (has_body: bool)
    ensures
        has_body == body_expected(uppercase(method@), status),
{
    let upper = method.to_uppercase();
    response_has_body(upper.as_str(), status)
}

/// What the proxy reports when the request could not be sent.
pub fn request_failed(detail: &str) -> (message: String)
    ensures
        message@ == "Request failed: "@ + detail@,
{
    "Request failed: ".to_owned().concat(detail)
}

/// What the proxy reports when the response body could not be read.
pub fn body_read_failed(detail: &str) -> (message: String)
    ensures
        message@ == "Failed to read response body: "@ + detail@,
{
    "Failed to read response body: ".to_owned().concat(detail)
}

impl HttpResponse {
    /// Puts a response together. `body` is what was read, or `None` where
    /// `should_have_body` said that there is nothing to read; the response
    /// then has an empty body.
    pub fn assemble(status: u16, headers: HashMap<String, String>, body: Option<String>) -> (response:
        HttpResponse)
        ensures
            response.status == status,
            response.headers == headers,
            response.body@ == (match body {
                Some(text) => text@,
                None => Seq::<char>::empty(),
            }),
    {
        let body = match body {
            Some(text) => text,
            None => String::new(),
        };
        HttpResponse { status, headers, body }
    }
}

} // verus!
