//! The shape of a request and a response, and the one check that every
//! protocol step makes on a response: its content type.

use crate::text::{
    eq_ignore_ascii_case, find_char, index_of, lowercase, trim, trimmed_prefix_matches,
};
use crate::types::{AccessToken, EndpointUrl};
use vstd::prelude::*;
use vstd::string::StringExecFns;

verus! {

/// The status of a request that succeeded.
pub const HTTP_STATUS_OK: u32 = 200;

/// The status of a request that made something new.
pub const HTTP_STATUS_CREATED: u32 = 201;

/// The status of a request that the server found fault with.
pub const HTTP_STATUS_BAD_REQUEST: u32 = 400;

/// The media type of JSON.
pub open spec fn mime_type_json() -> Seq<char> {
    "application/json"@
}

/// The two methods that the protocol uses.
#[derive(Debug, Clone, Copy, PartialEq, Eq, Structural)]
pub enum HttpRequestMethod {
    Get,
    Post,
}

/// Header lines as pairs of a name and a value.
pub type Headers = Seq<(Seq<char>, Seq<char>)>;

/// A request for the transport to perform.
#[derive(Debug, Clone, PartialEq, Eq)]
pub struct HttpRequest {
    pub url: EndpointUrl,
    pub method: HttpRequestMethod,
    pub headers: Vec<(String, String)>,
    pub post_body: Vec<u8>,
}

/// What the transport brought back.
#[derive(Debug, Clone, PartialEq, Eq)]
pub struct HttpResponse {
    pub status_code: u32,
    pub headers: Vec<(String, String)>,
    pub body: Vec<u8>,
}

/// A failure of the transport itself: no response was had.
#[derive(Debug, Clone, PartialEq, Eq)]
pub struct TransportError {
    pub message: String,
}

/// Performs requests. The library decides what to ask and what to make of
/// the answer; the transport only carries both.
pub trait HttpTransport {
    fn send(&self, request: &HttpRequest) -> Result<HttpResponse, TransportError>;
}

/// The position of the first header called `name`, whatever the case of its
/// letters, at or after `from`; the number of headers where there is none.
pub open spec fn header_from(headers: Headers, name: Seq<char>, from: int) -> int
    decreases headers.len() - from,
{
    if from < 0 || from >= headers.len() {
        headers.len() as int
    } else if lowercase(headers[from].0) == lowercase(name) {
        from
    } else {
        header_from(headers, name, from + 1)
    }
}

/// The value of the first header called `name`.
pub open spec fn header_value(headers: Headers, name: Seq<char>) -> Option<Seq<char>> {
    let at = header_from(headers, name, 0);
    if 0 <= at < headers.len() {
        Some(headers[at].1)
    } else {
        None
    }
}

/// The media type in the value of a `Content-Type` header: what stands
/// before the first `;`, without the blanks around it.
pub open spec fn media_type(value: Seq<char>) -> Seq<char> {
    trim(value.take(index_of(value, ';')))
}

/// Whether the headers name `expected` as the content type, parameters and
/// the case of letters aside.
pub open spec fn has_content_type(headers: Headers, expected: Seq<char>) -> bool {
    match header_value(headers, "Content-Type"@) {
        Some(value) => lowercase(media_type(value)) == lowercase(expected),
        None => false,
    }
}

/// What is said of a response whose content type is not `expected`.
pub open spec fn content_type_complaint(headers: Headers, expected: Seq<char>) -> Seq<char> {
    match header_value(headers, "Content-Type"@) {
        Some(value) => "unexpected response Content-Type: `"@ + value + "`, should be `"@
            + expected + "`"@,
        None => "missing response Content-Type, should be `"@ + expected + "`"@,
    }
}

/// Finds the value of the first header called `name`.
pub fn find_header<'a>(headers: &'a Vec<(String, String)>, name: &str) -> (value: Option<&'a str>)
    ensures
        value.deep_view() == header_value(headers.deep_view(), name@),
{
    let n = headers.len();
    let ghost all = headers.deep_view();
    let mut i: usize = 0;
    while i < n
        invariant
            n == headers.len(),
            i <= n,
            all == headers.deep_view(),
            header_from(all, name@, 0) == header_from(all, name@, i as int),
        decreases n - i,
    {
        if eq_ignore_ascii_case(headers[i].0.as_str(), name) {
            return Some(headers[i].1.as_str());
        }
        i += 1;
    }
    None
}

/// The header that presents a bearer token.
pub open spec fn bearer_header(token: Seq<char>) -> (Seq<char>, Seq<char>) {
    ("Authorization"@, "Bearer "@ + token)
}

/// Writes the header that presents a bearer token.
pub fn auth_bearer(token: &AccessToken) -> (header: (String, String))
    ensures
        header.deep_view() == bearer_header(token@),
{
    let mut value = String::from_str("Bearer ");
    value.append(token.secret());
    (String::from_str("Authorization"), value)
}

impl HttpResponse {
    /// Succeeds where the response names `expected` as its content type, and
    /// says what it found where it does not.
    pub fn check_content_type(&self, expected: &str) -> (r: Result<(), String>)
        ensures
            r is Ok <==> has_content_type(self.headers.deep_view(), expected@),
            r matches Err(complaint) ==> complaint@ == content_type_complaint(
                self.headers.deep_view(),
                expected@,
            ),
    {
        match find_header(&self.headers, "Content-Type") {
            Some(value) => {
                let end = find_char(value, ';');
                if trimmed_prefix_matches(value, end, expected) {
                    Ok(())
                } else {
                    let mut complaint = String::from_str("unexpected response Content-Type: `");
                    complaint.append(value);
                    complaint.append("`, should be `");
                    complaint.append(expected);
                    complaint.append("`");
                    Err(complaint)
                }
            },
            None => {
                let mut complaint = String::from_str("missing response Content-Type, should be `");
                complaint.append(expected);
                complaint.append("`");
                Err(complaint)
            },
        }
    }
}

} // verus!
