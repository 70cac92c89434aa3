//! The description of the HTTP request that carries a JSON-RPC request: the
//! library says what is to be sent, the caller's runtime sends it.

use crate::credentials::authorization_value;
use crate::credentials::Credentials;
use crate::credentials::CredentialsView;
use vstd::prelude::*;
use vstd::string::*;

verus! {

/// The HTTP method of an outgoing request. A JSON-RPC request always travels
/// by POST.
#[derive(Clone, Copy, Debug, PartialEq, Eq, Structural)]
pub enum Method {
    /// `POST`.
    Post,
}

/// One header line: a name and a value.
#[derive(Debug, PartialEq, Eq)]
pub struct Header {
    /// The header's name, such as `Content-Type`.
    pub name: String,
    /// The header's value.
    pub value: String,
}

impl View for Header {
    type V = (Seq<char>, Seq<char>);

    open spec fn view(&self) -> (Seq<char>, Seq<char>) {
        (self.name@, self.value@)
    }
}

/// An outgoing HTTP request, described and not yet sent.
#[derive(Debug, PartialEq, Eq)]
pub struct HttpRequest {
    /// The HTTP method.
    pub method: Method,
    /// The address that the request goes to.
    pub url: String,
    /// The header lines, in the order in which they were added.
    pub headers: Vec<Header>,
    /// The body.
    pub body: Vec<u8>,
}

/// The mathematical value of [`HttpRequest`].
pub struct HttpRequestView {
    pub method: Method,
    pub url: Seq<char>,
    pub headers: Seq<(Seq<char>, Seq<char>)>,
    pub body: Seq<u8>,
}

impl View for HttpRequest {
    type V = HttpRequestView;

    open spec fn view(&self) -> HttpRequestView {
        HttpRequestView {
            method: self.method,
            url: self.url@,
            headers: self.headers@.map_values(|header: Header| header@),
            body: self.body@,
        }
    }
}

/// The name of the header that carries credentials.
pub open spec fn authorization_name() -> Seq<char> {
    "Authorization"@
}

/// The header that declares the body to be JSON.
pub open spec fn json_content_type() -> (Seq<char>, Seq<char>) {
    ("Content-Type"@, "application/json"@)
}

/// The POST of a JSON body to `url`, before any credentials are applied: its
/// only header declares the content type.
pub open spec fn json_post(url: Seq<char>, body: Seq<u8>) -> HttpRequestView {
    HttpRequestView { method: Method::Post, url, headers: seq![json_content_type()], body }
}

/// The header lines that `credentials` add to a request: one `Authorization`
/// line, or nothing.
pub open spec fn authorization_headers(credentials: CredentialsView) -> Seq<
    (Seq<char>, Seq<char>),
> {
    match authorization_value(credentials) {
        Some(value) => seq![(authorization_name(), value)],
        None => Seq::empty(),
    }
}

/// `request` with the header that `credentials` call for added after the
/// headers it already has. Nothing else changes.
pub open spec fn decorated(request: HttpRequestView, credentials: CredentialsView) -> HttpRequestView {
    HttpRequestView {
        method: request.method,
        url: request.url,
        headers: request.headers + authorization_headers(credentials),
        body: request.body,
    }
}

impl HttpRequest {
    /// Describes the POST of the JSON document `body` to `url`.
    pub fn json_post(url: &str, body: Vec<u8>) -> (request: HttpRequest)
        ensures
            request@ == json_post(url@, body@),
    {
        let mut headers: Vec<Header> = Vec::new();
        headers.push(
            Header {
                name: String::from_str("Content-Type"),
                value: String::from_str("application/json"),
            },
        );
        let request = HttpRequest { method: Method::Post, url: String::from_str(url), headers, body };
        assert(request@.headers =~= seq![json_content_type()]);
        request
    }
}

/// Applies `credentials` to `request`: adds the one `Authorization` header
/// that they call for, or none, and leaves method, address, body and the
/// headers already present as they are.
pub fn decorate(request: HttpRequest, credentials: &Credentials) -> (outgoing: HttpRequest)
    ensures
        outgoing@ == decorated(request@, credentials@),
{
    let ghost before = request@;
    let mut request = request;
    match credentials.authorization() {
        Some(value) => {
            request.headers.push(Header { name: String::from_str("Authorization"), value });
            assert(request@.headers =~= before.headers + seq![(authorization_name(), value@)]);
        },
        None => {
            assert(request@.headers =~= before.headers + Seq::empty());
        },
    }
    request
}

} // verus!
