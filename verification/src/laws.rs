//! What holds of every request that a transport sends, whatever its address
//! and body.

use crate::credentials::basic_value;
use crate::credentials::bearer_value;
use crate::credentials::selected;
use crate::credentials::CredentialsView;
use crate::request::authorization_headers;
use crate::request::authorization_name;
use crate::request::decorated;
use crate::request::json_content_type;
use crate::request::HttpRequestView;
use crate::transport::outgoing;
use vstd::prelude::*;

verus! {

/// Whether the header line `header` carries credentials.
pub open spec fn is_authorization(header: (Seq<char>, Seq<char>)) -> bool {
    header.0 == authorization_name()
}

/// Whether `value` is an `Authorization` value of the Basic scheme.
pub open spec fn is_basic_value(value: Seq<char>) -> bool {
    "Basic "@.is_prefix_of(value)
}

/// Where more than one scheme is set, Bearer takes priority over Basic and
/// Basic over no authentication: a token always selects Bearer, and a user
/// name selects Basic exactly where no token is set.
pub proof fn scheme_priority(
    token: Option<Seq<char>>,
    username: Option<Seq<char>>,
    password: Option<Seq<char>>,
)
    ensures
        selected(token, username, password) is Bearer <==> token is Some,
        selected(token, username, password) is Basic <==> token is None && username is Some,
        selected(token, username, password) is Anonymous <==> token is None && username is None,
        token matches Some(token) ==> selected(Some(token), username, password)
            == (CredentialsView::Bearer { token }),
{
}

/// The header that declares the content type is not the one that carries
/// credentials.
pub proof fn content_type_is_not_authorization()
    ensures
        !is_authorization(json_content_type()),
{
    reveal_strlit("Content-Type");
    reveal_strlit("Authorization");
    assert("Content-Type"@.len() != "Authorization"@.len());
}

/// Decorating keeps every header that the request had, in place, and adds at
/// most one; what it adds is an `Authorization` header. Method, address and
/// body are untouched.
pub proof fn decorating_adds_at_most_one_header(
    request: HttpRequestView,
    credentials: CredentialsView,
)
    ensures
        request.headers.is_prefix_of(decorated(request, credentials).headers),
        decorated(request, credentials).headers.len() <= request.headers.len() + 1,
        decorated(request, credentials).headers.len() == request.headers.len()
            <==> credentials is Anonymous,
        forall|i: int|
            request.headers.len() <= i < decorated(request, credentials).headers.len()
                ==> is_authorization(#[trigger] decorated(request, credentials).headers[i]),
        decorated(request, credentials).method == request.method,
        decorated(request, credentials).url == request.url,
        decorated(request, credentials).body == request.body,
{
    assert(request.headers.is_prefix_of(request.headers + authorization_headers(credentials)));
}

/// Whatever the credentials, a request that a transport sends carries at most
/// one `Authorization` header.
pub proof fn at_most_one_authorization(
    url: Seq<char>,
    credentials: CredentialsView,
    body: Seq<u8>,
    i: int,
    j: int,
)
    requires
        0 <= i < outgoing(url, credentials, body).headers.len(),
        0 <= j < outgoing(url, credentials, body).headers.len(),
        is_authorization(outgoing(url, credentials, body).headers[i]),
        is_authorization(outgoing(url, credentials, body).headers[j]),
    ensures
        i == j,
{
    content_type_is_not_authorization();
}

/// Without authentication, no request carries an `Authorization` header.
pub proof fn anonymous_sends_no_authorization(url: Seq<char>, body: Seq<u8>)
    ensures
        forall|i: int|
            0 <= i < outgoing(url, CredentialsView::Anonymous, body).headers.len()
                ==> !is_authorization(
                #[trigger] outgoing(url, CredentialsView::Anonymous, body).headers[i],
            ),
{
    content_type_is_not_authorization();
}

/// Under the Bearer scheme every request carries `Authorization: Bearer
/// <token>`; that is its only `Authorization` header, and it is not a header
/// of the Basic scheme.
pub proof fn bearer_sends_its_token(url: Seq<char>, token: Seq<char>, body: Seq<u8>)
    ensures
        outgoing(url, CredentialsView::Bearer { token }, body).headers.contains(
            (authorization_name(), bearer_value(token)),
        ),
        forall|i: int|
            0 <= i < outgoing(url, CredentialsView::Bearer { token }, body).headers.len()
                && is_authorization(
                #[trigger] outgoing(url, CredentialsView::Bearer { token }, body).headers[i],
            ) ==> outgoing(url, CredentialsView::Bearer { token }, body).headers[i].1
                == bearer_value(token),
        !is_basic_value(bearer_value(token)),
{
    content_type_is_not_authorization();
    let headers = outgoing(url, CredentialsView::Bearer { token }, body).headers;
    assert(headers[1] == (authorization_name(), bearer_value(token)));
    assert(!is_basic_value(bearer_value(token))) by {
        reveal_strlit("Basic ");
        reveal_strlit("Bearer ");
        if is_basic_value(bearer_value(token)) {
            assert("Basic "@[1] == bearer_value(token)[1]);
        }
    }
}

/// Under the Basic scheme every request carries `Authorization: Basic
/// <encoding>`, where the encoding is the standard base64 of the UTF-8 bytes
/// of `username:password`; that is its only `Authorization` header.
pub proof fn basic_sends_its_encoding(
    url: Seq<char>,
    username: Seq<char>,
    password: Seq<char>,
    body: Seq<u8>,
)
    ensures
        outgoing(url, CredentialsView::Basic { username, password }, body).headers.contains(
            (authorization_name(), basic_value(username, password)),
        ),
        forall|i: int|
            0 <= i < outgoing(
                url,
                CredentialsView::Basic { username, password },
                body,
            ).headers.len() && is_authorization(
                #[trigger] outgoing(
                    url,
                    CredentialsView::Basic { username, password },
                    body,
                ).headers[i],
            ) ==> outgoing(url, CredentialsView::Basic { username, password }, body).headers[i].1
                == basic_value(username, password),
        is_basic_value(basic_value(username, password)),
{
    content_type_is_not_authorization();
    let headers = outgoing(url, CredentialsView::Basic { username, password }, body).headers;
    assert(headers[1] == (authorization_name(), basic_value(username, password)));
    assert("Basic "@.is_prefix_of(basic_value(username, password)));
}

} // verus!
