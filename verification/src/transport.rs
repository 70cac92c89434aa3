//! The transport contract and its HTTP realization.

use crate::allocator::RequestIdAllocator;
use crate::credentials::Credentials;
use crate::credentials::CredentialsView;
use crate::failure::Failure;
use crate::failure::FailureKind;
use crate::request::decorate;
use crate::request::decorated;
use crate::request::json_post;
use crate::request::HttpRequest;
use crate::request::HttpRequestView;
use crate::types::method_call;
use crate::types::Call;
use crate::types::Params;
use crate::types::RequestId;
use vstd::prelude::*;
use vstd::string::*;

verus! {

/// `reqwest::Client`, the pooled asynchronous HTTP client. Opaque here: the
/// library makes one per transport and hands it to whoever sends.
#[verifier::external_type_specification]
#[verifier::external_body]
pub struct ExClient(reqwest::Client);

/// Seconds allowed for establishing a connection.
pub const CONNECT_TIMEOUT_SECS: u64 = 10;

/// Seconds allowed for one whole exchange, from the first byte sent to the
/// last byte of the answer.
pub const REQUEST_TIMEOUT_SECS: u64 = 30;

/// What every transport does before anything is sent: it turns a method name
/// and parameters into a call with an identifier of its own.
pub trait Transport {
    /// Prepares a call of `method` with `params`: takes a fresh identifier
    /// and builds the version 2.0 method call that carries it. Sends
    /// nothing and cannot fail.
    fn prepare(&self, method: &str, params: Params) -> (prepared: (RequestId, Call))
        ensures
            prepared.1@ == method_call(prepared.0, method@, params@),
    ;
}

/// A transport that posts JSON-RPC requests to one HTTP endpoint.
///
/// Address and credentials are fixed when the transport is made. Clones share
/// the identifier allocator and the client's connection pool.
pub struct HttpTransport {
    id: RequestIdAllocator,
    url: String,
    credentials: Credentials,
    client: reqwest::Client,
}

/// The mathematical value of [`HttpTransport`]: the allocator that its
/// identifiers come from, where it posts to, how it identifies itself and the
/// client that it sends through.
pub struct HttpTransportView {
    pub id: RequestIdAllocator,
    pub url: Seq<char>,
    pub credentials: CredentialsView,
    pub client: reqwest::Client,
}

impl View for HttpTransport {
    type V = HttpTransportView;

    closed spec fn view(&self) -> HttpTransportView {
        HttpTransportView {
            id: self.id,
            url: self.url@,
            credentials: self.credentials@,
            client: self.client,
        }
    }
}

/// The settings of a transport's client: `base` with ten seconds allowed for
/// connecting and thirty for a whole exchange, whatever the address and the
/// credentials.
pub open spec fn fixed_timeouts(base: reqwest::ClientBuilder) -> reqwest::ClientBuilder {
    with_timeout(
        with_connect_timeout(base, span_of_secs(CONNECT_TIMEOUT_SECS)),
        span_of_secs(REQUEST_TIMEOUT_SECS),
    )
}

/// The request that a transport posting to `url` with `credentials` sends for
/// the JSON document `body`.
pub open spec fn outgoing(url: Seq<char>, credentials: CredentialsView, body: Seq<u8>) -> HttpRequestView {
    decorated(json_post(url, body), credentials)
}

/// `reqwest::ClientBuilder`, the settings from which a client is built.
#[verifier::external_type_specification]
#[verifier::external_body]
pub struct ExClientBuilder(reqwest::ClientBuilder);

/// The span of `secs` whole seconds, as `Duration::from_secs` makes it.
pub uninterp spec fn span_of_secs(secs: u64) -> std::time::Duration;

/// `builder` with the time allowed for connecting set to `timeout`, as
/// `reqwest::ClientBuilder::connect_timeout` leaves it.
pub uninterp spec fn with_connect_timeout(
    builder: reqwest::ClientBuilder,
    timeout: std::time::Duration,
) -> reqwest::ClientBuilder;

/// `builder` with the time allowed for a whole exchange set to `timeout`, as
/// `reqwest::ClientBuilder::timeout` leaves it.
pub uninterp spec fn with_timeout(
    builder: reqwest::ClientBuilder,
    timeout: std::time::Duration,
) -> reqwest::ClientBuilder;

/// `Duration::from_secs`: the span of that many whole seconds, which depends
/// on the number alone.
pub assume_specification[ std::time::Duration::from_secs ](secs: u64) -> (span: std::time::Duration)
    ensures
        span == span_of_secs(secs),
;

/// `reqwest::Client::builder`: a builder with reqwest's default settings.
pub assume_specification[ reqwest::Client::builder ]() -> reqwest::ClientBuilder;

/// `reqwest::ClientBuilder::connect_timeout`: the same builder with the time
/// allowed for connecting set, which depends on the builder and the span
/// alone.
pub assume_specification[ reqwest::ClientBuilder::connect_timeout ](
    builder: reqwest::ClientBuilder,
    timeout: std::time::Duration,
) -> (set: reqwest::ClientBuilder)
    ensures
        set == with_connect_timeout(builder, timeout),
;

/// `reqwest::ClientBuilder::timeout`: the same builder with the time allowed
/// for a whole exchange set, which depends on the builder and the span alone.
pub assume_specification[ reqwest::ClientBuilder::timeout ](
    builder: reqwest::ClientBuilder,
    timeout: std::time::Duration,
) -> (set: reqwest::ClientBuilder)
    ensures
        set == with_timeout(builder, timeout),
;

/// `reqwest::ClientBuilder::build`: the client, or the reason why none could
/// be set up. Nothing is claimed of either.
pub assume_specification[ reqwest::ClientBuilder::build ](
    builder: reqwest::ClientBuilder,
) -> Result<reqwest::Client, reqwest::Error>;

/// `Clone::clone` of `reqwest::Client`: another handle on the same client,
/// sharing its connection pool.
pub assume_specification[ <reqwest::Client as Clone>::clone ](client: &reqwest::Client) -> (copy:
    reqwest::Client)
    ensures
        copy == *client,
;

impl HttpTransport {
    /// Sets up the client of a new transport: takes the settings `base` and
    /// fixes the two timeouts in them. The constructors build the client
    /// from what this returns; building is the one step that the machine's
    /// configuration can fail.
    pub fn new_client(base: reqwest::ClientBuilder) -> (settings: reqwest::ClientBuilder)
        ensures
            settings == fixed_timeouts(base),
    {
        base.connect_timeout(std::time::Duration::from_secs(CONNECT_TIMEOUT_SECS)).timeout(
            std::time::Duration::from_secs(REQUEST_TIMEOUT_SECS),
        )
    }

    /// Makes the transport for `url` and `credentials` out of the outcome of
    /// building its client: a transport with a fresh allocator where the
    /// client was built, a client failure where it was not.
    pub fn from_built(
        url: &str,
        credentials: Credentials,
        built: Result<reqwest::Client, reqwest::Error>,
    ) -> (made: Result<HttpTransport, Failure>)
        ensures
            match built {
                Ok(client) => made matches Ok(transport) && transport@.url == url@
                    && transport@.credentials == credentials@ && transport@.client == client,
                Err(_) => made matches Err(failure) && failure.kind == FailureKind::Client,
            },
    {
        match built {
            Ok(client) => Ok(
                HttpTransport {
                    id: RequestIdAllocator::new(),
                    url: String::from_str(url),
                    credentials,
                    client,
                },
            ),
            Err(error) => Err(Failure { kind: FailureKind::Client, message: error.to_string() }),
        }
    }

    /// Makes a transport that posts to `url` without authentication.
    pub fn new(url: &str) -> (made: Result<HttpTransport, Failure>)
        ensures
            made matches Ok(transport) ==> transport@.url == url@ && transport@.credentials
                == CredentialsView::Anonymous,
            made matches Err(failure) ==> failure.kind == FailureKind::Client,
    {
        let settings = HttpTransport::new_client(reqwest::Client::builder());
        HttpTransport::from_built(url, Credentials::Anonymous, settings.build())
    }

    /// Makes a transport that posts to `url` and presents the bearer `token`.
    pub fn new_with_bearer_auth(url: &str, token: &str) -> (made: Result<HttpTransport, Failure>)
        ensures
            made matches Ok(transport) ==> transport@.url == url@ && transport@.credentials
                == (CredentialsView::Bearer { token: token@ }),
            made matches Err(failure) ==> failure.kind == FailureKind::Client,
    {
        let credentials = Credentials::Bearer { token: String::from_str(token) };
        let settings = HttpTransport::new_client(reqwest::Client::builder());
        HttpTransport::from_built(url, credentials, settings.build())
    }

    /// Makes a transport that posts to `url` and presents `username` and
    /// `password` under the Basic scheme.
    pub fn new_with_basic_auth(url: &str, username: &str, password: &str) -> (made: Result<
        HttpTransport,
        Failure,
    >)
        ensures
            made matches Ok(transport) ==> transport@.url == url@ && transport@.credentials
                == (CredentialsView::Basic { username: username@, password: password@ }),
            made matches Err(failure) ==> failure.kind == FailureKind::Client,
    {
        let credentials = Credentials::Basic {
            username: String::from_str(username),
            password: String::from_str(password),
        };
        let settings = HttpTransport::new_client(reqwest::Client::builder());
        HttpTransport::from_built(url, credentials, settings.build())
    }

    /// The address that this transport posts to.
    pub fn url(&self) -> (url: &str)
        ensures
            url@ == self@.url,
    {
        self.url.as_str()
    }

    /// The credentials that this transport presents.
    pub fn credentials(&self) -> (credentials: &Credentials)
        ensures
            credentials@ == self@.credentials,
    {
        &self.credentials
    }

    /// The HTTP client through which this transport's requests are to be
    /// sent.
    pub fn client(&self) -> (client: &reqwest::Client)
        ensures
            *client == self@.client,
    {
        &self.client
    }

    /// Describes the one HTTP request that carries the JSON document `body`:
    /// a POST to this transport's address that declares its content type and
    /// bears this transport's credentials.
    pub fn post(&self, body: Vec<u8>) -> (request: HttpRequest)
        ensures
            request@ == outgoing(self@.url, self@.credentials, body@),
    {
        decorate(HttpRequest::json_post(self.url.as_str(), body), &self.credentials)
    }
}

impl Clone for HttpTransport {
    /// Another handle on the same transport: same address and credentials,
    /// and the same allocator and client, shared. Identifiers prepared through
    /// the copy and through the original come from one counter.
    fn clone(&self) -> (copy: HttpTransport)
        ensures
            copy@ == self@,
    {
        HttpTransport {
            id: self.id.clone(),
            url: self.url.clone(),
            credentials: self.credentials.clone(),
            client: self.client.clone(),
        }
    }
}

impl Transport for HttpTransport {
    fn prepare(&self, method: &str, params: Params) -> (prepared: (RequestId, Call)) {
        let id = self.id.next();
        (id, Call::method_call(id, method, params))
    }
}

} // verus!
