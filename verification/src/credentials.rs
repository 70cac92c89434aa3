//! The authentication scheme of a transport, and the `Authorization` header
//! that it calls for.

use vstd::prelude::*;
use vstd::string::*;
use vstd::utf8::encode_utf8;

verus! {

/// How a transport identifies itself to the server. Exactly one scheme is in
/// force; it is chosen when the transport is made and never changes.
#[derive(Debug, PartialEq, Eq)]
pub enum Credentials {
    /// No authentication.
    Anonymous,
    /// The Bearer scheme, presenting one opaque token.
    Bearer { token: String },
    /// The Basic scheme, presenting a user name and a password.
    Basic { username: String, password: String },
}

/// The mathematical value of [`Credentials`].
pub enum CredentialsView {
    Anonymous,
    Bearer { token: Seq<char> },
    Basic { username: Seq<char>, password: Seq<char> },
}

impl View for Credentials {
    type V = CredentialsView;

    open spec fn view(&self) -> CredentialsView {
        match *self {
            Credentials::Anonymous => CredentialsView::Anonymous,
            Credentials::Bearer { token } => CredentialsView::Bearer { token: token@ },
            Credentials::Basic { username, password } => CredentialsView::Basic {
                username: username@,
                password: password@,
            },
        }
    }
}

impl Clone for Credentials {
    fn clone(&self) -> (copy: Credentials)
        ensures
            copy@ == self@,
    {
        match self {
            Credentials::Anonymous => Credentials::Anonymous,
            Credentials::Bearer { token } => Credentials::Bearer { token: token.clone() },
            Credentials::Basic { username, password } => Credentials::Basic {
                username: username.clone(),
                password: password.clone(),
            },
        }
    }
}

/// The base64 encoding of `bytes` with the standard alphabet and `=` padding,
/// as the `base64` crate's `STANDARD` engine produces it.
pub uninterp spec fn base64_standard(bytes: Seq<u8>) -> Seq<char>;

/// The text that the Basic scheme encodes: user name, a colon, password.
pub open spec fn basic_pair(username: Seq<char>, password: Seq<char>) -> Seq<char> {
    username + seq![':'] + password
}

/// The value of the `Authorization` header under the Bearer scheme.
pub open spec fn bearer_value(token: Seq<char>) -> Seq<char> {
    "Bearer "@ + token
}

/// The value of the `Authorization` header under the Basic scheme: the
/// scheme's name and the base64 encoding of the UTF-8 bytes of
/// `username:password`.
pub open spec fn basic_value(username: Seq<char>, password: Seq<char>) -> Seq<char> {
    "Basic "@ + base64_standard(encode_utf8(basic_pair(username, password)))
}

/// The value of the `Authorization` header that `credentials` call for, if
/// they call for one.
pub open spec fn authorization_value(credentials: CredentialsView) -> Option<Seq<char>> {
    match credentials {
        CredentialsView::Anonymous => None,
        CredentialsView::Bearer { token } => Some(bearer_value(token)),
        CredentialsView::Basic { username, password } => Some(basic_value(username, password)),
    }
}

/// The scheme that three optional settings select: a token selects Bearer,
/// whatever else is set; failing that a user name selects Basic, with the
/// empty password where none is set; failing both, no authentication.
pub open spec fn selected(
    token: Option<Seq<char>>,
    username: Option<Seq<char>>,
    password: Option<Seq<char>>,
) -> CredentialsView {
    match (token, username) {
        (Some(token), _) => CredentialsView::Bearer { token },
        (None, Some(username)) => CredentialsView::Basic {
            username,
            password: match password {
                Some(password) => password,
                None => Seq::empty(),
            },
        },
        (None, None) => CredentialsView::Anonymous,
    }
}

/// `base64::Engine::encode_string` on the `STANDARD` engine: appends the
/// standard padded base64 encoding of `bytes` to `text` and leaves what
/// `text` already held in place.
#[verifier::external_body]
fn append_base64(text: &mut String, bytes: &[u8])
    ensures
        final(text)@ == old(text)@ + base64_standard(bytes@),
{
    base64::Engine::encode_string(&base64::engine::general_purpose::STANDARD, bytes, text)
}

impl Credentials {
    /// Settles which scheme is in force when a token, a user name and a
    /// password may each be set or not. Bearer takes priority over Basic, and
    /// Basic over no authentication; a password without a user name selects
    /// nothing.
    pub fn from_parts(
        token: Option<String>,
        username: Option<String>,
        password: Option<String>,
    ) -> (credentials: Credentials)
        ensures
            credentials@ == selected(
                match token {
                    Some(token) => Some(token@),
                    None => None,
                },
                match username {
                    Some(username) => Some(username@),
                    None => None,
                },
                match password {
                    Some(password) => Some(password@),
                    None => None,
                },
            ),
    {
        match token {
            Some(token) => Credentials::Bearer { token },
            None => match username {
                Some(username) => match password {
                    Some(password) => Credentials::Basic { username, password },
                    None => Credentials::Basic { username, password: String::new() },
                },
                None => Credentials::Anonymous,
            },
        }
    }

    /// The value of the `Authorization` header that these credentials call
    /// for: none without authentication, `Bearer <token>` under the Bearer
    /// scheme, `Basic <base64 of username:password>` under the Basic scheme.
    pub fn authorization(&self) -> (value: Option<String>)
        ensures
            match value {
                Some(value) => authorization_value(self@) == Some(value@),
                None => authorization_value(self@) is None,
            },
    {
        match self {
            Credentials::Anonymous => None,
            Credentials::Bearer { token } => {
                let mut value = String::from_str("Bearer ");
                value.append(token.as_str());
                Some(value)
            },
            Credentials::Basic { username, password } => {
                let mut pair = String::from_str(username.as_str());
                pair.append(":");
                pair.append(password.as_str());
                proof {
                    reveal_strlit(":");
                    assert(":"@ =~= seq![':']);
                }
                let mut value = String::from_str("Basic ");
                append_base64(&mut value, pair.as_str().as_bytes());
                Some(value)
            },
        }
    }
}

} // verus!
