use jsonrpc_transport::credentials::Credentials;
use jsonrpc_transport::request::decorate;
use jsonrpc_transport::request::Header;
use jsonrpc_transport::request::HttpRequest;
use jsonrpc_transport::request::Method;

fn basic(username: &str, password: &str) -> Credentials {
    Credentials::Basic { username: username.to_string(), password: password.to_string() }
}

fn bearer(token: &str) -> Credentials {
    Credentials::Bearer { token: token.to_string() }
}

#[test]
fn anonymous_calls_for_no_header() {
    assert_eq!(Credentials::Anonymous.authorization(), None);
}

#[test]
fn bearer_value_is_scheme_space_token() {
    assert_eq!(bearer("abc").authorization(), Some("Bearer abc".to_string()));
}

#[test]
fn bearer_with_empty_token_keeps_the_scheme() {
    assert_eq!(bearer("").authorization(), Some("Bearer ".to_string()));
}

#[test]
fn basic_value_is_base64_of_user_colon_password() {
    assert_eq!(basic("u", "p").authorization(), Some("Basic dTpw".to_string()));
}

#[test]
fn basic_value_is_padded() {
    assert_eq!(
        basic("Aladdin", "open sesame").authorization(),
        Some("Basic QWxhZGRpbjpvcGVuIHNlc2FtZQ==".to_string())
    );
    assert_eq!(basic("alice", "s3cr3t!").authorization(), Some("Basic YWxpY2U6czNjcjN0IQ==".to_string()));
}

#[test]
fn basic_with_empty_password_encodes_the_colon() {
    assert_eq!(basic("user", "").authorization(), Some("Basic dXNlcjo=".to_string()));
    assert_eq!(basic("", "").authorization(), Some("Basic Og==".to_string()));
}

#[test]
fn basic_encodes_utf8_bytes() {
    assert_eq!(
        basic("josé", "paßwörd").authorization(),
        Some("Basic am9zw6k6cGHDn3fDtnJk".to_string())
    );
}

#[test]
fn basic_keeps_colons_of_the_password() {
    assert_eq!(basic("a", "b:c").authorization(), Some("Basic YTpiOmM=".to_string()));
}

#[test]
fn basic_value_differs_from_the_plain_pair() {
    let value = basic("ab", "c").authorization().unwrap();
    assert_eq!(value, "Basic YWI6Yw==");
    assert_ne!(value, "Basic ab:c");
}

#[test]
fn token_takes_priority_over_user_name() {
    let credentials = Credentials::from_parts(
        Some("tok".to_string()),
        Some("user".to_string()),
        Some("pass".to_string()),
    );
    assert_eq!(credentials, bearer("tok"));
    assert_eq!(credentials.authorization(), Some("Bearer tok".to_string()));
}

#[test]
fn token_alone_selects_bearer() {
    assert_eq!(Credentials::from_parts(Some("tok".to_string()), None, None), bearer("tok"));
    assert_eq!(
        Credentials::from_parts(Some("tok".to_string()), None, Some("pass".to_string())),
        bearer("tok")
    );
}

#[test]
fn user_name_selects_basic() {
    assert_eq!(
        Credentials::from_parts(None, Some("user".to_string()), Some("pass".to_string())),
        basic("user", "pass")
    );
}

#[test]
fn user_name_without_password_selects_basic_with_empty_password() {
    let credentials = Credentials::from_parts(None, Some("user".to_string()), None);
    assert_eq!(credentials, basic("user", ""));
    assert_eq!(credentials.authorization(), Some("Basic dXNlcjo=".to_string()));
}

#[test]
fn nothing_set_selects_no_authentication() {
    assert_eq!(Credentials::from_parts(None, None, None), Credentials::Anonymous);
}

#[test]
fn password_alone_selects_no_authentication() {
    assert_eq!(
        Credentials::from_parts(None, None, Some("pass".to_string())),
        Credentials::Anonymous
    );
}

#[test]
fn clone_of_credentials_is_equal() {
    for credentials in [Credentials::Anonymous, bearer("abc"), basic("u", "p")] {
        assert_eq!(credentials.clone(), credentials);
    }
}

#[test]
fn json_post_declares_its_content_type() {
    let request = HttpRequest::json_post("http://localhost:8545/", b"{}".to_vec());
    assert_eq!(request.method, Method::Post);
    assert_eq!(request.url, "http://localhost:8545/");
    assert_eq!(
        request.headers,
        vec![Header { name: "Content-Type".to_string(), value: "application/json".to_string() }]
    );
    assert_eq!(request.body, b"{}".to_vec());
}

#[test]
fn decorate_with_no_authentication_changes_nothing() {
    let decorated =
        decorate(HttpRequest::json_post("http://h/", b"[1]".to_vec()), &Credentials::Anonymous);
    assert_eq!(decorated, HttpRequest::json_post("http://h/", b"[1]".to_vec()));
}

#[test]
fn decorate_appends_one_header_after_those_present() {
    let base = HttpRequest {
        method: Method::Post,
        url: "http://h/rpc".to_string(),
        headers: vec![
            Header { name: "Accept".to_string(), value: "*/*".to_string() },
            Header { name: "X-Trace".to_string(), value: "7".to_string() },
        ],
        body: vec![1, 2, 3],
    };
    let decorated = decorate(base, &bearer("abc"));
    assert_eq!(decorated.method, Method::Post);
    assert_eq!(decorated.url, "http://h/rpc");
    assert_eq!(decorated.body, vec![1, 2, 3]);
    assert_eq!(
        decorated.headers,
        vec![
            Header { name: "Accept".to_string(), value: "*/*".to_string() },
            Header { name: "X-Trace".to_string(), value: "7".to_string() },
            Header { name: "Authorization".to_string(), value: "Bearer abc".to_string() },
        ]
    );
}

#[test]
fn decorate_with_basic_appends_the_encoded_pair() {
    let decorated = decorate(HttpRequest::json_post("http://h/", Vec::new()), &basic("u", "p"));
    assert_eq!(decorated.headers.len(), 2);
    assert_eq!(
        decorated.headers[1],
        Header { name: "Authorization".to_string(), value: "Basic dTpw".to_string() }
    );
}
