use charted::auth::{ApiKeyStrategy, BasicAuthStrategy, SessionTokenStrategy};
use charted::http::HEADER_MAP_ROOM;
use charted::{APIClient, APIClientBuilder, ClientError, Headers, Method, UnknownCause};

fn one_header(name: &str, value: &str) -> Headers {
    let mut headers = Headers::new();
    headers.insert(name.to_string(), value.to_string());
    headers
}

fn text_of(request: &charted::PreparedRequest, name: &str) -> Option<String> {
    request.headers.get(name).map(|value| value.to_str().unwrap().to_string())
}

#[test]
fn url_is_base_and_endpoint_as_they_are() {
    let client = APIClient::default_with_url("http://localhost:3651/");
    let request = client.create_request("/health", Method::Get, None, None).unwrap();
    assert_eq!(request.url, "http://localhost:3651//health");
    assert_eq!(request.method, Method::Get);
    assert!(request.body.is_none());
    assert!(request.headers.is_empty());
}

#[test]
fn default_client_talks_to_the_default_registry() {
    let client = APIClient::default();
    let request = client.create_request("/info", Method::Get, None, None).unwrap();
    assert_eq!(request.url, "https://charts.noelware.org/api/info");
    assert!(request.headers.is_empty());
}

#[test]
fn method_and_body_are_handed_on() {
    let client = APIClient::default_with_url("http://x");
    let request =
        client.create_request("/things", Method::Post, Some(vec![1, 2, 3]), None).unwrap();
    assert_eq!(request.method, Method::Post);
    assert_eq!(request.body, Some(vec![1, 2, 3]));
}

#[test]
fn authorization_is_prefix_space_value() {
    let client = APIClient::default_with_auth(BasicAuthStrategy::new("user", "pass"));
    let request = client.create_request("/", Method::Get, None, None).unwrap();
    assert_eq!(text_of(&request, "authorization"), Some("Basic dXNlcjpwYXNz".to_string()));
    assert_eq!(request.headers.len(), 1);
}

#[test]
fn authorization_for_each_strategy() {
    let key = APIClient::default_with_auth(ApiKeyStrategy::new("k1"));
    let request = key.create_request("/", Method::Get, None, None).unwrap();
    assert_eq!(text_of(&request, "authorization"), Some("ApiKey k1".to_string()));
    let session = APIClient::default_with_auth(SessionTokenStrategy::new("tok"));
    let request = session.create_request("/", Method::Get, None, None).unwrap();
    assert_eq!(text_of(&request, "authorization"), Some("Bearer tok".to_string()));
}

#[test]
fn authorization_is_absent_without_a_strategy() {
    let client = APIClient::default_with_url("http://x");
    let request = client
        .create_request("/", Method::Get, None, Some(one_header("accept", "text/plain")))
        .unwrap();
    assert_eq!(text_of(&request, "authorization"), None);
    assert_eq!(text_of(&request, "accept"), Some("text/plain".to_string()));
}

#[test]
fn authorization_survives_other_headers_of_its_name() {
    let mut builder = APIClientBuilder::default();
    builder
        .auth_strategy(ApiKeyStrategy::new("real"))
        .headers(one_header("Authorization", "from-client"));
    let client = builder.build();
    let request = client
        .create_request("/", Method::Get, None, Some(one_header("AUTHORIZATION", "from-call")))
        .unwrap();
    assert_eq!(text_of(&request, "authorization"), Some("ApiKey real".to_string()));
    assert_eq!(request.headers.len(), 1);
}

#[test]
fn supplied_authorization_reaches_the_request_without_a_strategy() {
    let client = APIClient::default_with_url("http://x");
    let request = client
        .create_request("/", Method::Get, None, Some(one_header("Authorization", "mine")))
        .unwrap();
    assert_eq!(text_of(&request, "authorization"), Some("mine".to_string()));
}

#[test]
fn client_header_prevails_over_call_header() {
    let mut builder = APIClientBuilder::default();
    builder.base_url("http://x").headers(one_header("x-trace", "client"));
    let client = builder.build();
    let request = client
        .create_request("/", Method::Get, None, Some(one_header("x-trace", "call")))
        .unwrap();
    assert_eq!(text_of(&request, "x-trace"), Some("client".to_string()));
    assert_eq!(request.headers.len(), 1);
}

#[test]
fn shared_header_with_one_value_resolves_to_that_value() {
    let mut builder = APIClientBuilder::default();
    builder.headers(one_header("x-trace", "same"));
    let client = builder.build();
    let request = client
        .create_request("/", Method::Get, None, Some(one_header("X-Trace", "same")))
        .unwrap();
    assert_eq!(text_of(&request, "x-trace"), Some("same".to_string()));
}

#[test]
fn call_header_fills_in_what_the_client_lacks() {
    let mut builder = APIClientBuilder::default();
    builder.headers(one_header("x-client", "1"));
    let client = builder.build();
    let request = client
        .create_request("/", Method::Get, None, Some(one_header("x-call", "2")))
        .unwrap();
    assert_eq!(text_of(&request, "x-client"), Some("1".to_string()));
    assert_eq!(text_of(&request, "x-call"), Some("2".to_string()));
    assert_eq!(request.headers.len(), 2);
}

#[test]
fn names_are_filed_in_small_letters() {
    let client = APIClient::default_with_url("http://x");
    let request = client
        .create_request("/", Method::Get, None, Some(one_header("X-Request-ID", "Abc")))
        .unwrap();
    let names: Vec<String> = request.headers.keys().map(|name| name.as_str().to_string()).collect();
    assert_eq!(names, vec!["x-request-id".to_string()]);
    assert_eq!(text_of(&request, "x-request-id"), Some("Abc".to_string()));
}

#[test]
fn later_header_of_one_canonical_name_stays() {
    let mut headers = Headers::new();
    headers.insert("X-A".to_string(), "first".to_string());
    headers.insert("x-a".to_string(), "second".to_string());
    assert_eq!(headers.len(), 2);
    let client = APIClient::default_with_url("http://x");
    let request = client.create_request("/", Method::Get, None, Some(headers)).unwrap();
    assert_eq!(text_of(&request, "x-a"), Some("second".to_string()));
    assert_eq!(request.headers.len(), 1);
}

#[test]
fn invalid_header_name_is_an_unknown_failure() {
    let client = APIClient::default_with_url("http://x");
    let failure = client
        .create_request("/", Method::Get, None, Some(one_header("bad name", "v")))
        .unwrap_err();
    assert!(matches!(failure, ClientError::Unknown(UnknownCause::InvalidHeaderName)));
}

#[test]
fn empty_header_name_is_an_unknown_failure() {
    let client = APIClient::default_with_url("http://x");
    let failure =
        client.create_request("/", Method::Get, None, Some(one_header("", "v"))).unwrap_err();
    assert!(matches!(failure, ClientError::Unknown(UnknownCause::InvalidHeaderName)));
}

#[test]
fn header_name_length_limit() {
    let client = APIClient::default_with_url("http://x");
    let longest = "a".repeat(65535);
    let request = client
        .create_request("/", Method::Get, None, Some(one_header(&longest, "v")))
        .unwrap();
    assert_eq!(text_of(&request, &longest), Some("v".to_string()));
    let too_long = "a".repeat(65536);
    let failure = client
        .create_request("/", Method::Get, None, Some(one_header(&too_long, "v")))
        .unwrap_err();
    assert!(matches!(failure, ClientError::Unknown(UnknownCause::InvalidHeaderName)));
}

#[test]
fn header_name_punctuation() {
    let client = APIClient::default_with_url("http://x");
    let name = "!\"#$%&'*+-.^_`|~09azAZ";
    let request =
        client.create_request("/", Method::Get, None, Some(one_header(name, "v"))).unwrap();
    assert_eq!(text_of(&request, "!\"#$%&'*+-.^_`|~09azaz"), Some("v".to_string()));
    for bad in ["a:b", "a(b", "a/b", "a@b", "a[b", "a{b", "a}b", "a,b", "a;b", "a=b", "é"] {
        let failure = client
            .create_request("/", Method::Get, None, Some(one_header(bad, "v")))
            .unwrap_err();
        assert!(matches!(failure, ClientError::Unknown(UnknownCause::InvalidHeaderName)));
    }
}

#[test]
fn invalid_header_value_is_an_unknown_failure() {
    let client = APIClient::default_with_url("http://x");
    for bad in ["line\nbreak", "nul\0", "del\x7f", "cr\r"] {
        let failure = client
            .create_request("/", Method::Get, None, Some(one_header("x-a", bad)))
            .unwrap_err();
        assert!(matches!(failure, ClientError::Unknown(UnknownCause::InvalidHeaderValue)));
    }
}

#[test]
fn tab_and_text_beyond_ascii_are_header_values() {
    let client = APIClient::default_with_url("http://x");
    let request = client
        .create_request("/", Method::Get, None, Some(one_header("x-a", "a\tb é")))
        .unwrap();
    assert_eq!(request.headers.get("x-a").unwrap().as_bytes(), "a\tb é".as_bytes());
}

#[test]
fn name_is_judged_before_value() {
    let client = APIClient::default_with_url("http://x");
    let failure = client
        .create_request("/", Method::Get, None, Some(one_header("bad name", "bad\nvalue")))
        .unwrap_err();
    assert!(matches!(failure, ClientError::Unknown(UnknownCause::InvalidHeaderName)));
}

#[test]
fn first_unsendable_header_decides() {
    let mut call = Headers::new();
    call.insert("x-ok".to_string(), "fine".to_string());
    call.insert("x-bad".to_string(), "bad\nvalue".to_string());
    let mut builder = APIClientBuilder::default();
    builder.headers(one_header("bad name", "v"));
    let client = builder.build();
    let failure = client.create_request("/", Method::Get, None, Some(call)).unwrap_err();
    assert!(matches!(failure, ClientError::Unknown(UnknownCause::InvalidHeaderValue)));
}

#[test]
fn credential_that_cannot_be_sent_is_an_unknown_failure() {
    let client = APIClient::default_with_auth(ApiKeyStrategy::new("two\nlines"));
    let failure = client.create_request("/", Method::Get, None, None).unwrap_err();
    assert!(matches!(failure, ClientError::Unknown(UnknownCause::InvalidHeaderValue)));
}

#[test]
fn fixed_endpoints() {
    let client = APIClient::default_with_url("http://h");
    assert_eq!(client.health_request().unwrap().url, "http://h/health");
    assert_eq!(client.main_request().unwrap().url, "http://h/");
    assert_eq!(client.info_request().unwrap().url, "http://h/info");
    assert_eq!(client.features_request().unwrap().url, "http://h/features");
    assert_eq!(client.health_request().unwrap().method, Method::Get);
}

#[test]
fn builder_defaults_to_the_default_registry() {
    let client = APIClientBuilder::default().build();
    let request = client.create_request("/x", Method::Get, None, None).unwrap();
    assert_eq!(request.url, "https://charts.noelware.org/api/x");
    assert!(request.headers.is_empty());
}

#[test]
fn builder_takes_later_headers_over_earlier_ones() {
    let mut builder = APIClientBuilder::default();
    builder.headers(one_header("x-a", "1")).headers(one_header("x-a", "2"));
    let client = builder.build();
    let request = client.create_request("/", Method::Get, None, None).unwrap();
    assert_eq!(text_of(&request, "x-a"), Some("2".to_string()));
}

#[test]
fn many_headers_fit() {
    let mut headers = Headers::new();
    for i in 0..200 {
        headers.insert(format!("x-h{i}"), format!("{i}"));
    }
    assert!(headers.len() < HEADER_MAP_ROOM);
    let client = APIClient::default_with_url("http://x");
    let request = client.create_request("/", Method::Get, None, Some(headers)).unwrap();
    assert_eq!(request.headers.len(), 200);
    assert_eq!(text_of(&request, "x-h199"), Some("199".to_string()));
}

#[test]
fn requests_repeat() {
    let client = APIClient::default_with_auth(BasicAuthStrategy::new("u", "p"));
    let once = client.create_request("/a", Method::Get, None, None).unwrap();
    let again = client.create_request("/a", Method::Get, None, None).unwrap();
    assert_eq!(once.url, again.url);
    assert_eq!(once.headers, again.headers);
    assert_eq!(once.method, again.method);
    assert_eq!(once.body, again.body);
}

#[test]
fn room_is_judged_before_assembling() {
    let mut headers = Headers::new();
    for i in 0..HEADER_MAP_ROOM {
        headers.insert(format!("x-h{i}"), String::new());
    }
    assert_eq!(headers.len(), HEADER_MAP_ROOM);
    let client = APIClient::default_with_url("http://x");
    let headers = Some(headers);
    assert!(!client.has_room_for(&headers));
    assert!(client.try_create_request("/", Method::Get, None, headers).is_none());
    assert!(client.has_room_for(&None));
    assert!(client.has_room_for(&Some(one_header("a", "b"))));
    let made = client.try_create_request("/p", Method::Put, None, Some(one_header("a", "b")));
    assert_eq!(made.unwrap().unwrap().url, "http://x/p");
}
