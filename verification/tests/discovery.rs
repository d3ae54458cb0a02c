use openidconnect::discovery::{
    discovery_request, get_provider_metadata, provider_metadata_from_response, DiscoveryError,
    ProviderMetadata,
};
use openidconnect::http::{
    HttpRequest, HttpRequestMethod, HttpResponse, HttpTransport, TransportError,
};
use openidconnect::json::{parse, JsonError, JsonValue};
use openidconnect::types::IssuerUrl;
use std::cell::RefCell;

const DOCUMENT: &str = r#"{
    "issuer": "https://op.example.com",
    "authorization_endpoint": "https://op.example.com/authorize",
    "token_endpoint": "https://op.example.com/token",
    "userinfo_endpoint": "https://op.example.com/userinfo",
    "jwks_uri": "https://op.example.com/jwks",
    "registration_endpoint": "https://op.example.com/register",
    "scopes_supported": ["openid", "profile"],
    "response_types_supported": ["code", "code id_token"],
    "subject_types_supported": ["public", "pairwise"],
    "id_token_signing_alg_values_supported": ["RS256"],
    "claims_parameter_supported": true,
    "request_uri_parameter_supported": false,
    "op_policy_uri": null,
    "something_else": {"nested": [1, 2.5]}
}"#;

fn issuer() -> IssuerUrl {
    IssuerUrl::new("https://op.example.com".to_string()).unwrap()
}

fn json_response(status: u32, body: &str) -> HttpResponse {
    HttpResponse {
        status_code: status,
        headers: vec![("Content-Type".to_string(), "application/json".to_string())],
        body: body.as_bytes().to_vec(),
    }
}

struct Canned {
    answer: RefCell<Option<Result<HttpResponse, TransportError>>>,
    seen: RefCell<Vec<(String, HttpRequestMethod, Vec<(String, String)>, Vec<u8>)>>,
}

impl Canned {
    fn new(answer: Result<HttpResponse, TransportError>) -> Canned {
        Canned { answer: RefCell::new(Some(answer)), seen: RefCell::new(Vec::new()) }
    }
}

impl HttpTransport for Canned {
    fn send(&self, request: &HttpRequest) -> Result<HttpResponse, TransportError> {
        self.seen.borrow_mut().push((
            request.url.as_str().to_string(),
            request.method,
            request.headers.clone(),
            request.post_body.clone(),
        ));
        self.answer.borrow_mut().take().expect("one request only")
    }
}

#[test]
fn discovery_request_is_a_get_that_accepts_json() {
    let request = discovery_request(&issuer()).unwrap();
    assert_eq!(
        request.url.as_str(),
        "https://op.example.com/.well-known/openid-configuration"
    );
    assert_eq!(request.method, HttpRequestMethod::Get);
    assert_eq!(
        request.headers,
        vec![("Accept".to_string(), "application/json".to_string())]
    );
    assert!(request.post_body.is_empty());
}

#[test]
fn provider_metadata_are_read_from_the_document() {
    let metadata = provider_metadata_from_response(&issuer(), &json_response(200, DOCUMENT)).unwrap();
    assert_eq!(metadata.issuer().as_str(), "https://op.example.com");
    assert_eq!(metadata.authorization_endpoint().as_str(), "https://op.example.com/authorize");
    assert_eq!(metadata.token_endpoint().unwrap().as_str(), "https://op.example.com/token");
    assert_eq!(metadata.jwks_uri().unwrap().as_str(), "https://op.example.com/jwks");
    assert_eq!(
        metadata.scopes_supported().unwrap(),
        &vec!["openid".to_string(), "profile".to_string()]
    );
    assert_eq!(metadata.response_types_supported().len(), 2);
    assert_eq!(metadata.response_types_supported()[1].to_text(), "code id_token");
    assert_eq!(
        metadata.subject_types_supported(),
        &vec!["public".to_string(), "pairwise".to_string()]
    );
    assert_eq!(metadata.id_token_signing_alg_values_supported(), &vec!["RS256".to_string()]);
    assert_eq!(metadata.claims_parameter_supported(), Some(true));
    assert_eq!(metadata.request_uri_parameter_supported(), Some(false));
    assert_eq!(metadata.request_parameter_supported(), None);
    assert!(metadata.op_policy_uri().is_none());
    assert!(metadata.grant_types_supported().is_none());
}

#[test]
fn discovery_takes_status_200_only() {
    for status in [201u32, 204, 301, 400, 404, 500] {
        match provider_metadata_from_response(&issuer(), &json_response(status, DOCUMENT)) {
            Err(DiscoveryError::Response(found, words)) => {
                assert_eq!(found, status);
                assert_eq!(words, "unexpected HTTP status code");
            }
            other => panic!("unexpected result: {:?}", other),
        }
    }
}

#[test]
fn discovery_asks_for_json() {
    let mut response = json_response(200, DOCUMENT);
    response.headers = vec![("Content-Type".to_string(), "text/html".to_string())];
    match provider_metadata_from_response(&issuer(), &response) {
        Err(DiscoveryError::Response(200, words)) => assert_eq!(
            words,
            "unexpected response Content-Type: `text/html`, should be `application/json`"
        ),
        other => panic!("unexpected result: {:?}", other),
    }
}

#[test]
fn a_document_that_is_no_json_is_a_json_error() {
    match provider_metadata_from_response(&issuer(), &json_response(200, "{\"issuer\": ")) {
        Err(DiscoveryError::Json(JsonError::Syntax(_))) => {}
        other => panic!("unexpected result: {:?}", other),
    }
    match provider_metadata_from_response(&issuer(), &json_response(200, "[1, 2]")) {
        Err(DiscoveryError::Json(JsonError::NotAnObject)) => {}
        other => panic!("unexpected result: {:?}", other),
    }
}

#[test]
fn required_members_must_be_there() {
    let without = DOCUMENT.replace("\"authorization_endpoint\": \"https://op.example.com/authorize\",", "");
    match provider_metadata_from_response(&issuer(), &json_response(200, &without)) {
        Err(DiscoveryError::Json(JsonError::MissingField(name))) => {
            assert_eq!(name, "authorization_endpoint")
        }
        other => panic!("unexpected result: {:?}", other),
    }
    let empty = DOCUMENT.replace("[\"public\", \"pairwise\"]", "[]");
    match provider_metadata_from_response(&issuer(), &json_response(200, &empty)) {
        Err(DiscoveryError::Json(JsonError::InvalidValue(name))) => {
            assert_eq!(name, "subject_types_supported")
        }
        other => panic!("unexpected result: {:?}", other),
    }
    let wrong = DOCUMENT.replace("\"claims_parameter_supported\": true", "\"claims_parameter_supported\": \"yes\"");
    match provider_metadata_from_response(&issuer(), &json_response(200, &wrong)) {
        Err(DiscoveryError::Json(JsonError::InvalidValue(name))) => {
            assert_eq!(name, "claims_parameter_supported")
        }
        other => panic!("unexpected result: {:?}", other),
    }
    let bad_url = DOCUMENT.replace("https://op.example.com/token", "no url");
    match provider_metadata_from_response(&issuer(), &json_response(200, &bad_url)) {
        Err(DiscoveryError::Json(JsonError::InvalidValue(name))) => assert_eq!(name, "token_endpoint"),
        other => panic!("unexpected result: {:?}", other),
    }
}

#[test]
fn a_document_for_another_issuer_is_refused() {
    let asked = IssuerUrl::new("https://op.example.com/".to_string()).unwrap();
    match provider_metadata_from_response(&asked, &json_response(200, DOCUMENT)) {
        Err(DiscoveryError::Validation(words)) => assert_eq!(
            words,
            "unexpected issuer URI `https://op.example.com` (expected `https://op.example.com/`); \
             this may indicate an OpenID Provider impersonation attack"
        ),
        other => panic!("unexpected result: {:?}", other),
    }
}

#[test]
fn validate_hands_back_metadata_for_the_right_issuer_only() {
    let doc = parse(DOCUMENT.as_bytes()).unwrap();
    let metadata = ProviderMetadata::from_json(&doc).unwrap();
    let metadata = metadata.validate(&issuer()).unwrap();
    let other = IssuerUrl::new("https://other.example.com".to_string()).unwrap();
    assert!(matches!(metadata.validate(&other), Err(DiscoveryError::Validation(_))));
}

#[test]
fn get_provider_metadata_sends_one_request() {
    let transport = Canned::new(Ok(json_response(200, DOCUMENT)));
    let metadata = get_provider_metadata(&transport, &issuer()).unwrap();
    assert!(metadata.issuer().same_as(&issuer()));
    let seen = transport.seen.borrow();
    assert_eq!(seen.len(), 1);
    assert_eq!(seen[0].0, "https://op.example.com/.well-known/openid-configuration");
    assert_eq!(seen[0].1, HttpRequestMethod::Get);
}

#[test]
fn a_failure_of_the_transport_is_a_request_error() {
    let transport = Canned::new(Err(TransportError { message: "timed out".to_string() }));
    match get_provider_metadata(&transport, &issuer()) {
        Err(DiscoveryError::Request(error)) => assert_eq!(error.message, "timed out"),
        other => panic!("unexpected result: {:?}", other),
    }
}

#[test]
fn a_duplicate_member_is_refused_by_the_reader() {
    let doc = JsonValue::Object(vec![
        ("issuer".to_string(), JsonValue::Text("https://op.example.com".to_string())),
        ("issuer".to_string(), JsonValue::Text("https://op.example.com".to_string())),
    ]);
    match ProviderMetadata::from_json(&doc) {
        Err(JsonError::DuplicateField(name)) => assert_eq!(name, "issuer"),
        other => panic!("unexpected result: {:?}", other),
    }
}
