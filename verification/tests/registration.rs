use openidconnect::http::{
    HttpRequest, HttpRequestMethod, HttpResponse, HttpTransport, TransportError,
};
use openidconnect::json::{parse, to_bytes, JsonError, JsonValue};
use openidconnect::jwk::{JsonWebKey, JsonWebKeySet};
use openidconnect::language::{LocalizedClaim, LocalizedUrls};
use openidconnect::metadata::ClientMetadata;
use openidconnect::oauth::{AnyErrorResponseType, ErrorResponseType};
use openidconnect::registration::{
    registration_from_response, registration_request, ClientRegistrationError,
    ClientRegistrationRequest, ClientRegistrationResponse, CoreRegisterErrorResponseType,
    Registration10ClientRegistrationRequest,
};
use openidconnect::types::{AccessToken, EndpointUrl, LanguageTag, ResponseTypes};
use std::cell::RefCell;

fn url(text: &str) -> EndpointUrl {
    EndpointUrl::new(text.to_string()).unwrap()
}

fn member<'a>(doc: &'a JsonValue, key: &str) -> Option<&'a JsonValue> {
    match doc {
        JsonValue::Object(members) => members.iter().find(|(k, _)| k == key).map(|(_, v)| v),
        _ => None,
    }
}

fn keys(doc: &JsonValue) -> Vec<String> {
    match doc {
        JsonValue::Object(members) => members.iter().map(|(k, _)| k.clone()).collect(),
        _ => Vec::new(),
    }
}

fn text(value: &str) -> JsonValue {
    JsonValue::Text(value.to_string())
}

fn full_metadata() -> ClientMetadata {
    let mut name = LocalizedClaim::new(None, "Acme".to_string());
    name.insert(LanguageTag::new("fr".to_string()), "Acmé".to_string());
    let mut logo = LocalizedUrls::new(
        LanguageTag::new("de".to_string()),
        &url("https://rp.example.com/logo-de.png"),
    );
    assert!(!logo.insert(LanguageTag::new("de".to_string()), &url("https://rp.example.com/x.png")));
    let mut key = JsonWebKey::new("RSA".to_string());
    key.set_kid(Some("k1".to_string()));
    key.set_key_use(Some("sig".to_string()));
    key.set_n(Some("AQAB".to_string()));
    key.set_e(Some("AQAB".to_string()));
    ClientMetadata::new(vec![url("https://rp.example.com/cb"), url("https://rp.example.com/cb2")])
        .set_response_types(Some(vec![
            ResponseTypes::new(vec!["code".to_string()]).unwrap(),
            ResponseTypes::new(vec!["code".to_string(), "id_token".to_string()]).unwrap(),
        ]))
        .set_grant_types(Some(vec!["authorization_code".to_string()]))
        .set_application_type(Some("web".to_string()))
        .set_contacts(Some(vec!["admin@rp.example.com".to_string()]))
        .set_client_name(Some(name))
        .set_logo_uri(Some(logo))
        .set_jwks_uri(Some(url("https://rp.example.com/jwks")))
        .set_jwks(Some(JsonWebKeySet::new(vec![key])))
        .set_subject_type(Some("pairwise".to_string()))
        .set_id_token_signed_response_alg(Some("RS256".to_string()))
        .set_token_endpoint_auth_method(Some("client_secret_basic".to_string()))
        .set_default_max_age(Some(3600))
        .set_require_auth_time(Some(true))
        .set_default_acr_values(Some(vec!["urn:mace:incommon:iap:silver".to_string()]))
        .set_request_uris(Some(vec![url("https://rp.example.com/request.jwt")]))
}

fn assert_same(a: &ClientMetadata, b: &ClientMetadata) {
    assert_eq!(a, b);
    assert_eq!(&a.clone(), b);
}

#[test]
fn bare_metadata_are_written_as_redirect_uris_alone() {
    let metadata = ClientMetadata::new(vec![url("https://rp.example.com/cb")]);
    let bytes = to_bytes(&metadata.to_json()).unwrap();
    assert_eq!(
        String::from_utf8(bytes).unwrap(),
        "{\"redirect_uris\":[\"https://rp.example.com/cb\"]}"
    );
}

#[test]
fn metadata_are_written_member_by_member() {
    let doc = full_metadata().to_json();
    assert_eq!(
        keys(&doc),
        vec![
            "redirect_uris",
            "response_types",
            "grant_types",
            "application_type",
            "contacts",
            "client_name",
            "client_name#fr",
            "logo_uri#de",
            "jwks_uri",
            "jwks",
            "subject_type",
            "id_token_signed_response_alg",
            "token_endpoint_auth_method",
            "default_max_age",
            "require_auth_time",
            "default_acr_values",
            "request_uris",
        ]
    );
    assert!(matches!(member(&doc, "default_max_age"), Some(JsonValue::Unsigned(3600))));
    assert!(matches!(member(&doc, "require_auth_time"), Some(JsonValue::Bool(true))));
    match member(&doc, "response_types") {
        Some(JsonValue::Array(items)) => {
            assert!(matches!(&items[0], JsonValue::Text(t) if t == "code"));
            assert!(matches!(&items[1], JsonValue::Text(t) if t == "code id_token"));
        }
        other => panic!("unexpected member: {:?}", other),
    }
}

#[test]
fn client_name_is_written_once_per_language() {
    let mut name = LocalizedClaim::new(None, "Acme".to_string());
    name.insert(LanguageTag::new("fr".to_string()), "Acmé".to_string());
    let metadata =
        ClientMetadata::new(vec![url("https://rp.example.com/cb")]).set_client_name(Some(name));
    let doc = metadata.to_json();
    assert!(matches!(member(&doc, "client_name"), Some(JsonValue::Text(t)) if t == "Acme"));
    assert!(matches!(member(&doc, "client_name#fr"), Some(JsonValue::Text(t)) if t == "Acmé"));
    assert_eq!(keys(&doc), vec!["redirect_uris", "client_name", "client_name#fr"]);
}

#[test]
fn client_name_is_read_once_per_language() {
    let doc = parse(
        "{\"redirect_uris\": [\"https://rp.example.com/cb\"], \
          \"client_name#fr\": \"Acmé\", \"client_name\": \"Acme\", \
          \"client_name#fr-CA\": \"Acmé CA\"}"
            .as_bytes(),
    )
    .unwrap();
    let metadata = ClientMetadata::from_json(&doc).unwrap();
    let name = metadata.client_name().unwrap();
    assert_eq!(name.len(), 3);
    assert_eq!(name.get(None), Some("Acme"));
    assert_eq!(name.get(Some("fr")), Some("Acmé"));
    assert_eq!(name.get(Some("fr-CA")), Some("Acmé CA"));
    assert!(metadata.logo_uri().is_none());
}

#[test]
fn a_claim_of_urls_takes_urls_only() {
    let mut texts = LocalizedClaim::new(None, "https://rp.example.com/".to_string());
    texts.insert(LanguageTag::new("fr".to_string()), "https://rp.example.com/fr".to_string());
    let urls = LocalizedUrls::checked(texts.clone()).unwrap();
    assert_eq!(urls.claim(), &texts);
    texts.insert(LanguageTag::new("de".to_string()), "kein url".to_string());
    assert!(LocalizedUrls::checked(texts).is_none());
}

#[test]
fn metadata_that_are_written_are_read_back() {
    let metadata = full_metadata();
    let again = ClientMetadata::from_json(&metadata.to_json()).unwrap();
    assert_same(&metadata, &again);
}

#[test]
fn metadata_survive_the_json_text() {
    let metadata = full_metadata();
    let bytes = to_bytes(&metadata.to_json()).unwrap();
    let again = ClientMetadata::from_json(&parse(&bytes).unwrap()).unwrap();
    assert_same(&metadata, &again);
    assert_eq!(to_bytes(&again.to_json()).unwrap(), bytes);
}

#[test]
fn the_same_language_twice_is_refused() {
    let doc = JsonValue::Object(vec![
        ("redirect_uris".to_string(), JsonValue::Array(vec![text("https://rp.example.com/cb")])),
        ("client_name#fr".to_string(), text("Acmé")),
        ("client_name#fr".to_string(), text("Acme")),
    ]);
    match ClientMetadata::from_json(&doc) {
        Err(JsonError::DuplicateField(name)) => assert_eq!(name, "client_name"),
        other => panic!("unexpected result: {:?}", other),
    }
    let doc = JsonValue::Object(vec![
        ("redirect_uris".to_string(), JsonValue::Array(vec![text("https://rp.example.com/cb")])),
        ("client_name".to_string(), text("Acme")),
        ("client_name#".to_string(), text("Acme again")),
    ]);
    assert!(matches!(ClientMetadata::from_json(&doc), Err(JsonError::DuplicateField(_))));
}

#[test]
fn a_language_tag_where_none_belongs_is_refused() {
    let doc = JsonValue::Object(vec![
        ("redirect_uris".to_string(), JsonValue::Array(vec![text("https://rp.example.com/cb")])),
        ("application_type#fr".to_string(), text("web")),
    ]);
    match ClientMetadata::from_json(&doc) {
        Err(JsonError::UnexpectedLanguageTag(name)) => assert_eq!(name, "application_type"),
        other => panic!("unexpected result: {:?}", other),
    }
}

#[test]
fn metadata_need_redirect_uris() {
    let doc = parse(b"{\"client_name\": \"Acme\"}").unwrap();
    match ClientMetadata::from_json(&doc) {
        Err(JsonError::MissingField(name)) => assert_eq!(name, "redirect_uris"),
        other => panic!("unexpected result: {:?}", other),
    }
    let doc = parse(b"{\"redirect_uris\": []}").unwrap();
    assert!(matches!(ClientMetadata::from_json(&doc), Err(JsonError::InvalidValue(_))));
    let doc = parse(b"{\"redirect_uris\": [\"nowhere\"]}").unwrap();
    assert!(matches!(ClientMetadata::from_json(&doc), Err(JsonError::InvalidValue(_))));
    let doc = parse(b"{\"redirect_uris\": [\"https://rp.example.com\"], \"logo_uri#fr\": \"x y\"}")
        .unwrap();
    match ClientMetadata::from_json(&doc) {
        Err(JsonError::InvalidValue(name)) => assert_eq!(name, "logo_uri"),
        other => panic!("unexpected result: {:?}", other),
    }
    let doc = parse(b"{\"redirect_uris\": [\"https://rp.example.com\"], \"default_max_age\": -1}")
        .unwrap();
    assert!(matches!(ClientMetadata::from_json(&doc), Err(JsonError::InvalidValue(_))));
    let doc = parse(b"{\"redirect_uris\": [\"https://rp.example.com\"], \"default_max_age\": 1.5}")
        .unwrap();
    assert!(matches!(ClientMetadata::from_json(&doc), Err(JsonError::InvalidValue(_))));
}

const REGISTERED: &str = r#"{
    "client_id": "s6BhdRkqt3",
    "client_secret": "ZJYCqe3GGRvdrudKyZS0XhGv_Z45DuKhCUk0gBR1vZk",
    "client_secret_expires_at": 1577858400,
    "client_id_issued_at": 9999999999999,
    "registration_access_token": "this.is.an.access.token.value.ffx83",
    "registration_client_uri": "https://op.example.com/connect/register?client_id=s6BhdRkqt3",
    "application_type": "web",
    "redirect_uris": ["https://rp.example.com/cb"],
    "client_name": "My Example",
    "client_name#ja-Jpan-JP": "クライアント名",
    "token_endpoint_auth_method": "client_secret_basic"
}"#;

fn json_response(status: u32, body: &[u8]) -> HttpResponse {
    HttpResponse {
        status_code: status,
        headers: vec![("content-type".to_string(), "application/json;charset=UTF-8".to_string())],
        body: body.to_vec(),
    }
}

#[test]
fn a_created_registration_is_read() {
    let registration =
        registration_from_response::<CoreRegisterErrorResponseType>(&json_response(201, REGISTERED.as_bytes()))
            .unwrap();
    assert_eq!(registration.client_id().as_str(), "s6BhdRkqt3");
    assert_eq!(
        registration.client_secret().unwrap().secret(),
        "ZJYCqe3GGRvdrudKyZS0XhGv_Z45DuKhCUk0gBR1vZk"
    );
    assert_eq!(
        registration.registration_access_token().unwrap().secret(),
        "this.is.an.access.token.value.ffx83"
    );
    assert_eq!(
        registration.registration_client_uri().unwrap().as_str(),
        "https://op.example.com/connect/register?client_id=s6BhdRkqt3"
    );
    assert_eq!(
        registration.client_secret_expires_at().unwrap().unwrap().unix_seconds(),
        1577858400
    );
    assert_eq!(registration.client_id_issued_at(), Some(Err(())));
    let metadata = registration.client_metadata();
    assert_eq!(metadata.redirect_uris()[0].as_str(), "https://rp.example.com/cb");
    assert_eq!(metadata.application_type().unwrap(), "web");
    assert_eq!(metadata.client_name().unwrap().get(Some("ja-Jpan-JP")), Some("クライアント名"));
    assert_eq!(metadata.token_endpoint_auth_method().unwrap(), "client_secret_basic");
}

#[test]
fn a_registration_without_instants_tells_none() {
    let registration = registration_from_response::<CoreRegisterErrorResponseType>(&json_response(
        201,
        b"{\"client_id\": \"abc\", \"redirect_uris\": [\"https://rp.example.com/cb\"]}",
    ))
    .unwrap();
    assert_eq!(registration.client_id_issued_at(), None);
    assert_eq!(registration.client_secret_expires_at(), None);
    assert!(registration.client_secret().is_none());
}

#[test]
fn registration_takes_status_201_and_400_only() {
    for status in [200u32, 202, 204, 302, 401, 403, 404, 500, 503] {
        match registration_from_response::<CoreRegisterErrorResponseType>(&json_response(
            status,
            REGISTERED.as_bytes(),
        )) {
            Err(ClientRegistrationError::Response(found, words)) => {
                assert_eq!(found, status);
                assert_eq!(words, "unexpected HTTP status code");
            }
            other => panic!("unexpected result: {:?}", other),
        }
    }
}

#[test]
fn a_refusal_of_the_provider_is_a_server_response() {
    let body = b"{\"error\": \"invalid_redirect_uri\", \
                  \"error_description\": \"One or more redirect_uri values are invalid\"}";
    match registration_from_response::<CoreRegisterErrorResponseType>(&json_response(400, body)) {
        Err(ClientRegistrationError::ServerResponse(error)) => {
            assert_eq!(error.error, CoreRegisterErrorResponseType::InvalidRedirectUri);
            assert_eq!(
                error.error_description.unwrap(),
                "One or more redirect_uri values are invalid"
            );
            assert!(error.error_uri.is_none());
        }
        other => panic!("unexpected result: {:?}", other),
    }
}

#[test]
fn an_unknown_error_code_is_a_json_error_for_the_closed_set() {
    let body = b"{\"error\": \"server_on_fire\"}";
    match registration_from_response::<CoreRegisterErrorResponseType>(&json_response(400, body)) {
        Err(ClientRegistrationError::Json(JsonError::InvalidValue(name))) => assert_eq!(name, "error"),
        other => panic!("unexpected result: {:?}", other),
    }
    match registration_from_response::<AnyErrorResponseType>(&json_response(400, body)) {
        Err(ClientRegistrationError::ServerResponse(error)) => {
            assert_eq!(error.error.code, "server_on_fire");
            assert_eq!(error.error.to_code(), "server_on_fire");
        }
        other => panic!("unexpected result: {:?}", other),
    }
    match registration_from_response::<CoreRegisterErrorResponseType>(&json_response(400, b"{}")) {
        Err(ClientRegistrationError::Json(JsonError::MissingField(name))) => assert_eq!(name, "error"),
        other => panic!("unexpected result: {:?}", other),
    }
}

#[test]
fn error_codes_are_read_and_written() {
    assert_eq!(
        CoreRegisterErrorResponseType::from_code("invalid_client_metadata"),
        Some(CoreRegisterErrorResponseType::InvalidClientMetadata)
    );
    assert_eq!(CoreRegisterErrorResponseType::from_code("Invalid_Client_Metadata"), None);
    assert_eq!(
        CoreRegisterErrorResponseType::InvalidRedirectUri.to_code(),
        "invalid_redirect_uri"
    );
    assert_eq!(
        CoreRegisterErrorResponseType::InvalidClientMetadata.to_code(),
        "invalid_client_metadata"
    );
}

#[test]
fn an_answer_that_is_not_json_is_refused() {
    let mut response = json_response(201, REGISTERED.as_bytes());
    response.headers = vec![("Content-Type".to_string(), "text/plain".to_string())];
    assert!(matches!(
        registration_from_response::<CoreRegisterErrorResponseType>(&response),
        Err(ClientRegistrationError::Response(201, _))
    ));
    let mut response = json_response(400, b"{\"error\": \"invalid_redirect_uri\"}");
    response.headers = Vec::new();
    assert!(matches!(
        registration_from_response::<CoreRegisterErrorResponseType>(&response),
        Err(ClientRegistrationError::Response(400, _))
    ));
}

#[test]
fn a_body_that_is_not_utf8_is_another_error() {
    match registration_from_response::<CoreRegisterErrorResponseType>(&json_response(
        201,
        &[b'{', 0xff, 0xfe, b'}'],
    )) {
        Err(ClientRegistrationError::Other(words)) => {
            assert!(words.starts_with("couldn't parse response as UTF-8: "))
        }
        other => panic!("unexpected result: {:?}", other),
    }
}

#[test]
fn a_body_that_is_no_registration_is_a_json_error() {
    assert!(matches!(
        registration_from_response::<CoreRegisterErrorResponseType>(&json_response(201, b"{\"client_id\": ")),
        Err(ClientRegistrationError::Json(JsonError::Syntax(_)))
    ));
    match registration_from_response::<CoreRegisterErrorResponseType>(&json_response(
        201,
        b"{\"redirect_uris\": [\"https://rp.example.com/cb\"]}",
    )) {
        Err(ClientRegistrationError::Json(JsonError::MissingField(name))) => {
            assert_eq!(name, "client_id")
        }
        other => panic!("unexpected result: {:?}", other),
    }
}

#[test]
fn the_request_posts_the_metadata_as_json() {
    let metadata = ClientMetadata::new(vec![url("https://rp.example.com/cb")]);
    let endpoint = url("https://op.example.com/register");
    let request = registration_request(&metadata, &endpoint, None);
    assert_eq!(request.url.as_str(), "https://op.example.com/register");
    assert_eq!(request.method, HttpRequestMethod::Post);
    assert_eq!(
        request.headers,
        vec![
            ("Accept".to_string(), "application/json".to_string()),
            ("Content-Type".to_string(), "application/json".to_string()),
        ]
    );
    assert_eq!(
        String::from_utf8(request.post_body).unwrap(),
        "{\"redirect_uris\":[\"https://rp.example.com/cb\"]}"
    );
}

#[test]
fn the_request_presents_the_initial_access_token() {
    let metadata = ClientMetadata::new(vec![url("https://rp.example.com/cb")]);
    let endpoint = url("https://op.example.com/register");
    let token = AccessToken::new("t0k3n".to_string());
    let request = registration_request(&metadata, &endpoint, Some(&token));
    assert_eq!(request.headers.len(), 3);
    assert_eq!(
        request.headers[2],
        ("Authorization".to_string(), "Bearer t0k3n".to_string())
    );
}

struct Canned {
    answer: RefCell<Option<Result<HttpResponse, TransportError>>>,
    seen: RefCell<Vec<(String, HttpRequestMethod, Vec<(String, String)>, Vec<u8>)>>,
}

impl Canned {
    fn new(answer: Result<HttpResponse, TransportError>) -> Canned {
        Canned { answer: RefCell::new(Some(answer)), seen: RefCell::new(Vec::new()) }
    }
}

impl HttpTransport for Canned {
    fn send(&self, request: &HttpRequest) -> Result<HttpResponse, TransportError> {
        self.seen.borrow_mut().push((
            request.url.as_str().to_string(),
            request.method,
            request.headers.clone(),
            request.post_body.clone(),
        ));
        self.answer.borrow_mut().take().expect("one request only")
    }
}

#[test]
fn register_sends_one_request_and_reads_the_answer() {
    let mut request =
        Registration10ClientRegistrationRequest::new(vec![url("https://rp.example.com/cb")])
            .set_application_type(Some("web".to_string()));
    assert!(request.initial_access_token().is_none());
    request.set_initial_access_token(Some(AccessToken::new("initial".to_string())));
    assert_eq!(request.initial_access_token().unwrap().secret(), "initial");
    assert_eq!(request.client_metadata().application_type().unwrap(), "web");
    let transport = Canned::new(Ok(json_response(201, REGISTERED.as_bytes())));
    let registration = request
        .register::<CoreRegisterErrorResponseType, Canned>(
            &transport,
            &url("https://op.example.com/register"),
        )
        .unwrap();
    assert_eq!(registration.client_id().as_str(), "s6BhdRkqt3");
    let seen = transport.seen.borrow();
    assert_eq!(seen.len(), 1);
    assert_eq!(seen[0].0, "https://op.example.com/register");
    assert_eq!(seen[0].1, HttpRequestMethod::Post);
    assert_eq!(seen[0].2[2], ("Authorization".to_string(), "Bearer initial".to_string()));
    assert_eq!(
        String::from_utf8(seen[0].3.clone()).unwrap(),
        "{\"application_type\":\"web\",\"redirect_uris\":[\"https://rp.example.com/cb\"]}"
    );
}

#[test]
fn register_does_not_try_again() {
    let request =
        Registration10ClientRegistrationRequest::new(vec![url("https://rp.example.com/cb")]);
    let transport = Canned::new(Ok(json_response(503, b"{}")));
    assert!(matches!(
        request.register::<CoreRegisterErrorResponseType, Canned>(
            &transport,
            &url("https://op.example.com/register")
        ),
        Err(ClientRegistrationError::Response(503, _))
    ));
    assert_eq!(transport.seen.borrow().len(), 1);
    let transport = Canned::new(Err(TransportError { message: "refused".to_string() }));
    assert!(matches!(
        request.register::<CoreRegisterErrorResponseType, Canned>(
            &transport,
            &url("https://op.example.com/register")
        ),
        Err(ClientRegistrationError::Request(_))
    ));
    assert_eq!(transport.seen.borrow().len(), 1);
}

#[test]
fn a_key_set_is_written_and_read() {
    let mut key = JsonWebKey::new("oct".to_string());
    key.set_k(Some("c2VjcmV0".to_string()));
    key.set_alg(Some("HS256".to_string()));
    let set = JsonWebKeySet::new(vec![key, JsonWebKey::new("EC".to_string())]);
    let bytes = to_bytes(&set.to_json()).unwrap();
    assert_eq!(
        String::from_utf8(bytes.clone()).unwrap(),
        "{\"keys\":[{\"alg\":\"HS256\",\"k\":\"c2VjcmV0\",\"kty\":\"oct\"},{\"kty\":\"EC\"}]}"
    );
    let again = JsonWebKeySet::from_json(&parse(&bytes).unwrap()).unwrap();
    assert_eq!(again, set);
    assert_eq!(again.keys()[0].k(), Some("c2VjcmV0"));
    assert_eq!(again.keys()[0].kty(), "oct");
    assert!(matches!(
        JsonWebKeySet::from_json(&parse(b"{\"keys\": [{\"kid\": \"1\"}]}").unwrap()),
        Err(JsonError::InvalidValue(_))
    ));
    assert!(matches!(
        JsonWebKeySet::from_json(&parse(b"{}").unwrap()),
        Err(JsonError::MissingField(_))
    ));
}
