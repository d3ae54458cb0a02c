use base64::Engine;
use openidconnect::algorithm::CoreJwsSigningAlgorithm;
use openidconnect::discovery::{get_keys, keys_from_response, DiscoveryError};
use openidconnect::http::{
    HttpRequest, HttpRequestMethod, HttpResponse, HttpTransport, TransportError,
};
use openidconnect::json::JsonError;
use openidconnect::jwk::{JsonWebKey, JsonWebKeySet};
use openidconnect::jws::SignatureVerificationError;
use openidconnect::types::{AccessToken, ClientId, EndpointUrl, IssuerUrl, SubjectIdentifier};
use openidconnect::userinfo::{
    get_user_info, user_info_from_response, user_info_request, UserInfoError, UserInfoVerifier,
};
use openidconnect::verification::{ClaimsVerificationError, SignatureVerifier, VerificationKey};
use std::cell::RefCell;

const ISSUER: &str = "https://op.example.com";
const CLIENT: &str = "s6BhdRkqt3";

struct TestCrypto;

fn key_signature(key: &JsonWebKey, message: &[u8]) -> Vec<u8> {
    let mut signature = key.n().unwrap_or("").as_bytes().to_vec();
    signature.push(b'|');
    signature.extend_from_slice(message);
    signature
}

impl SignatureVerifier for TestCrypto {
    fn verify_signature(
        &self,
        _alg: CoreJwsSigningAlgorithm,
        key: VerificationKey,
        message: &[u8],
        signature: &[u8],
    ) -> Result<(), String> {
        match key {
            VerificationKey::Key(key) if key_signature(key, message) == signature => Ok(()),
            _ => Err("bad signature".to_string()),
        }
    }
}

fn rsa_key(kid: &str, material: &str) -> JsonWebKey {
    let mut key = JsonWebKey::new("RSA".to_string());
    key.set_kid(Some(kid.to_string()));
    key.set_n(Some(material.to_string()));
    key
}

fn guard(sub: &str) -> UserInfoVerifier {
    UserInfoVerifier::new(
        ClientId::new(CLIENT.to_string()),
        IssuerUrl::new(ISSUER.to_string()).unwrap(),
        JsonWebKeySet::new(vec![rsa_key("k1", "one")]),
        SubjectIdentifier::new(sub.to_string()),
    )
}

fn response(status: u32, content_type: &str, body: &str) -> HttpResponse {
    HttpResponse {
        status_code: status,
        headers: vec![("Content-Type".to_string(), content_type.to_string())],
        body: body.as_bytes().to_vec(),
    }
}

fn signed(signer: &JsonWebKey, payload: &str) -> String {
    let b64 = |bytes: &[u8]| base64::engine::general_purpose::URL_SAFE_NO_PAD.encode(bytes);
    let input = format!("{}.{}", b64(b"{\"alg\":\"RS256\",\"kid\":\"k1\"}"), b64(payload.as_bytes()));
    let signature = key_signature(signer, input.as_bytes());
    format!("{}.{}", input, b64(&signature))
}

const CLAIMS: &str = r#"{
    "sub": "248289761001",
    "name": "Jane Doe",
    "given_name": "Jane",
    "family_name": "Doe",
    "email": "janedoe@example.com",
    "email_verified": true,
    "phone_number": "+1 (310) 123-4567",
    "address": {"street_address": "1234 Hollywood Blvd.", "locality": "Los Angeles", "country": "US"},
    "picture": "http://example.com/janedoe/me.jpg"
}"#;

#[test]
fn rp_scope_userinfo_claims() {
    let claims =
        user_info_from_response(&guard("248289761001"), &response(200, "application/json", CLAIMS), &TestCrypto)
            .unwrap();
    assert_eq!(claims.sub(), "248289761001");
    assert!(!claims.email().expect("no email returned by UserInfo endpoint").is_empty());
    assert!(!claims
        .address()
        .expect("no address returned by UserInfo endpoint")
        .street_address()
        .expect("no street address returned by UserInfo endpoint")
        .is_empty());
    assert!(!claims
        .phone_number()
        .expect("no phone_number returned by UserInfo endpoint")
        .is_empty());
    assert_eq!(claims.name(), Some("Jane Doe"));
    assert_eq!(claims.given_name(), Some("Jane"));
    assert_eq!(claims.family_name(), Some("Doe"));
    assert_eq!(claims.email_verified(), Some(true));
    assert_eq!(claims.phone_number_verified(), None);
    assert_eq!(claims.address().unwrap().locality(), Some("Los Angeles"));
    assert_eq!(claims.address().unwrap().country(), Some("US"));
    assert_eq!(claims.address().unwrap().postal_code(), None);
    assert!(claims.iss().is_none());
    assert!(claims.aud().is_none());
}

#[test]
fn rp_userinfo_bad_sub_claim() {
    match user_info_from_response(&guard("Y"), &response(200, "application/json", "{\"sub\": \"X\"}"), &TestCrypto)
    {
        Err(UserInfoError::ClaimsVerification(ClaimsVerificationError::InvalidSubject(_))) => {}
        other => panic!("Unexpected result verifying ID token claims: {:?}", other),
    }
}

#[test]
fn rp_userinfo_bearer_header() {
    let request = user_info_request(
        &EndpointUrl::new("https://op.example.com/userinfo".to_string()).unwrap(),
        &AccessToken::new("SlAV32hkKG".to_string()),
    );
    assert_eq!(request.method, HttpRequestMethod::Get);
    assert_eq!(request.url.as_str(), "https://op.example.com/userinfo");
    assert_eq!(
        request.headers,
        vec![
            ("Accept".to_string(), "application/json".to_string()),
            ("Authorization".to_string(), "Bearer SlAV32hkKG".to_string()),
        ]
    );
    assert!(request.post_body.is_empty());
}

#[test]
fn rp_userinfo_sig() {
    let body = signed(&rsa_key("k1", "one"), "{\"sub\": \"alice\", \"name\": \"Alice\"}");
    let lenient = guard("alice")
        .require_signed_response(true)
        .require_audience_match(false)
        .require_issuer_match(false);
    let claims =
        user_info_from_response(&lenient, &response(200, "application/jwt", &body), &TestCrypto).unwrap();
    assert_eq!(claims.name(), Some("Alice"));
    let claims =
        user_info_from_response(&lenient, &response(200, "application/json", &body), &TestCrypto).unwrap();
    assert_eq!(claims.sub(), "alice");
}

#[test]
fn signed_claims_must_name_the_issuer_and_the_client() {
    let key = rsa_key("k1", "one");
    let bare = signed(&key, "{\"sub\": \"alice\"}");
    assert!(matches!(
        user_info_from_response(&guard("alice"), &response(200, "application/jwt", &bare), &TestCrypto),
        Err(UserInfoError::ClaimsVerification(ClaimsVerificationError::InvalidIssuer(_)))
    ));
    let with_issuer = signed(&key, &format!("{{\"sub\": \"alice\", \"iss\": \"{}\"}}", ISSUER));
    assert!(matches!(
        user_info_from_response(&guard("alice"), &response(200, "application/jwt", &with_issuer), &TestCrypto),
        Err(UserInfoError::ClaimsVerification(ClaimsVerificationError::InvalidAudience(_)))
    ));
    let full = signed(
        &key,
        &format!("{{\"sub\": \"alice\", \"iss\": \"{}\", \"aud\": [\"{}\"]}}", ISSUER, CLIENT),
    );
    let claims =
        user_info_from_response(&guard("alice"), &response(200, "application/jwt; charset=utf-8", &full), &TestCrypto)
            .unwrap();
    assert_eq!(claims.iss(), Some(ISSUER));
    assert!(matches!(
        user_info_from_response(&guard("bob"), &response(200, "application/jwt", &full), &TestCrypto),
        Err(UserInfoError::ClaimsVerification(ClaimsVerificationError::InvalidSubject(_)))
    ));
}

#[test]
fn signed_claims_are_held_to_their_signature() {
    let forged = signed(&rsa_key("k1", "forged"), "{\"sub\": \"alice\"}");
    let lenient = guard("alice").require_audience_match(false).require_issuer_match(false);
    assert!(matches!(
        user_info_from_response(&lenient, &response(200, "application/jwt", &forged), &TestCrypto),
        Err(UserInfoError::ClaimsVerification(ClaimsVerificationError::SignatureVerification(
            SignatureVerificationError::CryptoError(_)
        )))
    ));
    let other_algs =
        guard("alice").set_allowed_algs(vec![CoreJwsSigningAlgorithm::EcdsaP256Sha256]);
    assert!(matches!(
        user_info_from_response(&other_algs, &response(200, "application/jwt", &forged), &TestCrypto),
        Err(UserInfoError::ClaimsVerification(ClaimsVerificationError::SignatureVerification(
            SignatureVerificationError::DisallowedAlg(_)
        )))
    ));
    assert!(matches!(
        user_info_from_response(&lenient, &response(200, "application/jwt", "no.token"), &TestCrypto),
        Err(UserInfoError::ClaimsVerification(ClaimsVerificationError::Parse(_)))
    ));
    let strict = guard("alice").require_signed_response(true);
    assert!(matches!(
        user_info_from_response(&strict, &response(200, "application/json", "{\"sub\": \"alice\"}"), &TestCrypto),
        Err(UserInfoError::ClaimsVerification(ClaimsVerificationError::Parse(_)))
    ));
}

#[test]
fn the_userinfo_response_must_be_one_that_can_be_read() {
    assert!(matches!(
        user_info_from_response(&guard("alice"), &response(401, "application/json", "{}"), &TestCrypto),
        Err(UserInfoError::Response(401, _))
    ));
    assert!(matches!(
        user_info_from_response(&guard("alice"), &response(200, "text/html", "{}"), &TestCrypto),
        Err(UserInfoError::Response(200, _))
    ));
    assert!(matches!(
        user_info_from_response(&guard("alice"), &response(200, "application/json", "{"), &TestCrypto),
        Err(UserInfoError::Json(JsonError::Syntax(_)))
    ));
    match user_info_from_response(&guard("alice"), &response(200, "application/json", "{}"), &TestCrypto) {
        Err(UserInfoError::Json(JsonError::MissingField(name))) => assert_eq!(name, "sub"),
        other => panic!("unexpected result: {:?}", other),
    }
    let mut not_text = response(200, "application/jwt", "");
    not_text.body = vec![0xff];
    assert!(matches!(
        user_info_from_response(&guard("alice"), &not_text, &TestCrypto),
        Err(UserInfoError::Other(_))
    ));
}

struct Canned {
    answer: RefCell<Option<Result<HttpResponse, TransportError>>>,
    seen: RefCell<Vec<(String, Vec<(String, String)>)>>,
}

impl Canned {
    fn new(answer: Result<HttpResponse, TransportError>) -> Canned {
        Canned { answer: RefCell::new(Some(answer)), seen: RefCell::new(Vec::new()) }
    }
}

impl HttpTransport for Canned {
    fn send(&self, request: &HttpRequest) -> Result<HttpResponse, TransportError> {
        self.seen.borrow_mut().push((request.url.as_str().to_string(), request.headers.clone()));
        self.answer.borrow_mut().take().expect("one request only")
    }
}

#[test]
fn get_user_info_presents_the_access_token() {
    let transport = Canned::new(Ok(response(200, "application/json", CLAIMS)));
    let endpoint = EndpointUrl::new("https://op.example.com/userinfo".to_string()).unwrap();
    let claims = get_user_info(
        &transport,
        &endpoint,
        &AccessToken::new("SlAV32hkKG".to_string()),
        &guard("248289761001"),
        &TestCrypto,
    )
    .unwrap();
    assert_eq!(claims.email(), Some("janedoe@example.com"));
    let seen = transport.seen.borrow();
    assert_eq!(seen.len(), 1);
    assert_eq!(seen[0].0, "https://op.example.com/userinfo");
    assert_eq!(seen[0].1[1], ("Authorization".to_string(), "Bearer SlAV32hkKG".to_string()));
    let failing = Canned::new(Err(TransportError { message: "down".to_string() }));
    assert!(matches!(
        get_user_info(
            &failing,
            &endpoint,
            &AccessToken::new("t".to_string()),
            &guard("x"),
            &TestCrypto
        ),
        Err(UserInfoError::Request(_))
    ));
}

#[test]
fn keys_are_fetched_with_one_request() {
    let body = "{\"keys\": [{\"kty\": \"RSA\", \"kid\": \"k1\", \"use\": \"sig\", \"n\": \"AQAB\", \
                \"e\": \"AQAB\", \"x5c\": [\"MIIB\"]}, {\"kty\": \"oct\", \"k\": \"c2VjcmV0\"}]}";
    let transport = Canned::new(Ok(response(200, "application/json", body)));
    let url = EndpointUrl::new("https://op.example.com/jwks".to_string()).unwrap();
    let keys = get_keys(&transport, &url).unwrap();
    assert_eq!(keys.keys().len(), 2);
    assert_eq!(keys.keys()[0].kid(), Some("k1"));
    assert_eq!(keys.keys()[0].key_use(), Some("sig"));
    assert_eq!(keys.keys()[0].n(), Some("AQAB"));
    assert_eq!(keys.keys()[1].kty(), "oct");
    let seen = transport.seen.borrow();
    assert_eq!(seen.len(), 1);
    assert_eq!(seen[0].0, "https://op.example.com/jwks");
    assert_eq!(seen[0].1, vec![("Accept".to_string(), "application/json".to_string())]);
}

#[test]
fn keys_come_with_status_200_as_json() {
    assert!(matches!(
        keys_from_response(&response(404, "application/json", "{\"keys\": []}")),
        Err(DiscoveryError::Response(404, _))
    ));
    assert!(matches!(
        keys_from_response(&response(200, "application/jwk-set+json", "{\"keys\": []}")),
        Err(DiscoveryError::Response(200, _))
    ));
    assert!(matches!(
        keys_from_response(&response(200, "application/json", "{\"keys\": 1}")),
        Err(DiscoveryError::Json(JsonError::InvalidValue(_)))
    ));
    assert_eq!(
        keys_from_response(&response(200, "application/json", "{\"keys\": []}")).unwrap().keys().len(),
        0
    );
}
