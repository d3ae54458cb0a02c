use base64::Engine;
use openidconnect::crypto::{core_claims_at, core_user_info_from_response};
use openidconnect::http::HttpResponse;
use openidconnect::algorithm::CoreJwsSigningAlgorithm;
use openidconnect::jwk::{JsonWebKey, JsonWebKeySet};
use openidconnect::jws::SignatureVerificationError;
use openidconnect::types::{ClientId, IssuerUrl, Nonce, SubjectIdentifier};
use openidconnect::userinfo::{UserInfoError, UserInfoVerifier};
use openidconnect::verification::{ClaimsVerificationError, IdToken, IdTokenVerifier};
use ring::signature::KeyPair;

const ISSUER: &str = "https://op.example.com";
const CLIENT: &str = "s6BhdRkqt3";

fn b64(bytes: &[u8]) -> String {
    base64::engine::general_purpose::URL_SAFE_NO_PAD.encode(bytes)
}

struct Signer {
    pair: ring::signature::EcdsaKeyPair,
    random: ring::rand::SystemRandom,
}

impl Signer {
    fn new() -> Signer {
        let random = ring::rand::SystemRandom::new();
        let algorithm = &ring::signature::ECDSA_P256_SHA256_FIXED_SIGNING;
        let document = ring::signature::EcdsaKeyPair::generate_pkcs8(algorithm, &random).unwrap();
        let pair =
            ring::signature::EcdsaKeyPair::from_pkcs8(algorithm, document.as_ref(), &random).unwrap();
        Signer { pair, random }
    }

    fn key(&self, kid: &str) -> JsonWebKey {
        let point = self.pair.public_key().as_ref();
        assert_eq!(point.len(), 65);
        assert_eq!(point[0], 4);
        let mut key = JsonWebKey::new("EC".to_string());
        key.set_kid(Some(kid.to_string()));
        key.set_key_use(Some("sig".to_string()));
        key.set_crv(Some("P-256".to_string()));
        key.set_x(Some(b64(&point[1..33])));
        key.set_y(Some(b64(&point[33..65])));
        key
    }

    fn sign(&self, kid: &str, payload: &str) -> String {
        let header = format!("{{\"alg\":\"ES256\",\"kid\":\"{}\"}}", kid);
        let input = format!("{}.{}", b64(header.as_bytes()), b64(payload.as_bytes()));
        let signature = self.pair.sign(&self.random, input.as_bytes()).unwrap();
        format!("{}.{}", input, b64(signature.as_ref()))
    }
}

fn id_token_rules(keys: Vec<JsonWebKey>) -> IdTokenVerifier {
    IdTokenVerifier::new_public_client(
        ClientId::new(CLIENT.to_string()),
        IssuerUrl::new(ISSUER.to_string()).unwrap(),
        JsonWebKeySet::new(keys),
    )
    .set_allowed_algs(vec![
        CoreJwsSigningAlgorithm::RsaSsaPkcs1V15Sha256,
        CoreJwsSigningAlgorithm::EcdsaP256Sha256,
    ])
}

fn payload() -> String {
    format!(
        "{{\"iss\":\"{}\",\"sub\":\"alice\",\"aud\":\"{}\",\"exp\":2000000000,\
          \"iat\":1600000000,\"nonce\":\"n-0S6_WzA2Mj\",\"email\":\"alice@example.com\"}}",
        ISSUER, CLIENT
    )
}

#[test]
fn an_id_token_is_believed_by_the_signature_of_the_provider() {
    let provider = Signer::new();
    let token = IdToken::parse(&provider.sign("k1", &payload())).unwrap();
    let nonce = Nonce::new("n-0S6_WzA2Mj".to_string());
    let rules = id_token_rules(vec![Signer::new().key("k0"), provider.key("k1")]);
    let claims = core_claims_at(&token, &rules, Some(&nonce), 1_700_000_000).unwrap();
    assert_eq!(claims.sub(), "alice");
    assert_eq!(claims.email(), Some("alice@example.com"));
}

#[test]
fn an_id_token_of_a_forger_is_not_believed() {
    let provider = Signer::new();
    let forger = Signer::new();
    let token = IdToken::parse(&forger.sign("k1", &payload())).unwrap();
    let nonce = Nonce::new("n-0S6_WzA2Mj".to_string());
    let rules = id_token_rules(vec![provider.key("k1")]);
    assert!(matches!(
        core_claims_at(&token, &rules, Some(&nonce), 1_700_000_000),
        Err(ClaimsVerificationError::SignatureVerification(
            SignatureVerificationError::CryptoError(_)
        ))
    ));
    let unknown = id_token_rules(vec![provider.key("k2")]);
    assert_eq!(
        core_claims_at(&token, &unknown, Some(&nonce), 1_700_000_000),
        Err(ClaimsVerificationError::SignatureVerification(
            SignatureVerificationError::NoMatchingKey
        ))
    );
    let default_rules = IdTokenVerifier::new_public_client(
        ClientId::new(CLIENT.to_string()),
        IssuerUrl::new(ISSUER.to_string()).unwrap(),
        JsonWebKeySet::new(vec![forger.key("k1")]),
    );
    assert!(matches!(
        core_claims_at(&token, &default_rules, Some(&nonce), 1_700_000_000),
        Err(ClaimsVerificationError::SignatureVerification(
            SignatureVerificationError::DisallowedAlg(_)
        ))
    ));
}

#[test]
fn a_changed_token_is_not_believed() {
    let provider = Signer::new();
    let compact = provider.sign("k1", &payload());
    let other = payload().replace("alice", "admin");
    let parts: Vec<&str> = compact.split('.').collect();
    let changed = format!("{}.{}.{}", parts[0], b64(other.as_bytes()), parts[2]);
    let token = IdToken::parse(&changed).unwrap();
    let rules = id_token_rules(vec![provider.key("k1")]);
    assert!(matches!(
        core_claims_at(&token, &rules, None, 1_700_000_000),
        Err(ClaimsVerificationError::SignatureVerification(
            SignatureVerificationError::CryptoError(_)
        ))
    ));
}

fn user_info_rules(keys: Vec<JsonWebKey>, sub: &str) -> UserInfoVerifier {
    UserInfoVerifier::new(
        ClientId::new(CLIENT.to_string()),
        IssuerUrl::new(ISSUER.to_string()).unwrap(),
        JsonWebKeySet::new(keys),
        SubjectIdentifier::new(sub.to_string()),
    )
    .set_allowed_algs(vec![CoreJwsSigningAlgorithm::EcdsaP256Sha256])
}

fn signed_response(body: &str) -> HttpResponse {
    HttpResponse {
        status_code: 200,
        headers: vec![("Content-Type".to_string(), "application/jwt".to_string())],
        body: body.as_bytes().to_vec(),
    }
}

#[test]
fn signed_claims_are_believed_by_the_signature_of_the_provider() {
    let provider = Signer::new();
    let claims = format!(
        "{{\"sub\":\"alice\",\"iss\":\"{}\",\"aud\":\"{}\",\"name\":\"Alice\"}}",
        ISSUER, CLIENT
    );
    let response = signed_response(&provider.sign("k1", &claims));
    let rules = user_info_rules(vec![provider.key("k1")], "alice");
    let found = core_user_info_from_response(&rules, &response).unwrap();
    assert_eq!(found.name(), Some("Alice"));
    let forged = signed_response(&Signer::new().sign("k1", &claims));
    assert!(matches!(
        core_user_info_from_response(&rules, &forged),
        Err(UserInfoError::ClaimsVerification(ClaimsVerificationError::SignatureVerification(
            SignatureVerificationError::CryptoError(_)
        )))
    ));
    let for_another = user_info_rules(vec![provider.key("k1")], "bob");
    assert!(matches!(
        core_user_info_from_response(&for_another, &response),
        Err(UserInfoError::ClaimsVerification(ClaimsVerificationError::InvalidSubject(_)))
    ));
}

#[test]
fn plain_claims_need_no_signature() {
    let response = HttpResponse {
        status_code: 200,
        headers: vec![("Content-Type".to_string(), "application/json".to_string())],
        body: b"{\"sub\": \"alice\"}".to_vec(),
    };
    let found = core_user_info_from_response(&user_info_rules(vec![], "alice"), &response).unwrap();
    assert_eq!(found.sub(), "alice");
}
