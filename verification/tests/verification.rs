use base64::Engine;
use openidconnect::algorithm::CoreJwsSigningAlgorithm;
use openidconnect::jwk::{JsonWebKey, JsonWebKeySet};
use openidconnect::jws::{parse_jws, select_key, SignatureVerificationError};
use openidconnect::types::{ClientId, ClientSecret, IssuerUrl, Nonce};
use openidconnect::verification::{
    constant_time_eq, ClaimsVerificationError, IdToken, IdTokenVerifier, SignatureVerifier,
    VerificationKey,
};

const ISSUER: &str = "https://op.example.com";
const CLIENT: &str = "s6BhdRkqt3";
const SECRET: &str = "ZJYCqe3GGRvdrudKyZS0XhGv_Z45DuKhCUk0gBR1vZk";
const NOW: u64 = 1_600_000_000;

fn b64(bytes: &[u8]) -> String {
    base64::engine::general_purpose::URL_SAFE_NO_PAD.encode(bytes)
}

fn hmac_sha256(key: &[u8], message: &[u8]) -> Vec<u8> {
    let key = ring::hmac::Key::new(ring::hmac::HMAC_SHA256, key);
    ring::hmac::sign(&key, message).as_ref().to_vec()
}

/// Signatures as this test makes them: a real HMAC for a shared secret, and
/// for a key of the provider the key's identifier followed by the message.
struct TestCrypto;

fn key_signature(key: &JsonWebKey, message: &[u8]) -> Vec<u8> {
    let mut signature = key.n().unwrap_or("").as_bytes().to_vec();
    signature.push(b'|');
    signature.extend_from_slice(message);
    signature
}

impl SignatureVerifier for TestCrypto {
    fn verify_signature(
        &self,
        alg: CoreJwsSigningAlgorithm,
        key: VerificationKey,
        message: &[u8],
        signature: &[u8],
    ) -> Result<(), String> {
        let expected = match (alg, key) {
            (CoreJwsSigningAlgorithm::HmacSha256, VerificationKey::Secret(secret)) => {
                hmac_sha256(secret.secret().as_bytes(), message)
            }
            (CoreJwsSigningAlgorithm::RsaSsaPkcs1V15Sha256, VerificationKey::Key(key)) => {
                key_signature(key, message)
            }
            _ => return Err("unsupported".to_string()),
        };
        if expected == signature {
            Ok(())
        } else {
            Err("bad signature".to_string())
        }
    }
}

fn rsa_key(kid: Option<&str>, material: &str) -> JsonWebKey {
    let mut key = JsonWebKey::new("RSA".to_string());
    key.set_kid(kid.map(|k| k.to_string()));
    key.set_key_use(Some("sig".to_string()));
    key.set_n(Some(material.to_string()));
    key.set_e(Some("AQAB".to_string()));
    key
}

fn payload(nonce: &str) -> String {
    format!(
        "{{\"iss\":\"{}\",\"sub\":\"alice\",\"aud\":\"{}\",\"exp\":{},\"iat\":{},\"nonce\":\"{}\"}}",
        ISSUER,
        CLIENT,
        NOW + 300,
        NOW - 10,
        nonce
    )
}

fn unsigned_parts(header: &str, payload: &str) -> String {
    format!("{}.{}", b64(header.as_bytes()), b64(payload.as_bytes()))
}

fn rs256_token(kid: Option<&str>, signer: &JsonWebKey, payload: &str) -> String {
    let header = match kid {
        Some(kid) => format!("{{\"alg\":\"RS256\",\"kid\":\"{}\"}}", kid),
        None => "{\"alg\":\"RS256\"}".to_string(),
    };
    let input = unsigned_parts(&header, payload);
    let signature = key_signature(signer, input.as_bytes());
    format!("{}.{}", input, b64(&signature))
}

fn hs256_token(secret: &str, payload: &str) -> String {
    let input = unsigned_parts("{\"alg\":\"HS256\",\"typ\":\"JWT\"}", payload);
    let signature = hmac_sha256(secret.as_bytes(), input.as_bytes());
    format!("{}.{}", input, b64(&signature))
}

fn verifier_with(keys: Vec<JsonWebKey>) -> IdTokenVerifier {
    IdTokenVerifier::new_private_client(
        ClientId::new(CLIENT.to_string()),
        ClientSecret::new(SECRET.to_string()),
        IssuerUrl::new(ISSUER.to_string()).unwrap(),
        JsonWebKeySet::new(keys),
    )
}

fn nonce() -> Nonce {
    Nonce::new("n-0S6_WzA2Mj".to_string())
}

#[test]
fn rp_id_token_sig_rs256() {
    let key = rsa_key(Some("k1"), "one");
    let token = IdToken::parse(&rs256_token(Some("k1"), &key, &payload("n-0S6_WzA2Mj"))).unwrap();
    let guard = verifier_with(vec![rsa_key(Some("k0"), "zero"), key]);
    let claims = token.claims_at(&guard, Some(&nonce()), NOW, &TestCrypto).unwrap();
    assert_eq!(claims.sub(), "alice");
    assert_eq!(claims.iss(), ISSUER);
    assert_eq!(claims.aud(), &vec![CLIENT.to_string()]);
    assert_eq!(claims.exp(), NOW + 300);
    assert_eq!(claims.iat(), NOW - 10);
    assert_eq!(claims.nonce(), Some("n-0S6_WzA2Mj"));
    assert_eq!(claims.azp(), None);
}

#[test]
fn rp_id_token_kid_absent_single_jwks() {
    let key = rsa_key(Some("k1"), "one");
    let token = IdToken::parse(&rs256_token(None, &key, &payload("n-0S6_WzA2Mj"))).unwrap();
    let mut for_encryption = rsa_key(Some("k2"), "two");
    for_encryption.set_key_use(Some("enc".to_string()));
    let guard = verifier_with(vec![for_encryption, JsonWebKey::new("EC".to_string()), key]);
    assert!(token.claims_at(&guard, Some(&nonce()), NOW, &TestCrypto).is_ok());
}

#[test]
fn rp_id_token_kid_absent_multiple_jwks() {
    let key = rsa_key(Some("k1"), "one");
    let token = IdToken::parse(&rs256_token(None, &key, &payload("n-0S6_WzA2Mj"))).unwrap();
    let guard = verifier_with(vec![key, rsa_key(Some("k2"), "two")]);
    match token.claims_at(&guard, Some(&nonce()), NOW, &TestCrypto) {
        Err(ClaimsVerificationError::SignatureVerification(
            SignatureVerificationError::AmbiguousKeyId(_),
        )) => {}
        other => panic!("Unexpected result verifying ID token claims: {:?}", other),
    }
}

#[test]
fn a_key_that_the_provider_does_not_have_is_no_match() {
    let key = rsa_key(Some("k9"), "nine");
    let token = IdToken::parse(&rs256_token(Some("k9"), &key, &payload("n-0S6_WzA2Mj"))).unwrap();
    let guard = verifier_with(vec![rsa_key(Some("k1"), "one"), rsa_key(Some("k2"), "two")]);
    assert_eq!(
        token.claims_at(&guard, Some(&nonce()), NOW, &TestCrypto),
        Err(ClaimsVerificationError::SignatureVerification(
            SignatureVerificationError::NoMatchingKey
        ))
    );
    let empty = verifier_without_keys();
    assert_eq!(
        token.claims_at(&empty, Some(&nonce()), NOW, &TestCrypto),
        Err(ClaimsVerificationError::SignatureVerification(
            SignatureVerificationError::NoMatchingKey
        ))
    );
}

fn verifier_without_keys() -> IdTokenVerifier {
    IdTokenVerifier::new_public_client(
        ClientId::new(CLIENT.to_string()),
        IssuerUrl::new(ISSUER.to_string()).unwrap(),
        JsonWebKeySet::new(Vec::new()),
    )
}

#[test]
fn two_keys_with_one_identifier_are_ambiguous() {
    let key = rsa_key(Some("k1"), "one");
    let token = IdToken::parse(&rs256_token(Some("k1"), &key, &payload("n-0S6_WzA2Mj"))).unwrap();
    let guard = verifier_with(vec![rsa_key(Some("k1"), "one"), rsa_key(Some("k1"), "other")]);
    assert!(matches!(
        token.claims_at(&guard, Some(&nonce()), NOW, &TestCrypto),
        Err(ClaimsVerificationError::SignatureVerification(
            SignatureVerificationError::AmbiguousKeyId(_)
        ))
    ));
}

#[test]
fn rp_id_token_bad_sig_rs256() {
    let key = rsa_key(Some("k1"), "one");
    let forger = rsa_key(Some("k1"), "forged");
    let token = IdToken::parse(&rs256_token(Some("k1"), &forger, &payload("n-0S6_WzA2Mj"))).unwrap();
    let guard = verifier_with(vec![key]);
    match token.claims_at(&guard, Some(&nonce()), NOW, &TestCrypto) {
        Err(ClaimsVerificationError::SignatureVerification(
            SignatureVerificationError::CryptoError(_),
        )) => {}
        other => panic!("Unexpected result verifying ID token claims: {:?}", other),
    }
}

#[test]
fn rp_id_token_sig_hs256() {
    let token = IdToken::parse(&hs256_token(SECRET, &payload("n-0S6_WzA2Mj"))).unwrap();
    assert_eq!(token.header().alg, CoreJwsSigningAlgorithm::HmacSha256);
    assert_eq!(token.header().typ.as_deref(), Some("JWT"));
    let allowing = verifier_with(vec![]).set_allowed_algs(vec![CoreJwsSigningAlgorithm::HmacSha256]);
    let claims = token.claims_at(&allowing, Some(&nonce()), NOW, &TestCrypto).unwrap();
    assert_eq!(claims.sub(), "alice");
    match token.claims_at(&verifier_with(vec![]), Some(&nonce()), NOW, &TestCrypto) {
        Err(ClaimsVerificationError::SignatureVerification(
            SignatureVerificationError::DisallowedAlg(_),
        )) => {}
        other => panic!("Unexpected result verifying ID token claims: {:?}", other),
    }
}

#[test]
fn rp_id_token_bad_sig_hs256() {
    let token = IdToken::parse(&hs256_token("another secret", &payload("n-0S6_WzA2Mj"))).unwrap();
    let guard = verifier_with(vec![]).set_allowed_algs(vec![CoreJwsSigningAlgorithm::HmacSha256]);
    match token.claims_at(&guard, Some(&nonce()), NOW, &TestCrypto) {
        Err(ClaimsVerificationError::SignatureVerification(
            SignatureVerificationError::CryptoError(_),
        )) => {}
        other => panic!("Unexpected result verifying ID token claims: {:?}", other),
    }
}

#[test]
fn a_shared_secret_algorithm_needs_a_secret() {
    let token = IdToken::parse(&hs256_token(SECRET, &payload("n-0S6_WzA2Mj"))).unwrap();
    let guard =
        verifier_without_keys().set_allowed_algs(vec![CoreJwsSigningAlgorithm::HmacSha256]);
    assert!(matches!(
        token.claims_at(&guard, Some(&nonce()), NOW, &TestCrypto),
        Err(ClaimsVerificationError::SignatureVerification(
            SignatureVerificationError::DisallowedAlg(_)
        ))
    ));
}

#[test]
fn rp_id_token_sig_none() {
    let compact = format!("{}.", unsigned_parts("{\"alg\":\"none\"}", &payload("n-0S6_WzA2Mj")));
    let token = IdToken::parse(&compact).unwrap();
    assert_eq!(token.header().alg, CoreJwsSigningAlgorithm::Unsecured);
    assert!(token.signature().is_empty());
    let checking = verifier_with(vec![rsa_key(Some("k1"), "one")]);
    assert!(matches!(
        token.claims_at(&checking, Some(&nonce()), NOW, &TestCrypto),
        Err(ClaimsVerificationError::SignatureVerification(
            SignatureVerificationError::DisallowedAlg(_)
        ))
    ));
    let allowing_everything = verifier_with(vec![]).set_allowed_algs(vec![
        CoreJwsSigningAlgorithm::Unsecured,
        CoreJwsSigningAlgorithm::HmacSha256,
    ]);
    assert!(token.claims_at(&allowing_everything, Some(&nonce()), NOW, &TestCrypto).is_err());
    let insecure = verifier_with(vec![rsa_key(Some("k1"), "one")]).insecure_disable_signature_check();
    let claims = token.claims_at(&insecure, Some(&nonce()), NOW, &TestCrypto).unwrap();
    assert_eq!(claims.sub(), "alice");
}

#[test]
fn rp_nonce_invalid() {
    let key = rsa_key(Some("k1"), "one");
    let token = IdToken::parse(&rs256_token(Some("k1"), &key, &payload("another-nonce"))).unwrap();
    let guard = verifier_with(vec![key]);
    match token.claims_at(&guard, Some(&nonce()), NOW, &TestCrypto) {
        Err(ClaimsVerificationError::InvalidNonce(_)) => {}
        other => panic!("Unexpected result verifying ID token claims: {:?}", other),
    }
    assert!(token.claims_at(&guard, None, NOW, &TestCrypto).is_ok());
}

#[test]
fn a_token_without_a_nonce_is_refused_where_one_is_expected() {
    let key = rsa_key(Some("k1"), "one");
    let body = format!(
        "{{\"iss\":\"{}\",\"sub\":\"alice\",\"aud\":[\"{}\"],\"exp\":{},\"iat\":{}}}",
        ISSUER, CLIENT, NOW + 300, NOW
    );
    let token = IdToken::parse(&rs256_token(Some("k1"), &key, &body)).unwrap();
    let guard = verifier_with(vec![key]);
    assert!(matches!(
        token.claims_at(&guard, Some(&nonce()), NOW, &TestCrypto),
        Err(ClaimsVerificationError::InvalidNonce(_))
    ));
    assert!(token.claims_at(&guard, None, NOW, &TestCrypto).is_ok());
}

#[test]
fn rp_id_token_aud() {
    let key = rsa_key(Some("k1"), "one");
    let body = payload("n-0S6_WzA2Mj").replace(CLIENT, "someone-else");
    let token = IdToken::parse(&rs256_token(Some("k1"), &key, &body)).unwrap();
    let guard = verifier_with(vec![key]);
    match token.claims_at(&guard, Some(&nonce()), NOW, &TestCrypto) {
        Err(ClaimsVerificationError::InvalidAudience(_)) => {}
        other => panic!("Unexpected result verifying ID token claims: {:?}", other),
    }
}

#[test]
fn several_audiences_need_the_authorized_party() {
    let key = rsa_key(Some("k1"), "one");
    let with = |azp: &str| {
        format!(
            "{{\"iss\":\"{}\",\"sub\":\"alice\",\"aud\":[\"other\",\"{}\"],\"exp\":{},\"iat\":{}{}}}",
            ISSUER, CLIENT, NOW + 300, NOW, azp
        )
    };
    let guard = verifier_with(vec![rsa_key(Some("k1"), "one")]);
    let token = IdToken::parse(&rs256_token(Some("k1"), &key, &with(""))).unwrap();
    assert!(matches!(
        token.claims_at(&guard, None, NOW, &TestCrypto),
        Err(ClaimsVerificationError::InvalidAudience(_))
    ));
    let token =
        IdToken::parse(&rs256_token(Some("k1"), &key, &with(",\"azp\":\"other\""))).unwrap();
    assert!(matches!(
        token.claims_at(&guard, None, NOW, &TestCrypto),
        Err(ClaimsVerificationError::InvalidAudience(_))
    ));
    let azp = format!(",\"azp\":\"{}\"", CLIENT);
    let token = IdToken::parse(&rs256_token(Some("k1"), &key, &with(&azp))).unwrap();
    let claims = token.claims_at(&guard, None, NOW, &TestCrypto).unwrap();
    assert_eq!(claims.aud().len(), 2);
    assert_eq!(claims.azp(), Some(CLIENT));
}

#[test]
fn rp_id_token_issuer_mismatch() {
    let key = rsa_key(Some("k1"), "one");
    let body = payload("n-0S6_WzA2Mj").replace(ISSUER, "https://evil.example.com");
    let token = IdToken::parse(&rs256_token(Some("k1"), &key, &body)).unwrap();
    let guard = verifier_with(vec![key]);
    match token.claims_at(&guard, Some(&nonce()), NOW, &TestCrypto) {
        Err(ClaimsVerificationError::InvalidIssuer(_)) => {}
        other => panic!("Unexpected result verifying ID token claims: {:?}", other),
    }
}

#[test]
fn a_token_expires_at_its_expiry_and_the_leeway_moves_that_on() {
    let key = rsa_key(Some("k1"), "one");
    let token = IdToken::parse(&rs256_token(Some("k1"), &key, &payload("n-0S6_WzA2Mj"))).unwrap();
    let strict = verifier_with(vec![rsa_key(Some("k1"), "one")]);
    assert!(token.claims_at(&strict, None, NOW + 299, &TestCrypto).is_ok());
    assert!(matches!(
        token.claims_at(&strict, None, NOW + 300, &TestCrypto),
        Err(ClaimsVerificationError::Expired(_))
    ));
    let lenient = verifier_with(vec![rsa_key(Some("k1"), "one")]).set_leeway(60);
    assert!(token.claims_at(&lenient, None, NOW + 359, &TestCrypto).is_ok());
    assert!(matches!(
        token.claims_at(&lenient, None, NOW + 360, &TestCrypto),
        Err(ClaimsVerificationError::Expired(_))
    ));
    let boundless = verifier_with(vec![rsa_key(Some("k1"), "one")]).set_leeway(u64::MAX);
    assert!(token.claims_at(&boundless, None, u64::MAX, &TestCrypto).is_ok());
}

#[test]
fn claims_by_the_clock_refuse_a_token_of_long_ago() {
    let key = rsa_key(Some("k1"), "one");
    let token = IdToken::parse(&rs256_token(Some("k1"), &key, &payload("n-0S6_WzA2Mj"))).unwrap();
    let guard = verifier_with(vec![key]);
    assert!(matches!(
        token.claims(&guard, Some(&nonce()), &TestCrypto),
        Err(ClaimsVerificationError::Expired(_))
    ));
}

#[test]
fn a_token_without_its_time_of_issue_lacks_a_claim() {
    let key = rsa_key(Some("k1"), "one");
    let body = format!(
        "{{\"iss\":\"{}\",\"sub\":\"alice\",\"aud\":\"{}\",\"exp\":{}}}",
        ISSUER, CLIENT, NOW + 300
    );
    match IdToken::parse(&rs256_token(Some("k1"), &key, &body)) {
        Err(ClaimsVerificationError::MissingClaim(name)) => assert_eq!(name, "iat"),
        other => panic!("Unexpected result verifying ID token claims: {:?}", other),
    }
}

#[test]
fn a_token_without_a_subject_lacks_a_claim() {
    let key = rsa_key(Some("k1"), "one");
    let body = format!(
        "{{\"iss\":\"{}\",\"aud\":\"{}\",\"exp\":{},\"iat\":{}}}",
        ISSUER, CLIENT, NOW + 300, NOW
    );
    match IdToken::parse(&rs256_token(Some("k1"), &key, &body)) {
        Err(ClaimsVerificationError::MissingClaim(name)) => assert_eq!(name, "sub"),
        other => panic!("Unexpected result verifying ID token claims: {:?}", other),
    }
}

#[test]
fn a_token_that_is_no_compact_signature_cannot_be_read() {
    for compact in [
        "",
        "a.b",
        "a.b.c.d",
        "e30.e30",
        "!!!.e30.e30",
        "e30.e30.e30",
        "eyJhbGciOiJYWVoifQ.e30.",
    ] {
        assert!(
            matches!(IdToken::parse(compact), Err(ClaimsVerificationError::Parse(_))),
            "{}",
            compact
        );
    }
    let wrong_kind = unsigned_parts(
        "{\"alg\":\"none\"}",
        "{\"iss\":\"i\",\"sub\":\"s\",\"aud\":7,\"exp\":1,\"iat\":1}",
    );
    assert!(matches!(
        IdToken::parse(&format!("{}.", wrong_kind)),
        Err(ClaimsVerificationError::Parse(_))
    ));
}

#[test]
fn a_compact_signature_is_taken_apart() {
    let jws = parse_jws("eyJhbGciOiJIUzI1NiIsImtpZCI6ImsifQ.eyJhIjoxfQ.AQID").unwrap();
    assert_eq!(jws.header.alg, CoreJwsSigningAlgorithm::HmacSha256);
    assert_eq!(jws.header.kid.as_deref(), Some("k"));
    assert_eq!(jws.signing_input, "eyJhbGciOiJIUzI1NiIsImtpZCI6ImsifQ.eyJhIjoxfQ");
    assert_eq!(jws.signature, vec![1, 2, 3]);
    assert!(parse_jws("eyJhbGciOiJIUzI1NiIsImtpZCI6ImsifQ.eyJhIjoxfQ.AQID=").is_none());
}

#[test]
fn keys_are_chosen_by_use_type_and_identifier() {
    let mut signing = rsa_key(Some("a"), "one");
    signing.set_key_use(None);
    let mut encrypting = rsa_key(Some("b"), "two");
    encrypting.set_key_use(Some("enc".to_string()));
    let curve = JsonWebKey::new("EC".to_string());
    let keys = JsonWebKeySet::new(vec![encrypting, curve, signing]);
    assert_eq!(select_key(&keys, "RSA", None).unwrap().kid(), Some("a"));
    assert_eq!(select_key(&keys, "RSA", Some("a")).unwrap().kid(), Some("a"));
    assert_eq!(
        select_key(&keys, "RSA", Some("b")),
        Err(SignatureVerificationError::NoMatchingKey)
    );
    assert_eq!(select_key(&keys, "EC", None).unwrap().kty(), "EC");
    assert_eq!(
        select_key(&keys, "EC", Some("a")),
        Err(SignatureVerificationError::NoMatchingKey)
    );
    assert_eq!(select_key(&keys, "oct", None), Err(SignatureVerificationError::NoMatchingKey));
}

#[test]
fn algorithms_are_known_by_their_names() {
    for (name, key_type) in [
        ("HS256", Some("oct")),
        ("HS384", Some("oct")),
        ("HS512", Some("oct")),
        ("RS256", Some("RSA")),
        ("RS384", Some("RSA")),
        ("RS512", Some("RSA")),
        ("PS256", Some("RSA")),
        ("PS384", Some("RSA")),
        ("PS512", Some("RSA")),
        ("ES256", Some("EC")),
        ("ES384", Some("EC")),
        ("ES512", Some("EC")),
        ("none", None),
    ] {
        let alg = CoreJwsSigningAlgorithm::from_name(name).unwrap();
        assert_eq!(alg.as_str(), name);
        assert_eq!(alg.required_key_type(), key_type);
        assert_eq!(alg.uses_shared_secret(), key_type == Some("oct"));
    }
    assert_eq!(CoreJwsSigningAlgorithm::from_name("rs256"), None);
    assert_eq!(CoreJwsSigningAlgorithm::from_name(""), None);
}

#[test]
fn texts_are_compared_to_the_end() {
    assert!(constant_time_eq("", ""));
    assert!(constant_time_eq("nonce", "nonce"));
    assert!(!constant_time_eq("nonce", "nonc"));
    assert!(!constant_time_eq("nonce", "nonde"));
    assert!(!constant_time_eq("Nonce", "nonce"));
    assert!(constant_time_eq("é", "é"));
}
