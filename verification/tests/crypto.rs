use base64::Engine;
use openidconnect::algorithm::CoreJwsSigningAlgorithm;
use openidconnect::crypto::{
    check_with_key, check_with_secret, core_claims_at, CoreSignatureVerifier,
};
use openidconnect::jwk::{JsonWebKey, JsonWebKeySet};
use openidconnect::jws::{parse_jws, SignatureVerificationError};
use openidconnect::types::{ClientId, ClientSecret, IssuerUrl, Nonce};
use openidconnect::verification::{
    ClaimsVerificationError, IdToken, IdTokenVerifier, SignatureVerifier, VerificationKey,
};

const PAYLOAD: &str = "eyJpc3MiOiJqb2UiLA0KICJleHAiOjEzMDA4MTkzODAsDQogImh0dHA6Ly9leGFtcGxlLmNvbS9pc19yb290Ijp0cnVlfQ";

const RS256_SIGNATURE: &str = "cC4hiUPoj9Eetdgtv3hF80EGrhuB__dzERat0XF9g2VtQgr9PJbu3XOiZj5RZmh7\
AAuHIm4Bh-0Qc_lF5YKt_O8W2Fp5jujGbds9uJdbF9CUAr7t1dnZcAcQjbKBYNX4\
BAynRFdiuB--f_nZLgrnbyTyWzO75vRK5h6xBArLIARNPvkSjtQBMHlb1L07Qe7K\
0GarZRmB_eSN9383LcOLn6_dO--xi12jzDwusC-eOkHWEsqtFZESc6BfI7noOPqv\
hJ1phCnvWh6IeYI2w9QOYEUipUTI8np6LbgGY9Fs98rqVt5AXLIhWkWywlVmtVrB\
p0igcN_IoypGlUPQGe77Rw";

const RSA_N: &str = "ofgWCuLjybRlzo0tZWJjNiuSfb4p4fAkd_wWJcyQoTbji9k0l8W26mPddxHmfHQp\
-Vaw-4qPCJrcS2mJPMEzP1Pt0Bm4d4QlL-yRT-SFd2lZS-pCgNMsD1W_YpRPEwOW\
vG6b32690r2jZ47soMZo9wGzjb_7OMg0LOL-bSf63kpaSHSXndS5z5rexMdbBYUs\
LA9e-KXBdQOS-UTo7WTBEMa2R2CapHg665xsmtdVMTBQY4uDZlxvb3qCo5ZwKh9k\
G4LT6_I5IhlJH7aGhyxXFvUK-DWNmoudF8NAco9_h9iaGNj8q2ethFkMLs91kzk2\
PAcDTW9gb54h4FRWyuXpoQ";

const ES256_SIGNATURE: &str =
    "DtEhU3ljbEg8L38VWAfUAqOyKAM6-Xx-F4GawxaepmXFCgfTjDxw5djxLa8ISlSApmWQxfKTUJqPP3-Kg6NU1Q";

fn rsa_key() -> JsonWebKey {
    let mut key = JsonWebKey::new("RSA".to_string());
    key.set_n(Some(RSA_N.to_string()));
    key.set_e(Some("AQAB".to_string()));
    key
}

fn ec_key() -> JsonWebKey {
    let mut key = JsonWebKey::new("EC".to_string());
    key.set_crv(Some("P-256".to_string()));
    key.set_x(Some("f83OJ3D2xF1Bg8vub9tLe1gHMzV76e8Tus9uPHvRVEU".to_string()));
    key.set_y(Some("x_FEzRu9m36HLN_tue659LNpXW6pCyStikYjKIWI5a0".to_string()));
    key
}

fn flipped(signature: &[u8]) -> Vec<u8> {
    let mut other = signature.to_vec();
    other[10] ^= 1;
    other
}

#[test]
fn an_rsa_signature_is_checked_with_the_key_that_made_it() {
    let compact = format!("eyJhbGciOiJSUzI1NiJ9.{}.{}", PAYLOAD, RS256_SIGNATURE);
    let jws = parse_jws(&compact).unwrap();
    assert_eq!(jws.header.alg, CoreJwsSigningAlgorithm::RsaSsaPkcs1V15Sha256);
    let alg = jws.header.alg;
    let message = jws.signing_input.as_bytes();
    assert!(check_with_key(alg, &rsa_key(), message, &jws.signature));
    assert!(!check_with_key(alg, &rsa_key(), message, &flipped(&jws.signature)));
    assert!(!check_with_key(alg, &rsa_key(), b"another message", &jws.signature));
    assert!(!check_with_key(
        CoreJwsSigningAlgorithm::RsaSsaPkcs1V15Sha384,
        &rsa_key(),
        message,
        &jws.signature
    ));
    assert!(!check_with_key(
        CoreJwsSigningAlgorithm::RsaSsaPssSha256,
        &rsa_key(),
        message,
        &jws.signature
    ));
    let mut without_exponent = rsa_key();
    without_exponent.set_e(None);
    assert!(!check_with_key(alg, &without_exponent, message, &jws.signature));
    let mut garbled = rsa_key();
    garbled.set_n(Some("not base64 !".to_string()));
    assert!(!check_with_key(alg, &garbled, message, &jws.signature));
    assert!(!check_with_key(alg, &ec_key(), message, &jws.signature));
}

#[test]
fn an_ecdsa_signature_is_checked_with_the_key_that_made_it() {
    let compact = format!("eyJhbGciOiJFUzI1NiJ9.{}.{}", PAYLOAD, ES256_SIGNATURE);
    let jws = parse_jws(&compact).unwrap();
    assert_eq!(jws.header.alg, CoreJwsSigningAlgorithm::EcdsaP256Sha256);
    let alg = jws.header.alg;
    let message = jws.signing_input.as_bytes();
    assert!(check_with_key(alg, &ec_key(), message, &jws.signature));
    assert!(!check_with_key(alg, &ec_key(), message, &flipped(&jws.signature)));
    assert!(!check_with_key(alg, &ec_key(), b"another message", &jws.signature));
    let mut other_curve = ec_key();
    other_curve.set_crv(Some("P-384".to_string()));
    assert!(!check_with_key(alg, &other_curve, message, &jws.signature));
    assert!(!check_with_key(
        CoreJwsSigningAlgorithm::EcdsaP384Sha384,
        &other_curve,
        message,
        &jws.signature
    ));
    let mut unnamed = ec_key();
    unnamed.set_crv(None);
    assert!(!check_with_key(alg, &unnamed, message, &jws.signature));
    assert!(!check_with_key(
        CoreJwsSigningAlgorithm::EcdsaP521Sha512,
        &ec_key(),
        message,
        &jws.signature
    ));
}

fn hmac_sha256(key: &[u8], message: &[u8]) -> Vec<u8> {
    let key = ring::hmac::Key::new(ring::hmac::HMAC_SHA256, key);
    ring::hmac::sign(&key, message).as_ref().to_vec()
}

fn hmac_sha512(key: &[u8], message: &[u8]) -> Vec<u8> {
    let key = ring::hmac::Key::new(ring::hmac::HMAC_SHA512, key);
    ring::hmac::sign(&key, message).as_ref().to_vec()
}

fn bytes_of(hex: &str) -> Vec<u8> {
    (0..hex.len() / 2).map(|i| u8::from_str_radix(&hex[2 * i..2 * i + 2], 16).unwrap()).collect()
}

#[test]
fn an_hmac_of_the_books_is_accepted() {
    let secret = ClientSecret::new("Jefe".to_string());
    let message = b"what do ya want for nothing?";
    let tag = bytes_of("5bdcc146bf60754e6a042426089575c75a003f089d2739839dec58b964ec3843");
    assert!(check_with_secret(CoreJwsSigningAlgorithm::HmacSha256, &secret, message, &tag));
    assert!(!check_with_secret(CoreJwsSigningAlgorithm::HmacSha256, &secret, message, &tag[..31]));
    assert!(!check_with_secret(CoreJwsSigningAlgorithm::HmacSha512, &secret, message, &tag));
}

#[test]
fn an_hmac_is_checked_with_the_secret() {
    let secret = ClientSecret::new("sécret".to_string());
    let tag = hmac_sha256("sécret".as_bytes(), b"message");
    assert!(check_with_secret(CoreJwsSigningAlgorithm::HmacSha256, &secret, b"message", &tag));
    assert!(!check_with_secret(CoreJwsSigningAlgorithm::HmacSha256, &secret, b"massage", &tag));
    assert!(!check_with_secret(CoreJwsSigningAlgorithm::HmacSha384, &secret, b"message", &tag));
    assert!(!check_with_secret(
        CoreJwsSigningAlgorithm::HmacSha256,
        &ClientSecret::new("secret".to_string()),
        b"message",
        &tag
    ));
    assert!(!check_with_secret(
        CoreJwsSigningAlgorithm::RsaSsaPkcs1V15Sha256,
        &secret,
        b"message",
        &tag
    ));
    let long = hmac_sha512("sécret".as_bytes(), b"message");
    assert!(check_with_secret(CoreJwsSigningAlgorithm::HmacSha512, &secret, b"message", &long));
    assert!(!check_with_secret(CoreJwsSigningAlgorithm::HmacSha512, &secret, b"message", &tag));
}

#[test]
fn the_core_cryptography_answers_for_the_key_it_is_asked_about() {
    let secret = ClientSecret::new("s".to_string());
    let tag = hmac_sha256(b"s", b"m");
    let crypto = CoreSignatureVerifier;
    assert_eq!(
        crypto.verify_signature(
            CoreJwsSigningAlgorithm::HmacSha256,
            VerificationKey::Secret(&secret),
            b"m",
            &tag
        ),
        Ok(())
    );
    assert_eq!(
        crypto.verify_signature(
            CoreJwsSigningAlgorithm::HmacSha256,
            VerificationKey::Key(&rsa_key()),
            b"m",
            &tag
        ),
        Err("the signature is not valid".to_string())
    );
    assert!(crypto
        .verify_signature(
            CoreJwsSigningAlgorithm::Unsecured,
            VerificationKey::Secret(&secret),
            b"m",
            b""
        )
        .is_err());
}

#[test]
fn an_id_token_is_believed_by_its_hmac() {
    let b64 = |bytes: &[u8]| base64::engine::general_purpose::URL_SAFE_NO_PAD.encode(bytes);
    let input = format!(
        "{}.{}",
        b64(b"{\"alg\":\"HS256\"}"),
        b64(b"{\"iss\":\"https://op.example.com\",\"sub\":\"alice\",\"aud\":\"client\",\
              \"exp\":2000000000,\"iat\":1600000000,\"nonce\":\"n\"}")
    );
    let compact = format!("{}.{}", input, b64(&hmac_sha256(b"the secret", input.as_bytes())));
    let token = IdToken::parse(&compact).unwrap();
    let believing = IdTokenVerifier::new_private_client(
        ClientId::new("client".to_string()),
        ClientSecret::new("the secret".to_string()),
        IssuerUrl::new("https://op.example.com".to_string()).unwrap(),
        JsonWebKeySet::new(vec![]),
    )
    .set_allowed_algs(vec![CoreJwsSigningAlgorithm::HmacSha256]);
    let nonce = Nonce::new("n".to_string());
    let claims = token
        .claims_at(&believing, Some(&nonce), 1_700_000_000, &CoreSignatureVerifier)
        .unwrap();
    assert_eq!(claims.sub(), "alice");
    assert_eq!(core_claims_at(&token, &believing, Some(&nonce), 1_700_000_000), Ok(claims));
    assert!(matches!(
        core_claims_at(&token, &believing, Some(&nonce), 2_000_000_000),
        Err(ClaimsVerificationError::Expired(_))
    ));
    let doubting = IdTokenVerifier::new_private_client(
        ClientId::new("client".to_string()),
        ClientSecret::new("another secret".to_string()),
        IssuerUrl::new("https://op.example.com".to_string()).unwrap(),
        JsonWebKeySet::new(vec![]),
    )
    .set_allowed_algs(vec![CoreJwsSigningAlgorithm::HmacSha256]);
    assert!(matches!(
        token.claims_at(&doubting, Some(&nonce), 1_700_000_000, &CoreSignatureVerifier),
        Err(ClaimsVerificationError::SignatureVerification(
            SignatureVerificationError::CryptoError(_)
        ))
    ));
    assert!(matches!(
        core_claims_at(&token, &doubting, Some(&nonce), 1_700_000_000),
        Err(ClaimsVerificationError::SignatureVerification(
            SignatureVerificationError::CryptoError(_)
        ))
    ));
}
