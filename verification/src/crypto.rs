//! The cryptography of the core profile: HMAC, RSA and ECDSA signatures as
//! they stand under a JSON Web Signature.

use crate::algorithm::CoreJwsSigningAlgorithm;
use crate::jwk::{JsonWebKey, JsonWebKeyView};
use crate::http::{Headers, HttpResponse};
use crate::jws::{base64url_decoded, decode_base64url, JwsView};
use crate::text::str_eq;
use crate::types::{ClientSecret, Nonce};
use crate::userinfo::{
    informed, read_user_info, user_info_in, user_info_outcome, UserInfoClaims, UserInfoError,
    UserInfoVerifier, UserInfoVerifierView,
};
use crate::verification::{
    reports, signature_plan, verification_fault, ClaimsVerificationError, IdToken,
    IdTokenClaims, IdTokenVerifier, IdTokenView, SignatureCheck, SignatureRules,
    SignatureVerifier, VerificationKey,
};
use vstd::prelude::*;
use vstd::string::StringExecFns;

verus! {

/// A hash function of the SHA-2 family.
#[derive(Debug, Clone, Copy, PartialEq, Eq, Structural)]
pub enum Sha2 {
    Sha256,
    Sha384,
    Sha512,
}

/// A way of padding what RSA signs.
#[derive(Debug, Clone, Copy, PartialEq, Eq, Structural)]
pub enum RsaPadding {
    /// RSASSA-PKCS1-v1_5.
    Pkcs1,
    /// RSASSA-PSS.
    Pss,
}

/// An elliptic curve, with the hash function that goes with it: SHA-256 for
/// P-256 and SHA-384 for P-384.
#[derive(Debug, Clone, Copy, PartialEq, Eq, Structural)]
pub enum Curve {
    P256,
    P384,
}

#[verifier::external_type_specification]
#[verifier::external_body]
pub struct ExUnspecified(ring::error::Unspecified);

/// Whether `tag` is the HMAC of `message` under `key`.
pub uninterp spec fn hmac_accepts(hash: Sha2, key: Seq<u8>, message: Seq<u8>, tag: Seq<u8>) -> bool;

/// Whether `signature` is an RSA signature of `message` by the key with
/// modulus `n` and exponent `e`, both as big-endian bytes. Keys of fewer
/// than 2048 bits are never accepted.
pub uninterp spec fn rsa_accepts(
    padding: RsaPadding,
    hash: Sha2,
    n: Seq<u8>,
    e: Seq<u8>,
    message: Seq<u8>,
    signature: Seq<u8>,
) -> bool;

/// Whether `signature`, as `r` followed by `s`, is an ECDSA signature of
/// `message` by the key at `point`, an uncompressed point of the curve.
pub uninterp spec fn ecdsa_accepts(
    curve: Curve,
    point: Seq<u8>,
    message: Seq<u8>,
    signature: Seq<u8>,
) -> bool;

/// `ring::hmac::verify` with a key made by `ring::hmac::Key::new`.
#[verifier::external_body]
fn hmac_verify(hash: Sha2, key: &[u8], message: &[u8], tag: &[u8]) -> (r: Result<
    (),
    ring::error::Unspecified,
>)
    ensures
        r is Ok <==> hmac_accepts(hash, key@, message@, tag@),
{
    let algorithm = match hash {
        Sha2::Sha256 => ring::hmac::HMAC_SHA256,
        Sha2::Sha384 => ring::hmac::HMAC_SHA384,
        Sha2::Sha512 => ring::hmac::HMAC_SHA512,
    };
    ring::hmac::verify(&ring::hmac::Key::new(algorithm, key), message, tag)
}

/// `ring::signature::RsaPublicKeyComponents::verify` with the parameters
/// `RSA_PKCS1_2048_8192_*` or `RSA_PSS_2048_8192_*`.
#[verifier::external_body]
fn rsa_verify(
    padding: RsaPadding,
    hash: Sha2,
    n: &[u8],
    e: &[u8],
    message: &[u8],
    signature: &[u8],
) -> (r: Result<(), ring::error::Unspecified>)
    ensures
        r is Ok <==> rsa_accepts(padding, hash, n@, e@, message@, signature@),
{
    let parameters = match (padding, hash) {
        (RsaPadding::Pkcs1, Sha2::Sha256) => &ring::signature::RSA_PKCS1_2048_8192_SHA256,
        (RsaPadding::Pkcs1, Sha2::Sha384) => &ring::signature::RSA_PKCS1_2048_8192_SHA384,
        (RsaPadding::Pkcs1, Sha2::Sha512) => &ring::signature::RSA_PKCS1_2048_8192_SHA512,
        (RsaPadding::Pss, Sha2::Sha256) => &ring::signature::RSA_PSS_2048_8192_SHA256,
        (RsaPadding::Pss, Sha2::Sha384) => &ring::signature::RSA_PSS_2048_8192_SHA384,
        (RsaPadding::Pss, Sha2::Sha512) => &ring::signature::RSA_PSS_2048_8192_SHA512,
    };
    ring::signature::RsaPublicKeyComponents { n, e }.verify(parameters, message, signature)
}

/// `ring::signature::UnparsedPublicKey::verify` with the algorithm
/// `ECDSA_P256_SHA256_FIXED` or `ECDSA_P384_SHA384_FIXED`.
#[verifier::external_body]
fn ecdsa_verify(curve: Curve, point: &[u8], message: &[u8], signature: &[u8]) -> (r: Result<
    (),
    ring::error::Unspecified,
>)
    ensures
        r is Ok <==> ecdsa_accepts(curve, point@, message@, signature@),
{
    let algorithm = match curve {
        Curve::P256 => &ring::signature::ECDSA_P256_SHA256_FIXED,
        Curve::P384 => &ring::signature::ECDSA_P384_SHA384_FIXED,
    };
    ring::signature::UnparsedPublicKey::new(algorithm, point).verify(message, signature)
}

/// How the signatures of an algorithm are checked.
pub enum SignatureScheme {
    /// By an HMAC under a secret that both sides share.
    Hmac(Sha2),
    /// By RSA under a key of the provider.
    Rsa(RsaPadding, Sha2),
    /// By ECDSA under a key of the provider.
    Ecdsa(Curve),
    /// Not at all: the algorithm is none that can be checked here.
    Unsupported,
}

/// How the signatures of each algorithm of the core profile are checked.
/// ECDSA on P-521 is not supported, and a token without a signature has
/// nothing to check.
pub open spec fn scheme_of(alg: CoreJwsSigningAlgorithm) -> SignatureScheme {
    match alg {
        CoreJwsSigningAlgorithm::HmacSha256 => SignatureScheme::Hmac(Sha2::Sha256),
        CoreJwsSigningAlgorithm::HmacSha384 => SignatureScheme::Hmac(Sha2::Sha384),
        CoreJwsSigningAlgorithm::HmacSha512 => SignatureScheme::Hmac(Sha2::Sha512),
        CoreJwsSigningAlgorithm::RsaSsaPkcs1V15Sha256 => SignatureScheme::Rsa(
            RsaPadding::Pkcs1,
            Sha2::Sha256,
        ),
        CoreJwsSigningAlgorithm::RsaSsaPkcs1V15Sha384 => SignatureScheme::Rsa(
            RsaPadding::Pkcs1,
            Sha2::Sha384,
        ),
        CoreJwsSigningAlgorithm::RsaSsaPkcs1V15Sha512 => SignatureScheme::Rsa(
            RsaPadding::Pkcs1,
            Sha2::Sha512,
        ),
        CoreJwsSigningAlgorithm::RsaSsaPssSha256 => SignatureScheme::Rsa(
            RsaPadding::Pss,
            Sha2::Sha256,
        ),
        CoreJwsSigningAlgorithm::RsaSsaPssSha384 => SignatureScheme::Rsa(
            RsaPadding::Pss,
            Sha2::Sha384,
        ),
        CoreJwsSigningAlgorithm::RsaSsaPssSha512 => SignatureScheme::Rsa(
            RsaPadding::Pss,
            Sha2::Sha512,
        ),
        CoreJwsSigningAlgorithm::EcdsaP256Sha256 => SignatureScheme::Ecdsa(Curve::P256),
        CoreJwsSigningAlgorithm::EcdsaP384Sha384 => SignatureScheme::Ecdsa(Curve::P384),
        CoreJwsSigningAlgorithm::EcdsaP521Sha512 => SignatureScheme::Unsupported,
        CoreJwsSigningAlgorithm::Unsecured => SignatureScheme::Unsupported,
    }
}

/// Tells how the signatures of an algorithm are checked.
pub fn scheme(alg: CoreJwsSigningAlgorithm) -> (r: SignatureScheme)
    ensures
        r == scheme_of(alg),
{
    match alg {
        CoreJwsSigningAlgorithm::HmacSha256 => SignatureScheme::Hmac(Sha2::Sha256),
        CoreJwsSigningAlgorithm::HmacSha384 => SignatureScheme::Hmac(Sha2::Sha384),
        CoreJwsSigningAlgorithm::HmacSha512 => SignatureScheme::Hmac(Sha2::Sha512),
        CoreJwsSigningAlgorithm::RsaSsaPkcs1V15Sha256 => SignatureScheme::Rsa(
            RsaPadding::Pkcs1,
            Sha2::Sha256,
        ),
        CoreJwsSigningAlgorithm::RsaSsaPkcs1V15Sha384 => SignatureScheme::Rsa(
            RsaPadding::Pkcs1,
            Sha2::Sha384,
        ),
        CoreJwsSigningAlgorithm::RsaSsaPkcs1V15Sha512 => SignatureScheme::Rsa(
            RsaPadding::Pkcs1,
            Sha2::Sha512,
        ),
        CoreJwsSigningAlgorithm::RsaSsaPssSha256 => SignatureScheme::Rsa(
            RsaPadding::Pss,
            Sha2::Sha256,
        ),
        CoreJwsSigningAlgorithm::RsaSsaPssSha384 => SignatureScheme::Rsa(
            RsaPadding::Pss,
            Sha2::Sha384,
        ),
        CoreJwsSigningAlgorithm::RsaSsaPssSha512 => SignatureScheme::Rsa(
            RsaPadding::Pss,
            Sha2::Sha512,
        ),
        CoreJwsSigningAlgorithm::EcdsaP256Sha256 => SignatureScheme::Ecdsa(Curve::P256),
        CoreJwsSigningAlgorithm::EcdsaP384Sha384 => SignatureScheme::Ecdsa(Curve::P384),
        CoreJwsSigningAlgorithm::EcdsaP521Sha512 => SignatureScheme::Unsupported,
        CoreJwsSigningAlgorithm::Unsecured => SignatureScheme::Unsupported,
    }
}

/// The name of a curve in a key.
pub open spec fn curve_name(curve: Curve) -> Seq<char> {
    match curve {
        Curve::P256 => "P-256"@,
        Curve::P384 => "P-384"@,
    }
}

/// The bytes of an optional text in base64url.
pub open spec fn decoded(text: Option<Seq<char>>) -> Option<Seq<u8>> {
    match text {
        Some(text) => base64url_decoded(text),
        None => None,
    }
}

/// Whether `signature` is the HMAC of `message` under the client's secret:
/// under the bytes of its text in UTF-8.
pub open spec fn secret_accepts(
    hash: Sha2,
    secret: Seq<char>,
    message: Seq<u8>,
    signature: Seq<u8>,
) -> bool {
    hmac_accepts(hash, vstd::utf8::encode_utf8(secret), message, signature)
}

/// Whether `signature` is an RSA signature of `message` by a key: by its
/// modulus `n` and its exponent `e`, which must both be there in base64url.
pub open spec fn rsa_key_accepts(
    padding: RsaPadding,
    hash: Sha2,
    key: JsonWebKeyView,
    message: Seq<u8>,
    signature: Seq<u8>,
) -> bool {
    &&& decoded(key.n) is Some
    &&& decoded(key.e) is Some
    &&& rsa_accepts(padding, hash, decoded(key.n)->0, decoded(key.e)->0, message, signature)
}

/// Whether `signature` is an ECDSA signature of `message` by a key: the
/// key must name the curve, and its coordinates `x` and `y` must both be
/// there in base64url; the point is the byte 4 followed by `x` and `y`.
pub open spec fn ecdsa_key_accepts(
    curve: Curve,
    key: JsonWebKeyView,
    message: Seq<u8>,
    signature: Seq<u8>,
) -> bool {
    &&& key.crv == Some(curve_name(curve))
    &&& decoded(key.x) is Some
    &&& decoded(key.y) is Some
    &&& ecdsa_accepts(curve, seq![4u8] + decoded(key.x)->0 + decoded(key.y)->0, message, signature)
}

/// Whether the cryptography of the core profile accepts a signature under a
/// secret. Only an HMAC is checked with a secret.
pub open spec fn accepts_with_secret(
    alg: CoreJwsSigningAlgorithm,
    secret: Seq<char>,
    message: Seq<u8>,
    signature: Seq<u8>,
) -> bool {
    match scheme_of(alg) {
        SignatureScheme::Hmac(hash) => secret_accepts(hash, secret, message, signature),
        _ => false,
    }
}

/// Whether the cryptography of the core profile accepts a signature under a
/// key of the provider. An HMAC is never checked with such a key.
pub open spec fn accepts_with_key(
    alg: CoreJwsSigningAlgorithm,
    key: JsonWebKeyView,
    message: Seq<u8>,
    signature: Seq<u8>,
) -> bool {
    match scheme_of(alg) {
        SignatureScheme::Rsa(padding, hash) => rsa_key_accepts(
            padding,
            hash,
            key,
            message,
            signature,
        ),
        SignatureScheme::Ecdsa(curve) => ecdsa_key_accepts(curve, key, message, signature),
        _ => false,
    }
}

/// The bytes of an optional text in base64url.
fn decode_optional(text: Option<&str>) -> (bytes: Option<Vec<u8>>)
    ensures
        match decoded(text.deep_view()) {
            Some(decoded) => bytes matches Some(found) && found@ == decoded,
            None => bytes is None,
        },
{
    match text {
        Some(text) => decode_base64url(text),
        None => None,
    }
}

/// Checks an HMAC under the client's secret.
pub fn check_with_secret(
    alg: CoreJwsSigningAlgorithm,
    secret: &ClientSecret,
    message: &[u8],
    signature: &[u8],
) -> (ok: bool)
    ensures
        ok == accepts_with_secret(alg, secret@, message@, signature@),
{
    match scheme(alg) {
        SignatureScheme::Hmac(hash) => hmac_verify(
            hash,
            secret.secret().as_bytes(),
            message,
            signature,
        ).is_ok(),
        _ => false,
    }
}

/// Checks a signature under a key of the provider.
pub fn check_with_key(
    alg: CoreJwsSigningAlgorithm,
    key: &JsonWebKey,
    message: &[u8],
    signature: &[u8],
) -> (ok: bool)
    ensures
        ok == accepts_with_key(alg, key@, message@, signature@),
{
    match scheme(alg) {
        SignatureScheme::Rsa(padding, hash) => {
            let n = match decode_optional(key.n()) {
                Some(n) => n,
                None => {
                    return false;
                },
            };
            let e = match decode_optional(key.e()) {
                Some(e) => e,
                None => {
                    return false;
                },
            };
            rsa_verify(padding, hash, n.as_slice(), e.as_slice(), message, signature).is_ok()
        },
        SignatureScheme::Ecdsa(curve) => {
            let named = match key.crv() {
                Some(crv) => match curve {
                    Curve::P256 => str_eq(crv, "P-256"),
                    Curve::P384 => str_eq(crv, "P-384"),
                },
                None => false,
            };
            if !named {
                return false;
            }
            let x = match decode_optional(key.x()) {
                Some(x) => x,
                None => {
                    return false;
                },
            };
            let y = match decode_optional(key.y()) {
                Some(y) => y,
                None => {
                    return false;
                },
            };
            let mut point: Vec<u8> = Vec::new();
            point.push(4u8);
            point.extend_from_slice(x.as_slice());
            point.extend_from_slice(y.as_slice());
            assert(point@ =~= seq![4u8] + x@ + y@);
            ecdsa_verify(curve, point.as_slice(), message, signature).is_ok()
        },
        _ => false,
    }
}

/// Whether the cryptography of the core profile accepts the signature of a
/// token, where the rules ask for it to be checked: under the client's
/// secret or under the chosen key of the provider, over the bytes of the
/// signing input.
pub open spec fn core_signature_ok(rules: SignatureRules, token: IdTokenView) -> bool {
    let message = vstd::utf8::encode_utf8(token.signing_input);
    match signature_plan(rules, token.header) {
        Ok(SignatureCheck::WithSecret) => accepts_with_secret(
            token.header.alg,
            rules.client_secret->0,
            message,
            token.signature,
        ),
        Ok(SignatureCheck::WithKey(at)) => accepts_with_key(
            token.header.alg,
            rules.keys[at],
            message,
            token.signature,
        ),
        _ => true,
    }
}

/// Hands out the claims of a token where they are to be believed at the
/// time `now`, in seconds since the start of 1970, with the signature
/// checked by the cryptography of the core profile.
pub fn core_claims_at<'a>(
    token: &'a IdToken,
    verifier: &IdTokenVerifier,
    nonce: Option<&Nonce>,
    now: u64,
) -> (r: Result<&'a IdTokenClaims, ClaimsVerificationError>)
    ensures
        reports(
            r,
            verification_fault(
                verifier@,
                token@,
                nonce.deep_view(),
                now,
                core_signature_ok(verifier@.rules, token@),
            ),
        ),
        r matches Ok(claims) ==> claims@ == token@.claims,
{
    let alg = token.header().alg;
    let signature_ok = match verifier.signature_key(token.header()) {
        Ok(Some(VerificationKey::Secret(secret))) => check_with_secret(
            alg,
            secret,
            token.signing_input().as_bytes(),
            token.signature().as_slice(),
        ),
        Ok(Some(VerificationKey::Key(key))) => check_with_key(
            alg,
            key,
            token.signing_input().as_bytes(),
            token.signature().as_slice(),
        ),
        _ => true,
    };
    token.claims_given(verifier, nonce, now, signature_ok)
}

/// Whether the cryptography of the core profile accepts the signature that
/// claims about an end user came under, where the rules ask for it to be
/// checked.
pub open spec fn core_claims_signature_ok(rules: SignatureRules, signature: Option<JwsView>) -> bool {
    match signature {
        None => true,
        Some(jws) => match signature_plan(rules, jws.header) {
            Ok(SignatureCheck::WithSecret) => accepts_with_secret(
                jws.header.alg,
                rules.client_secret->0,
                vstd::utf8::encode_utf8(jws.signing_input),
                jws.signature,
            ),
            Ok(SignatureCheck::WithKey(at)) => accepts_with_key(
                jws.header.alg,
                rules.keys[at],
                vstd::utf8::encode_utf8(jws.signing_input),
                jws.signature,
            ),
            _ => true,
        },
    }
}

/// What is made of the response of the UserInfo endpoint with the
/// cryptography of the core profile.
pub open spec fn core_user_info_outcome(
    verifier: UserInfoVerifierView,
    status: u32,
    headers: Headers,
    body: Seq<u8>,
) -> Result<crate::userinfo::UserInfoView, crate::userinfo::UserInfoFault> {
    let signature_ok = match user_info_in(verifier, status, headers, body) {
        Ok(found) => core_claims_signature_ok(verifier.signature_rules(), found.signature),
        Err(_) => true,
    };
    user_info_outcome(verifier, status, headers, body, signature_ok)
}

/// Makes of the response of the UserInfo endpoint what
/// `core_user_info_outcome` says: the signature of a signed response is
/// checked by the cryptography of the core profile.
pub fn core_user_info_from_response(verifier: &UserInfoVerifier, response: &HttpResponse) -> (r:
    Result<UserInfoClaims, UserInfoError>)
    ensures
        informed(
            r,
            core_user_info_outcome(
                verifier@,
                response.status_code,
                response.headers.deep_view(),
                response.body@,
            ),
        ),
{
    let found = match read_user_info(verifier, response) {
        Ok(found) => found,
        Err(error) => {
            return Err(error);
        },
    };
    let signature_ok = match &found.signature {
        Some(jws) => match verifier.signature_key(&jws.header) {
            Ok(Some(VerificationKey::Secret(secret))) => check_with_secret(
                jws.header.alg,
                secret,
                jws.signing_input.as_str().as_bytes(),
                jws.signature.as_slice(),
            ),
            Ok(Some(VerificationKey::Key(key))) => check_with_key(
                jws.header.alg,
                key,
                jws.signing_input.as_str().as_bytes(),
                jws.signature.as_slice(),
            ),
            _ => true,
        },
        None => true,
    };
    verifier.verified_claims(found, signature_ok)
}

/// The cryptography of the core profile.
#[derive(Debug, Clone, Copy, PartialEq, Eq)]
pub struct CoreSignatureVerifier;

/// Whether the cryptography of the core profile accepts a signature under
/// the key that it is asked about: the client's secret or a key of the
/// provider.
pub open spec fn core_accepts(
    alg: CoreJwsSigningAlgorithm,
    key: VerificationKey,
    message: Seq<u8>,
    signature: Seq<u8>,
) -> bool {
    match key {
        VerificationKey::Secret(secret) => accepts_with_secret(alg, secret@, message, signature),
        VerificationKey::Key(key) => accepts_with_key(alg, key@, message, signature),
    }
}

impl SignatureVerifier for CoreSignatureVerifier {
    /// Accepts the signature exactly where `core_accepts` does, and says no
    /// more of one that it refuses than that it is not valid.
    fn verify_signature(
        &self,
        alg: CoreJwsSigningAlgorithm,
        key: VerificationKey,
        message: &[u8],
        signature: &[u8],
    ) -> (r: Result<(), String>)
        ensures
            r is Ok <==> core_accepts(alg, key, message@, signature@),
            r matches Err(words) ==> words@ == "the signature is not valid"@,
    {
        let ok = match key {
            VerificationKey::Secret(secret) => check_with_secret(alg, secret, message, signature),
            VerificationKey::Key(key) => check_with_key(alg, key, message, signature),
        };
        if ok {
            Ok(())
        } else {
            Err(String::from_str("the signature is not valid"))
        }
    }
}

} // verus!
