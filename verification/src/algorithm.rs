//! The signing algorithms of JSON Web Signatures that the core profile
//! knows.

use crate::text::str_eq;
use vstd::prelude::*;

verus! {

/// A signing algorithm of the core profile, or `none`.
#[derive(Debug, Clone, Copy, PartialEq, Eq, Structural)]
pub enum CoreJwsSigningAlgorithm {
    /// HMAC using SHA-256.
    HmacSha256,
    /// HMAC using SHA-384.
    HmacSha384,
    /// HMAC using SHA-512.
    HmacSha512,
    /// RSASSA-PKCS1-v1_5 using SHA-256.
    RsaSsaPkcs1V15Sha256,
    /// RSASSA-PKCS1-v1_5 using SHA-384.
    RsaSsaPkcs1V15Sha384,
    /// RSASSA-PKCS1-v1_5 using SHA-512.
    RsaSsaPkcs1V15Sha512,
    /// RSASSA-PSS using SHA-256.
    RsaSsaPssSha256,
    /// RSASSA-PSS using SHA-384.
    RsaSsaPssSha384,
    /// RSASSA-PSS using SHA-512.
    RsaSsaPssSha512,
    /// ECDSA using P-256 and SHA-256.
    EcdsaP256Sha256,
    /// ECDSA using P-384 and SHA-384.
    EcdsaP384Sha384,
    /// ECDSA using P-521 and SHA-512.
    EcdsaP521Sha512,
    /// No signature at all: the name `none`.
    Unsecured,
}

impl CoreJwsSigningAlgorithm {
    /// The name of the algorithm in a JWS header.
    pub open spec fn name(self) -> Seq<char> {
        match self {
            CoreJwsSigningAlgorithm::HmacSha256 => "HS256"@,
            CoreJwsSigningAlgorithm::HmacSha384 => "HS384"@,
            CoreJwsSigningAlgorithm::HmacSha512 => "HS512"@,
            CoreJwsSigningAlgorithm::RsaSsaPkcs1V15Sha256 => "RS256"@,
            CoreJwsSigningAlgorithm::RsaSsaPkcs1V15Sha384 => "RS384"@,
            CoreJwsSigningAlgorithm::RsaSsaPkcs1V15Sha512 => "RS512"@,
            CoreJwsSigningAlgorithm::RsaSsaPssSha256 => "PS256"@,
            CoreJwsSigningAlgorithm::RsaSsaPssSha384 => "PS384"@,
            CoreJwsSigningAlgorithm::RsaSsaPssSha512 => "PS512"@,
            CoreJwsSigningAlgorithm::EcdsaP256Sha256 => "ES256"@,
            CoreJwsSigningAlgorithm::EcdsaP384Sha384 => "ES384"@,
            CoreJwsSigningAlgorithm::EcdsaP521Sha512 => "ES512"@,
            CoreJwsSigningAlgorithm::Unsecured => "none"@,
        }
    }

    /// The algorithm of a name, where the core profile knows the name.
    pub open spec fn named(name: Seq<char>) -> Option<CoreJwsSigningAlgorithm> {
        if name == "HS256"@ {
            Some(CoreJwsSigningAlgorithm::HmacSha256)
        } else if name == "HS384"@ {
            Some(CoreJwsSigningAlgorithm::HmacSha384)
        } else if name == "HS512"@ {
            Some(CoreJwsSigningAlgorithm::HmacSha512)
        } else if name == "RS256"@ {
            Some(CoreJwsSigningAlgorithm::RsaSsaPkcs1V15Sha256)
        } else if name == "RS384"@ {
            Some(CoreJwsSigningAlgorithm::RsaSsaPkcs1V15Sha384)
        } else if name == "RS512"@ {
            Some(CoreJwsSigningAlgorithm::RsaSsaPkcs1V15Sha512)
        } else if name == "PS256"@ {
            Some(CoreJwsSigningAlgorithm::RsaSsaPssSha256)
        } else if name == "PS384"@ {
            Some(CoreJwsSigningAlgorithm::RsaSsaPssSha384)
        } else if name == "PS512"@ {
            Some(CoreJwsSigningAlgorithm::RsaSsaPssSha512)
        } else if name == "ES256"@ {
            Some(CoreJwsSigningAlgorithm::EcdsaP256Sha256)
        } else if name == "ES384"@ {
            Some(CoreJwsSigningAlgorithm::EcdsaP384Sha384)
        } else if name == "ES512"@ {
            Some(CoreJwsSigningAlgorithm::EcdsaP521Sha512)
        } else if name == "none"@ {
            Some(CoreJwsSigningAlgorithm::Unsecured)
        } else {
            None
        }
    }

    /// The type of key that verifies a signature of the algorithm: `RSA`,
    /// `EC`, or `oct` for a secret that both sides share. `none` has none.
    pub open spec fn key_type(self) -> Option<Seq<char>> {
        match self {
            CoreJwsSigningAlgorithm::HmacSha256 => Some("oct"@),
            CoreJwsSigningAlgorithm::HmacSha384 => Some("oct"@),
            CoreJwsSigningAlgorithm::HmacSha512 => Some("oct"@),
            CoreJwsSigningAlgorithm::RsaSsaPkcs1V15Sha256 => Some("RSA"@),
            CoreJwsSigningAlgorithm::RsaSsaPkcs1V15Sha384 => Some("RSA"@),
            CoreJwsSigningAlgorithm::RsaSsaPkcs1V15Sha512 => Some("RSA"@),
            CoreJwsSigningAlgorithm::RsaSsaPssSha256 => Some("RSA"@),
            CoreJwsSigningAlgorithm::RsaSsaPssSha384 => Some("RSA"@),
            CoreJwsSigningAlgorithm::RsaSsaPssSha512 => Some("RSA"@),
            CoreJwsSigningAlgorithm::EcdsaP256Sha256 => Some("EC"@),
            CoreJwsSigningAlgorithm::EcdsaP384Sha384 => Some("EC"@),
            CoreJwsSigningAlgorithm::EcdsaP521Sha512 => Some("EC"@),
            CoreJwsSigningAlgorithm::Unsecured => None,
        }
    }

    /// Whether the algorithm signs with a secret that both sides share.
    pub open spec fn is_symmetric(self) -> bool {
        self is HmacSha256 || self is HmacSha384 || self is HmacSha512
    }

    /// Reads an algorithm from its name.
    pub fn from_name(name: &str) -> (r: Option<CoreJwsSigningAlgorithm>)
        ensures
            r == CoreJwsSigningAlgorithm::named(name@),
    {
        if str_eq(name, "HS256") {
            Some(CoreJwsSigningAlgorithm::HmacSha256)
        } else if str_eq(name, "HS384") {
            Some(CoreJwsSigningAlgorithm::HmacSha384)
        } else if str_eq(name, "HS512") {
            Some(CoreJwsSigningAlgorithm::HmacSha512)
        } else if str_eq(name, "RS256") {
            Some(CoreJwsSigningAlgorithm::RsaSsaPkcs1V15Sha256)
        } else if str_eq(name, "RS384") {
            Some(CoreJwsSigningAlgorithm::RsaSsaPkcs1V15Sha384)
        } else if str_eq(name, "RS512") {
            Some(CoreJwsSigningAlgorithm::RsaSsaPkcs1V15Sha512)
        } else if str_eq(name, "PS256") {
            Some(CoreJwsSigningAlgorithm::RsaSsaPssSha256)
        } else if str_eq(name, "PS384") {
            Some(CoreJwsSigningAlgorithm::RsaSsaPssSha384)
        } else if str_eq(name, "PS512") {
            Some(CoreJwsSigningAlgorithm::RsaSsaPssSha512)
        } else if str_eq(name, "ES256") {
            Some(CoreJwsSigningAlgorithm::EcdsaP256Sha256)
        } else if str_eq(name, "ES384") {
            Some(CoreJwsSigningAlgorithm::EcdsaP384Sha384)
        } else if str_eq(name, "ES512") {
            Some(CoreJwsSigningAlgorithm::EcdsaP521Sha512)
        } else if str_eq(name, "none") {
            Some(CoreJwsSigningAlgorithm::Unsecured)
        } else {
            None
        }
    }

    /// The name of the algorithm.
    pub fn as_str(&self) -> (name: &'static str)
        ensures
            name@ == self.name(),
    {
        match self {
            CoreJwsSigningAlgorithm::HmacSha256 => "HS256",
            CoreJwsSigningAlgorithm::HmacSha384 => "HS384",
            CoreJwsSigningAlgorithm::HmacSha512 => "HS512",
            CoreJwsSigningAlgorithm::RsaSsaPkcs1V15Sha256 => "RS256",
            CoreJwsSigningAlgorithm::RsaSsaPkcs1V15Sha384 => "RS384",
            CoreJwsSigningAlgorithm::RsaSsaPkcs1V15Sha512 => "RS512",
            CoreJwsSigningAlgorithm::RsaSsaPssSha256 => "PS256",
            CoreJwsSigningAlgorithm::RsaSsaPssSha384 => "PS384",
            CoreJwsSigningAlgorithm::RsaSsaPssSha512 => "PS512",
            CoreJwsSigningAlgorithm::EcdsaP256Sha256 => "ES256",
            CoreJwsSigningAlgorithm::EcdsaP384Sha384 => "ES384",
            CoreJwsSigningAlgorithm::EcdsaP521Sha512 => "ES512",
            CoreJwsSigningAlgorithm::Unsecured => "none",
        }
    }

    /// The type of key that the algorithm asks for.
    pub fn required_key_type(&self) -> (key_type: Option<&'static str>)
        ensures
            key_type.deep_view() == self.key_type(),
    {
        match self {
            CoreJwsSigningAlgorithm::HmacSha256 => Some("oct"),
            CoreJwsSigningAlgorithm::HmacSha384 => Some("oct"),
            CoreJwsSigningAlgorithm::HmacSha512 => Some("oct"),
            CoreJwsSigningAlgorithm::RsaSsaPkcs1V15Sha256 => Some("RSA"),
            CoreJwsSigningAlgorithm::RsaSsaPkcs1V15Sha384 => Some("RSA"),
            CoreJwsSigningAlgorithm::RsaSsaPkcs1V15Sha512 => Some("RSA"),
            CoreJwsSigningAlgorithm::RsaSsaPssSha256 => Some("RSA"),
            CoreJwsSigningAlgorithm::RsaSsaPssSha384 => Some("RSA"),
            CoreJwsSigningAlgorithm::RsaSsaPssSha512 => Some("RSA"),
            CoreJwsSigningAlgorithm::EcdsaP256Sha256 => Some("EC"),
            CoreJwsSigningAlgorithm::EcdsaP384Sha384 => Some("EC"),
            CoreJwsSigningAlgorithm::EcdsaP521Sha512 => Some("EC"),
            CoreJwsSigningAlgorithm::Unsecured => None,
        }
    }

    /// Whether the algorithm signs with a shared secret.
    pub fn uses_shared_secret(&self) -> (symmetric: bool)
        ensures
            symmetric == self.is_symmetric(),
    {
        match self {
            CoreJwsSigningAlgorithm::HmacSha256
            | CoreJwsSigningAlgorithm::HmacSha384
            | CoreJwsSigningAlgorithm::HmacSha512 => true,
            _ => false,
        }
    }
}

} // verus!
