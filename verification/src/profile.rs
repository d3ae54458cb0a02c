//! The values of the core profile: closed sets of the names that the
//! provider and the client exchange. The records of the library hold these
//! names as texts, so that a name outside the core profile does no harm;
//! the sets here tell the names of the core profile apart.

use crate::text::str_eq;
use vstd::prelude::*;

verus! {

/// A response type of an authorization request.
#[derive(Debug, Clone, Copy, PartialEq, Eq, Structural)]
pub enum CoreResponseType {
    /// An authorization code. Its name is `code`.
    Code,
    /// An ID token. Its name is `id_token`.
    IdToken,
    /// An access token. Its name is `token`.
    Token,
}

impl CoreResponseType {
    /// The name of the value.
    pub open spec fn name(self) -> Seq<char> {
        match self {
            CoreResponseType::Code => "code"@,
            CoreResponseType::IdToken => "id_token"@,
            CoreResponseType::Token => "token"@,
        }
    }

    /// The value of a name, where the core profile knows the name.
    pub open spec fn named(name: Seq<char>) -> Option<CoreResponseType> {
        if name == "code"@ {
            Some(CoreResponseType::Code)
        } else if name == "id_token"@ {
            Some(CoreResponseType::IdToken)
        } else if name == "token"@ {
            Some(CoreResponseType::Token)
        } else {
            None
        }
    }

    /// Reads a value from its name.
    pub fn from_name(name: &str) -> (r: Option<CoreResponseType>)
        ensures
            r == CoreResponseType::named(name@),
    {
        if str_eq(name, "code") {
            Some(CoreResponseType::Code)
        } else if str_eq(name, "id_token") {
            Some(CoreResponseType::IdToken)
        } else if str_eq(name, "token") {
            Some(CoreResponseType::Token)
        } else {
            None
        }
    }

    /// The name of the value.
    pub fn as_str(&self) -> (name: &'static str)
        ensures
            name@ == self.name(),
    {
        match self {
            CoreResponseType::Code => "code",
            CoreResponseType::IdToken => "id_token",
            CoreResponseType::Token => "token",
        }
    }
}

/// A kind of subject identifier.
#[derive(Debug, Clone, Copy, PartialEq, Eq, Structural)]
pub enum CoreSubjectIdentifierType {
    /// A different identifier for each client. Its name is `pairwise`.
    Pairwise,
    /// The same identifier for every client. Its name is `public`.
    Public,
}

impl CoreSubjectIdentifierType {
    /// The name of the value.
    pub open spec fn name(self) -> Seq<char> {
        match self {
            CoreSubjectIdentifierType::Pairwise => "pairwise"@,
            CoreSubjectIdentifierType::Public => "public"@,
        }
    }

    /// The value of a name, where the core profile knows the name.
    pub open spec fn named(name: Seq<char>) -> Option<CoreSubjectIdentifierType> {
        if name == "pairwise"@ {
            Some(CoreSubjectIdentifierType::Pairwise)
        } else if name == "public"@ {
            Some(CoreSubjectIdentifierType::Public)
        } else {
            None
        }
    }

    /// Reads a value from its name.
    pub fn from_name(name: &str) -> (r: Option<CoreSubjectIdentifierType>)
        ensures
            r == CoreSubjectIdentifierType::named(name@),
    {
        if str_eq(name, "pairwise") {
            Some(CoreSubjectIdentifierType::Pairwise)
        } else if str_eq(name, "public") {
            Some(CoreSubjectIdentifierType::Public)
        } else {
            None
        }
    }

    /// The name of the value.
    pub fn as_str(&self) -> (name: &'static str)
        ensures
            name@ == self.name(),
    {
        match self {
            CoreSubjectIdentifierType::Pairwise => "pairwise",
            CoreSubjectIdentifierType::Public => "public",
        }
    }
}

/// A way in which a client authenticates at the token endpoint.
#[derive(Debug, Clone, Copy, PartialEq, Eq, Structural)]
pub enum CoreClientAuthMethod {
    /// With its secret, in an `Authorization` header. Its name is `client_secret_basic`.
    ClientSecretBasic,
    /// With a token that it signs with its secret. Its name is `client_secret_jwt`.
    ClientSecretJwt,
    /// With its secret, in the body of the request. Its name is `client_secret_post`.
    ClientSecretPost,
    /// With a token that it signs with its private key. Its name is `private_key_jwt`.
    PrivateKeyJwt,
    /// Not at all. Its name is `none`.
    NoAuthentication,
}

impl CoreClientAuthMethod {
    /// The name of the value.
    pub open spec fn name(self) -> Seq<char> {
        match self {
            CoreClientAuthMethod::ClientSecretBasic => "client_secret_basic"@,
            CoreClientAuthMethod::ClientSecretJwt => "client_secret_jwt"@,
            CoreClientAuthMethod::ClientSecretPost => "client_secret_post"@,
            CoreClientAuthMethod::PrivateKeyJwt => "private_key_jwt"@,
            CoreClientAuthMethod::NoAuthentication => "none"@,
        }
    }

    /// The value of a name, where the core profile knows the name.
    pub open spec fn named(name: Seq<char>) -> Option<CoreClientAuthMethod> {
        if name == "client_secret_basic"@ {
            Some(CoreClientAuthMethod::ClientSecretBasic)
        } else if name == "client_secret_jwt"@ {
            Some(CoreClientAuthMethod::ClientSecretJwt)
        } else if name == "client_secret_post"@ {
            Some(CoreClientAuthMethod::ClientSecretPost)
        } else if name == "private_key_jwt"@ {
            Some(CoreClientAuthMethod::PrivateKeyJwt)
        } else if name == "none"@ {
            Some(CoreClientAuthMethod::NoAuthentication)
        } else {
            None
        }
    }

    /// Reads a value from its name.
    pub fn from_name(name: &str) -> (r: Option<CoreClientAuthMethod>)
        ensures
            r == CoreClientAuthMethod::named(name@),
    {
        if str_eq(name, "client_secret_basic") {
            Some(CoreClientAuthMethod::ClientSecretBasic)
        } else if str_eq(name, "client_secret_jwt") {
            Some(CoreClientAuthMethod::ClientSecretJwt)
        } else if str_eq(name, "client_secret_post") {
            Some(CoreClientAuthMethod::ClientSecretPost)
        } else if str_eq(name, "private_key_jwt") {
            Some(CoreClientAuthMethod::PrivateKeyJwt)
        } else if str_eq(name, "none") {
            Some(CoreClientAuthMethod::NoAuthentication)
        } else {
            None
        }
    }

    /// The name of the value.
    pub fn as_str(&self) -> (name: &'static str)
        ensures
            name@ == self.name(),
    {
        match self {
            CoreClientAuthMethod::ClientSecretBasic => "client_secret_basic",
            CoreClientAuthMethod::ClientSecretJwt => "client_secret_jwt",
            CoreClientAuthMethod::ClientSecretPost => "client_secret_post",
            CoreClientAuthMethod::PrivateKeyJwt => "private_key_jwt",
            CoreClientAuthMethod::NoAuthentication => "none",
        }
    }
}

/// A grant type.
#[derive(Debug, Clone, Copy, PartialEq, Eq, Structural)]
pub enum CoreGrantType {
    /// An authorization code. Its name is `authorization_code`.
    AuthorizationCode,
    /// Tokens straight from the authorization endpoint. Its name is `implicit`.
    Implicit,
    /// A refresh token. Its name is `refresh_token`.
    RefreshToken,
}

impl CoreGrantType {
    /// The name of the value.
    pub open spec fn name(self) -> Seq<char> {
        match self {
            CoreGrantType::AuthorizationCode => "authorization_code"@,
            CoreGrantType::Implicit => "implicit"@,
            CoreGrantType::RefreshToken => "refresh_token"@,
        }
    }

    /// The value of a name, where the core profile knows the name.
    pub open spec fn named(name: Seq<char>) -> Option<CoreGrantType> {
        if name == "authorization_code"@ {
            Some(CoreGrantType::AuthorizationCode)
        } else if name == "implicit"@ {
            Some(CoreGrantType::Implicit)
        } else if name == "refresh_token"@ {
            Some(CoreGrantType::RefreshToken)
        } else {
            None
        }
    }

    /// Reads a value from its name.
    pub fn from_name(name: &str) -> (r: Option<CoreGrantType>)
        ensures
            r == CoreGrantType::named(name@),
    {
        if str_eq(name, "authorization_code") {
            Some(CoreGrantType::AuthorizationCode)
        } else if str_eq(name, "implicit") {
            Some(CoreGrantType::Implicit)
        } else if str_eq(name, "refresh_token") {
            Some(CoreGrantType::RefreshToken)
        } else {
            None
        }
    }

    /// The name of the value.
    pub fn as_str(&self) -> (name: &'static str)
        ensures
            name@ == self.name(),
    {
        match self {
            CoreGrantType::AuthorizationCode => "authorization_code",
            CoreGrantType::Implicit => "implicit",
            CoreGrantType::RefreshToken => "refresh_token",
        }
    }
}

/// A kind of client application.
#[derive(Debug, Clone, Copy, PartialEq, Eq, Structural)]
pub enum CoreApplicationType {
    /// An application on the end user's device. Its name is `native`.
    Native,
    /// An application on a web server. Its name is `web`.
    Web,
}

impl CoreApplicationType {
    /// The name of the value.
    pub open spec fn name(self) -> Seq<char> {
        match self {
            CoreApplicationType::Native => "native"@,
            CoreApplicationType::Web => "web"@,
        }
    }

    /// The value of a name, where the core profile knows the name.
    pub open spec fn named(name: Seq<char>) -> Option<CoreApplicationType> {
        if name == "native"@ {
            Some(CoreApplicationType::Native)
        } else if name == "web"@ {
            Some(CoreApplicationType::Web)
        } else {
            None
        }
    }

    /// Reads a value from its name.
    pub fn from_name(name: &str) -> (r: Option<CoreApplicationType>)
        ensures
            r == CoreApplicationType::named(name@),
    {
        if str_eq(name, "native") {
            Some(CoreApplicationType::Native)
        } else if str_eq(name, "web") {
            Some(CoreApplicationType::Web)
        } else {
            None
        }
    }

    /// The name of the value.
    pub fn as_str(&self) -> (name: &'static str)
        ensures
            name@ == self.name(),
    {
        match self {
            CoreApplicationType::Native => "native",
            CoreApplicationType::Web => "web",
        }
    }
}

/// A way of showing the provider's pages to the end user.
#[derive(Debug, Clone, Copy, PartialEq, Eq, Structural)]
pub enum CoreAuthDisplay {
    /// A full page. Its name is `page`.
    Page,
    /// A popup window. Its name is `popup`.
    Popup,
    /// A page for a device with a touch screen. Its name is `touch`.
    Touch,
    /// A page for a feature phone. Its name is `wap`.
    Wap,
}

impl CoreAuthDisplay {
    /// The name of the value.
    pub open spec fn name(self) -> Seq<char> {
        match self {
            CoreAuthDisplay::Page => "page"@,
            CoreAuthDisplay::Popup => "popup"@,
            CoreAuthDisplay::Touch => "touch"@,
            CoreAuthDisplay::Wap => "wap"@,
        }
    }

    /// The value of a name, where the core profile knows the name.
    pub open spec fn named(name: Seq<char>) -> Option<CoreAuthDisplay> {
        if name == "page"@ {
            Some(CoreAuthDisplay::Page)
        } else if name == "popup"@ {
            Some(CoreAuthDisplay::Popup)
        } else if name == "touch"@ {
            Some(CoreAuthDisplay::Touch)
        } else if name == "wap"@ {
            Some(CoreAuthDisplay::Wap)
        } else {
            None
        }
    }

    /// Reads a value from its name.
    pub fn from_name(name: &str) -> (r: Option<CoreAuthDisplay>)
        ensures
            r == CoreAuthDisplay::named(name@),
    {
        if str_eq(name, "page") {
            Some(CoreAuthDisplay::Page)
        } else if str_eq(name, "popup") {
            Some(CoreAuthDisplay::Popup)
        } else if str_eq(name, "touch") {
            Some(CoreAuthDisplay::Touch)
        } else if str_eq(name, "wap") {
            Some(CoreAuthDisplay::Wap)
        } else {
            None
        }
    }

    /// The name of the value.
    pub fn as_str(&self) -> (name: &'static str)
        ensures
            name@ == self.name(),
    {
        match self {
            CoreAuthDisplay::Page => "page",
            CoreAuthDisplay::Popup => "popup",
            CoreAuthDisplay::Touch => "touch",
            CoreAuthDisplay::Wap => "wap",
        }
    }
}

/// A kind of claim.
#[derive(Debug, Clone, Copy, PartialEq, Eq, Structural)]
pub enum CoreClaimType {
    /// A claim of another provider, passed on with its signature. Its name is `aggregated`.
    Aggregated,
    /// A claim to be fetched from another provider. Its name is `distributed`.
    Distributed,
    /// A claim that the provider itself asserts. Its name is `normal`.
    Normal,
}

impl CoreClaimType {
    /// The name of the value.
    pub open spec fn name(self) -> Seq<char> {
        match self {
            CoreClaimType::Aggregated => "aggregated"@,
            CoreClaimType::Distributed => "distributed"@,
            CoreClaimType::Normal => "normal"@,
        }
    }

    /// The value of a name, where the core profile knows the name.
    pub open spec fn named(name: Seq<char>) -> Option<CoreClaimType> {
        if name == "aggregated"@ {
            Some(CoreClaimType::Aggregated)
        } else if name == "distributed"@ {
            Some(CoreClaimType::Distributed)
        } else if name == "normal"@ {
            Some(CoreClaimType::Normal)
        } else {
            None
        }
    }

    /// Reads a value from its name.
    pub fn from_name(name: &str) -> (r: Option<CoreClaimType>)
        ensures
            r == CoreClaimType::named(name@),
    {
        if str_eq(name, "aggregated") {
            Some(CoreClaimType::Aggregated)
        } else if str_eq(name, "distributed") {
            Some(CoreClaimType::Distributed)
        } else if str_eq(name, "normal") {
            Some(CoreClaimType::Normal)
        } else {
            None
        }
    }

    /// The name of the value.
    pub fn as_str(&self) -> (name: &'static str)
        ensures
            name@ == self.name(),
    {
        match self {
            CoreClaimType::Aggregated => "aggregated",
            CoreClaimType::Distributed => "distributed",
            CoreClaimType::Normal => "normal",
        }
    }
}

/// A type of key.
#[derive(Debug, Clone, Copy, PartialEq, Eq, Structural)]
pub enum CoreJsonWebKeyType {
    /// A key on an elliptic curve. Its name is `EC`.
    EllipticCurve,
    /// An RSA key. Its name is `RSA`.
    Rsa,
    /// A secret that both sides share. Its name is `oct`.
    Symmetric,
}

impl CoreJsonWebKeyType {
    /// The name of the value.
    pub open spec fn name(self) -> Seq<char> {
        match self {
            CoreJsonWebKeyType::EllipticCurve => "EC"@,
            CoreJsonWebKeyType::Rsa => "RSA"@,
            CoreJsonWebKeyType::Symmetric => "oct"@,
        }
    }

    /// The value of a name, where the core profile knows the name.
    pub open spec fn named(name: Seq<char>) -> Option<CoreJsonWebKeyType> {
        if name == "EC"@ {
            Some(CoreJsonWebKeyType::EllipticCurve)
        } else if name == "RSA"@ {
            Some(CoreJsonWebKeyType::Rsa)
        } else if name == "oct"@ {
            Some(CoreJsonWebKeyType::Symmetric)
        } else {
            None
        }
    }

    /// Reads a value from its name.
    pub fn from_name(name: &str) -> (r: Option<CoreJsonWebKeyType>)
        ensures
            r == CoreJsonWebKeyType::named(name@),
    {
        if str_eq(name, "EC") {
            Some(CoreJsonWebKeyType::EllipticCurve)
        } else if str_eq(name, "RSA") {
            Some(CoreJsonWebKeyType::Rsa)
        } else if str_eq(name, "oct") {
            Some(CoreJsonWebKeyType::Symmetric)
        } else {
            None
        }
    }

    /// The name of the value.
    pub fn as_str(&self) -> (name: &'static str)
        ensures
            name@ == self.name(),
    {
        match self {
            CoreJsonWebKeyType::EllipticCurve => "EC",
            CoreJsonWebKeyType::Rsa => "RSA",
            CoreJsonWebKeyType::Symmetric => "oct",
        }
    }
}

/// What a key is for.
#[derive(Debug, Clone, Copy, PartialEq, Eq, Structural)]
pub enum CoreJsonWebKeyUse {
    /// For signatures. Its name is `sig`.
    Signature,
    /// For encryption. Its name is `enc`.
    Encryption,
}

impl CoreJsonWebKeyUse {
    /// The name of the value.
    pub open spec fn name(self) -> Seq<char> {
        match self {
            CoreJsonWebKeyUse::Signature => "sig"@,
            CoreJsonWebKeyUse::Encryption => "enc"@,
        }
    }

    /// The value of a name, where the core profile knows the name.
    pub open spec fn named(name: Seq<char>) -> Option<CoreJsonWebKeyUse> {
        if name == "sig"@ {
            Some(CoreJsonWebKeyUse::Signature)
        } else if name == "enc"@ {
            Some(CoreJsonWebKeyUse::Encryption)
        } else {
            None
        }
    }

    /// Reads a value from its name.
    pub fn from_name(name: &str) -> (r: Option<CoreJsonWebKeyUse>)
        ensures
            r == CoreJsonWebKeyUse::named(name@),
    {
        if str_eq(name, "sig") {
            Some(CoreJsonWebKeyUse::Signature)
        } else if str_eq(name, "enc") {
            Some(CoreJsonWebKeyUse::Encryption)
        } else {
            None
        }
    }

    /// The name of the value.
    pub fn as_str(&self) -> (name: &'static str)
        ensures
            name@ == self.name(),
    {
        match self {
            CoreJsonWebKeyUse::Signature => "sig",
            CoreJsonWebKeyUse::Encryption => "enc",
        }
    }
}

} // verus!
