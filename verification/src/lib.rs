//! An OpenID Connect relying party.
//!
//! The library discovers the configuration of a provider, registers a client
//! with it, sends the end user to it and exchanges the code that comes back
//! for tokens, and checks the ID token and the claims of the UserInfo
//! endpoint before it hands them out. It decides what to ask and what to make
//! of each answer. Requests are carried by an [`http::HttpTransport`], which
//! the user of the library supplies; signatures are checked by a
//! [`verification::SignatureVerifier`], of which [`crypto::CoreSignatureVerifier`]
//! is the one for the algorithms of the core profile.
//!
//! Every function states what it returns over a model of its arguments: a
//! text is the sequence of its characters, a JSON document is a [`json::Json`],
//! and each record has a view that holds what the record holds.

pub mod algorithm;
pub mod claims;
pub mod client;
pub mod crypto;
pub mod profile;
pub mod discovery;
pub mod http;
pub mod json;
pub mod jwk;
pub mod jws;
pub mod language;
pub mod metadata;
pub mod oauth;
pub mod reader;
pub mod registration;
pub mod text;
pub mod types;
pub mod userinfo;
pub mod verification;
pub mod writer;

pub use algorithm::CoreJwsSigningAlgorithm;
pub use claims::{AddressClaim, StandardClaims};
pub use client::Client;
pub use crypto::CoreSignatureVerifier;
pub use discovery::{get_keys, get_provider_metadata, DiscoveryError, ProviderMetadata};
pub use jwk::{JsonWebKey, JsonWebKeySet};
pub use jws::SignatureVerificationError;
pub use language::LocalizedClaim;
pub use metadata::ClientMetadata;
pub use oauth::{AuthType, AuthorizationCode, CsrfToken, RequestTokenError};
pub use registration::{
    ClientRegistrationError, ClientRegistrationRequest, ClientRegistrationResponse,
    CoreRegisterErrorResponseType, Registration10ClientRegistrationRequest,
    Registration10ClientRegistrationResponse, RegisterErrorResponseType,
};
pub use types::{
    AccessToken, ClientId, ClientSecret, EndpointUrl, IssuerUrl, LanguageTag, Nonce,
    RegistrationAccessToken, ResponseTypes, SubjectIdentifier, Timestamp,
};
pub use userinfo::{get_user_info, UserInfoClaims, UserInfoError, UserInfoVerifier};
pub use verification::{
    ClaimsVerificationError, IdToken, IdTokenClaims, IdTokenVerifier, SignatureVerifier,
};
