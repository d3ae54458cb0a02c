//! Provider discovery: the document that an OpenID Provider publishes
//! about itself, how it is read, and the check that it speaks for the issuer
//! that was asked.

use crate::http::{
    content_type_complaint, has_content_type, mime_type_json, Headers, HttpRequest,
    HttpRequestMethod, HttpResponse, HttpTransport, TransportError, HTTP_STATUS_OK,
};
use crate::json::{parse, parsed_json, Json, JsonError, JsonFault, JsonValue};
use crate::jwk::{decode_jwks, JsonWebKeySet, JsonWebKeyView};
use crate::reader::{
    agrees, members_of, nonempty, optional_flag, optional_texts, optional_url, plain_entries,
    plain_members, read_flag, read_texts, read_url, require_issuer, require_response_type_sets,
    require_some_texts, require_url, required_issuer, required_response_type_sets,
    required_texts, required_url, Entry,
};
use crate::types::{
    copy_optional_texts, copy_optional_url, copy_sets, copy_texts, discovery_url_text,
    url_parses, EndpointUrl, IssuerUrl, ResponseTypes,
};
use vstd::prelude::*;
use vstd::string::StringExecFns;

verus! {

/// What a provider says of itself in its discovery document.
#[derive(Debug, PartialEq, Eq)]
pub struct ProviderMetadata {
    issuer: IssuerUrl,
    authorization_endpoint: EndpointUrl,
    token_endpoint: Option<EndpointUrl>,
    userinfo_endpoint: Option<EndpointUrl>,
    jwks_uri: Option<EndpointUrl>,
    registration_endpoint: Option<EndpointUrl>,
    scopes_supported: Option<Vec<String>>,
    response_types_supported: Vec<ResponseTypes>,
    response_modes_supported: Option<Vec<String>>,
    grant_types_supported: Option<Vec<String>>,
    acr_values_supported: Option<Vec<String>>,
    subject_types_supported: Vec<String>,
    id_token_signing_alg_values_supported: Vec<String>,
    id_token_encryption_alg_values_supported: Option<Vec<String>>,
    id_token_encryption_enc_values_supported: Option<Vec<String>>,
    userinfo_signing_alg_values_supported: Option<Vec<String>>,
    userinfo_encryption_alg_values_supported: Option<Vec<String>>,
    userinfo_encryption_enc_values_supported: Option<Vec<String>>,
    request_object_signing_alg_values_supported: Option<Vec<String>>,
    request_object_encryption_alg_values_supported: Option<Vec<String>>,
    request_object_encryption_enc_values_supported: Option<Vec<String>>,
    token_endpoint_auth_methods_supported: Option<Vec<String>>,
    token_endpoint_auth_signing_alg_values_supported: Option<Vec<String>>,
    display_values_supported: Option<Vec<String>>,
    claim_types_supported: Option<Vec<String>>,
    claims_supported: Option<Vec<String>>,
    service_documentation: Option<EndpointUrl>,
    claims_locales_supported: Option<Vec<String>>,
    ui_locales_supported: Option<Vec<String>>,
    claims_parameter_supported: Option<bool>,
    request_parameter_supported: Option<bool>,
    request_uri_parameter_supported: Option<bool>,
    require_request_uri_registration: Option<bool>,
    op_policy_uri: Option<EndpointUrl>,
    op_tos_uri: Option<EndpointUrl>,
}

/// What a `ProviderMetadata` holds.
pub struct ProviderMetadataView {
    pub issuer: Seq<char>,
    pub authorization_endpoint: Seq<char>,
    pub token_endpoint: Option<Seq<char>>,
    pub userinfo_endpoint: Option<Seq<char>>,
    pub jwks_uri: Option<Seq<char>>,
    pub registration_endpoint: Option<Seq<char>>,
    pub scopes_supported: Option<Seq<Seq<char>>>,
    pub response_types_supported: Seq<Seq<Seq<char>>>,
    pub response_modes_supported: Option<Seq<Seq<char>>>,
    pub grant_types_supported: Option<Seq<Seq<char>>>,
    pub acr_values_supported: Option<Seq<Seq<char>>>,
    pub subject_types_supported: Seq<Seq<char>>,
    pub id_token_signing_alg_values_supported: Seq<Seq<char>>,
    pub id_token_encryption_alg_values_supported: Option<Seq<Seq<char>>>,
    pub id_token_encryption_enc_values_supported: Option<Seq<Seq<char>>>,
    pub userinfo_signing_alg_values_supported: Option<Seq<Seq<char>>>,
    pub userinfo_encryption_alg_values_supported: Option<Seq<Seq<char>>>,
    pub userinfo_encryption_enc_values_supported: Option<Seq<Seq<char>>>,
    pub request_object_signing_alg_values_supported: Option<Seq<Seq<char>>>,
    pub request_object_encryption_alg_values_supported: Option<Seq<Seq<char>>>,
    pub request_object_encryption_enc_values_supported: Option<Seq<Seq<char>>>,
    pub token_endpoint_auth_methods_supported: Option<Seq<Seq<char>>>,
    pub token_endpoint_auth_signing_alg_values_supported: Option<Seq<Seq<char>>>,
    pub display_values_supported: Option<Seq<Seq<char>>>,
    pub claim_types_supported: Option<Seq<Seq<char>>>,
    pub claims_supported: Option<Seq<Seq<char>>>,
    pub service_documentation: Option<Seq<char>>,
    pub claims_locales_supported: Option<Seq<Seq<char>>>,
    pub ui_locales_supported: Option<Seq<Seq<char>>>,
    pub claims_parameter_supported: Option<bool>,
    pub request_parameter_supported: Option<bool>,
    pub request_uri_parameter_supported: Option<bool>,
    pub require_request_uri_registration: Option<bool>,
    pub op_policy_uri: Option<Seq<char>>,
    pub op_tos_uri: Option<Seq<char>>,
}

impl View for ProviderMetadata {
    type V = ProviderMetadataView;

    closed spec fn view(&self) -> ProviderMetadataView {
        ProviderMetadataView {
            issuer: self.issuer.deep_view(),
            authorization_endpoint: self.authorization_endpoint.deep_view(),
            token_endpoint: self.token_endpoint.deep_view(),
            userinfo_endpoint: self.userinfo_endpoint.deep_view(),
            jwks_uri: self.jwks_uri.deep_view(),
            registration_endpoint: self.registration_endpoint.deep_view(),
            scopes_supported: self.scopes_supported.deep_view(),
            response_types_supported: self.response_types_supported.deep_view(),
            response_modes_supported: self.response_modes_supported.deep_view(),
            grant_types_supported: self.grant_types_supported.deep_view(),
            acr_values_supported: self.acr_values_supported.deep_view(),
            subject_types_supported: self.subject_types_supported.deep_view(),
            id_token_signing_alg_values_supported: self
                .id_token_signing_alg_values_supported
                .deep_view(),
            id_token_encryption_alg_values_supported: self
                .id_token_encryption_alg_values_supported
                .deep_view(),
            id_token_encryption_enc_values_supported: self
                .id_token_encryption_enc_values_supported
                .deep_view(),
            userinfo_signing_alg_values_supported: self
                .userinfo_signing_alg_values_supported
                .deep_view(),
            userinfo_encryption_alg_values_supported: self
                .userinfo_encryption_alg_values_supported
                .deep_view(),
            userinfo_encryption_enc_values_supported: self
                .userinfo_encryption_enc_values_supported
                .deep_view(),
            request_object_signing_alg_values_supported: self
                .request_object_signing_alg_values_supported
                .deep_view(),
            request_object_encryption_alg_values_supported: self
                .request_object_encryption_alg_values_supported
                .deep_view(),
            request_object_encryption_enc_values_supported: self
                .request_object_encryption_enc_values_supported
                .deep_view(),
            token_endpoint_auth_methods_supported: self
                .token_endpoint_auth_methods_supported
                .deep_view(),
            token_endpoint_auth_signing_alg_values_supported: self
                .token_endpoint_auth_signing_alg_values_supported
                .deep_view(),
            display_values_supported: self.display_values_supported.deep_view(),
            claim_types_supported: self.claim_types_supported.deep_view(),
            claims_supported: self.claims_supported.deep_view(),
            service_documentation: self.service_documentation.deep_view(),
            claims_locales_supported: self.claims_locales_supported.deep_view(),
            ui_locales_supported: self.ui_locales_supported.deep_view(),
            claims_parameter_supported: self.claims_parameter_supported.deep_view(),
            request_parameter_supported: self.request_parameter_supported.deep_view(),
            request_uri_parameter_supported: self.request_uri_parameter_supported.deep_view(),
            require_request_uri_registration: self.require_request_uri_registration.deep_view(),
            op_policy_uri: self.op_policy_uri.deep_view(),
            op_tos_uri: self.op_tos_uri.deep_view(),
        }
    }
}

impl DeepView for ProviderMetadata {
    type V = ProviderMetadataView;

    open spec fn deep_view(&self) -> ProviderMetadataView {
        self@
    }
}

/// What the metadata of a provider must be: it names at least one set of
/// response types, one kind of subject identifier and one algorithm for
/// signing ID tokens.
pub open spec fn is_provider_metadata(m: ProviderMetadataView) -> bool {
    &&& m.response_types_supported.len() > 0
    &&& m.subject_types_supported.len() > 0
    &&& m.id_token_signing_alg_values_supported.len() > 0
}

impl Clone for ProviderMetadata {
    fn clone(&self) -> (copy: ProviderMetadata)
        ensures
            copy@ == self@,
    {
        proof {
            use_type_invariant(self);
        }
        ProviderMetadata {
            issuer: self.issuer.clone(),
            authorization_endpoint: self.authorization_endpoint.clone(),
            token_endpoint: copy_optional_url(&self.token_endpoint),
            userinfo_endpoint: copy_optional_url(&self.userinfo_endpoint),
            jwks_uri: copy_optional_url(&self.jwks_uri),
            registration_endpoint: copy_optional_url(&self.registration_endpoint),
            scopes_supported: copy_optional_texts(&self.scopes_supported),
            response_types_supported: copy_sets(&self.response_types_supported),
            response_modes_supported: copy_optional_texts(&self.response_modes_supported),
            grant_types_supported: copy_optional_texts(&self.grant_types_supported),
            acr_values_supported: copy_optional_texts(&self.acr_values_supported),
            subject_types_supported: copy_texts(&self.subject_types_supported),
            id_token_signing_alg_values_supported: copy_texts(
                &self.id_token_signing_alg_values_supported,
            ),
            id_token_encryption_alg_values_supported: copy_optional_texts(
                &self.id_token_encryption_alg_values_supported,
            ),
            id_token_encryption_enc_values_supported: copy_optional_texts(
                &self.id_token_encryption_enc_values_supported,
            ),
            userinfo_signing_alg_values_supported: copy_optional_texts(
                &self.userinfo_signing_alg_values_supported,
            ),
            userinfo_encryption_alg_values_supported: copy_optional_texts(
                &self.userinfo_encryption_alg_values_supported,
            ),
            userinfo_encryption_enc_values_supported: copy_optional_texts(
                &self.userinfo_encryption_enc_values_supported,
            ),
            request_object_signing_alg_values_supported: copy_optional_texts(
                &self.request_object_signing_alg_values_supported,
            ),
            request_object_encryption_alg_values_supported: copy_optional_texts(
                &self.request_object_encryption_alg_values_supported,
            ),
            request_object_encryption_enc_values_supported: copy_optional_texts(
                &self.request_object_encryption_enc_values_supported,
            ),
            token_endpoint_auth_methods_supported: copy_optional_texts(
                &self.token_endpoint_auth_methods_supported,
            ),
            token_endpoint_auth_signing_alg_values_supported: copy_optional_texts(
                &self.token_endpoint_auth_signing_alg_values_supported,
            ),
            display_values_supported: copy_optional_texts(&self.display_values_supported),
            claim_types_supported: copy_optional_texts(&self.claim_types_supported),
            claims_supported: copy_optional_texts(&self.claims_supported),
            service_documentation: copy_optional_url(&self.service_documentation),
            claims_locales_supported: copy_optional_texts(&self.claims_locales_supported),
            ui_locales_supported: copy_optional_texts(&self.ui_locales_supported),
            claims_parameter_supported: self.claims_parameter_supported,
            request_parameter_supported: self.request_parameter_supported,
            request_uri_parameter_supported: self.request_uri_parameter_supported,
            require_request_uri_registration: self.require_request_uri_registration,
            op_policy_uri: copy_optional_url(&self.op_policy_uri),
            op_tos_uri: copy_optional_url(&self.op_tos_uri),
        }
    }
}

/// The metadata that the members of a discovery document stand for. Unknown
/// members are passed over; where several members are at fault, the fault of
/// the first in the order below is the one reported.
pub open spec fn provider_metadata_of(entries: Seq<Entry>) -> Result<
    ProviderMetadataView,
    JsonFault,
> {
    let issuer = required_issuer(entries, "issuer"@);
    let authorization_endpoint = required_url(entries, "authorization_endpoint"@);
    let token_endpoint = optional_url(entries, "token_endpoint"@);
    let userinfo_endpoint = optional_url(entries, "userinfo_endpoint"@);
    let jwks_uri = optional_url(entries, "jwks_uri"@);
    let registration_endpoint = optional_url(entries, "registration_endpoint"@);
    let scopes_supported = optional_texts(entries, "scopes_supported"@);
    let response_types_supported = nonempty(
        required_response_type_sets(entries, "response_types_supported"@),
        "response_types_supported"@,
    );
    let response_modes_supported = optional_texts(entries, "response_modes_supported"@);
    let grant_types_supported = optional_texts(entries, "grant_types_supported"@);
    let acr_values_supported = optional_texts(entries, "acr_values_supported"@);
    let subject_types_supported =
        nonempty(required_texts(entries, "subject_types_supported"@), "subject_types_supported"@);
    let id_token_signing_alg_values_supported = nonempty(
        required_texts(entries, "id_token_signing_alg_values_supported"@),
        "id_token_signing_alg_values_supported"@,
    );
    let id_token_encryption_alg_values_supported =
        optional_texts(entries, "id_token_encryption_alg_values_supported"@);
    let id_token_encryption_enc_values_supported =
        optional_texts(entries, "id_token_encryption_enc_values_supported"@);
    let userinfo_signing_alg_values_supported =
        optional_texts(entries, "userinfo_signing_alg_values_supported"@);
    let userinfo_encryption_alg_values_supported =
        optional_texts(entries, "userinfo_encryption_alg_values_supported"@);
    let userinfo_encryption_enc_values_supported =
        optional_texts(entries, "userinfo_encryption_enc_values_supported"@);
    let request_object_signing_alg_values_supported =
        optional_texts(entries, "request_object_signing_alg_values_supported"@);
    let request_object_encryption_alg_values_supported =
        optional_texts(entries, "request_object_encryption_alg_values_supported"@);
    let request_object_encryption_enc_values_supported =
        optional_texts(entries, "request_object_encryption_enc_values_supported"@);
    let token_endpoint_auth_methods_supported =
        optional_texts(entries, "token_endpoint_auth_methods_supported"@);
    let token_endpoint_auth_signing_alg_values_supported =
        optional_texts(entries, "token_endpoint_auth_signing_alg_values_supported"@);
    let display_values_supported = optional_texts(entries, "display_values_supported"@);
    let claim_types_supported = optional_texts(entries, "claim_types_supported"@);
    let claims_supported = optional_texts(entries, "claims_supported"@);
    let service_documentation = optional_url(entries, "service_documentation"@);
    let claims_locales_supported = optional_texts(entries, "claims_locales_supported"@);
    let ui_locales_supported = optional_texts(entries, "ui_locales_supported"@);
    let claims_parameter_supported = optional_flag(entries, "claims_parameter_supported"@);
    let request_parameter_supported = optional_flag(entries, "request_parameter_supported"@);
    let request_uri_parameter_supported =
        optional_flag(entries, "request_uri_parameter_supported"@);
    let require_request_uri_registration =
        optional_flag(entries, "require_request_uri_registration"@);
    let op_policy_uri = optional_url(entries, "op_policy_uri"@);
    let op_tos_uri = optional_url(entries, "op_tos_uri"@);
    if issuer is Err {
        Err(issuer->Err_0)
    } else if authorization_endpoint is Err {
        Err(authorization_endpoint->Err_0)
    } else if token_endpoint is Err {
        Err(token_endpoint->Err_0)
    } else if userinfo_endpoint is Err {
        Err(userinfo_endpoint->Err_0)
    } else if jwks_uri is Err {
        Err(jwks_uri->Err_0)
    } else if registration_endpoint is Err {
        Err(registration_endpoint->Err_0)
    } else if scopes_supported is Err {
        Err(scopes_supported->Err_0)
    } else if response_types_supported is Err {
        Err(response_types_supported->Err_0)
    } else if response_modes_supported is Err {
        Err(response_modes_supported->Err_0)
    } else if grant_types_supported is Err {
        Err(grant_types_supported->Err_0)
    } else if acr_values_supported is Err {
        Err(acr_values_supported->Err_0)
    } else if subject_types_supported is Err {
        Err(subject_types_supported->Err_0)
    } else if id_token_signing_alg_values_supported is Err {
        Err(id_token_signing_alg_values_supported->Err_0)
    } else if id_token_encryption_alg_values_supported is Err {
        Err(id_token_encryption_alg_values_supported->Err_0)
    } else if id_token_encryption_enc_values_supported is Err {
        Err(id_token_encryption_enc_values_supported->Err_0)
    } else if userinfo_signing_alg_values_supported is Err {
        Err(userinfo_signing_alg_values_supported->Err_0)
    } else if userinfo_encryption_alg_values_supported is Err {
        Err(userinfo_encryption_alg_values_supported->Err_0)
    } else if userinfo_encryption_enc_values_supported is Err {
        Err(userinfo_encryption_enc_values_supported->Err_0)
    } else if request_object_signing_alg_values_supported is Err {
        Err(request_object_signing_alg_values_supported->Err_0)
    } else if request_object_encryption_alg_values_supported is Err {
        Err(request_object_encryption_alg_values_supported->Err_0)
    } else if request_object_encryption_enc_values_supported is Err {
        Err(request_object_encryption_enc_values_supported->Err_0)
    } else if token_endpoint_auth_methods_supported is Err {
        Err(token_endpoint_auth_methods_supported->Err_0)
    } else if token_endpoint_auth_signing_alg_values_supported is Err {
        Err(token_endpoint_auth_signing_alg_values_supported->Err_0)
    } else if display_values_supported is Err {
        Err(display_values_supported->Err_0)
    } else if claim_types_supported is Err {
        Err(claim_types_supported->Err_0)
    } else if claims_supported is Err {
        Err(claims_supported->Err_0)
    } else if service_documentation is Err {
        Err(service_documentation->Err_0)
    } else if claims_locales_supported is Err {
        Err(claims_locales_supported->Err_0)
    } else if ui_locales_supported is Err {
        Err(ui_locales_supported->Err_0)
    } else if claims_parameter_supported is Err {
        Err(claims_parameter_supported->Err_0)
    } else if request_parameter_supported is Err {
        Err(request_parameter_supported->Err_0)
    } else if request_uri_parameter_supported is Err {
        Err(request_uri_parameter_supported->Err_0)
    } else if require_request_uri_registration is Err {
        Err(require_request_uri_registration->Err_0)
    } else if op_policy_uri is Err {
        Err(op_policy_uri->Err_0)
    } else if op_tos_uri is Err {
        Err(op_tos_uri->Err_0)
    } else {
        Ok(
            ProviderMetadataView {
                issuer: issuer->Ok_0,
                authorization_endpoint: authorization_endpoint->Ok_0,
                token_endpoint: token_endpoint->Ok_0,
                userinfo_endpoint: userinfo_endpoint->Ok_0,
                jwks_uri: jwks_uri->Ok_0,
                registration_endpoint: registration_endpoint->Ok_0,
                scopes_supported: scopes_supported->Ok_0,
                response_types_supported: response_types_supported->Ok_0,
                response_modes_supported: response_modes_supported->Ok_0,
                grant_types_supported: grant_types_supported->Ok_0,
                acr_values_supported: acr_values_supported->Ok_0,
                subject_types_supported: subject_types_supported->Ok_0,
                id_token_signing_alg_values_supported: id_token_signing_alg_values_supported->Ok_0,
                id_token_encryption_alg_values_supported: id_token_encryption_alg_values_supported->Ok_0,
                id_token_encryption_enc_values_supported: id_token_encryption_enc_values_supported->Ok_0,
                userinfo_signing_alg_values_supported: userinfo_signing_alg_values_supported->Ok_0,
                userinfo_encryption_alg_values_supported: userinfo_encryption_alg_values_supported->Ok_0,
                userinfo_encryption_enc_values_supported: userinfo_encryption_enc_values_supported->Ok_0,
                request_object_signing_alg_values_supported: request_object_signing_alg_values_supported->Ok_0,
                request_object_encryption_alg_values_supported: request_object_encryption_alg_values_supported->Ok_0,
                request_object_encryption_enc_values_supported: request_object_encryption_enc_values_supported->Ok_0,
                token_endpoint_auth_methods_supported: token_endpoint_auth_methods_supported->Ok_0,
                token_endpoint_auth_signing_alg_values_supported: token_endpoint_auth_signing_alg_values_supported->Ok_0,
                display_values_supported: display_values_supported->Ok_0,
                claim_types_supported: claim_types_supported->Ok_0,
                claims_supported: claims_supported->Ok_0,
                service_documentation: service_documentation->Ok_0,
                claims_locales_supported: claims_locales_supported->Ok_0,
                ui_locales_supported: ui_locales_supported->Ok_0,
                claims_parameter_supported: claims_parameter_supported->Ok_0,
                request_parameter_supported: request_parameter_supported->Ok_0,
                request_uri_parameter_supported: request_uri_parameter_supported->Ok_0,
                require_request_uri_registration: require_request_uri_registration->Ok_0,
                op_policy_uri: op_policy_uri->Ok_0,
                op_tos_uri: op_tos_uri->Ok_0,
            },
        )
    }
}

/// The metadata that a discovery document stands for.
pub open spec fn decode_provider_metadata(doc: Json) -> Result<ProviderMetadataView, JsonFault> {
    match members_of(doc) {
        Ok(members) => provider_metadata_of(plain_entries(members)),
        Err(fault) => Err(fault),
    }
}

/// What is said of a document that speaks for another issuer.
pub open spec fn issuer_mismatch(found: Seq<char>, expected: Seq<char>) -> Seq<char> {
    "unexpected issuer URI `"@ + found + "` (expected `"@ + expected
        + "`); this may indicate an OpenID Provider impersonation attack"@
}

/// Why discovery failed.
#[derive(Debug)]
pub enum DiscoveryError {
    /// No URL could be made for the discovery document.
    UrlParse(url::ParseError),
    /// The transport failed.
    Request(TransportError),
    /// The response has the wrong status or content type.
    Response(u32, String),
    /// The document could not be read.
    Json(JsonError),
    /// The document breaks a rule of the protocol.
    Validation(String),
    /// Anything else.
    Other(String),
}

/// What a `DiscoveryError` says, without the words of the URL parser, the
/// transport and the JSON parser.
pub enum DiscoveryFault {
    UrlParse,
    Request,
    Response(u32, Seq<char>),
    Json(JsonFault),
    Validation(Seq<char>),
    Other(Seq<char>),
}

impl View for DiscoveryError {
    type V = DiscoveryFault;

    open spec fn view(&self) -> DiscoveryFault {
        match self {
            DiscoveryError::UrlParse(_) => DiscoveryFault::UrlParse,
            DiscoveryError::Request(_) => DiscoveryFault::Request,
            DiscoveryError::Response(status, words) => DiscoveryFault::Response(*status, words@),
            DiscoveryError::Json(error) => DiscoveryFault::Json(error@),
            DiscoveryError::Validation(words) => DiscoveryFault::Validation(words@),
            DiscoveryError::Other(words) => DiscoveryFault::Other(words@),
        }
    }
}

/// Whether a step of discovery gave the result that is stated for it.
pub open spec fn discovered<T: DeepView>(
    r: Result<T, DiscoveryError>,
    s: Result<T::V, DiscoveryFault>,
) -> bool {
    match (r, s) {
        (Ok(x), Ok(y)) => x.deep_view() == y,
        (Err(e), Err(f)) => e@ == f,
        _ => false,
    }
}

/// Whether a step of discovery failed, and with this fault.
pub open spec fn fails_with<T>(r: Result<T, DiscoveryError>, fault: DiscoveryFault) -> bool {
    match r {
        Ok(_) => false,
        Err(error) => error@ == fault,
    }
}

/// What a provider's metadata must be, once validated for `issuer`: it names
/// that issuer and no other.
pub open spec fn validated(metadata: ProviderMetadataView, issuer: Seq<char>) -> Result<
    ProviderMetadataView,
    DiscoveryFault,
> {
    if metadata.issuer == issuer {
        Ok(metadata)
    } else {
        Err(DiscoveryFault::Validation(issuer_mismatch(metadata.issuer, issuer)))
    }
}

/// What is made of the response to a discovery request for `issuer`: the
/// status must be 200, the content type JSON, the body a discovery document,
/// and the document must name `issuer`.
pub open spec fn discovery_outcome(
    issuer: Seq<char>,
    status: u32,
    headers: Headers,
    body: Seq<u8>,
) -> Result<ProviderMetadataView, DiscoveryFault> {
    if status != HTTP_STATUS_OK {
        Err(DiscoveryFault::Response(status, "unexpected HTTP status code"@))
    } else if !has_content_type(headers, mime_type_json()) {
        Err(DiscoveryFault::Response(status, content_type_complaint(headers, mime_type_json())))
    } else {
        match parsed_json(body) {
            None => Err(DiscoveryFault::Json(JsonFault::Syntax)),
            Some(doc) => match decode_provider_metadata(doc) {
                Err(fault) => Err(DiscoveryFault::Json(fault)),
                Ok(metadata) => validated(metadata, issuer),
            },
        }
    }
}

impl ProviderMetadata {
    #[verifier::type_invariant]
    spec fn well_formed(&self) -> bool {
        is_provider_metadata(self@)
    }

    /// Reads the metadata from a discovery document.
    pub fn from_json(doc: &JsonValue) -> (r: Result<ProviderMetadata, JsonError>)
        ensures
            agrees(r, decode_provider_metadata(doc@)),
    {
        let entries = match plain_members(doc) {
            Ok(entries) => entries,
            Err(error) => {
                return Err(error);
            },
        };
        let issuer = match require_issuer(&entries, "issuer") {
            Ok(value) => value,
            Err(error) => {
                return Err(error);
            },
        };
        let authorization_endpoint = match require_url(&entries, "authorization_endpoint") {
            Ok(value) => value,
            Err(error) => {
                return Err(error);
            },
        };
        let token_endpoint = match read_url(&entries, "token_endpoint") {
            Ok(value) => value,
            Err(error) => {
                return Err(error);
            },
        };
        let userinfo_endpoint = match read_url(&entries, "userinfo_endpoint") {
            Ok(value) => value,
            Err(error) => {
                return Err(error);
            },
        };
        let jwks_uri = match read_url(&entries, "jwks_uri") {
            Ok(value) => value,
            Err(error) => {
                return Err(error);
            },
        };
        let registration_endpoint = match read_url(&entries, "registration_endpoint") {
            Ok(value) => value,
            Err(error) => {
                return Err(error);
            },
        };
        let scopes_supported = match read_texts(&entries, "scopes_supported") {
            Ok(value) => value,
            Err(error) => {
                return Err(error);
            },
        };
        let response_types_supported = match require_response_type_sets(
            &entries,
            "response_types_supported",
        ) {
            Ok(value) => value,
            Err(error) => {
                return Err(error);
            },
        };
        let response_modes_supported = match read_texts(&entries, "response_modes_supported") {
            Ok(value) => value,
            Err(error) => {
                return Err(error);
            },
        };
        let grant_types_supported = match read_texts(&entries, "grant_types_supported") {
            Ok(value) => value,
            Err(error) => {
                return Err(error);
            },
        };
        let acr_values_supported = match read_texts(&entries, "acr_values_supported") {
            Ok(value) => value,
            Err(error) => {
                return Err(error);
            },
        };
        let subject_types_supported = match require_some_texts(
            &entries,
            "subject_types_supported",
        ) {
            Ok(value) => value,
            Err(error) => {
                return Err(error);
            },
        };
        let id_token_signing_alg_values_supported = match require_some_texts(
            &entries,
            "id_token_signing_alg_values_supported",
        ) {
            Ok(value) => value,
            Err(error) => {
                return Err(error);
            },
        };
        let id_token_encryption_alg_values_supported = match read_texts(
            &entries,
            "id_token_encryption_alg_values_supported",
        ) {
            Ok(value) => value,
            Err(error) => {
                return Err(error);
            },
        };
        let id_token_encryption_enc_values_supported = match read_texts(
            &entries,
            "id_token_encryption_enc_values_supported",
        ) {
            Ok(value) => value,
            Err(error) => {
                return Err(error);
            },
        };
        let userinfo_signing_alg_values_supported = match read_texts(
            &entries,
            "userinfo_signing_alg_values_supported",
        ) {
            Ok(value) => value,
            Err(error) => {
                return Err(error);
            },
        };
        let userinfo_encryption_alg_values_supported = match read_texts(
            &entries,
            "userinfo_encryption_alg_values_supported",
        ) {
            Ok(value) => value,
            Err(error) => {
                return Err(error);
            },
        };
        let userinfo_encryption_enc_values_supported = match read_texts(
            &entries,
            "userinfo_encryption_enc_values_supported",
        ) {
            Ok(value) => value,
            Err(error) => {
                return Err(error);
            },
        };
        let request_object_signing_alg_values_supported = match read_texts(
            &entries,
            "request_object_signing_alg_values_supported",
        ) {
            Ok(value) => value,
            Err(error) => {
                return Err(error);
            },
        };
        let request_object_encryption_alg_values_supported = match read_texts(
            &entries,
            "request_object_encryption_alg_values_supported",
        ) {
            Ok(value) => value,
            Err(error) => {
                return Err(error);
            },
        };
        let request_object_encryption_enc_values_supported = match read_texts(
            &entries,
            "request_object_encryption_enc_values_supported",
        ) {
            Ok(value) => value,
            Err(error) => {
                return Err(error);
            },
        };
        let token_endpoint_auth_methods_supported = match read_texts(
            &entries,
            "token_endpoint_auth_methods_supported",
        ) {
            Ok(value) => value,
            Err(error) => {
                return Err(error);
            },
        };
        let token_endpoint_auth_signing_alg_values_supported = match read_texts(
            &entries,
            "token_endpoint_auth_signing_alg_values_supported",
        ) {
            Ok(value) => value,
            Err(error) => {
                return Err(error);
            },
        };
        let display_values_supported = match read_texts(&entries, "display_values_supported") {
            Ok(value) => value,
            Err(error) => {
                return Err(error);
            },
        };
        let claim_types_supported = match read_texts(&entries, "claim_types_supported") {
            Ok(value) => value,
            Err(error) => {
                return Err(error);
            },
        };
        let claims_supported = match read_texts(&entries, "claims_supported") {
            Ok(value) => value,
            Err(error) => {
                return Err(error);
            },
        };
        let service_documentation = match read_url(&entries, "service_documentation") {
            Ok(value) => value,
            Err(error) => {
                return Err(error);
            },
        };
        let claims_locales_supported = match read_texts(&entries, "claims_locales_supported") {
            Ok(value) => value,
            Err(error) => {
                return Err(error);
            },
        };
        let ui_locales_supported = match read_texts(&entries, "ui_locales_supported") {
            Ok(value) => value,
            Err(error) => {
                return Err(error);
            },
        };
        let claims_parameter_supported = match read_flag(&entries, "claims_parameter_supported") {
            Ok(value) => value,
            Err(error) => {
                return Err(error);
            },
        };
        let request_parameter_supported = match read_flag(&entries, "request_parameter_supported") {
            Ok(value) => value,
            Err(error) => {
                return Err(error);
            },
        };
        let request_uri_parameter_supported = match read_flag(
            &entries,
            "request_uri_parameter_supported",
        ) {
            Ok(value) => value,
            Err(error) => {
                return Err(error);
            },
        };
        let require_request_uri_registration = match read_flag(
            &entries,
            "require_request_uri_registration",
        ) {
            Ok(value) => value,
            Err(error) => {
                return Err(error);
            },
        };
        let op_policy_uri = match read_url(&entries, "op_policy_uri") {
            Ok(value) => value,
            Err(error) => {
                return Err(error);
            },
        };
        let op_tos_uri = match read_url(&entries, "op_tos_uri") {
            Ok(value) => value,
            Err(error) => {
                return Err(error);
            },
        };
        Ok(
            ProviderMetadata {
                issuer,
                authorization_endpoint,
                token_endpoint,
                userinfo_endpoint,
                jwks_uri,
                registration_endpoint,
                scopes_supported,
                response_types_supported,
                response_modes_supported,
                grant_types_supported,
                acr_values_supported,
                subject_types_supported,
                id_token_signing_alg_values_supported,
                id_token_encryption_alg_values_supported,
                id_token_encryption_enc_values_supported,
                userinfo_signing_alg_values_supported,
                userinfo_encryption_alg_values_supported,
                userinfo_encryption_enc_values_supported,
                request_object_signing_alg_values_supported,
                request_object_encryption_alg_values_supported,
                request_object_encryption_enc_values_supported,
                token_endpoint_auth_methods_supported,
                token_endpoint_auth_signing_alg_values_supported,
                display_values_supported,
                claim_types_supported,
                claims_supported,
                service_documentation,
                claims_locales_supported,
                ui_locales_supported,
                claims_parameter_supported,
                request_parameter_supported,
                request_uri_parameter_supported,
                require_request_uri_registration,
                op_policy_uri,
                op_tos_uri,
            },
        )
    }

    /// Hands the metadata back where it names `issuer`, and keeps it where it
    /// names another: metadata that was not validated is not to be used.
    pub fn validate(self, issuer: &IssuerUrl) -> (r: Result<ProviderMetadata, DiscoveryError>)
        ensures
            discovered(r, validated(self@, issuer@)),
            r matches Ok(metadata) ==> metadata == self,
    {
        if self.issuer.same_as(issuer) {
            Ok(self)
        } else {
            let mut words = String::from_str("unexpected issuer URI `");
            words.append(self.issuer.as_str());
            words.append("` (expected `");
            words.append(issuer.as_str());
            words.append("`); this may indicate an OpenID Provider impersonation attack");
            Err(DiscoveryError::Validation(words))
        }
    }

    /// The issuer that the document speaks for.
    pub fn issuer(&self) -> (value: &IssuerUrl)
        ensures
            value.deep_view() == self@.issuer,
    {
        &self.issuer
    }

    /// Where the end user is sent for authentication.
    pub fn authorization_endpoint(&self) -> (value: &EndpointUrl)
        ensures
            value.deep_view() == self@.authorization_endpoint,
    {
        &self.authorization_endpoint
    }

    /// Where an authorization code is exchanged for tokens.
    pub fn token_endpoint(&self) -> (value: Option<&EndpointUrl>)
        ensures
            value.deep_view() == self@.token_endpoint,
    {
        self.token_endpoint.as_ref()
    }

    /// Where claims about the end user are had.
    pub fn userinfo_endpoint(&self) -> (value: Option<&EndpointUrl>)
        ensures
            value.deep_view() == self@.userinfo_endpoint,
    {
        self.userinfo_endpoint.as_ref()
    }

    /// Where the provider publishes its keys.
    pub fn jwks_uri(&self) -> (value: Option<&EndpointUrl>)
        ensures
            value.deep_view() == self@.jwks_uri,
    {
        self.jwks_uri.as_ref()
    }

    /// Where clients register.
    pub fn registration_endpoint(&self) -> (value: Option<&EndpointUrl>)
        ensures
            value.deep_view() == self@.registration_endpoint,
    {
        self.registration_endpoint.as_ref()
    }

    /// The scopes that the provider knows.
    pub fn scopes_supported(&self) -> (value: Option<&Vec<String>>)
        ensures
            value.deep_view() == self@.scopes_supported,
    {
        self.scopes_supported.as_ref()
    }

    /// The sets of response types that the provider knows; never empty.
    pub fn response_types_supported(&self) -> (value: &Vec<ResponseTypes>)
        ensures
            value.deep_view() == self@.response_types_supported,
            value.len() > 0,
    {
        proof {
            use_type_invariant(self);
        }
        &self.response_types_supported
    }

    /// The response modes that the provider knows.
    pub fn response_modes_supported(&self) -> (value: Option<&Vec<String>>)
        ensures
            value.deep_view() == self@.response_modes_supported,
    {
        self.response_modes_supported.as_ref()
    }

    /// The grant types that the provider knows.
    pub fn grant_types_supported(&self) -> (value: Option<&Vec<String>>)
        ensures
            value.deep_view() == self@.grant_types_supported,
    {
        self.grant_types_supported.as_ref()
    }

    /// The authentication context classes that the provider knows.
    pub fn acr_values_supported(&self) -> (value: Option<&Vec<String>>)
        ensures
            value.deep_view() == self@.acr_values_supported,
    {
        self.acr_values_supported.as_ref()
    }

    /// The kinds of subject identifier that the provider knows; never empty.
    pub fn subject_types_supported(&self) -> (value: &Vec<String>)
        ensures
            value.deep_view() == self@.subject_types_supported,
            value.len() > 0,
    {
        proof {
            use_type_invariant(self);
        }
        &self.subject_types_supported
    }

    /// The algorithms that the provider signs ID tokens with; never empty.
    pub fn id_token_signing_alg_values_supported(&self) -> (value: &Vec<String>)
        ensures
            value.deep_view() == self@.id_token_signing_alg_values_supported,
            value.len() > 0,
    {
        proof {
            use_type_invariant(self);
        }
        &self.id_token_signing_alg_values_supported
    }

    /// The algorithms that the provider encrypts the key of ID tokens with.
    pub fn id_token_encryption_alg_values_supported(&self) -> (value: Option<&Vec<String>>)
        ensures
            value.deep_view() == self@.id_token_encryption_alg_values_supported,
    {
        self.id_token_encryption_alg_values_supported.as_ref()
    }

    /// The algorithms that the provider encrypts the content of ID tokens with.
    pub fn id_token_encryption_enc_values_supported(&self) -> (value: Option<&Vec<String>>)
        ensures
            value.deep_view() == self@.id_token_encryption_enc_values_supported,
    {
        self.id_token_encryption_enc_values_supported.as_ref()
    }

    /// The algorithms that the provider signs UserInfo responses with.
    pub fn userinfo_signing_alg_values_supported(&self) -> (value: Option<&Vec<String>>)
        ensures
            value.deep_view() == self@.userinfo_signing_alg_values_supported,
    {
        self.userinfo_signing_alg_values_supported.as_ref()
    }

    /// The algorithms that the provider encrypts the key of UserInfo responses with.
    pub fn userinfo_encryption_alg_values_supported(&self) -> (value: Option<&Vec<String>>)
        ensures
            value.deep_view() == self@.userinfo_encryption_alg_values_supported,
    {
        self.userinfo_encryption_alg_values_supported.as_ref()
    }

    /// The algorithms that the provider encrypts the content of UserInfo responses with.
    pub fn userinfo_encryption_enc_values_supported(&self) -> (value: Option<&Vec<String>>)
        ensures
            value.deep_view() == self@.userinfo_encryption_enc_values_supported,
    {
        self.userinfo_encryption_enc_values_supported.as_ref()
    }

    /// The algorithms that request objects may be signed with.
    pub fn request_object_signing_alg_values_supported(&self) -> (value: Option<&Vec<String>>)
        ensures
            value.deep_view() == self@.request_object_signing_alg_values_supported,
    {
        self.request_object_signing_alg_values_supported.as_ref()
    }

    /// The algorithms that the key of request objects may be encrypted with.
    pub fn request_object_encryption_alg_values_supported(&self) -> (value: Option<&Vec<String>>)
        ensures
            value.deep_view() == self@.request_object_encryption_alg_values_supported,
    {
        self.request_object_encryption_alg_values_supported.as_ref()
    }

    /// The algorithms that the content of request objects may be encrypted with.
    pub fn request_object_encryption_enc_values_supported(&self) -> (value: Option<&Vec<String>>)
        ensures
            value.deep_view() == self@.request_object_encryption_enc_values_supported,
    {
        self.request_object_encryption_enc_values_supported.as_ref()
    }

    /// The ways in which a client may authenticate at the token endpoint.
    pub fn token_endpoint_auth_methods_supported(&self) -> (value: Option<&Vec<String>>)
        ensures
            value.deep_view() == self@.token_endpoint_auth_methods_supported,
    {
        self.token_endpoint_auth_methods_supported.as_ref()
    }

    /// The algorithms that a client may sign its authentication with.
    pub fn token_endpoint_auth_signing_alg_values_supported(&self) -> (value: Option<&Vec<String>>)
        ensures
            value.deep_view() == self@.token_endpoint_auth_signing_alg_values_supported,
    {
        self.token_endpoint_auth_signing_alg_values_supported.as_ref()
    }

    /// The ways of display that the provider knows.
    pub fn display_values_supported(&self) -> (value: Option<&Vec<String>>)
        ensures
            value.deep_view() == self@.display_values_supported,
    {
        self.display_values_supported.as_ref()
    }

    /// The kinds of claims that the provider knows.
    pub fn claim_types_supported(&self) -> (value: Option<&Vec<String>>)
        ensures
            value.deep_view() == self@.claim_types_supported,
    {
        self.claim_types_supported.as_ref()
    }

    /// The names of the claims that the provider may hand out.
    pub fn claims_supported(&self) -> (value: Option<&Vec<String>>)
        ensures
            value.deep_view() == self@.claims_supported,
    {
        self.claims_supported.as_ref()
    }

    /// Where the provider documents its service.
    pub fn service_documentation(&self) -> (value: Option<&EndpointUrl>)
        ensures
            value.deep_view() == self@.service_documentation,
    {
        self.service_documentation.as_ref()
    }

    /// The languages in which claims may be had.
    pub fn claims_locales_supported(&self) -> (value: Option<&Vec<String>>)
        ensures
            value.deep_view() == self@.claims_locales_supported,
    {
        self.claims_locales_supported.as_ref()
    }

    /// The languages of the provider's user interface.
    pub fn ui_locales_supported(&self) -> (value: Option<&Vec<String>>)
        ensures
            value.deep_view() == self@.ui_locales_supported,
    {
        self.ui_locales_supported.as_ref()
    }

    /// Whether the `claims` parameter may be used.
    pub fn claims_parameter_supported(&self) -> (value: Option<bool>)
        ensures
            value.deep_view() == self@.claims_parameter_supported,
    {
        self.claims_parameter_supported
    }

    /// Whether the `request` parameter may be used.
    pub fn request_parameter_supported(&self) -> (value: Option<bool>)
        ensures
            value.deep_view() == self@.request_parameter_supported,
    {
        self.request_parameter_supported
    }

    /// Whether the `request_uri` parameter may be used.
    pub fn request_uri_parameter_supported(&self) -> (value: Option<bool>)
        ensures
            value.deep_view() == self@.request_uri_parameter_supported,
    {
        self.request_uri_parameter_supported
    }

    /// Whether request URIs must be registered in advance.
    pub fn require_request_uri_registration(&self) -> (value: Option<bool>)
        ensures
            value.deep_view() == self@.require_request_uri_registration,
    {
        self.require_request_uri_registration
    }

    /// Where the provider states its policy toward clients.
    pub fn op_policy_uri(&self) -> (value: Option<&EndpointUrl>)
        ensures
            value.deep_view() == self@.op_policy_uri,
    {
        self.op_policy_uri.as_ref()
    }

    /// Where the provider states its terms of service.
    pub fn op_tos_uri(&self) -> (value: Option<&EndpointUrl>)
        ensures
            value.deep_view() == self@.op_tos_uri,
    {
        self.op_tos_uri.as_ref()
    }

}

/// The request that asks `issuer` for its discovery document: a `GET` of the
/// issuer's text followed by `/.well-known/openid-configuration`, accepting
/// JSON.
pub fn discovery_request(issuer: &IssuerUrl) -> (r: Result<HttpRequest, DiscoveryError>)
    ensures
        r is Ok <==> url_parses(discovery_url_text(issuer@)),
        r matches Ok(request) ==> {
            &&& request.url@ == discovery_url_text(issuer@)
            &&& request.method == HttpRequestMethod::Get
            &&& request.headers.deep_view() == seq![("Accept"@, "application/json"@)]
            &&& request.post_body@ == Seq::<u8>::empty()
        },
        r matches Err(error) ==> error@ == DiscoveryFault::UrlParse,
{
    match issuer.discovery_url() {
        Err(error) => Err(DiscoveryError::UrlParse(error)),
        Ok(url) => {
            let mut headers: Vec<(String, String)> = Vec::new();
            headers.push((String::from_str("Accept"), String::from_str("application/json")));
            Ok(
                HttpRequest {
                    url,
                    method: HttpRequestMethod::Get,
                    headers,
                    post_body: Vec::new(),
                },
            )
        },
    }
}

/// Makes of the response to a discovery request what `discovery_outcome`
/// says.
pub fn provider_metadata_from_response(issuer: &IssuerUrl, response: &HttpResponse) -> (r: Result<
    ProviderMetadata,
    DiscoveryError,
>)
    ensures
        discovered(
            r,
            discovery_outcome(
                issuer@,
                response.status_code,
                response.headers.deep_view(),
                response.body@,
            ),
        ),
        r matches Ok(metadata) ==> metadata@.issuer == issuer@,
{
    if response.status_code != HTTP_STATUS_OK {
        return Err(
            DiscoveryError::Response(
                response.status_code,
                String::from_str("unexpected HTTP status code"),
            ),
        );
    }
    match response.check_content_type("application/json") {
        Err(words) => {
            return Err(DiscoveryError::Response(response.status_code, words));
        },
        Ok(()) => {},
    }
    let doc = match parse(response.body.as_slice()) {
        Ok(doc) => doc,
        Err(error) => {
            return Err(DiscoveryError::Json(error));
        },
    };
    match ProviderMetadata::from_json(&doc) {
        Err(error) => Err(DiscoveryError::Json(error)),
        Ok(metadata) => metadata.validate(issuer),
    }
}

/// Whether `r` is what discovery makes of some response for `issuer`.
pub open spec fn answers_discovery(r: Result<ProviderMetadata, DiscoveryError>, issuer: Seq<char>) -> bool {
    exists|status: u32, headers: Headers, body: Seq<u8>|
        discovered(r, #[trigger] discovery_outcome(issuer, status, headers, body))
}

/// Fetches and validates the metadata of the provider that `issuer_url`
/// names: one request through `transport`, none where no discovery URL can
/// be made. Metadata that comes back names `issuer_url`.
pub fn get_provider_metadata<T: HttpTransport>(transport: &T, issuer_url: &IssuerUrl) -> (r: Result<
    ProviderMetadata,
    DiscoveryError,
>)
    ensures
        !url_parses(discovery_url_text(issuer_url@)) ==> fails_with(r, DiscoveryFault::UrlParse),
        url_parses(discovery_url_text(issuer_url@)) ==> fails_with(r, DiscoveryFault::Request)
            || answers_discovery(r, issuer_url@),
        r matches Ok(metadata) ==> metadata@.issuer == issuer_url@,
{
    let request = match discovery_request(issuer_url) {
        Ok(request) => request,
        Err(error) => {
            return Err(error);
        },
    };
    match transport.send(&request) {
        Err(error) => Err(DiscoveryError::Request(error)),
        Ok(response) => provider_metadata_from_response(issuer_url, &response),
    }
}

/// What is made of the response to a request for a provider's keys: the
/// status must be 200, the content type JSON and the body a key set.
pub open spec fn keys_outcome(status: u32, headers: Headers, body: Seq<u8>) -> Result<
    Seq<JsonWebKeyView>,
    DiscoveryFault,
> {
    if status != HTTP_STATUS_OK {
        Err(DiscoveryFault::Response(status, "unexpected HTTP status code"@))
    } else if !has_content_type(headers, mime_type_json()) {
        Err(DiscoveryFault::Response(status, content_type_complaint(headers, mime_type_json())))
    } else {
        match parsed_json(body) {
            None => Err(DiscoveryFault::Json(JsonFault::Syntax)),
            Some(doc) => match decode_jwks(doc) {
                Err(fault) => Err(DiscoveryFault::Json(fault)),
                Ok(keys) => Ok(keys),
            },
        }
    }
}

/// The request that asks for a provider's keys: a `GET` that accepts JSON.
pub fn keys_request(url: &EndpointUrl) -> (request: HttpRequest)
    ensures
        request.url@ == url@,
        request.method == HttpRequestMethod::Get,
        request.headers.deep_view() == seq![("Accept"@, "application/json"@)],
        request.post_body@ == Seq::<u8>::empty(),
{
    let mut headers: Vec<(String, String)> = Vec::new();
    headers.push((String::from_str("Accept"), String::from_str("application/json")));
    HttpRequest { url: url.clone(), method: HttpRequestMethod::Get, headers, post_body: Vec::new() }
}

/// Makes of the response to a request for keys what `keys_outcome` says.
pub fn keys_from_response(response: &HttpResponse) -> (r: Result<JsonWebKeySet, DiscoveryError>)
    ensures
        discovered(
            r,
            keys_outcome(response.status_code, response.headers.deep_view(), response.body@),
        ),
{
    if response.status_code != HTTP_STATUS_OK {
        return Err(
            DiscoveryError::Response(
                response.status_code,
                String::from_str("unexpected HTTP status code"),
            ),
        );
    }
    match response.check_content_type("application/json") {
        Err(words) => {
            return Err(DiscoveryError::Response(response.status_code, words));
        },
        Ok(()) => {},
    }
    let doc = match parse(response.body.as_slice()) {
        Ok(doc) => doc,
        Err(error) => {
            return Err(DiscoveryError::Json(error));
        },
    };
    match JsonWebKeySet::from_json(&doc) {
        Ok(keys) => Ok(keys),
        Err(error) => Err(DiscoveryError::Json(error)),
    }
}

/// Fetches the keys of a provider from the address that its metadata name:
/// one request through `transport`.
pub fn get_keys<T: HttpTransport>(transport: &T, url: &EndpointUrl) -> (r: Result<
    JsonWebKeySet,
    DiscoveryError,
>)
    ensures
        fails_with(r, DiscoveryFault::Request) || exists|
            status: u32,
            headers: Headers,
            body: Seq<u8>,
        | discovered(r, #[trigger] keys_outcome(status, headers, body)),
{
    let request = keys_request(url);
    match transport.send(&request) {
        Err(error) => Err(DiscoveryError::Request(error)),
        Ok(response) => keys_from_response(&response),
    }
}

/// Whatever response comes back, metadata that discovery hands out names
/// the issuer that was asked.
pub proof fn lemma_discovered_issuer_matches(
    issuer: Seq<char>,
    status: u32,
    headers: Headers,
    body: Seq<u8>,
)
    ensures
        discovery_outcome(issuer, status, headers, body) matches Ok(metadata) ==> metadata.issuer
            == issuer,
{
}

/// A well-formed answer whose document names another issuer is refused as a
/// breach of the protocol.
pub proof fn lemma_foreign_issuer_is_refused(
    issuer: Seq<char>,
    headers: Headers,
    body: Seq<u8>,
    metadata: ProviderMetadataView,
)
    requires
        has_content_type(headers, mime_type_json()),
        parsed_json(body) matches Some(doc) && decode_provider_metadata(doc) == Ok::<
            ProviderMetadataView,
            JsonFault,
        >(metadata),
        metadata.issuer != issuer,
    ensures
        discovery_outcome(issuer, HTTP_STATUS_OK, headers, body) == Err::<
            ProviderMetadataView,
            DiscoveryFault,
        >(DiscoveryFault::Validation(issuer_mismatch(metadata.issuer, issuer))),
{
}

/// Discovery takes a response of status 200 and no other: any other status
/// is refused for its status, whatever else the response holds, and a
/// response of status 200 is never refused for it.
pub proof fn lemma_discovery_status_gate(
    issuer: Seq<char>,
    status: u32,
    headers: Headers,
    body: Seq<u8>,
)
    ensures
        status != HTTP_STATUS_OK <==> discovery_outcome(issuer, status, headers, body) == Err::<
            ProviderMetadataView,
            DiscoveryFault,
        >(DiscoveryFault::Response(status, "unexpected HTTP status code"@)),
{
    if status == HTTP_STATUS_OK && !has_content_type(headers, mime_type_json()) {
        let words = content_type_complaint(headers, mime_type_json());
        reveal_strlit("unexpected HTTP status code");
        reveal_strlit("unexpected response Content-Type: `");
        reveal_strlit("missing response Content-Type, should be `");
        assert(words[0] == 'm' || words[11] == 'r');
    }
}

} // verus!
