//! What a client says of itself when it registers, and how that is written
//! and read as the members of a JSON object.

use crate::json::{has_real, lemma_object_view, Json, JsonError, JsonFault, JsonValue};
use crate::jwk::{
    lemma_jwks_writable, lemma_read_written_jwks, optional_jwks, read_jwks, write_jwks,
    written_jwks, JsonWebKeySet, JsonWebKeyView,
};
use crate::language::{holds_urls, is_localized, Localized, LocalizedClaim, LocalizedUrls};
use crate::reader::{
    agrees, localized, members_of, nonempty, optional_flag, optional_response_type_sets,
    optional_text, optional_texts, optional_unsigned, optional_url, optional_urls, read_flag,
    read_localized, read_localized_urls, read_response_type_sets, read_text, read_texts,
    read_unsigned, read_url, read_urls, require_some_urls, required_urls, tagged_entries,
    tagged_members, Entry, Member,
};
use crate::text::{copy_optional, optional_str};
use crate::types::{
    all_parse, all_response_types, copy_optional_sets, copy_optional_texts, copy_optional_url,
    copy_optional_urls, copy_urls, sets_are_valid, url_parses, urls_are_valid, EndpointUrl,
    ResponseTypes,
};
use crate::writer::{
    flatten, laid_out, lemma_flatten_splits_back, lemma_flatten_writable,
    lemma_named_flatten, lemma_read_written_flag, lemma_sets_writable, lemma_texts_writable,
    lemma_writable_object, writable,
    lemma_read_written_localized, lemma_read_written_sets, lemma_read_written_text,
    lemma_read_written_texts, lemma_read_written_unsigned, lemma_read_written_url,
    lemma_read_written_urls, lemma_tagged_wire, lemma_written_next, splits_back, uniform,
    wire_members, write_flag, write_localized, write_sets, write_text, write_texts,
    write_unsigned, write_urls, written_flag, written_localized, written_sets, written_text,
    written_texts, written_unsigned,
};
use vstd::prelude::*;

verus! {

/// What a client says of itself when it registers with a provider.
#[derive(Debug, PartialEq, Eq)]
pub struct ClientMetadata {
    redirect_uris: Vec<EndpointUrl>,
    response_types: Option<Vec<ResponseTypes>>,
    grant_types: Option<Vec<String>>,
    application_type: Option<String>,
    contacts: Option<Vec<String>>,
    client_name: Option<LocalizedClaim>,
    logo_uri: Option<LocalizedUrls>,
    client_uri: Option<LocalizedUrls>,
    policy_uri: Option<LocalizedUrls>,
    tos_uri: Option<LocalizedUrls>,
    jwks_uri: Option<EndpointUrl>,
    jwks: Option<JsonWebKeySet>,
    sector_identifier_uri: Option<EndpointUrl>,
    subject_type: Option<String>,
    id_token_signed_response_alg: Option<String>,
    id_token_encrypted_response_alg: Option<String>,
    id_token_encrypted_response_enc: Option<String>,
    userinfo_signed_response_alg: Option<String>,
    userinfo_encrypted_response_alg: Option<String>,
    userinfo_encrypted_response_enc: Option<String>,
    request_object_signing_alg: Option<String>,
    request_object_encryption_alg: Option<String>,
    request_object_encryption_enc: Option<String>,
    token_endpoint_auth_method: Option<String>,
    token_endpoint_auth_signing_alg: Option<String>,
    default_max_age: Option<u64>,
    require_auth_time: Option<bool>,
    default_acr_values: Option<Vec<String>>,
    initiate_login_uri: Option<EndpointUrl>,
    request_uris: Option<Vec<EndpointUrl>>,
}

/// The client metadata of OpenID Connect Dynamic Client Registration 1.0.
pub type Registration10ClientMetadata = ClientMetadata;

/// What a `ClientMetadata` holds.
pub struct ClientMetadataView {
    pub redirect_uris: Seq<Seq<char>>,
    pub response_types: Option<Seq<Seq<Seq<char>>>>,
    pub grant_types: Option<Seq<Seq<char>>>,
    pub application_type: Option<Seq<char>>,
    pub contacts: Option<Seq<Seq<char>>>,
    pub client_name: Option<Localized>,
    pub logo_uri: Option<Localized>,
    pub client_uri: Option<Localized>,
    pub policy_uri: Option<Localized>,
    pub tos_uri: Option<Localized>,
    pub jwks_uri: Option<Seq<char>>,
    pub jwks: Option<Seq<JsonWebKeyView>>,
    pub sector_identifier_uri: Option<Seq<char>>,
    pub subject_type: Option<Seq<char>>,
    pub id_token_signed_response_alg: Option<Seq<char>>,
    pub id_token_encrypted_response_alg: Option<Seq<char>>,
    pub id_token_encrypted_response_enc: Option<Seq<char>>,
    pub userinfo_signed_response_alg: Option<Seq<char>>,
    pub userinfo_encrypted_response_alg: Option<Seq<char>>,
    pub userinfo_encrypted_response_enc: Option<Seq<char>>,
    pub request_object_signing_alg: Option<Seq<char>>,
    pub request_object_encryption_alg: Option<Seq<char>>,
    pub request_object_encryption_enc: Option<Seq<char>>,
    pub token_endpoint_auth_method: Option<Seq<char>>,
    pub token_endpoint_auth_signing_alg: Option<Seq<char>>,
    pub default_max_age: Option<u64>,
    pub require_auth_time: Option<bool>,
    pub default_acr_values: Option<Seq<Seq<char>>>,
    pub initiate_login_uri: Option<Seq<char>>,
    pub request_uris: Option<Seq<Seq<char>>>,
}

impl View for ClientMetadata {
    type V = ClientMetadataView;

    closed spec fn view(&self) -> ClientMetadataView {
        ClientMetadataView {
            redirect_uris: self.redirect_uris.deep_view(),
            response_types: self.response_types.deep_view(),
            grant_types: self.grant_types.deep_view(),
            application_type: self.application_type.deep_view(),
            contacts: self.contacts.deep_view(),
            client_name: self.client_name.deep_view(),
            logo_uri: self.logo_uri.deep_view(),
            client_uri: self.client_uri.deep_view(),
            policy_uri: self.policy_uri.deep_view(),
            tos_uri: self.tos_uri.deep_view(),
            jwks_uri: self.jwks_uri.deep_view(),
            jwks: self.jwks.deep_view(),
            sector_identifier_uri: self.sector_identifier_uri.deep_view(),
            subject_type: self.subject_type.deep_view(),
            id_token_signed_response_alg: self.id_token_signed_response_alg.deep_view(),
            id_token_encrypted_response_alg: self.id_token_encrypted_response_alg.deep_view(),
            id_token_encrypted_response_enc: self.id_token_encrypted_response_enc.deep_view(),
            userinfo_signed_response_alg: self.userinfo_signed_response_alg.deep_view(),
            userinfo_encrypted_response_alg: self.userinfo_encrypted_response_alg.deep_view(),
            userinfo_encrypted_response_enc: self.userinfo_encrypted_response_enc.deep_view(),
            request_object_signing_alg: self.request_object_signing_alg.deep_view(),
            request_object_encryption_alg: self.request_object_encryption_alg.deep_view(),
            request_object_encryption_enc: self.request_object_encryption_enc.deep_view(),
            token_endpoint_auth_method: self.token_endpoint_auth_method.deep_view(),
            token_endpoint_auth_signing_alg: self.token_endpoint_auth_signing_alg.deep_view(),
            default_max_age: self.default_max_age.deep_view(),
            require_auth_time: self.require_auth_time.deep_view(),
            default_acr_values: self.default_acr_values.deep_view(),
            initiate_login_uri: self.initiate_login_uri.deep_view(),
            request_uris: self.request_uris.deep_view(),
        }
    }
}

impl DeepView for ClientMetadata {
    type V = ClientMetadataView;

    open spec fn deep_view(&self) -> ClientMetadataView {
        self@
    }
}

/// What client metadata must be: at least one redirect URI, every URL one
/// that the URL parser accepts, every set of response types a proper one,
/// and in every claim that comes by language no language twice.
pub open spec fn is_client_metadata(m: ClientMetadataView) -> bool {
    &&& (m.redirect_uris.len() > 0 && all_parse(m.redirect_uris))
    &&& (m.response_types matches Some(sets) ==> all_response_types(sets))
    &&& (m.client_name matches Some(claim) ==> is_localized(claim))
    &&& (m.logo_uri matches Some(claim) ==> is_localized(claim) && holds_urls(claim))
    &&& (m.client_uri matches Some(claim) ==> is_localized(claim) && holds_urls(claim))
    &&& (m.policy_uri matches Some(claim) ==> is_localized(claim) && holds_urls(claim))
    &&& (m.tos_uri matches Some(claim) ==> is_localized(claim) && holds_urls(claim))
    &&& (m.jwks_uri matches Some(url) ==> url_parses(url))
    &&& (m.sector_identifier_uri matches Some(url) ==> url_parses(url))
    &&& (m.initiate_login_uri matches Some(url) ==> url_parses(url))
    &&& (m.request_uris matches Some(urls) ==> all_parse(urls))
}

/// The names of the members of client metadata, in the order in which they
/// are written.
pub open spec fn client_metadata_names() -> Seq<Seq<char>> {
    seq![
        "redirect_uris"@,
        "response_types"@,
        "grant_types"@,
        "application_type"@,
        "contacts"@,
        "client_name"@,
        "logo_uri"@,
        "client_uri"@,
        "policy_uri"@,
        "tos_uri"@,
        "jwks_uri"@,
        "jwks"@,
        "sector_identifier_uri"@,
        "subject_type"@,
        "id_token_signed_response_alg"@,
        "id_token_encrypted_response_alg"@,
        "id_token_encrypted_response_enc"@,
        "userinfo_signed_response_alg"@,
        "userinfo_encrypted_response_alg"@,
        "userinfo_encrypted_response_enc"@,
        "request_object_signing_alg"@,
        "request_object_encryption_alg"@,
        "request_object_encryption_enc"@,
        "token_endpoint_auth_method"@,
        "token_endpoint_auth_signing_alg"@,
        "default_max_age"@,
        "require_auth_time"@,
        "default_acr_values"@,
        "initiate_login_uri"@,
        "request_uris"@,
    ]
}

/// The members that stand for each part of client metadata. A claim that
/// comes by language has one member for each language, its key the name
/// alone or the name, `#` and the language tag.
pub open spec fn client_metadata_pieces(m: ClientMetadataView) -> Seq<Seq<Entry>> {
    seq![
        written_texts("redirect_uris"@, Some(m.redirect_uris)),
        written_sets("response_types"@, m.response_types),
        written_texts("grant_types"@, m.grant_types),
        written_text("application_type"@, m.application_type),
        written_texts("contacts"@, m.contacts),
        written_localized("client_name"@, m.client_name),
        written_localized("logo_uri"@, m.logo_uri),
        written_localized("client_uri"@, m.client_uri),
        written_localized("policy_uri"@, m.policy_uri),
        written_localized("tos_uri"@, m.tos_uri),
        written_text("jwks_uri"@, m.jwks_uri),
        written_jwks("jwks"@, m.jwks),
        written_text("sector_identifier_uri"@, m.sector_identifier_uri),
        written_text("subject_type"@, m.subject_type),
        written_text("id_token_signed_response_alg"@, m.id_token_signed_response_alg),
        written_text("id_token_encrypted_response_alg"@, m.id_token_encrypted_response_alg),
        written_text("id_token_encrypted_response_enc"@, m.id_token_encrypted_response_enc),
        written_text("userinfo_signed_response_alg"@, m.userinfo_signed_response_alg),
        written_text("userinfo_encrypted_response_alg"@, m.userinfo_encrypted_response_alg),
        written_text("userinfo_encrypted_response_enc"@, m.userinfo_encrypted_response_enc),
        written_text("request_object_signing_alg"@, m.request_object_signing_alg),
        written_text("request_object_encryption_alg"@, m.request_object_encryption_alg),
        written_text("request_object_encryption_enc"@, m.request_object_encryption_enc),
        written_text("token_endpoint_auth_method"@, m.token_endpoint_auth_method),
        written_text("token_endpoint_auth_signing_alg"@, m.token_endpoint_auth_signing_alg),
        written_unsigned("default_max_age"@, m.default_max_age),
        written_flag("require_auth_time"@, m.require_auth_time),
        written_texts("default_acr_values"@, m.default_acr_values),
        written_text("initiate_login_uri"@, m.initiate_login_uri),
        written_texts("request_uris"@, m.request_uris),
    ]
}

/// The members that stand for client metadata.
pub open spec fn client_metadata_members(m: ClientMetadataView) -> Seq<(Seq<char>, Json)> {
    wire_members(flatten(client_metadata_pieces(m)))
}

/// The document that stands for client metadata.
pub open spec fn client_metadata_json(m: ClientMetadataView) -> Json {
    Json::Object(client_metadata_members(m))
}

/// The client metadata that the members of a document stand for. Each key
/// is split at its first `#` into a name and a language tag; names that the
/// metadata does not know are passed over. Where several members are at
/// fault, the fault of the first in the order below is the one reported.
pub open spec fn client_metadata_of(entries: Seq<Entry>) -> Result<ClientMetadataView, JsonFault> {
    let redirect_uris = nonempty(required_urls(entries, "redirect_uris"@), "redirect_uris"@);
    let response_types = optional_response_type_sets(entries, "response_types"@);
    let grant_types = optional_texts(entries, "grant_types"@);
    let application_type = optional_text(entries, "application_type"@);
    let contacts = optional_texts(entries, "contacts"@);
    let client_name = localized(entries, "client_name"@, false);
    let logo_uri = localized(entries, "logo_uri"@, true);
    let client_uri = localized(entries, "client_uri"@, true);
    let policy_uri = localized(entries, "policy_uri"@, true);
    let tos_uri = localized(entries, "tos_uri"@, true);
    let jwks_uri = optional_url(entries, "jwks_uri"@);
    let jwks = optional_jwks(entries, "jwks"@);
    let sector_identifier_uri = optional_url(entries, "sector_identifier_uri"@);
    let subject_type = optional_text(entries, "subject_type"@);
    let id_token_signed_response_alg = optional_text(entries, "id_token_signed_response_alg"@);
    let id_token_encrypted_response_alg =
        optional_text(entries, "id_token_encrypted_response_alg"@);
    let id_token_encrypted_response_enc =
        optional_text(entries, "id_token_encrypted_response_enc"@);
    let userinfo_signed_response_alg = optional_text(entries, "userinfo_signed_response_alg"@);
    let userinfo_encrypted_response_alg =
        optional_text(entries, "userinfo_encrypted_response_alg"@);
    let userinfo_encrypted_response_enc =
        optional_text(entries, "userinfo_encrypted_response_enc"@);
    let request_object_signing_alg = optional_text(entries, "request_object_signing_alg"@);
    let request_object_encryption_alg = optional_text(entries, "request_object_encryption_alg"@);
    let request_object_encryption_enc = optional_text(entries, "request_object_encryption_enc"@);
    let token_endpoint_auth_method = optional_text(entries, "token_endpoint_auth_method"@);
    let token_endpoint_auth_signing_alg =
        optional_text(entries, "token_endpoint_auth_signing_alg"@);
    let default_max_age = optional_unsigned(entries, "default_max_age"@);
    let require_auth_time = optional_flag(entries, "require_auth_time"@);
    let default_acr_values = optional_texts(entries, "default_acr_values"@);
    let initiate_login_uri = optional_url(entries, "initiate_login_uri"@);
    let request_uris = optional_urls(entries, "request_uris"@);
    if redirect_uris is Err {
        Err(redirect_uris->Err_0)
    } else if response_types is Err {
        Err(response_types->Err_0)
    } else if grant_types is Err {
        Err(grant_types->Err_0)
    } else if application_type is Err {
        Err(application_type->Err_0)
    } else if contacts is Err {
        Err(contacts->Err_0)
    } else if client_name is Err {
        Err(client_name->Err_0)
    } else if logo_uri is Err {
        Err(logo_uri->Err_0)
    } else if client_uri is Err {
        Err(client_uri->Err_0)
    } else if policy_uri is Err {
        Err(policy_uri->Err_0)
    } else if tos_uri is Err {
        Err(tos_uri->Err_0)
    } else if jwks_uri is Err {
        Err(jwks_uri->Err_0)
    } else if jwks is Err {
        Err(jwks->Err_0)
    } else if sector_identifier_uri is Err {
        Err(sector_identifier_uri->Err_0)
    } else if subject_type is Err {
        Err(subject_type->Err_0)
    } else if id_token_signed_response_alg is Err {
        Err(id_token_signed_response_alg->Err_0)
    } else if id_token_encrypted_response_alg is Err {
        Err(id_token_encrypted_response_alg->Err_0)
    } else if id_token_encrypted_response_enc is Err {
        Err(id_token_encrypted_response_enc->Err_0)
    } else if userinfo_signed_response_alg is Err {
        Err(userinfo_signed_response_alg->Err_0)
    } else if userinfo_encrypted_response_alg is Err {
        Err(userinfo_encrypted_response_alg->Err_0)
    } else if userinfo_encrypted_response_enc is Err {
        Err(userinfo_encrypted_response_enc->Err_0)
    } else if request_object_signing_alg is Err {
        Err(request_object_signing_alg->Err_0)
    } else if request_object_encryption_alg is Err {
        Err(request_object_encryption_alg->Err_0)
    } else if request_object_encryption_enc is Err {
        Err(request_object_encryption_enc->Err_0)
    } else if token_endpoint_auth_method is Err {
        Err(token_endpoint_auth_method->Err_0)
    } else if token_endpoint_auth_signing_alg is Err {
        Err(token_endpoint_auth_signing_alg->Err_0)
    } else if default_max_age is Err {
        Err(default_max_age->Err_0)
    } else if require_auth_time is Err {
        Err(require_auth_time->Err_0)
    } else if default_acr_values is Err {
        Err(default_acr_values->Err_0)
    } else if initiate_login_uri is Err {
        Err(initiate_login_uri->Err_0)
    } else if request_uris is Err {
        Err(request_uris->Err_0)
    } else {
        Ok(
            ClientMetadataView {
                redirect_uris: redirect_uris->Ok_0,
                response_types: response_types->Ok_0,
                grant_types: grant_types->Ok_0,
                application_type: application_type->Ok_0,
                contacts: contacts->Ok_0,
                client_name: client_name->Ok_0,
                logo_uri: logo_uri->Ok_0,
                client_uri: client_uri->Ok_0,
                policy_uri: policy_uri->Ok_0,
                tos_uri: tos_uri->Ok_0,
                jwks_uri: jwks_uri->Ok_0,
                jwks: jwks->Ok_0,
                sector_identifier_uri: sector_identifier_uri->Ok_0,
                subject_type: subject_type->Ok_0,
                id_token_signed_response_alg: id_token_signed_response_alg->Ok_0,
                id_token_encrypted_response_alg: id_token_encrypted_response_alg->Ok_0,
                id_token_encrypted_response_enc: id_token_encrypted_response_enc->Ok_0,
                userinfo_signed_response_alg: userinfo_signed_response_alg->Ok_0,
                userinfo_encrypted_response_alg: userinfo_encrypted_response_alg->Ok_0,
                userinfo_encrypted_response_enc: userinfo_encrypted_response_enc->Ok_0,
                request_object_signing_alg: request_object_signing_alg->Ok_0,
                request_object_encryption_alg: request_object_encryption_alg->Ok_0,
                request_object_encryption_enc: request_object_encryption_enc->Ok_0,
                token_endpoint_auth_method: token_endpoint_auth_method->Ok_0,
                token_endpoint_auth_signing_alg: token_endpoint_auth_signing_alg->Ok_0,
                default_max_age: default_max_age->Ok_0,
                require_auth_time: require_auth_time->Ok_0,
                default_acr_values: default_acr_values->Ok_0,
                initiate_login_uri: initiate_login_uri->Ok_0,
                request_uris: request_uris->Ok_0,
            },
        )
    }
}

/// Metadata that say nothing but where the end user may be sent back.
pub open spec fn bare_client_metadata(redirect_uris: Seq<Seq<char>>) -> ClientMetadataView {
    ClientMetadataView {
        redirect_uris,
        response_types: None,
        grant_types: None,
        application_type: None,
        contacts: None,
        client_name: None,
        logo_uri: None,
        client_uri: None,
        policy_uri: None,
        tos_uri: None,
        jwks_uri: None,
        jwks: None,
        sector_identifier_uri: None,
        subject_type: None,
        id_token_signed_response_alg: None,
        id_token_encrypted_response_alg: None,
        id_token_encrypted_response_enc: None,
        userinfo_signed_response_alg: None,
        userinfo_encrypted_response_alg: None,
        userinfo_encrypted_response_enc: None,
        request_object_signing_alg: None,
        request_object_encryption_alg: None,
        request_object_encryption_enc: None,
        token_endpoint_auth_method: None,
        token_endpoint_auth_signing_alg: None,
        default_max_age: None,
        require_auth_time: None,
        default_acr_values: None,
        initiate_login_uri: None,
        request_uris: None,
    }
}

/// The client metadata that a document stands for.
pub open spec fn decode_client_metadata(doc: Json) -> Result<ClientMetadataView, JsonFault> {
    match members_of(doc) {
        Ok(members) => client_metadata_of(tagged_entries(members)),
        Err(fault) => Err(fault),
    }
}

/// The text of an optional URL.
fn url_in(value: &Option<EndpointUrl>) -> (text: Option<&str>)
    ensures
        text.deep_view() == value.deep_view(),
{
    match value {
        Some(url) => Some(url.as_str()),
        None => None,
    }
}

/// The claim in an optional claim of URLs.
fn claim_in(value: &Option<LocalizedUrls>) -> (claim: Option<&LocalizedClaim>)
    ensures
        claim.deep_view() == value.deep_view(),
{
    match value {
        Some(urls) => Some(urls.claim()),
        None => None,
    }
}

/// What the type of an optional URL promises of it.
fn known_url(value: &Option<EndpointUrl>)
    ensures
        value.deep_view() matches Some(url) ==> url_parses(url),
{
    match value {
        Some(url) => {
            let _ = url.as_str();
        },
        None => {},
    }
}

/// What the type of an optional list of URLs promises of it.
fn known_urls(value: &Option<Vec<EndpointUrl>>)
    ensures
        value.deep_view() matches Some(urls) ==> all_parse(urls),
{
    match value {
        Some(urls) => {
            urls_are_valid(urls);
        },
        None => {},
    }
}

/// What the type of an optional list of sets of response types promises of
/// it.
fn known_sets(value: &Option<Vec<ResponseTypes>>)
    ensures
        value.deep_view() matches Some(sets) ==> all_response_types(sets),
{
    match value {
        Some(sets) => {
            sets_are_valid(sets);
        },
        None => {},
    }
}

/// What the type of an optional claim promises of it.
fn known_claim(value: &Option<LocalizedClaim>)
    ensures
        value.deep_view() matches Some(claim) ==> is_localized(claim),
{
    match value {
        Some(claim) => {
            let _ = claim.len();
        },
        None => {},
    }
}

/// What the type of an optional claim of URLs promises of it.
fn known_urls_claim(value: &Option<LocalizedUrls>)
    ensures
        value.deep_view() matches Some(claim) ==> is_localized(claim) && holds_urls(claim),
{
    match value {
        Some(urls) => {
            let _ = urls.claim();
        },
        None => {},
    }
}

/// A copy of an optional claim.
fn copy_optional_claim(value: &Option<LocalizedClaim>) -> (copy: Option<LocalizedClaim>)
    ensures
        copy.deep_view() == value.deep_view(),
{
    match value {
        Some(claim) => Some(claim.clone()),
        None => None,
    }
}

/// A copy of an optional claim of URLs.
fn copy_optional_urls_claim(value: &Option<LocalizedUrls>) -> (copy: Option<LocalizedUrls>)
    ensures
        copy.deep_view() == value.deep_view(),
{
    match value {
        Some(urls) => Some(urls.clone()),
        None => None,
    }
}

/// A copy of an optional key set.
fn copy_optional_keys(value: &Option<JsonWebKeySet>) -> (copy: Option<JsonWebKeySet>)
    ensures
        copy.deep_view() == value.deep_view(),
{
    match value {
        Some(keys) => Some(keys.clone()),
        None => None,
    }
}

impl ClientMetadata {
    #[verifier::type_invariant]
    spec fn well_formed(&self) -> bool {
        is_client_metadata(self@)
    }

    /// Metadata that says nothing but where the end user may be sent back.
    pub fn new(redirect_uris: Vec<EndpointUrl>) -> (metadata: ClientMetadata)
        requires
            redirect_uris.len() > 0,
        ensures
            metadata@ == bare_client_metadata(redirect_uris.deep_view()),
            is_client_metadata(metadata@),
    {
        urls_are_valid(&redirect_uris);
        ClientMetadata {
            redirect_uris,
            response_types: None,
            grant_types: None,
            application_type: None,
            contacts: None,
            client_name: None,
            logo_uri: None,
            client_uri: None,
            policy_uri: None,
            tos_uri: None,
            jwks_uri: None,
            jwks: None,
            sector_identifier_uri: None,
            subject_type: None,
            id_token_signed_response_alg: None,
            id_token_encrypted_response_alg: None,
            id_token_encrypted_response_enc: None,
            userinfo_signed_response_alg: None,
            userinfo_encrypted_response_alg: None,
            userinfo_encrypted_response_enc: None,
            request_object_signing_alg: None,
            request_object_encryption_alg: None,
            request_object_encryption_enc: None,
            token_endpoint_auth_method: None,
            token_endpoint_auth_signing_alg: None,
            default_max_age: None,
            require_auth_time: None,
            default_acr_values: None,
            initiate_login_uri: None,
            request_uris: None,
        }
    }

    /// Reads client metadata from the members of an object.
    pub fn from_members(entries: &Vec<Member>) -> (r: Result<ClientMetadata, JsonError>)
        ensures
            agrees(r, client_metadata_of(entries.deep_view())),
    {
        let redirect_uris = match require_some_urls(entries, "redirect_uris") {
            Ok(value) => value,
            Err(error) => {
                return Err(error);
            },
        };
        let response_types = match read_response_type_sets(entries, "response_types") {
            Ok(value) => value,
            Err(error) => {
                return Err(error);
            },
        };
        let grant_types = match read_texts(entries, "grant_types") {
            Ok(value) => value,
            Err(error) => {
                return Err(error);
            },
        };
        let application_type = match read_text(entries, "application_type") {
            Ok(value) => value,
            Err(error) => {
                return Err(error);
            },
        };
        let contacts = match read_texts(entries, "contacts") {
            Ok(value) => value,
            Err(error) => {
                return Err(error);
            },
        };
        let client_name = match read_localized(entries, "client_name", false) {
            Ok(value) => value,
            Err(error) => {
                return Err(error);
            },
        };
        let logo_uri = match read_localized_urls(entries, "logo_uri") {
            Ok(value) => value,
            Err(error) => {
                return Err(error);
            },
        };
        let client_uri = match read_localized_urls(entries, "client_uri") {
            Ok(value) => value,
            Err(error) => {
                return Err(error);
            },
        };
        let policy_uri = match read_localized_urls(entries, "policy_uri") {
            Ok(value) => value,
            Err(error) => {
                return Err(error);
            },
        };
        let tos_uri = match read_localized_urls(entries, "tos_uri") {
            Ok(value) => value,
            Err(error) => {
                return Err(error);
            },
        };
        let jwks_uri = match read_url(entries, "jwks_uri") {
            Ok(value) => value,
            Err(error) => {
                return Err(error);
            },
        };
        let jwks = match read_jwks(entries, "jwks") {
            Ok(value) => value,
            Err(error) => {
                return Err(error);
            },
        };
        let sector_identifier_uri = match read_url(entries, "sector_identifier_uri") {
            Ok(value) => value,
            Err(error) => {
                return Err(error);
            },
        };
        let subject_type = match read_text(entries, "subject_type") {
            Ok(value) => value,
            Err(error) => {
                return Err(error);
            },
        };
        let id_token_signed_response_alg = match read_text(
            entries,
            "id_token_signed_response_alg",
        ) {
            Ok(value) => value,
            Err(error) => {
                return Err(error);
            },
        };
        let id_token_encrypted_response_alg = match read_text(
            entries,
            "id_token_encrypted_response_alg",
        ) {
            Ok(value) => value,
            Err(error) => {
                return Err(error);
            },
        };
        let id_token_encrypted_response_enc = match read_text(
            entries,
            "id_token_encrypted_response_enc",
        ) {
            Ok(value) => value,
            Err(error) => {
                return Err(error);
            },
        };
        let userinfo_signed_response_alg = match read_text(
            entries,
            "userinfo_signed_response_alg",
        ) {
            Ok(value) => value,
            Err(error) => {
                return Err(error);
            },
        };
        let userinfo_encrypted_response_alg = match read_text(
            entries,
            "userinfo_encrypted_response_alg",
        ) {
            Ok(value) => value,
            Err(error) => {
                return Err(error);
            },
        };
        let userinfo_encrypted_response_enc = match read_text(
            entries,
            "userinfo_encrypted_response_enc",
        ) {
            Ok(value) => value,
            Err(error) => {
                return Err(error);
            },
        };
        let request_object_signing_alg = match read_text(entries, "request_object_signing_alg") {
            Ok(value) => value,
            Err(error) => {
                return Err(error);
            },
        };
        let request_object_encryption_alg = match read_text(
            entries,
            "request_object_encryption_alg",
        ) {
            Ok(value) => value,
            Err(error) => {
                return Err(error);
            },
        };
        let request_object_encryption_enc = match read_text(
            entries,
            "request_object_encryption_enc",
        ) {
            Ok(value) => value,
            Err(error) => {
                return Err(error);
            },
        };
        let token_endpoint_auth_method = match read_text(entries, "token_endpoint_auth_method") {
            Ok(value) => value,
            Err(error) => {
                return Err(error);
            },
        };
        let token_endpoint_auth_signing_alg = match read_text(
            entries,
            "token_endpoint_auth_signing_alg",
        ) {
            Ok(value) => value,
            Err(error) => {
                return Err(error);
            },
        };
        let default_max_age = match read_unsigned(entries, "default_max_age") {
            Ok(value) => value,
            Err(error) => {
                return Err(error);
            },
        };
        let require_auth_time = match read_flag(entries, "require_auth_time") {
            Ok(value) => value,
            Err(error) => {
                return Err(error);
            },
        };
        let default_acr_values = match read_texts(entries, "default_acr_values") {
            Ok(value) => value,
            Err(error) => {
                return Err(error);
            },
        };
        let initiate_login_uri = match read_url(entries, "initiate_login_uri") {
            Ok(value) => value,
            Err(error) => {
                return Err(error);
            },
        };
        let request_uris = match read_urls(entries, "request_uris") {
            Ok(value) => value,
            Err(error) => {
                return Err(error);
            },
        };
        urls_are_valid(&redirect_uris);
        known_sets(&response_types);
        known_claim(&client_name);
        known_urls_claim(&logo_uri);
        known_urls_claim(&client_uri);
        known_urls_claim(&policy_uri);
        known_urls_claim(&tos_uri);
        known_url(&jwks_uri);
        known_url(&sector_identifier_uri);
        known_url(&initiate_login_uri);
        known_urls(&request_uris);
        Ok(
            ClientMetadata {
                redirect_uris,
                response_types,
                grant_types,
                application_type,
                contacts,
                client_name,
                logo_uri,
                client_uri,
                policy_uri,
                tos_uri,
                jwks_uri,
                jwks,
                sector_identifier_uri,
                subject_type,
                id_token_signed_response_alg,
                id_token_encrypted_response_alg,
                id_token_encrypted_response_enc,
                userinfo_signed_response_alg,
                userinfo_encrypted_response_alg,
                userinfo_encrypted_response_enc,
                request_object_signing_alg,
                request_object_encryption_alg,
                request_object_encryption_enc,
                token_endpoint_auth_method,
                token_endpoint_auth_signing_alg,
                default_max_age,
                require_auth_time,
                default_acr_values,
                initiate_login_uri,
                request_uris,
            },
        )
    }

    /// Reads client metadata from its document.
    pub fn from_json(doc: &JsonValue) -> (r: Result<ClientMetadata, JsonError>)
        ensures
            agrees(r, decode_client_metadata(doc@)),
    {
        match tagged_members(doc) {
            Ok(entries) => ClientMetadata::from_members(&entries),
            Err(error) => Err(error),
        }
    }

    /// Writes the members that stand for the metadata.
    pub fn to_members(&self) -> (members: Vec<(String, JsonValue)>)
        ensures
            members.deep_view() == client_metadata_members(self@),
    {
        let ghost pieces = client_metadata_pieces(self@);
        let mut out: Vec<(String, JsonValue)> = Vec::new();
        proof {
            assert(out.deep_view() =~= wire_members(flatten(pieces.take(0))));
        }
        let ghost before = out.deep_view();
        write_urls(&mut out, "redirect_uris", Some(&self.redirect_uris));
        proof {
            lemma_written_next(pieces, 0, before, out.deep_view());
        }
        let ghost before = out.deep_view();
        write_sets(&mut out, "response_types", self.response_types.as_ref());
        proof {
            lemma_written_next(pieces, 1, before, out.deep_view());
        }
        let ghost before = out.deep_view();
        write_texts(&mut out, "grant_types", self.grant_types.as_ref());
        proof {
            lemma_written_next(pieces, 2, before, out.deep_view());
        }
        let ghost before = out.deep_view();
        write_text(&mut out, "application_type", optional_str(&self.application_type));
        proof {
            lemma_written_next(pieces, 3, before, out.deep_view());
        }
        let ghost before = out.deep_view();
        write_texts(&mut out, "contacts", self.contacts.as_ref());
        proof {
            lemma_written_next(pieces, 4, before, out.deep_view());
        }
        let ghost before = out.deep_view();
        write_localized(&mut out, "client_name", self.client_name.as_ref());
        proof {
            lemma_written_next(pieces, 5, before, out.deep_view());
        }
        let ghost before = out.deep_view();
        write_localized(&mut out, "logo_uri", claim_in(&self.logo_uri));
        proof {
            lemma_written_next(pieces, 6, before, out.deep_view());
        }
        let ghost before = out.deep_view();
        write_localized(&mut out, "client_uri", claim_in(&self.client_uri));
        proof {
            lemma_written_next(pieces, 7, before, out.deep_view());
        }
        let ghost before = out.deep_view();
        write_localized(&mut out, "policy_uri", claim_in(&self.policy_uri));
        proof {
            lemma_written_next(pieces, 8, before, out.deep_view());
        }
        let ghost before = out.deep_view();
        write_localized(&mut out, "tos_uri", claim_in(&self.tos_uri));
        proof {
            lemma_written_next(pieces, 9, before, out.deep_view());
        }
        let ghost before = out.deep_view();
        write_text(&mut out, "jwks_uri", url_in(&self.jwks_uri));
        proof {
            lemma_written_next(pieces, 10, before, out.deep_view());
        }
        let ghost before = out.deep_view();
        write_jwks(&mut out, "jwks", self.jwks.as_ref());
        proof {
            lemma_written_next(pieces, 11, before, out.deep_view());
        }
        let ghost before = out.deep_view();
        write_text(&mut out, "sector_identifier_uri", url_in(&self.sector_identifier_uri));
        proof {
            lemma_written_next(pieces, 12, before, out.deep_view());
        }
        let ghost before = out.deep_view();
        write_text(&mut out, "subject_type", optional_str(&self.subject_type));
        proof {
            lemma_written_next(pieces, 13, before, out.deep_view());
        }
        let ghost before = out.deep_view();
        write_text(
            &mut out,
            "id_token_signed_response_alg",
            optional_str(&self.id_token_signed_response_alg),
        );
        proof {
            lemma_written_next(pieces, 14, before, out.deep_view());
        }
        let ghost before = out.deep_view();
        write_text(
            &mut out,
            "id_token_encrypted_response_alg",
            optional_str(&self.id_token_encrypted_response_alg),
        );
        proof {
            lemma_written_next(pieces, 15, before, out.deep_view());
        }
        let ghost before = out.deep_view();
        write_text(
            &mut out,
            "id_token_encrypted_response_enc",
            optional_str(&self.id_token_encrypted_response_enc),
        );
        proof {
            lemma_written_next(pieces, 16, before, out.deep_view());
        }
        let ghost before = out.deep_view();
        write_text(
            &mut out,
            "userinfo_signed_response_alg",
            optional_str(&self.userinfo_signed_response_alg),
        );
        proof {
            lemma_written_next(pieces, 17, before, out.deep_view());
        }
        let ghost before = out.deep_view();
        write_text(
            &mut out,
            "userinfo_encrypted_response_alg",
            optional_str(&self.userinfo_encrypted_response_alg),
        );
        proof {
            lemma_written_next(pieces, 18, before, out.deep_view());
        }
        let ghost before = out.deep_view();
        write_text(
            &mut out,
            "userinfo_encrypted_response_enc",
            optional_str(&self.userinfo_encrypted_response_enc),
        );
        proof {
            lemma_written_next(pieces, 19, before, out.deep_view());
        }
        let ghost before = out.deep_view();
        write_text(
            &mut out,
            "request_object_signing_alg",
            optional_str(&self.request_object_signing_alg),
        );
        proof {
            lemma_written_next(pieces, 20, before, out.deep_view());
        }
        let ghost before = out.deep_view();
        write_text(
            &mut out,
            "request_object_encryption_alg",
            optional_str(&self.request_object_encryption_alg),
        );
        proof {
            lemma_written_next(pieces, 21, before, out.deep_view());
        }
        let ghost before = out.deep_view();
        write_text(
            &mut out,
            "request_object_encryption_enc",
            optional_str(&self.request_object_encryption_enc),
        );
        proof {
            lemma_written_next(pieces, 22, before, out.deep_view());
        }
        let ghost before = out.deep_view();
        write_text(
            &mut out,
            "token_endpoint_auth_method",
            optional_str(&self.token_endpoint_auth_method),
        );
        proof {
            lemma_written_next(pieces, 23, before, out.deep_view());
        }
        let ghost before = out.deep_view();
        write_text(
            &mut out,
            "token_endpoint_auth_signing_alg",
            optional_str(&self.token_endpoint_auth_signing_alg),
        );
        proof {
            lemma_written_next(pieces, 24, before, out.deep_view());
        }
        let ghost before = out.deep_view();
        write_unsigned(&mut out, "default_max_age", self.default_max_age);
        proof {
            lemma_written_next(pieces, 25, before, out.deep_view());
        }
        let ghost before = out.deep_view();
        write_flag(&mut out, "require_auth_time", self.require_auth_time);
        proof {
            lemma_written_next(pieces, 26, before, out.deep_view());
        }
        let ghost before = out.deep_view();
        write_texts(&mut out, "default_acr_values", self.default_acr_values.as_ref());
        proof {
            lemma_written_next(pieces, 27, before, out.deep_view());
        }
        let ghost before = out.deep_view();
        write_text(&mut out, "initiate_login_uri", url_in(&self.initiate_login_uri));
        proof {
            lemma_written_next(pieces, 28, before, out.deep_view());
        }
        let ghost before = out.deep_view();
        write_urls(&mut out, "request_uris", self.request_uris.as_ref());
        proof {
            lemma_written_next(pieces, 29, before, out.deep_view());
        }
        out
    }

    /// Writes the metadata as its document, from which they can be read
    /// again.
    pub fn to_json(&self) -> (doc: JsonValue)
        ensures
            doc@ == client_metadata_json(self@),
            decode_client_metadata(doc@) == Ok::<ClientMetadataView, JsonFault>(self@),
    {
        let doc = JsonValue::Object(self.to_members());
        proof {
            lemma_object_view(doc);
            use_type_invariant(self);
            lemma_client_metadata_round_trip(self@);
        }
        doc
    }

    /// The metadata are what metadata must be.
    pub fn is_valid(&self)
        ensures
            is_client_metadata(self@),
    {
        proof {
            use_type_invariant(self);
        }
    }

    /// The addresses to which the provider may send the end user back; never empty.
    pub fn redirect_uris(&self) -> (value: &Vec<EndpointUrl>)
        ensures
            value.deep_view() == self@.redirect_uris,
            value.len() > 0,
    {
        proof {
            use_type_invariant(self);
        }
        &self.redirect_uris
    }

    /// The sets of response types that the client will ask for.
    pub fn response_types(&self) -> (value: Option<&Vec<ResponseTypes>>)
        ensures
            value.deep_view() == self@.response_types,
    {
        self.response_types.as_ref()
    }

    /// The grant types that the client will use.
    pub fn grant_types(&self) -> (value: Option<&Vec<String>>)
        ensures
            value.deep_view() == self@.grant_types,
    {
        self.grant_types.as_ref()
    }

    /// The kind of application, such as `web` or `native`.
    pub fn application_type(&self) -> (value: Option<&String>)
        ensures
            value.deep_view() == self@.application_type,
    {
        self.application_type.as_ref()
    }

    /// Addresses of the people responsible for the client.
    pub fn contacts(&self) -> (value: Option<&Vec<String>>)
        ensures
            value.deep_view() == self@.contacts,
    {
        self.contacts.as_ref()
    }

    /// The name of the client, by language.
    pub fn client_name(&self) -> (value: Option<&LocalizedClaim>)
        ensures
            value.deep_view() == self@.client_name,
    {
        self.client_name.as_ref()
    }

    /// The address of the client's logo, by language.
    pub fn logo_uri(&self) -> (value: Option<&LocalizedUrls>)
        ensures
            value.deep_view() == self@.logo_uri,
    {
        self.logo_uri.as_ref()
    }

    /// The address of the client's home page, by language.
    pub fn client_uri(&self) -> (value: Option<&LocalizedUrls>)
        ensures
            value.deep_view() == self@.client_uri,
    {
        self.client_uri.as_ref()
    }

    /// The address of the client's data policy, by language.
    pub fn policy_uri(&self) -> (value: Option<&LocalizedUrls>)
        ensures
            value.deep_view() == self@.policy_uri,
    {
        self.policy_uri.as_ref()
    }

    /// The address of the client's terms of service, by language.
    pub fn tos_uri(&self) -> (value: Option<&LocalizedUrls>)
        ensures
            value.deep_view() == self@.tos_uri,
    {
        self.tos_uri.as_ref()
    }

    /// The address of the client's key set.
    pub fn jwks_uri(&self) -> (value: Option<&EndpointUrl>)
        ensures
            value.deep_view() == self@.jwks_uri,
    {
        self.jwks_uri.as_ref()
    }

    /// The client's key set itself.
    pub fn jwks(&self) -> (value: Option<&JsonWebKeySet>)
        ensures
            value.deep_view() == self@.jwks,
    {
        self.jwks.as_ref()
    }

    /// The address that names the client's sector, for pairwise subjects.
    pub fn sector_identifier_uri(&self) -> (value: Option<&EndpointUrl>)
        ensures
            value.deep_view() == self@.sector_identifier_uri,
    {
        self.sector_identifier_uri.as_ref()
    }

    /// The kind of subject identifier that the client asks for.
    pub fn subject_type(&self) -> (value: Option<&String>)
        ensures
            value.deep_view() == self@.subject_type,
    {
        self.subject_type.as_ref()
    }

    /// The algorithm to sign ID tokens with.
    pub fn id_token_signed_response_alg(&self) -> (value: Option<&String>)
        ensures
            value.deep_view() == self@.id_token_signed_response_alg,
    {
        self.id_token_signed_response_alg.as_ref()
    }

    /// The algorithm to encrypt the key of ID tokens with.
    pub fn id_token_encrypted_response_alg(&self) -> (value: Option<&String>)
        ensures
            value.deep_view() == self@.id_token_encrypted_response_alg,
    {
        self.id_token_encrypted_response_alg.as_ref()
    }

    /// The algorithm to encrypt the content of ID tokens with.
    pub fn id_token_encrypted_response_enc(&self) -> (value: Option<&String>)
        ensures
            value.deep_view() == self@.id_token_encrypted_response_enc,
    {
        self.id_token_encrypted_response_enc.as_ref()
    }

    /// The algorithm to sign UserInfo responses with.
    pub fn userinfo_signed_response_alg(&self) -> (value: Option<&String>)
        ensures
            value.deep_view() == self@.userinfo_signed_response_alg,
    {
        self.userinfo_signed_response_alg.as_ref()
    }

    /// The algorithm to encrypt the key of UserInfo responses with.
    pub fn userinfo_encrypted_response_alg(&self) -> (value: Option<&String>)
        ensures
            value.deep_view() == self@.userinfo_encrypted_response_alg,
    {
        self.userinfo_encrypted_response_alg.as_ref()
    }

    /// The algorithm to encrypt the content of UserInfo responses with.
    pub fn userinfo_encrypted_response_enc(&self) -> (value: Option<&String>)
        ensures
            value.deep_view() == self@.userinfo_encrypted_response_enc,
    {
        self.userinfo_encrypted_response_enc.as_ref()
    }

    /// The algorithm that the client signs request objects with.
    pub fn request_object_signing_alg(&self) -> (value: Option<&String>)
        ensures
            value.deep_view() == self@.request_object_signing_alg,
    {
        self.request_object_signing_alg.as_ref()
    }

    /// The algorithm that the client encrypts the key of request objects with.
    pub fn request_object_encryption_alg(&self) -> (value: Option<&String>)
        ensures
            value.deep_view() == self@.request_object_encryption_alg,
    {
        self.request_object_encryption_alg.as_ref()
    }

    /// The algorithm that the client encrypts the content of request objects with.
    pub fn request_object_encryption_enc(&self) -> (value: Option<&String>)
        ensures
            value.deep_view() == self@.request_object_encryption_enc,
    {
        self.request_object_encryption_enc.as_ref()
    }

    /// How the client authenticates at the token endpoint.
    pub fn token_endpoint_auth_method(&self) -> (value: Option<&String>)
        ensures
            value.deep_view() == self@.token_endpoint_auth_method,
    {
        self.token_endpoint_auth_method.as_ref()
    }

    /// The algorithm that the client signs its authentication with.
    pub fn token_endpoint_auth_signing_alg(&self) -> (value: Option<&String>)
        ensures
            value.deep_view() == self@.token_endpoint_auth_signing_alg,
    {
        self.token_endpoint_auth_signing_alg.as_ref()
    }

    /// The default limit on the age of an authentication, in seconds.
    pub fn default_max_age(&self) -> (value: Option<u64>)
        ensures
            value.deep_view() == self@.default_max_age,
    {
        self.default_max_age
    }

    /// Whether ID tokens must say when the end user was authenticated.
    pub fn require_auth_time(&self) -> (value: Option<bool>)
        ensures
            value.deep_view() == self@.require_auth_time,
    {
        self.require_auth_time
    }

    /// The authentication context classes asked for by default.
    pub fn default_acr_values(&self) -> (value: Option<&Vec<String>>)
        ensures
            value.deep_view() == self@.default_acr_values,
    {
        self.default_acr_values.as_ref()
    }

    /// The address at which a third party may start a login.
    pub fn initiate_login_uri(&self) -> (value: Option<&EndpointUrl>)
        ensures
            value.deep_view() == self@.initiate_login_uri,
    {
        self.initiate_login_uri.as_ref()
    }

    /// The addresses of request objects that the client registers in advance.
    pub fn request_uris(&self) -> (value: Option<&Vec<EndpointUrl>>)
        ensures
            value.deep_view() == self@.request_uris,
    {
        self.request_uris.as_ref()
    }

    /// The same metadata with another value for `redirect_uris`.
    pub fn set_redirect_uris(self, value: Vec<EndpointUrl>) -> (metadata: ClientMetadata)
        requires
            value.len() > 0,
        ensures
            metadata@ == (ClientMetadataView { redirect_uris: value.deep_view(), ..self@ }),
    {
        proof {
            use_type_invariant(&self);
        }
        urls_are_valid(&value);
        let mut metadata = self;
        metadata.redirect_uris = value;
        metadata
    }

    /// The same metadata with another value for `response_types`.
    pub fn set_response_types(self, value: Option<Vec<ResponseTypes>>) -> (metadata: ClientMetadata)
        ensures
            metadata@ == (ClientMetadataView { response_types: value.deep_view(), ..self@ }),
    {
        proof {
            use_type_invariant(&self);
        }
        known_sets(&value);
        let mut metadata = self;
        metadata.response_types = value;
        metadata
    }

    /// The same metadata with another value for `grant_types`.
    pub fn set_grant_types(self, value: Option<Vec<String>>) -> (metadata: ClientMetadata)
        ensures
            metadata@ == (ClientMetadataView { grant_types: value.deep_view(), ..self@ }),
    {
        proof {
            use_type_invariant(&self);
        }
        let mut metadata = self;
        metadata.grant_types = value;
        metadata
    }

    /// The same metadata with another value for `application_type`.
    pub fn set_application_type(self, value: Option<String>) -> (metadata: ClientMetadata)
        ensures
            metadata@ == (ClientMetadataView { application_type: value.deep_view(), ..self@ }),
    {
        proof {
            use_type_invariant(&self);
        }
        let mut metadata = self;
        metadata.application_type = value;
        metadata
    }

    /// The same metadata with another value for `contacts`.
    pub fn set_contacts(self, value: Option<Vec<String>>) -> (metadata: ClientMetadata)
        ensures
            metadata@ == (ClientMetadataView { contacts: value.deep_view(), ..self@ }),
    {
        proof {
            use_type_invariant(&self);
        }
        let mut metadata = self;
        metadata.contacts = value;
        metadata
    }

    /// The same metadata with another value for `client_name`.
    pub fn set_client_name(self, value: Option<LocalizedClaim>) -> (metadata: ClientMetadata)
        ensures
            metadata@ == (ClientMetadataView { client_name: value.deep_view(), ..self@ }),
    {
        proof {
            use_type_invariant(&self);
        }
        known_claim(&value);
        let mut metadata = self;
        metadata.client_name = value;
        metadata
    }

    /// The same metadata with another value for `logo_uri`.
    pub fn set_logo_uri(self, value: Option<LocalizedUrls>) -> (metadata: ClientMetadata)
        ensures
            metadata@ == (ClientMetadataView { logo_uri: value.deep_view(), ..self@ }),
    {
        proof {
            use_type_invariant(&self);
        }
        known_urls_claim(&value);
        let mut metadata = self;
        metadata.logo_uri = value;
        metadata
    }

    /// The same metadata with another value for `client_uri`.
    pub fn set_client_uri(self, value: Option<LocalizedUrls>) -> (metadata: ClientMetadata)
        ensures
            metadata@ == (ClientMetadataView { client_uri: value.deep_view(), ..self@ }),
    {
        proof {
            use_type_invariant(&self);
        }
        known_urls_claim(&value);
        let mut metadata = self;
        metadata.client_uri = value;
        metadata
    }

    /// The same metadata with another value for `policy_uri`.
    pub fn set_policy_uri(self, value: Option<LocalizedUrls>) -> (metadata: ClientMetadata)
        ensures
            metadata@ == (ClientMetadataView { policy_uri: value.deep_view(), ..self@ }),
    {
        proof {
            use_type_invariant(&self);
        }
        known_urls_claim(&value);
        let mut metadata = self;
        metadata.policy_uri = value;
        metadata
    }

    /// The same metadata with another value for `tos_uri`.
    pub fn set_tos_uri(self, value: Option<LocalizedUrls>) -> (metadata: ClientMetadata)
        ensures
            metadata@ == (ClientMetadataView { tos_uri: value.deep_view(), ..self@ }),
    {
        proof {
            use_type_invariant(&self);
        }
        known_urls_claim(&value);
        let mut metadata = self;
        metadata.tos_uri = value;
        metadata
    }

    /// The same metadata with another value for `jwks_uri`.
    pub fn set_jwks_uri(self, value: Option<EndpointUrl>) -> (metadata: ClientMetadata)
        ensures
            metadata@ == (ClientMetadataView { jwks_uri: value.deep_view(), ..self@ }),
    {
        proof {
            use_type_invariant(&self);
        }
        known_url(&value);
        let mut metadata = self;
        metadata.jwks_uri = value;
        metadata
    }

    /// The same metadata with another value for `jwks`.
    pub fn set_jwks(self, value: Option<JsonWebKeySet>) -> (metadata: ClientMetadata)
        ensures
            metadata@ == (ClientMetadataView { jwks: value.deep_view(), ..self@ }),
    {
        proof {
            use_type_invariant(&self);
        }
        let mut metadata = self;
        metadata.jwks = value;
        metadata
    }

    /// The same metadata with another value for `sector_identifier_uri`.
    pub fn set_sector_identifier_uri(self, value: Option<EndpointUrl>) -> (metadata: ClientMetadata)
        ensures
            metadata@ == (ClientMetadataView { sector_identifier_uri: value.deep_view(), ..self@ }),
    {
        proof {
            use_type_invariant(&self);
        }
        known_url(&value);
        let mut metadata = self;
        metadata.sector_identifier_uri = value;
        metadata
    }

    /// The same metadata with another value for `subject_type`.
    pub fn set_subject_type(self, value: Option<String>) -> (metadata: ClientMetadata)
        ensures
            metadata@ == (ClientMetadataView { subject_type: value.deep_view(), ..self@ }),
    {
        proof {
            use_type_invariant(&self);
        }
        let mut metadata = self;
        metadata.subject_type = value;
        metadata
    }

    /// The same metadata with another value for `id_token_signed_response_alg`.
    pub fn set_id_token_signed_response_alg(
        self,
        value: Option<String>,
    ) -> (metadata: ClientMetadata)
        ensures
            metadata@ == (ClientMetadataView {
                id_token_signed_response_alg: value.deep_view(),
                ..self@
            }),
    {
        proof {
            use_type_invariant(&self);
        }
        let mut metadata = self;
        metadata.id_token_signed_response_alg = value;
        metadata
    }

    /// The same metadata with another value for `id_token_encrypted_response_alg`.
    pub fn set_id_token_encrypted_response_alg(
        self,
        value: Option<String>,
    ) -> (metadata: ClientMetadata)
        ensures
            metadata@ == (ClientMetadataView {
                id_token_encrypted_response_alg: value.deep_view(),
                ..self@
            }),
    {
        proof {
            use_type_invariant(&self);
        }
        let mut metadata = self;
        metadata.id_token_encrypted_response_alg = value;
        metadata
    }

    /// The same metadata with another value for `id_token_encrypted_response_enc`.
    pub fn set_id_token_encrypted_response_enc(
        self,
        value: Option<String>,
    ) -> (metadata: ClientMetadata)
        ensures
            metadata@ == (ClientMetadataView {
                id_token_encrypted_response_enc: value.deep_view(),
                ..self@
            }),
    {
        proof {
            use_type_invariant(&self);
        }
        let mut metadata = self;
        metadata.id_token_encrypted_response_enc = value;
        metadata
    }

    /// The same metadata with another value for `userinfo_signed_response_alg`.
    pub fn set_userinfo_signed_response_alg(
        self,
        value: Option<String>,
    ) -> (metadata: ClientMetadata)
        ensures
            metadata@ == (ClientMetadataView {
                userinfo_signed_response_alg: value.deep_view(),
                ..self@
            }),
    {
        proof {
            use_type_invariant(&self);
        }
        let mut metadata = self;
        metadata.userinfo_signed_response_alg = value;
        metadata
    }

    /// The same metadata with another value for `userinfo_encrypted_response_alg`.
    pub fn set_userinfo_encrypted_response_alg(
        self,
        value: Option<String>,
    ) -> (metadata: ClientMetadata)
        ensures
            metadata@ == (ClientMetadataView {
                userinfo_encrypted_response_alg: value.deep_view(),
                ..self@
            }),
    {
        proof {
            use_type_invariant(&self);
        }
        let mut metadata = self;
        metadata.userinfo_encrypted_response_alg = value;
        metadata
    }

    /// The same metadata with another value for `userinfo_encrypted_response_enc`.
    pub fn set_userinfo_encrypted_response_enc(
        self,
        value: Option<String>,
    ) -> (metadata: ClientMetadata)
        ensures
            metadata@ == (ClientMetadataView {
                userinfo_encrypted_response_enc: value.deep_view(),
                ..self@
            }),
    {
        proof {
            use_type_invariant(&self);
        }
        let mut metadata = self;
        metadata.userinfo_encrypted_response_enc = value;
        metadata
    }

    /// The same metadata with another value for `request_object_signing_alg`.
    pub fn set_request_object_signing_alg(self, value: Option<String>) -> (metadata: ClientMetadata)
        ensures
            metadata@ == (ClientMetadataView {
                request_object_signing_alg: value.deep_view(),
                ..self@
            }),
    {
        proof {
            use_type_invariant(&self);
        }
        let mut metadata = self;
        metadata.request_object_signing_alg = value;
        metadata
    }

    /// The same metadata with another value for `request_object_encryption_alg`.
    pub fn set_request_object_encryption_alg(
        self,
        value: Option<String>,
    ) -> (metadata: ClientMetadata)
        ensures
            metadata@ == (ClientMetadataView {
                request_object_encryption_alg: value.deep_view(),
                ..self@
            }),
    {
        proof {
            use_type_invariant(&self);
        }
        let mut metadata = self;
        metadata.request_object_encryption_alg = value;
        metadata
    }

    /// The same metadata with another value for `request_object_encryption_enc`.
    pub fn set_request_object_encryption_enc(
        self,
        value: Option<String>,
    ) -> (metadata: ClientMetadata)
        ensures
            metadata@ == (ClientMetadataView {
                request_object_encryption_enc: value.deep_view(),
                ..self@
            }),
    {
        proof {
            use_type_invariant(&self);
        }
        let mut metadata = self;
        metadata.request_object_encryption_enc = value;
        metadata
    }

    /// The same metadata with another value for `token_endpoint_auth_method`.
    pub fn set_token_endpoint_auth_method(self, value: Option<String>) -> (metadata: ClientMetadata)
        ensures
            metadata@ == (ClientMetadataView {
                token_endpoint_auth_method: value.deep_view(),
                ..self@
            }),
    {
        proof {
            use_type_invariant(&self);
        }
        let mut metadata = self;
        metadata.token_endpoint_auth_method = value;
        metadata
    }

    /// The same metadata with another value for `token_endpoint_auth_signing_alg`.
    pub fn set_token_endpoint_auth_signing_alg(
        self,
        value: Option<String>,
    ) -> (metadata: ClientMetadata)
        ensures
            metadata@ == (ClientMetadataView {
                token_endpoint_auth_signing_alg: value.deep_view(),
                ..self@
            }),
    {
        proof {
            use_type_invariant(&self);
        }
        let mut metadata = self;
        metadata.token_endpoint_auth_signing_alg = value;
        metadata
    }

    /// The same metadata with another value for `default_max_age`.
    pub fn set_default_max_age(self, value: Option<u64>) -> (metadata: ClientMetadata)
        ensures
            metadata@ == (ClientMetadataView { default_max_age: value.deep_view(), ..self@ }),
    {
        proof {
            use_type_invariant(&self);
        }
        let mut metadata = self;
        metadata.default_max_age = value;
        metadata
    }

    /// The same metadata with another value for `require_auth_time`.
    pub fn set_require_auth_time(self, value: Option<bool>) -> (metadata: ClientMetadata)
        ensures
            metadata@ == (ClientMetadataView { require_auth_time: value.deep_view(), ..self@ }),
    {
        proof {
            use_type_invariant(&self);
        }
        let mut metadata = self;
        metadata.require_auth_time = value;
        metadata
    }

    /// The same metadata with another value for `default_acr_values`.
    pub fn set_default_acr_values(self, value: Option<Vec<String>>) -> (metadata: ClientMetadata)
        ensures
            metadata@ == (ClientMetadataView { default_acr_values: value.deep_view(), ..self@ }),
    {
        proof {
            use_type_invariant(&self);
        }
        let mut metadata = self;
        metadata.default_acr_values = value;
        metadata
    }

    /// The same metadata with another value for `initiate_login_uri`.
    pub fn set_initiate_login_uri(self, value: Option<EndpointUrl>) -> (metadata: ClientMetadata)
        ensures
            metadata@ == (ClientMetadataView { initiate_login_uri: value.deep_view(), ..self@ }),
    {
        proof {
            use_type_invariant(&self);
        }
        known_url(&value);
        let mut metadata = self;
        metadata.initiate_login_uri = value;
        metadata
    }

    /// The same metadata with another value for `request_uris`.
    pub fn set_request_uris(self, value: Option<Vec<EndpointUrl>>) -> (metadata: ClientMetadata)
        ensures
            metadata@ == (ClientMetadataView { request_uris: value.deep_view(), ..self@ }),
    {
        proof {
            use_type_invariant(&self);
        }
        known_urls(&value);
        let mut metadata = self;
        metadata.request_uris = value;
        metadata
    }

}

impl Clone for ClientMetadata {
    fn clone(&self) -> (copy: ClientMetadata)
        ensures
            copy@ == self@,
    {
        proof {
            use_type_invariant(self);
        }
        ClientMetadata {
            redirect_uris: copy_urls(&self.redirect_uris),
            response_types: copy_optional_sets(&self.response_types),
            grant_types: copy_optional_texts(&self.grant_types),
            application_type: copy_optional(&self.application_type),
            contacts: copy_optional_texts(&self.contacts),
            client_name: copy_optional_claim(&self.client_name),
            logo_uri: copy_optional_urls_claim(&self.logo_uri),
            client_uri: copy_optional_urls_claim(&self.client_uri),
            policy_uri: copy_optional_urls_claim(&self.policy_uri),
            tos_uri: copy_optional_urls_claim(&self.tos_uri),
            jwks_uri: copy_optional_url(&self.jwks_uri),
            jwks: copy_optional_keys(&self.jwks),
            sector_identifier_uri: copy_optional_url(&self.sector_identifier_uri),
            subject_type: copy_optional(&self.subject_type),
            id_token_signed_response_alg: copy_optional(&self.id_token_signed_response_alg),
            id_token_encrypted_response_alg: copy_optional(&self.id_token_encrypted_response_alg),
            id_token_encrypted_response_enc: copy_optional(&self.id_token_encrypted_response_enc),
            userinfo_signed_response_alg: copy_optional(&self.userinfo_signed_response_alg),
            userinfo_encrypted_response_alg: copy_optional(&self.userinfo_encrypted_response_alg),
            userinfo_encrypted_response_enc: copy_optional(&self.userinfo_encrypted_response_enc),
            request_object_signing_alg: copy_optional(&self.request_object_signing_alg),
            request_object_encryption_alg: copy_optional(&self.request_object_encryption_alg),
            request_object_encryption_enc: copy_optional(&self.request_object_encryption_enc),
            token_endpoint_auth_method: copy_optional(&self.token_endpoint_auth_method),
            token_endpoint_auth_signing_alg: copy_optional(&self.token_endpoint_auth_signing_alg),
            default_max_age: self.default_max_age,
            require_auth_time: self.require_auth_time,
            default_acr_values: copy_optional_texts(&self.default_acr_values),
            initiate_login_uri: copy_optional_url(&self.initiate_login_uri),
            request_uris: copy_optional_urls(&self.request_uris),
        }
    }
}

/// No name of a member of client metadata holds a `#`.
proof fn lemma_client_metadata_names_plain()
    ensures
        forall|i: int|
            0 <= i < client_metadata_names().len() ==> !(#[trigger] client_metadata_names()[i]).contains(
                '#',
            ),
{
    let names = client_metadata_names();
    assert(!names[0].contains('#')) by {
        reveal_strlit("redirect_uris");
    }
    assert(!names[1].contains('#')) by {
        reveal_strlit("response_types");
    }
    assert(!names[2].contains('#')) by {
        reveal_strlit("grant_types");
    }
    assert(!names[3].contains('#')) by {
        reveal_strlit("application_type");
    }
    assert(!names[4].contains('#')) by {
        reveal_strlit("contacts");
    }
    assert(!names[5].contains('#')) by {
        reveal_strlit("client_name");
    }
    assert(!names[6].contains('#')) by {
        reveal_strlit("logo_uri");
    }
    assert(!names[7].contains('#')) by {
        reveal_strlit("client_uri");
    }
    assert(!names[8].contains('#')) by {
        reveal_strlit("policy_uri");
    }
    assert(!names[9].contains('#')) by {
        reveal_strlit("tos_uri");
    }
    assert(!names[10].contains('#')) by {
        reveal_strlit("jwks_uri");
    }
    assert(!names[11].contains('#')) by {
        reveal_strlit("jwks");
    }
    assert(!names[12].contains('#')) by {
        reveal_strlit("sector_identifier_uri");
    }
    assert(!names[13].contains('#')) by {
        reveal_strlit("subject_type");
    }
    assert(!names[14].contains('#')) by {
        reveal_strlit("id_token_signed_response_alg");
    }
    assert(!names[15].contains('#')) by {
        reveal_strlit("id_token_encrypted_response_alg");
    }
    assert(!names[16].contains('#')) by {
        reveal_strlit("id_token_encrypted_response_enc");
    }
    assert(!names[17].contains('#')) by {
        reveal_strlit("userinfo_signed_response_alg");
    }
    assert(!names[18].contains('#')) by {
        reveal_strlit("userinfo_encrypted_response_alg");
    }
    assert(!names[19].contains('#')) by {
        reveal_strlit("userinfo_encrypted_response_enc");
    }
    assert(!names[20].contains('#')) by {
        reveal_strlit("request_object_signing_alg");
    }
    assert(!names[21].contains('#')) by {
        reveal_strlit("request_object_encryption_alg");
    }
    assert(!names[22].contains('#')) by {
        reveal_strlit("request_object_encryption_enc");
    }
    assert(!names[23].contains('#')) by {
        reveal_strlit("token_endpoint_auth_method");
    }
    assert(!names[24].contains('#')) by {
        reveal_strlit("token_endpoint_auth_signing_alg");
    }
    assert(!names[25].contains('#')) by {
        reveal_strlit("default_max_age");
    }
    assert(!names[26].contains('#')) by {
        reveal_strlit("require_auth_time");
    }
    assert(!names[27].contains('#')) by {
        reveal_strlit("default_acr_values");
    }
    assert(!names[28].contains('#')) by {
        reveal_strlit("initiate_login_uri");
    }
    assert(!names[29].contains('#')) by {
        reveal_strlit("request_uris");
    }
}

/// No two members of client metadata have the same name.
proof fn lemma_client_metadata_names_differ()
    ensures
        forall|i: int, j: int|
            0 <= i < j < client_metadata_names().len() ==> client_metadata_names()[i]
                != client_metadata_names()[j],
{
    reveal_strlit("redirect_uris");
    reveal_strlit("response_types");
    reveal_strlit("grant_types");
    reveal_strlit("application_type");
    reveal_strlit("contacts");
    reveal_strlit("client_name");
    reveal_strlit("logo_uri");
    reveal_strlit("client_uri");
    reveal_strlit("policy_uri");
    reveal_strlit("tos_uri");
    reveal_strlit("jwks_uri");
    reveal_strlit("jwks");
    reveal_strlit("sector_identifier_uri");
    reveal_strlit("subject_type");
    reveal_strlit("id_token_signed_response_alg");
    reveal_strlit("id_token_encrypted_response_alg");
    reveal_strlit("id_token_encrypted_response_enc");
    reveal_strlit("userinfo_signed_response_alg");
    reveal_strlit("userinfo_encrypted_response_alg");
    reveal_strlit("userinfo_encrypted_response_enc");
    reveal_strlit("request_object_signing_alg");
    reveal_strlit("request_object_encryption_alg");
    reveal_strlit("request_object_encryption_enc");
    reveal_strlit("token_endpoint_auth_method");
    reveal_strlit("token_endpoint_auth_signing_alg");
    reveal_strlit("default_max_age");
    reveal_strlit("require_auth_time");
    reveal_strlit("default_acr_values");
    reveal_strlit("initiate_login_uri");
    reveal_strlit("request_uris");
    let names = client_metadata_names();
    assert forall|i: int, j: int| 0 <= i < j < names.len() implies names[i] != names[j] by {
        if names[i] == names[j] {
            assert(names[i].len() == names[j].len());
            assert(names[i][0] == names[j][0]);
            assert(names[i][28] == names[j][28]);
        }
    }
}

/// The members of client metadata are laid out soundly, and can be told
/// apart again once written.
pub proof fn lemma_client_metadata_layout(m: ClientMetadataView)
    requires
        is_client_metadata(m),
    ensures
        laid_out(client_metadata_names(), client_metadata_pieces(m)),
        splits_back(flatten(client_metadata_pieces(m))),
{
    let names = client_metadata_names();
    let pieces = client_metadata_pieces(m);
    lemma_client_metadata_names_differ();
    lemma_client_metadata_names_plain();
    assert forall|i: int| 0 <= i < pieces.len() implies uniform(#[trigger] pieces[i], names[i]) by {}
    assert forall|i: int| 0 <= i < pieces.len() implies splits_back(#[trigger] pieces[i]) by {
    }
    lemma_flatten_splits_back(pieces);
}

/// Client metadata that is written and read again is the metadata itself.
pub proof fn lemma_client_metadata_round_trip(m: ClientMetadataView)
    requires
        is_client_metadata(m),
    ensures
        decode_client_metadata(client_metadata_json(m)) == Ok::<ClientMetadataView, JsonFault>(m),
{
    let names = client_metadata_names();
    let pieces = client_metadata_pieces(m);
    let entries = flatten(pieces);
    lemma_client_metadata_layout(m);
    lemma_tagged_wire(entries);
    lemma_named_flatten(names, pieces, 0);
    lemma_read_written_urls(entries, "redirect_uris"@, Some(m.redirect_uris));
    lemma_named_flatten(names, pieces, 1);
    lemma_read_written_sets(entries, "response_types"@, m.response_types);
    lemma_named_flatten(names, pieces, 2);
    lemma_read_written_texts(entries, "grant_types"@, m.grant_types);
    lemma_named_flatten(names, pieces, 3);
    lemma_read_written_text(entries, "application_type"@, m.application_type);
    lemma_named_flatten(names, pieces, 4);
    lemma_read_written_texts(entries, "contacts"@, m.contacts);
    lemma_named_flatten(names, pieces, 5);
    lemma_read_written_localized(entries, "client_name"@, m.client_name, false);
    lemma_named_flatten(names, pieces, 6);
    lemma_read_written_localized(entries, "logo_uri"@, m.logo_uri, true);
    lemma_named_flatten(names, pieces, 7);
    lemma_read_written_localized(entries, "client_uri"@, m.client_uri, true);
    lemma_named_flatten(names, pieces, 8);
    lemma_read_written_localized(entries, "policy_uri"@, m.policy_uri, true);
    lemma_named_flatten(names, pieces, 9);
    lemma_read_written_localized(entries, "tos_uri"@, m.tos_uri, true);
    lemma_named_flatten(names, pieces, 10);
    lemma_read_written_url(entries, "jwks_uri"@, m.jwks_uri);
    lemma_named_flatten(names, pieces, 11);
    lemma_read_written_jwks(entries, "jwks"@, m.jwks);
    lemma_named_flatten(names, pieces, 12);
    lemma_read_written_url(entries, "sector_identifier_uri"@, m.sector_identifier_uri);
    lemma_named_flatten(names, pieces, 13);
    lemma_read_written_text(entries, "subject_type"@, m.subject_type);
    lemma_named_flatten(names, pieces, 14);
    lemma_read_written_text(
        entries,
        "id_token_signed_response_alg"@,
        m.id_token_signed_response_alg,
    );
    lemma_named_flatten(names, pieces, 15);
    lemma_read_written_text(
        entries,
        "id_token_encrypted_response_alg"@,
        m.id_token_encrypted_response_alg,
    );
    lemma_named_flatten(names, pieces, 16);
    lemma_read_written_text(
        entries,
        "id_token_encrypted_response_enc"@,
        m.id_token_encrypted_response_enc,
    );
    lemma_named_flatten(names, pieces, 17);
    lemma_read_written_text(
        entries,
        "userinfo_signed_response_alg"@,
        m.userinfo_signed_response_alg,
    );
    lemma_named_flatten(names, pieces, 18);
    lemma_read_written_text(
        entries,
        "userinfo_encrypted_response_alg"@,
        m.userinfo_encrypted_response_alg,
    );
    lemma_named_flatten(names, pieces, 19);
    lemma_read_written_text(
        entries,
        "userinfo_encrypted_response_enc"@,
        m.userinfo_encrypted_response_enc,
    );
    lemma_named_flatten(names, pieces, 20);
    lemma_read_written_text(entries, "request_object_signing_alg"@, m.request_object_signing_alg);
    lemma_named_flatten(names, pieces, 21);
    lemma_read_written_text(
        entries,
        "request_object_encryption_alg"@,
        m.request_object_encryption_alg,
    );
    lemma_named_flatten(names, pieces, 22);
    lemma_read_written_text(
        entries,
        "request_object_encryption_enc"@,
        m.request_object_encryption_enc,
    );
    lemma_named_flatten(names, pieces, 23);
    lemma_read_written_text(entries, "token_endpoint_auth_method"@, m.token_endpoint_auth_method);
    lemma_named_flatten(names, pieces, 24);
    lemma_read_written_text(
        entries,
        "token_endpoint_auth_signing_alg"@,
        m.token_endpoint_auth_signing_alg,
    );
    lemma_named_flatten(names, pieces, 25);
    lemma_read_written_unsigned(entries, "default_max_age"@, m.default_max_age);
    lemma_named_flatten(names, pieces, 26);
    lemma_read_written_flag(entries, "require_auth_time"@, m.require_auth_time);
    lemma_named_flatten(names, pieces, 27);
    lemma_read_written_texts(entries, "default_acr_values"@, m.default_acr_values);
    lemma_named_flatten(names, pieces, 28);
    lemma_read_written_url(entries, "initiate_login_uri"@, m.initiate_login_uri);
    lemma_named_flatten(names, pieces, 29);
    lemma_read_written_urls(entries, "request_uris"@, m.request_uris);
}

/// Client metadata can always be written as JSON text: their document holds
/// no number kept as text.
pub proof fn lemma_client_metadata_writable(m: ClientMetadataView)
    ensures
        !has_real(client_metadata_json(m)),
{
    let pieces = client_metadata_pieces(m);
    lemma_texts_writable(m.redirect_uris);
    if let Some(sets) = m.response_types {
        lemma_sets_writable(sets);
    }
    if let Some(texts) = m.grant_types {
        lemma_texts_writable(texts);
    }
    if let Some(texts) = m.contacts {
        lemma_texts_writable(texts);
    }
    if let Some(keys) = m.jwks {
        lemma_jwks_writable(keys);
    }
    if let Some(texts) = m.default_acr_values {
        lemma_texts_writable(texts);
    }
    if let Some(texts) = m.request_uris {
        lemma_texts_writable(texts);
    }
    assert forall|i: int| 0 <= i < pieces.len() implies writable(#[trigger] pieces[i]) by {}
    lemma_flatten_writable(pieces);
    lemma_writable_object(flatten(pieces));
}

} // verus!
