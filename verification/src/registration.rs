//! Dynamic client registration: the request that presents a client's
//! metadata to a provider, and what is made of the provider's answer.

use crate::http::{
    auth_bearer, bearer_header, content_type_complaint, has_content_type, mime_type_json,
    Headers, HttpRequest, HttpRequestMethod, HttpResponse, HttpTransport,
    TransportError, HTTP_STATUS_BAD_REQUEST, HTTP_STATUS_CREATED,
};
use crate::json::{json_text, parse, parsed_json, to_bytes, Json, JsonError, JsonFault, JsonValue};
use crate::jwk::JsonWebKeySet;
use crate::language::{LocalizedClaim, LocalizedUrls};
use crate::metadata::{
    bare_client_metadata, client_metadata_json, client_metadata_of,
    lemma_client_metadata_writable, ClientMetadata, ClientMetadataView,
};
use crate::oauth::{
    decode_error_response, AnyErrorResponseType, ErrorResponse, ErrorResponseType,
    ErrorResponseView,
};
use crate::reader::{
    agrees, members_of, optional_text, optional_unsigned, optional_url, read_text,
    read_unsigned, read_url, require_text, required_text, tagged_entries, tagged_members, Entry,
};
use crate::text::{str_eq, utf8_text};
use crate::types::{
    AccessToken, ClientId, ClientSecret, EndpointUrl, RegistrationAccessToken, ResponseTypes,
    Timestamp, LAST_INSTANT,
};
use vstd::prelude::*;
use vstd::string::StringExecFns;

verus! {

/// The error codes that a provider may answer a registration with: a type
/// of error codes that is meant for registration.
pub trait RegisterErrorResponseType: ErrorResponseType {

}

/// The error codes of OpenID Connect Dynamic Client Registration.
#[derive(Debug, Clone, Copy, PartialEq, Eq, Structural)]
pub enum CoreRegisterErrorResponseType {
    /// `invalid_redirect_uri`
    InvalidRedirectUri,
    /// `invalid_client_metadata`
    InvalidClientMetadata,
}

impl ErrorResponseType for CoreRegisterErrorResponseType {
    open spec fn code(&self) -> Seq<char> {
        match self {
            CoreRegisterErrorResponseType::InvalidRedirectUri => "invalid_redirect_uri"@,
            CoreRegisterErrorResponseType::InvalidClientMetadata => "invalid_client_metadata"@,
        }
    }

    open spec fn knows(code: Seq<char>) -> bool {
        code == "invalid_redirect_uri"@ || code == "invalid_client_metadata"@
    }

    fn from_code(code: &str) -> (r: Option<Self>) {
        if str_eq(code, "invalid_redirect_uri") {
            Some(CoreRegisterErrorResponseType::InvalidRedirectUri)
        } else if str_eq(code, "invalid_client_metadata") {
            Some(CoreRegisterErrorResponseType::InvalidClientMetadata)
        } else {
            None
        }
    }

    fn to_code(&self) -> (code: String) {
        match self {
            CoreRegisterErrorResponseType::InvalidRedirectUri => String::from_str(
                "invalid_redirect_uri",
            ),
            CoreRegisterErrorResponseType::InvalidClientMetadata => String::from_str(
                "invalid_client_metadata",
            ),
        }
    }
}

impl RegisterErrorResponseType for CoreRegisterErrorResponseType {

}

impl RegisterErrorResponseType for AnyErrorResponseType {

}

/// What a provider answers to a registration that it accepts: the metadata
/// as it took them, and what it gave the client.
#[derive(Debug, Clone, PartialEq, Eq)]
pub struct Registration10ClientRegistrationResponse {
    client_id: ClientId,
    client_secret: Option<ClientSecret>,
    registration_access_token: Option<RegistrationAccessToken>,
    registration_client_uri: Option<EndpointUrl>,
    client_id_issued_at: Option<u64>,
    client_secret_expires_at: Option<u64>,
    client_metadata: ClientMetadata,
}

/// What a registration response holds. The two instants are counts of
/// seconds since the start of 1970.
pub struct RegistrationView {
    pub client_id: Seq<char>,
    pub client_secret: Option<Seq<char>>,
    pub registration_access_token: Option<Seq<char>>,
    pub registration_client_uri: Option<Seq<char>>,
    pub client_id_issued_at: Option<u64>,
    pub client_secret_expires_at: Option<u64>,
    pub client_metadata: ClientMetadataView,
}

impl View for Registration10ClientRegistrationResponse {
    type V = RegistrationView;

    closed spec fn view(&self) -> RegistrationView {
        RegistrationView {
            client_id: self.client_id@,
            client_secret: self.client_secret.deep_view(),
            registration_access_token: self.registration_access_token.deep_view(),
            registration_client_uri: self.registration_client_uri.deep_view(),
            client_id_issued_at: self.client_id_issued_at,
            client_secret_expires_at: self.client_secret_expires_at,
            client_metadata: self.client_metadata@,
        }
    }
}

impl DeepView for Registration10ClientRegistrationResponse {
    type V = RegistrationView;

    open spec fn deep_view(&self) -> RegistrationView {
        self@
    }
}

/// The registration that the members of a document stand for: what the
/// provider gave the client, and beside it in the same object the client's
/// metadata.
pub open spec fn registration_of(entries: Seq<Entry>) -> Result<RegistrationView, JsonFault> {
    let client_id = required_text(entries, "client_id"@);
    let client_secret = optional_text(entries, "client_secret"@);
    let registration_access_token = optional_text(entries, "registration_access_token"@);
    let registration_client_uri = optional_url(entries, "registration_client_uri"@);
    let client_id_issued_at = optional_unsigned(entries, "client_id_issued_at"@);
    let client_secret_expires_at = optional_unsigned(entries, "client_secret_expires_at"@);
    let client_metadata = client_metadata_of(entries);
    if client_id is Err {
        Err(client_id->Err_0)
    } else if client_secret is Err {
        Err(client_secret->Err_0)
    } else if registration_access_token is Err {
        Err(registration_access_token->Err_0)
    } else if registration_client_uri is Err {
        Err(registration_client_uri->Err_0)
    } else if client_id_issued_at is Err {
        Err(client_id_issued_at->Err_0)
    } else if client_secret_expires_at is Err {
        Err(client_secret_expires_at->Err_0)
    } else if client_metadata is Err {
        Err(client_metadata->Err_0)
    } else {
        Ok(
            RegistrationView {
                client_id: client_id->Ok_0,
                client_secret: client_secret->Ok_0,
                registration_access_token: registration_access_token->Ok_0,
                registration_client_uri: registration_client_uri->Ok_0,
                client_id_issued_at: client_id_issued_at->Ok_0,
                client_secret_expires_at: client_secret_expires_at->Ok_0,
                client_metadata: client_metadata->Ok_0,
            },
        )
    }
}

/// The registration that a document stands for.
pub open spec fn decode_registration(doc: Json) -> Result<RegistrationView, JsonFault> {
    match members_of(doc) {
        Ok(members) => registration_of(tagged_entries(members)),
        Err(fault) => Err(fault),
    }
}

/// Whether `at` tells the instant that `seconds` counts to: nothing where
/// there is no count, the instant where there is one, and a failure where
/// the count is beyond the last instant.
pub open spec fn tells_instant(at: Option<Result<Timestamp, ()>>, seconds: Option<u64>) -> bool {
    match seconds {
        None => at is None,
        Some(seconds) => match at {
            None => false,
            Some(Ok(instant)) => seconds <= LAST_INSTANT && instant@ == seconds,
            Some(Err(_)) => seconds > LAST_INSTANT,
        },
    }
}

/// What a registration response lets its reader see.
pub trait ClientRegistrationResponse {
    /// What the response holds.
    spec fn registration(&self) -> RegistrationView;

    fn client_id(&self) -> (value: &ClientId)
        ensures
            value@ == self.registration().client_id,
    ;

    fn client_secret(&self) -> (value: Option<&ClientSecret>)
        ensures
            value.deep_view() == self.registration().client_secret,
    ;

    fn registration_access_token(&self) -> (value: Option<&RegistrationAccessToken>)
        ensures
            value.deep_view() == self.registration().registration_access_token,
    ;

    fn registration_client_uri(&self) -> (value: Option<&EndpointUrl>)
        ensures
            value.deep_view() == self.registration().registration_client_uri,
    ;

    /// When the client identifier was issued.
    fn client_id_issued_at(&self) -> (at: Option<Result<Timestamp, ()>>)
        ensures
            tells_instant(at, self.registration().client_id_issued_at),
    ;

    /// When the client secret expires.
    fn client_secret_expires_at(&self) -> (at: Option<Result<Timestamp, ()>>)
        ensures
            tells_instant(at, self.registration().client_secret_expires_at),
    ;

    /// The metadata as the provider took them.
    fn client_metadata(&self) -> (value: &ClientMetadata)
        ensures
            value@ == self.registration().client_metadata,
    ;
}

/// The instant that a count of seconds names.
fn instant_at(seconds: Option<u64>) -> (at: Option<Result<Timestamp, ()>>)
    ensures
        tells_instant(at, seconds),
{
    match seconds {
        Some(seconds) => Some(Timestamp::from_unix_seconds(seconds)),
        None => None,
    }
}

impl ClientRegistrationResponse for Registration10ClientRegistrationResponse {
    open spec fn registration(&self) -> RegistrationView {
        self@
    }

    fn client_id(&self) -> (value: &ClientId) {
        &self.client_id
    }

    fn client_secret(&self) -> (value: Option<&ClientSecret>) {
        self.client_secret.as_ref()
    }

    fn registration_access_token(&self) -> (value: Option<&RegistrationAccessToken>) {
        self.registration_access_token.as_ref()
    }

    fn registration_client_uri(&self) -> (value: Option<&EndpointUrl>) {
        self.registration_client_uri.as_ref()
    }

    fn client_id_issued_at(&self) -> (at: Option<Result<Timestamp, ()>>) {
        instant_at(self.client_id_issued_at)
    }

    fn client_secret_expires_at(&self) -> (at: Option<Result<Timestamp, ()>>) {
        instant_at(self.client_secret_expires_at)
    }

    fn client_metadata(&self) -> (value: &ClientMetadata) {
        &self.client_metadata
    }
}

impl Registration10ClientRegistrationResponse {
    /// Reads a registration response from its document.
    pub fn from_json(doc: &JsonValue) -> (r: Result<
        Registration10ClientRegistrationResponse,
        JsonError,
    >)
        ensures
            agrees(r, decode_registration(doc@)),
    {
        let entries = match tagged_members(doc) {
            Ok(entries) => entries,
            Err(error) => {
                return Err(error);
            },
        };
        let client_id = match require_text(&entries, "client_id") {
            Ok(value) => ClientId::new(value),
            Err(error) => {
                return Err(error);
            },
        };
        let client_secret = match read_text(&entries, "client_secret") {
            Ok(Some(value)) => Some(ClientSecret::new(value)),
            Ok(None) => None,
            Err(error) => {
                return Err(error);
            },
        };
        let registration_access_token = match read_text(&entries, "registration_access_token") {
            Ok(Some(value)) => Some(RegistrationAccessToken::new(value)),
            Ok(None) => None,
            Err(error) => {
                return Err(error);
            },
        };
        let registration_client_uri = match read_url(&entries, "registration_client_uri") {
            Ok(value) => value,
            Err(error) => {
                return Err(error);
            },
        };
        let client_id_issued_at = match read_unsigned(&entries, "client_id_issued_at") {
            Ok(value) => value,
            Err(error) => {
                return Err(error);
            },
        };
        let client_secret_expires_at = match read_unsigned(&entries, "client_secret_expires_at") {
            Ok(value) => value,
            Err(error) => {
                return Err(error);
            },
        };
        let client_metadata = match ClientMetadata::from_members(&entries) {
            Ok(value) => value,
            Err(error) => {
                return Err(error);
            },
        };
        Ok(
            Registration10ClientRegistrationResponse {
                client_id,
                client_secret,
                registration_access_token,
                registration_client_uri,
                client_id_issued_at,
                client_secret_expires_at,
                client_metadata,
            },
        )
    }
}

/// Why a registration failed.
#[derive(Debug)]
pub enum ClientRegistrationError<ET: RegisterErrorResponseType> {
    /// The transport failed.
    Request(TransportError),
    /// The response has the wrong status or content type.
    Response(u32, String),
    /// A document could not be written or read.
    Json(JsonError),
    /// The provider refused the registration and said why.
    ServerResponse(ErrorResponse<ET>),
    /// The answer breaks a rule of the protocol.
    Validation(String),
    /// Anything else.
    Other(String),
}

/// What a `ClientRegistrationError` says, without the words of the
/// transport, the JSON parser and the UTF-8 decoder.
pub enum RegistrationFault {
    Request,
    Response(u32, Seq<char>),
    Json(JsonFault),
    ServerResponse(ErrorResponseView),
    Validation(Seq<char>),
    Other,
}

impl<ET: RegisterErrorResponseType> View for ClientRegistrationError<ET> {
    type V = RegistrationFault;

    open spec fn view(&self) -> RegistrationFault {
        match self {
            ClientRegistrationError::Request(_) => RegistrationFault::Request,
            ClientRegistrationError::Response(status, words) => RegistrationFault::Response(
                *status,
                words@,
            ),
            ClientRegistrationError::Json(error) => RegistrationFault::Json(error@),
            ClientRegistrationError::ServerResponse(error) => RegistrationFault::ServerResponse(
                error@,
            ),
            ClientRegistrationError::Validation(words) => RegistrationFault::Validation(words@),
            ClientRegistrationError::Other(_) => RegistrationFault::Other,
        }
    }
}

/// Whether a step of registration gave the result that is stated for it.
pub open spec fn registered<T: DeepView, ET: RegisterErrorResponseType>(
    r: Result<T, ClientRegistrationError<ET>>,
    s: Result<T::V, RegistrationFault>,
) -> bool {
    match (r, s) {
        (Ok(x), Ok(y)) => x.deep_view() == y,
        (Err(e), Err(f)) => e@ == f,
        _ => false,
    }
}

/// Whether a step of registration failed, and with this fault.
pub open spec fn refused_with<T, ET: RegisterErrorResponseType>(
    r: Result<T, ClientRegistrationError<ET>>,
    fault: RegistrationFault,
) -> bool {
    match r {
        Ok(_) => false,
        Err(error) => error@ == fault,
    }
}

/// The headers of a registration request: JSON is sent and JSON is
/// expected, and the initial access token is presented where there is one.
pub open spec fn registration_headers(token: Option<Seq<char>>) -> Headers {
    let always = seq![("Accept"@, "application/json"@), ("Content-Type"@, "application/json"@)];
    match token {
        Some(token) => always.push(bearer_header(token)),
        None => always,
    }
}

/// Whether `request` is the registration request for these metadata: a
/// `POST` of their JSON text to the endpoint.
pub open spec fn is_registration_request(
    request: HttpRequest,
    metadata: ClientMetadataView,
    endpoint: Seq<char>,
    token: Option<Seq<char>>,
) -> bool {
    &&& request.url@ == endpoint
    &&& request.method == HttpRequestMethod::Post
    &&& request.headers.deep_view() == registration_headers(token)
    &&& json_text(client_metadata_json(metadata)) == Some(request.post_body@)
}

/// Makes the request that registers a client.
pub fn registration_request(
    metadata: &ClientMetadata,
    endpoint: &EndpointUrl,
    token: Option<&AccessToken>,
) -> (request: HttpRequest)
    ensures
        is_registration_request(request, metadata@, endpoint@, token.deep_view()),
{
    let doc = metadata.to_json();
    proof {
        lemma_client_metadata_writable(metadata@);
    }
    let body = match to_bytes(&doc) {
        Ok(body) => body,
        Err(_) => vstd::pervasive::unreached(),
    };
    let mut headers: Vec<(String, String)> = Vec::new();
    headers.push((String::from_str("Accept"), String::from_str("application/json")));
    headers.push((String::from_str("Content-Type"), String::from_str("application/json")));
    match token {
        Some(token) => {
            headers.push(auth_bearer(token));
        },
        None => {},
    }
    assert(headers.deep_view() =~= registration_headers(token.deep_view()));
    HttpRequest { url: endpoint.clone(), method: HttpRequestMethod::Post, headers, post_body: body }
}

/// What is made of the answer to a registration request. The status must
/// be 201 or 400, the content type JSON and the body UTF-8. A body of
/// status 400 is an error that the provider reports; a body of status 201 is
/// the registration.
pub open spec fn registration_outcome<ET: RegisterErrorResponseType>(
    status: u32,
    headers: Headers,
    body: Seq<u8>,
) -> Result<RegistrationView, RegistrationFault> {
    if status != HTTP_STATUS_CREATED && status != HTTP_STATUS_BAD_REQUEST {
        Err(RegistrationFault::Response(status, "unexpected HTTP status code"@))
    } else if !has_content_type(headers, mime_type_json()) {
        Err(RegistrationFault::Response(status, content_type_complaint(headers, mime_type_json())))
    } else if !vstd::utf8::valid_utf8(body) {
        Err(RegistrationFault::Other)
    } else {
        match parsed_json(body) {
            None => Err(RegistrationFault::Json(JsonFault::Syntax)),
            Some(doc) => if status == HTTP_STATUS_BAD_REQUEST {
                match decode_error_response::<ET>(doc) {
                    Ok(error) => Err(RegistrationFault::ServerResponse(error)),
                    Err(fault) => Err(RegistrationFault::Json(fault)),
                }
            } else {
                match decode_registration(doc) {
                    Ok(registration) => Ok(registration),
                    Err(fault) => Err(RegistrationFault::Json(fault)),
                }
            },
        }
    }
}

/// Makes of the answer to a registration request what
/// `registration_outcome` says.
pub fn registration_from_response<ET: RegisterErrorResponseType>(response: &HttpResponse) -> (r:
    Result<Registration10ClientRegistrationResponse, ClientRegistrationError<ET>>)
    ensures
        registered(
            r,
            registration_outcome::<ET>(
                response.status_code,
                response.headers.deep_view(),
                response.body@,
            ),
        ),
{
    let status = response.status_code;
    if status != HTTP_STATUS_CREATED && status != HTTP_STATUS_BAD_REQUEST {
        return Err(
            ClientRegistrationError::Response(
                status,
                String::from_str("unexpected HTTP status code"),
            ),
        );
    }
    match response.check_content_type("application/json") {
        Err(words) => {
            return Err(ClientRegistrationError::Response(status, words));
        },
        Ok(()) => {},
    }
    match utf8_text(response.body.as_slice()) {
        Err(complaint) => {
            let mut words = String::from_str("couldn't parse response as UTF-8: ");
            words.append(complaint.as_str());
            return Err(ClientRegistrationError::Other(words));
        },
        Ok(_) => {},
    }
    let doc = match parse(response.body.as_slice()) {
        Ok(doc) => doc,
        Err(error) => {
            return Err(ClientRegistrationError::Json(error));
        },
    };
    if status == HTTP_STATUS_BAD_REQUEST {
        match ErrorResponse::<ET>::from_json(&doc) {
            Ok(error) => Err(ClientRegistrationError::ServerResponse(error)),
            Err(error) => Err(ClientRegistrationError::Json(error)),
        }
    } else {
        match Registration10ClientRegistrationResponse::from_json(&doc) {
            Ok(registration) => Ok(registration),
            Err(error) => Err(ClientRegistrationError::Json(error)),
        }
    }
}

/// Whether `r` is what registration makes of some answer.
pub open spec fn answers_registration<ET: RegisterErrorResponseType>(
    r: Result<Registration10ClientRegistrationResponse, ClientRegistrationError<ET>>,
) -> bool {
    exists|status: u32, headers: Headers, body: Seq<u8>|
        registered(r, #[trigger] registration_outcome::<ET>(status, headers, body))
}

/// Registration takes an answer of status 201 or 400 and no other: any
/// other status is refused for its status, whatever else the answer holds,
/// and an answer of status 201 or 400 is never refused for it.
pub proof fn lemma_registration_status_gate<ET: RegisterErrorResponseType>(
    status: u32,
    headers: Headers,
    body: Seq<u8>,
)
    ensures
        (status != HTTP_STATUS_CREATED && status != HTTP_STATUS_BAD_REQUEST)
            <==> registration_outcome::<ET>(status, headers, body) == Err::<
            RegistrationView,
            RegistrationFault,
        >(RegistrationFault::Response(status, "unexpected HTTP status code"@)),
        registration_outcome::<ET>(status, headers, body) is Ok ==> status == HTTP_STATUS_CREATED,
        registration_outcome::<ET>(status, headers, body) matches Err(
            RegistrationFault::ServerResponse(_),
        ) ==> status == HTTP_STATUS_BAD_REQUEST,
{
    if (status == HTTP_STATUS_CREATED || status == HTTP_STATUS_BAD_REQUEST) && !has_content_type(
        headers,
        mime_type_json(),
    ) {
        let words = content_type_complaint(headers, mime_type_json());
        reveal_strlit("unexpected HTTP status code");
        reveal_strlit("unexpected response Content-Type: `");
        reveal_strlit("missing response Content-Type, should be `");
        assert(words[0] == 'm' || words[11] == 'r');
    }
}

/// A registration that is being prepared: the metadata to present, and the
/// initial access token where the provider asks for one.
#[derive(Debug, Clone, PartialEq, Eq)]
pub struct Registration10ClientRegistrationRequest {
    client_metadata: ClientMetadata,
    initial_access_token: Option<AccessToken>,
}

/// Whether `r` is what `register` owes: a failure of the transport, or what
/// registration makes of some answer.
pub open spec fn is_registration_result<ET: RegisterErrorResponseType>(
    r: Result<Registration10ClientRegistrationResponse, ClientRegistrationError<ET>>,
) -> bool {
    refused_with(r, RegistrationFault::Request) || answers_registration(r)
}

/// What a registration request lets its user do.
pub trait ClientRegistrationRequest: Sized {
    /// The metadata that the request presents.
    spec fn metadata(&self) -> ClientMetadataView;

    /// The initial access token that the request presents.
    spec fn token(&self) -> Option<Seq<char>>;

    fn new(redirect_uris: Vec<EndpointUrl>) -> (request: Self)
        requires
            redirect_uris.len() > 0,
        ensures
            request.metadata() == bare_client_metadata(redirect_uris.deep_view()),
            request.token() is None,
    ;

    fn client_metadata(&self) -> (value: &ClientMetadata)
        ensures
            value@ == self.metadata(),
    ;

    fn initial_access_token(&self) -> (value: Option<&AccessToken>)
        ensures
            value.deep_view() == self.token(),
    ;

    fn set_initial_access_token(&mut self, access_token: Option<AccessToken>)
        ensures
            final(self).metadata() == old(self).metadata(),
            final(self).token() == access_token.deep_view(),
    ;

    /// Registers the client at `registration_endpoint`: one request through
    /// `transport`, and no second one whatever the answer.
    fn register<ET: RegisterErrorResponseType, T: HttpTransport>(
        &self,
        transport: &T,
        registration_endpoint: &EndpointUrl,
    ) -> (r: Result<Registration10ClientRegistrationResponse, ClientRegistrationError<ET>>)
        ensures
            is_registration_result(r),
    {
        let request = registration_request(
            self.client_metadata(),
            registration_endpoint,
            self.initial_access_token(),
        );
        match transport.send(&request) {
            Err(error) => Err(ClientRegistrationError::Request(error)),
            Ok(response) => registration_from_response::<ET>(&response),
        }
    }
}

impl ClientRegistrationRequest for Registration10ClientRegistrationRequest {
    closed spec fn metadata(&self) -> ClientMetadataView {
        self.client_metadata@
    }

    closed spec fn token(&self) -> Option<Seq<char>> {
        self.initial_access_token.deep_view()
    }

    fn new(redirect_uris: Vec<EndpointUrl>) -> (request: Self) {
        Registration10ClientRegistrationRequest {
            client_metadata: ClientMetadata::new(redirect_uris),
            initial_access_token: None,
        }
    }

    fn client_metadata(&self) -> (value: &ClientMetadata) {
        assert(self.metadata() == self.client_metadata@);
        &self.client_metadata
    }

    fn initial_access_token(&self) -> (value: Option<&AccessToken>) {
        let value = self.initial_access_token.as_ref();
        assert(self.token() == self.initial_access_token.deep_view());
        value
    }

    fn set_initial_access_token(&mut self, access_token: Option<AccessToken>) {
        self.initial_access_token = access_token
    }
}

impl Registration10ClientRegistrationRequest {
    /// The same request with another value for `redirect_uris` in its metadata.
    pub fn set_redirect_uris(self, value: Vec<EndpointUrl>) -> (request: Self)
        requires
            value.len() > 0,
        ensures
            request.metadata() == (ClientMetadataView {
                redirect_uris: value.deep_view(),
                ..self.metadata()
            }),
            request.token() == self.token(),
    {
        Registration10ClientRegistrationRequest {
            client_metadata: self.client_metadata.set_redirect_uris(value),
            initial_access_token: self.initial_access_token,
        }
    }

    /// The same request with another value for `response_types` in its metadata.
    pub fn set_response_types(self, value: Option<Vec<ResponseTypes>>) -> (request: Self)
        ensures
            request.metadata() == (ClientMetadataView {
                response_types: value.deep_view(),
                ..self.metadata()
            }),
            request.token() == self.token(),
    {
        Registration10ClientRegistrationRequest {
            client_metadata: self.client_metadata.set_response_types(value),
            initial_access_token: self.initial_access_token,
        }
    }

    /// The same request with another value for `grant_types` in its metadata.
    pub fn set_grant_types(self, value: Option<Vec<String>>) -> (request: Self)
        ensures
            request.metadata() == (ClientMetadataView {
                grant_types: value.deep_view(),
                ..self.metadata()
            }),
            request.token() == self.token(),
    {
        Registration10ClientRegistrationRequest {
            client_metadata: self.client_metadata.set_grant_types(value),
            initial_access_token: self.initial_access_token,
        }
    }

    /// The same request with another value for `application_type` in its metadata.
    pub fn set_application_type(self, value: Option<String>) -> (request: Self)
        ensures
            request.metadata() == (ClientMetadataView {
                application_type: value.deep_view(),
                ..self.metadata()
            }),
            request.token() == self.token(),
    {
        Registration10ClientRegistrationRequest {
            client_metadata: self.client_metadata.set_application_type(value),
            initial_access_token: self.initial_access_token,
        }
    }

    /// The same request with another value for `contacts` in its metadata.
    pub fn set_contacts(self, value: Option<Vec<String>>) -> (request: Self)
        ensures
            request.metadata() == (ClientMetadataView {
                contacts: value.deep_view(),
                ..self.metadata()
            }),
            request.token() == self.token(),
    {
        Registration10ClientRegistrationRequest {
            client_metadata: self.client_metadata.set_contacts(value),
            initial_access_token: self.initial_access_token,
        }
    }

    /// The same request with another value for `client_name` in its metadata.
    pub fn set_client_name(self, value: Option<LocalizedClaim>) -> (request: Self)
        ensures
            request.metadata() == (ClientMetadataView {
                client_name: value.deep_view(),
                ..self.metadata()
            }),
            request.token() == self.token(),
    {
        Registration10ClientRegistrationRequest {
            client_metadata: self.client_metadata.set_client_name(value),
            initial_access_token: self.initial_access_token,
        }
    }

    /// The same request with another value for `logo_uri` in its metadata.
    pub fn set_logo_uri(self, value: Option<LocalizedUrls>) -> (request: Self)
        ensures
            request.metadata() == (ClientMetadataView {
                logo_uri: value.deep_view(),
                ..self.metadata()
            }),
            request.token() == self.token(),
    {
        Registration10ClientRegistrationRequest {
            client_metadata: self.client_metadata.set_logo_uri(value),
            initial_access_token: self.initial_access_token,
        }
    }

    /// The same request with another value for `client_uri` in its metadata.
    pub fn set_client_uri(self, value: Option<LocalizedUrls>) -> (request: Self)
        ensures
            request.metadata() == (ClientMetadataView {
                client_uri: value.deep_view(),
                ..self.metadata()
            }),
            request.token() == self.token(),
    {
        Registration10ClientRegistrationRequest {
            client_metadata: self.client_metadata.set_client_uri(value),
            initial_access_token: self.initial_access_token,
        }
    }

    /// The same request with another value for `policy_uri` in its metadata.
    pub fn set_policy_uri(self, value: Option<LocalizedUrls>) -> (request: Self)
        ensures
            request.metadata() == (ClientMetadataView {
                policy_uri: value.deep_view(),
                ..self.metadata()
            }),
            request.token() == self.token(),
    {
        Registration10ClientRegistrationRequest {
            client_metadata: self.client_metadata.set_policy_uri(value),
            initial_access_token: self.initial_access_token,
        }
    }

    /// The same request with another value for `tos_uri` in its metadata.
    pub fn set_tos_uri(self, value: Option<LocalizedUrls>) -> (request: Self)
        ensures
            request.metadata() == (ClientMetadataView {
                tos_uri: value.deep_view(),
                ..self.metadata()
            }),
            request.token() == self.token(),
    {
        Registration10ClientRegistrationRequest {
            client_metadata: self.client_metadata.set_tos_uri(value),
            initial_access_token: self.initial_access_token,
        }
    }

    /// The same request with another value for `jwks_uri` in its metadata.
    pub fn set_jwks_uri(self, value: Option<EndpointUrl>) -> (request: Self)
        ensures
            request.metadata() == (ClientMetadataView {
                jwks_uri: value.deep_view(),
                ..self.metadata()
            }),
            request.token() == self.token(),
    {
        Registration10ClientRegistrationRequest {
            client_metadata: self.client_metadata.set_jwks_uri(value),
            initial_access_token: self.initial_access_token,
        }
    }

    /// The same request with another value for `jwks` in its metadata.
    pub fn set_jwks(self, value: Option<JsonWebKeySet>) -> (request: Self)
        ensures
            request.metadata() == (ClientMetadataView {
                jwks: value.deep_view(),
                ..self.metadata()
            }),
            request.token() == self.token(),
    {
        Registration10ClientRegistrationRequest {
            client_metadata: self.client_metadata.set_jwks(value),
            initial_access_token: self.initial_access_token,
        }
    }

    /// The same request with another value for `sector_identifier_uri` in its metadata.
    pub fn set_sector_identifier_uri(self, value: Option<EndpointUrl>) -> (request: Self)
        ensures
            request.metadata() == (ClientMetadataView {
                sector_identifier_uri: value.deep_view(),
                ..self.metadata()
            }),
            request.token() == self.token(),
    {
        Registration10ClientRegistrationRequest {
            client_metadata: self.client_metadata.set_sector_identifier_uri(value),
            initial_access_token: self.initial_access_token,
        }
    }

    /// The same request with another value for `subject_type` in its metadata.
    pub fn set_subject_type(self, value: Option<String>) -> (request: Self)
        ensures
            request.metadata() == (ClientMetadataView {
                subject_type: value.deep_view(),
                ..self.metadata()
            }),
            request.token() == self.token(),
    {
        Registration10ClientRegistrationRequest {
            client_metadata: self.client_metadata.set_subject_type(value),
            initial_access_token: self.initial_access_token,
        }
    }

    /// The same request with another value for `id_token_signed_response_alg` in its metadata.
    pub fn set_id_token_signed_response_alg(self, value: Option<String>) -> (request: Self)
        ensures
            request.metadata() == (ClientMetadataView {
                id_token_signed_response_alg: value.deep_view(),
                ..self.metadata()
            }),
            request.token() == self.token(),
    {
        Registration10ClientRegistrationRequest {
            client_metadata: self.client_metadata.set_id_token_signed_response_alg(value),
            initial_access_token: self.initial_access_token,
        }
    }

    /// The same request with another value for `id_token_encrypted_response_alg` in its metadata.
    pub fn set_id_token_encrypted_response_alg(self, value: Option<String>) -> (request: Self)
        ensures
            request.metadata() == (ClientMetadataView {
                id_token_encrypted_response_alg: value.deep_view(),
                ..self.metadata()
            }),
            request.token() == self.token(),
    {
        Registration10ClientRegistrationRequest {
            client_metadata: self.client_metadata.set_id_token_encrypted_response_alg(value),
            initial_access_token: self.initial_access_token,
        }
    }

    /// The same request with another value for `id_token_encrypted_response_enc` in its metadata.
    pub fn set_id_token_encrypted_response_enc(self, value: Option<String>) -> (request: Self)
        ensures
            request.metadata() == (ClientMetadataView {
                id_token_encrypted_response_enc: value.deep_view(),
                ..self.metadata()
            }),
            request.token() == self.token(),
    {
        Registration10ClientRegistrationRequest {
            client_metadata: self.client_metadata.set_id_token_encrypted_response_enc(value),
            initial_access_token: self.initial_access_token,
        }
    }

    /// The same request with another value for `userinfo_signed_response_alg` in its metadata.
    pub fn set_userinfo_signed_response_alg(self, value: Option<String>) -> (request: Self)
        ensures
            request.metadata() == (ClientMetadataView {
                userinfo_signed_response_alg: value.deep_view(),
                ..self.metadata()
            }),
            request.token() == self.token(),
    {
        Registration10ClientRegistrationRequest {
            client_metadata: self.client_metadata.set_userinfo_signed_response_alg(value),
            initial_access_token: self.initial_access_token,
        }
    }

    /// The same request with another value for `userinfo_encrypted_response_alg` in its metadata.
    pub fn set_userinfo_encrypted_response_alg(self, value: Option<String>) -> (request: Self)
        ensures
            request.metadata() == (ClientMetadataView {
                userinfo_encrypted_response_alg: value.deep_view(),
                ..self.metadata()
            }),
            request.token() == self.token(),
    {
        Registration10ClientRegistrationRequest {
            client_metadata: self.client_metadata.set_userinfo_encrypted_response_alg(value),
            initial_access_token: self.initial_access_token,
        }
    }

    /// The same request with another value for `userinfo_encrypted_response_enc` in its metadata.
    pub fn set_userinfo_encrypted_response_enc(self, value: Option<String>) -> (request: Self)
        ensures
            request.metadata() == (ClientMetadataView {
                userinfo_encrypted_response_enc: value.deep_view(),
                ..self.metadata()
            }),
            request.token() == self.token(),
    {
        Registration10ClientRegistrationRequest {
            client_metadata: self.client_metadata.set_userinfo_encrypted_response_enc(value),
            initial_access_token: self.initial_access_token,
        }
    }

    /// The same request with another value for `request_object_signing_alg` in its metadata.
    pub fn set_request_object_signing_alg(self, value: Option<String>) -> (request: Self)
        ensures
            request.metadata() == (ClientMetadataView {
                request_object_signing_alg: value.deep_view(),
                ..self.metadata()
            }),
            request.token() == self.token(),
    {
        Registration10ClientRegistrationRequest {
            client_metadata: self.client_metadata.set_request_object_signing_alg(value),
            initial_access_token: self.initial_access_token,
        }
    }

    /// The same request with another value for `request_object_encryption_alg` in its metadata.
    pub fn set_request_object_encryption_alg(self, value: Option<String>) -> (request: Self)
        ensures
            request.metadata() == (ClientMetadataView {
                request_object_encryption_alg: value.deep_view(),
                ..self.metadata()
            }),
            request.token() == self.token(),
    {
        Registration10ClientRegistrationRequest {
            client_metadata: self.client_metadata.set_request_object_encryption_alg(value),
            initial_access_token: self.initial_access_token,
        }
    }

    /// The same request with another value for `request_object_encryption_enc` in its metadata.
    pub fn set_request_object_encryption_enc(self, value: Option<String>) -> (request: Self)
        ensures
            request.metadata() == (ClientMetadataView {
                request_object_encryption_enc: value.deep_view(),
                ..self.metadata()
            }),
            request.token() == self.token(),
    {
        Registration10ClientRegistrationRequest {
            client_metadata: self.client_metadata.set_request_object_encryption_enc(value),
            initial_access_token: self.initial_access_token,
        }
    }

    /// The same request with another value for `token_endpoint_auth_method` in its metadata.
    pub fn set_token_endpoint_auth_method(self, value: Option<String>) -> (request: Self)
        ensures
            request.metadata() == (ClientMetadataView {
                token_endpoint_auth_method: value.deep_view(),
                ..self.metadata()
            }),
            request.token() == self.token(),
    {
        Registration10ClientRegistrationRequest {
            client_metadata: self.client_metadata.set_token_endpoint_auth_method(value),
            initial_access_token: self.initial_access_token,
        }
    }

    /// The same request with another value for `token_endpoint_auth_signing_alg` in its metadata.
    pub fn set_token_endpoint_auth_signing_alg(self, value: Option<String>) -> (request: Self)
        ensures
            request.metadata() == (ClientMetadataView {
                token_endpoint_auth_signing_alg: value.deep_view(),
                ..self.metadata()
            }),
            request.token() == self.token(),
    {
        Registration10ClientRegistrationRequest {
            client_metadata: self.client_metadata.set_token_endpoint_auth_signing_alg(value),
            initial_access_token: self.initial_access_token,
        }
    }

    /// The same request with another value for `default_max_age` in its metadata.
    pub fn set_default_max_age(self, value: Option<u64>) -> (request: Self)
        ensures
            request.metadata() == (ClientMetadataView {
                default_max_age: value.deep_view(),
                ..self.metadata()
            }),
            request.token() == self.token(),
    {
        Registration10ClientRegistrationRequest {
            client_metadata: self.client_metadata.set_default_max_age(value),
            initial_access_token: self.initial_access_token,
        }
    }

    /// The same request with another value for `require_auth_time` in its metadata.
    pub fn set_require_auth_time(self, value: Option<bool>) -> (request: Self)
        ensures
            request.metadata() == (ClientMetadataView {
                require_auth_time: value.deep_view(),
                ..self.metadata()
            }),
            request.token() == self.token(),
    {
        Registration10ClientRegistrationRequest {
            client_metadata: self.client_metadata.set_require_auth_time(value),
            initial_access_token: self.initial_access_token,
        }
    }

    /// The same request with another value for `default_acr_values` in its metadata.
    pub fn set_default_acr_values(self, value: Option<Vec<String>>) -> (request: Self)
        ensures
            request.metadata() == (ClientMetadataView {
                default_acr_values: value.deep_view(),
                ..self.metadata()
            }),
            request.token() == self.token(),
    {
        Registration10ClientRegistrationRequest {
            client_metadata: self.client_metadata.set_default_acr_values(value),
            initial_access_token: self.initial_access_token,
        }
    }

    /// The same request with another value for `initiate_login_uri` in its metadata.
    pub fn set_initiate_login_uri(self, value: Option<EndpointUrl>) -> (request: Self)
        ensures
            request.metadata() == (ClientMetadataView {
                initiate_login_uri: value.deep_view(),
                ..self.metadata()
            }),
            request.token() == self.token(),
    {
        Registration10ClientRegistrationRequest {
            client_metadata: self.client_metadata.set_initiate_login_uri(value),
            initial_access_token: self.initial_access_token,
        }
    }

    /// The same request with another value for `request_uris` in its metadata.
    pub fn set_request_uris(self, value: Option<Vec<EndpointUrl>>) -> (request: Self)
        ensures
            request.metadata() == (ClientMetadataView {
                request_uris: value.deep_view(),
                ..self.metadata()
            }),
            request.token() == self.token(),
    {
        Registration10ClientRegistrationRequest {
            client_metadata: self.client_metadata.set_request_uris(value),
            initial_access_token: self.initial_access_token,
        }
    }

}

} // verus!
