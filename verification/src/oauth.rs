//! The OAuth 2.0 steps of the flow: the address that the end user is sent
//! to, the code that comes back, and the exchange of the code for tokens.

use crate::http::{
    content_type_complaint, has_content_type, mime_type_json, Headers, HttpRequest,
    HttpRequestMethod, HttpResponse, HttpTransport, TransportError, HTTP_STATUS_BAD_REQUEST,
    HTTP_STATUS_OK,
};
use crate::json::{parse, parsed_json, Json, JsonError, JsonFault, JsonValue};
use crate::reader::{
    agrees, members_of, optional_text, optional_unsigned, plain_entries, plain_members,
    read_text, read_unsigned, require_text, required_text, Entry,
};
use crate::text::{find_char, index_of, join, join_spaced, optional_str, str_eq};
use crate::types::{
    holds_char, AccessToken, ClientId, ClientSecret, EndpointUrl, Nonce, ResponseTypes,
};
use crate::verification::{constant_time_eq, decode_id_token, IdToken, IdTokenView};
use vstd::prelude::*;
use vstd::string::StrSliceExecFns;
use vstd::string::StringExecFns;

verus! {

/// A type of error codes that a provider may answer with. It says which
/// texts it knows and reads a code from its text: a closed set of codes
/// refuses what it does not know, an open one takes any text.
pub trait ErrorResponseType: Sized {
    /// The text of the code.
    spec fn code(&self) -> Seq<char>;

    /// Whether a text is a code of this type.
    spec fn knows(code: Seq<char>) -> bool;

    fn from_code(code: &str) -> (r: Option<Self>)
        ensures
            r is Some <==> Self::knows(code@),
            r matches Some(error) ==> error.code() == code@,
    ;

    fn to_code(&self) -> (code: String)
        ensures
            code@ == self.code(),
    ;
}

/// Error codes as the provider wrote them, whatever they are.
#[derive(Debug, Clone, PartialEq, Eq)]
pub struct AnyErrorResponseType {
    pub code: String,
}

impl ErrorResponseType for AnyErrorResponseType {
    open spec fn code(&self) -> Seq<char> {
        self.code@
    }

    open spec fn knows(code: Seq<char>) -> bool {
        true
    }

    fn from_code(code: &str) -> (r: Option<Self>) {
        Some(AnyErrorResponseType { code: String::from_str(code) })
    }

    fn to_code(&self) -> (code: String) {
        self.code.clone()
    }
}

/// An error that a provider reports in the body of its answer.
#[derive(Debug)]
pub struct ErrorResponse<ET: ErrorResponseType> {
    pub error: ET,
    pub error_description: Option<String>,
    pub error_uri: Option<String>,
}

/// What an `ErrorResponse` holds.
pub struct ErrorResponseView {
    pub error: Seq<char>,
    pub error_description: Option<Seq<char>>,
    pub error_uri: Option<Seq<char>>,
}

impl<ET: ErrorResponseType> View for ErrorResponse<ET> {
    type V = ErrorResponseView;

    open spec fn view(&self) -> ErrorResponseView {
        ErrorResponseView {
            error: self.error.code(),
            error_description: self.error_description.deep_view(),
            error_uri: self.error_uri.deep_view(),
        }
    }
}

impl<ET: ErrorResponseType> DeepView for ErrorResponse<ET> {
    type V = ErrorResponseView;

    open spec fn deep_view(&self) -> ErrorResponseView {
        self@
    }
}

/// The error that the members of a document stand for: `error` must be a
/// code that `ET` knows.
pub open spec fn error_response_of<ET: ErrorResponseType>(entries: Seq<Entry>) -> Result<
    ErrorResponseView,
    JsonFault,
> {
    let error = required_text(entries, "error"@);
    let error_description = optional_text(entries, "error_description"@);
    let error_uri = optional_text(entries, "error_uri"@);
    if error is Err {
        Err(error->Err_0)
    } else if !ET::knows(error->Ok_0) {
        Err(JsonFault::InvalidValue("error"@))
    } else if error_description is Err {
        Err(error_description->Err_0)
    } else if error_uri is Err {
        Err(error_uri->Err_0)
    } else {
        Ok(
            ErrorResponseView {
                error: error->Ok_0,
                error_description: error_description->Ok_0,
                error_uri: error_uri->Ok_0,
            },
        )
    }
}

/// The error that a document stands for.
pub open spec fn decode_error_response<ET: ErrorResponseType>(doc: Json) -> Result<
    ErrorResponseView,
    JsonFault,
> {
    match members_of(doc) {
        Ok(members) => error_response_of::<ET>(plain_entries(members)),
        Err(fault) => Err(fault),
    }
}

impl<ET: ErrorResponseType> ErrorResponse<ET> {
    /// Reads an error from its document.
    pub fn from_json(doc: &JsonValue) -> (r: Result<ErrorResponse<ET>, JsonError>)
        ensures
            agrees(r, decode_error_response::<ET>(doc@)),
    {
        let entries = match plain_members(doc) {
            Ok(entries) => entries,
            Err(error) => {
                return Err(error);
            },
        };
        let code = match require_text(&entries, "error") {
            Ok(code) => code,
            Err(error) => {
                return Err(error);
            },
        };
        let error = match ET::from_code(code.as_str()) {
            Some(error) => error,
            None => {
                return Err(JsonError::InvalidValue(String::from_str("error")));
            },
        };
        let error_description = match read_text(&entries, "error_description") {
            Ok(value) => value,
            Err(error) => {
                return Err(error);
            },
        };
        let error_uri = match read_text(&entries, "error_uri") {
            Ok(value) => value,
            Err(error) => {
                return Err(error);
            },
        };
        Ok(ErrorResponse { error, error_description, error_uri })
    }
}

/// The error codes of the OAuth 2.0 token endpoint.
#[derive(Debug, Clone, Copy, PartialEq, Eq, Structural)]
pub enum BasicErrorResponseType {
    /// `invalid_request`
    InvalidRequest,
    /// `invalid_client`
    InvalidClient,
    /// `invalid_grant`
    InvalidGrant,
    /// `unauthorized_client`
    UnauthorizedClient,
    /// `unsupported_grant_type`
    UnsupportedGrantType,
    /// `invalid_scope`
    InvalidScope,
}

impl ErrorResponseType for BasicErrorResponseType {
    open spec fn code(&self) -> Seq<char> {
        match self {
            BasicErrorResponseType::InvalidRequest => "invalid_request"@,
            BasicErrorResponseType::InvalidClient => "invalid_client"@,
            BasicErrorResponseType::InvalidGrant => "invalid_grant"@,
            BasicErrorResponseType::UnauthorizedClient => "unauthorized_client"@,
            BasicErrorResponseType::UnsupportedGrantType => "unsupported_grant_type"@,
            BasicErrorResponseType::InvalidScope => "invalid_scope"@,
        }
    }

    open spec fn knows(code: Seq<char>) -> bool {
        code == "invalid_request"@ || code == "invalid_client"@ || code == "invalid_grant"@
            || code == "unauthorized_client"@ || code == "unsupported_grant_type"@ || code
            == "invalid_scope"@
    }

    fn from_code(code: &str) -> (r: Option<Self>) {
        if str_eq(code, "invalid_request") {
            Some(BasicErrorResponseType::InvalidRequest)
        } else if str_eq(code, "invalid_client") {
            Some(BasicErrorResponseType::InvalidClient)
        } else if str_eq(code, "invalid_grant") {
            Some(BasicErrorResponseType::InvalidGrant)
        } else if str_eq(code, "unauthorized_client") {
            Some(BasicErrorResponseType::UnauthorizedClient)
        } else if str_eq(code, "unsupported_grant_type") {
            Some(BasicErrorResponseType::UnsupportedGrantType)
        } else if str_eq(code, "invalid_scope") {
            Some(BasicErrorResponseType::InvalidScope)
        } else {
            None
        }
    }

    fn to_code(&self) -> (code: String) {
        match self {
            BasicErrorResponseType::InvalidRequest => String::from_str("invalid_request"),
            BasicErrorResponseType::InvalidClient => String::from_str("invalid_client"),
            BasicErrorResponseType::InvalidGrant => String::from_str("invalid_grant"),
            BasicErrorResponseType::UnauthorizedClient => String::from_str("unauthorized_client"),
            BasicErrorResponseType::UnsupportedGrantType => String::from_str(
                "unsupported_grant_type",
            ),
            BasicErrorResponseType::InvalidScope => String::from_str("invalid_scope"),
        }
    }
}

/// Names and values as they stand in a query or in the body of a form.
pub type Pairs = Seq<(Seq<char>, Seq<char>)>;

/// The text of names and values in `application/x-www-form-urlencoded`.
pub uninterp spec fn form_encoded(pairs: Pairs) -> Seq<char>;

/// One text in `application/x-www-form-urlencoded`.
pub uninterp spec fn form_encoded_text(text: Seq<char>) -> Seq<char>;

/// The text of bytes in base64 with the standard alphabet and padding.
pub uninterp spec fn base64_text(bytes: Seq<u8>) -> Seq<char>;

/// The names and values in the query of a URL, where the text is a URL.
pub uninterp spec fn url_query_pairs(text: Seq<char>) -> Option<Pairs>;

/// The text of bytes in base64 with the URL-safe alphabet and without
/// padding.
pub uninterp spec fn base64url_text(bytes: Seq<u8>) -> Seq<char>;

/// `url::form_urlencoded::Serializer` on an empty text: `extend_pairs` with
/// the names and values, then `finish`.
#[verifier::external_body]
fn form_encode(pairs: &Vec<(String, String)>) -> (text: String)
    ensures
        text@ == form_encoded(pairs.deep_view()),
{
    url::form_urlencoded::Serializer::new(String::new()).extend_pairs(pairs).finish()
}

/// `url::form_urlencoded::byte_serialize` on the bytes of a text, its
/// pieces put together.
#[verifier::external_body]
fn form_encode_text(text: &str) -> (encoded: String)
    ensures
        encoded@ == form_encoded_text(text@),
{
    url::form_urlencoded::byte_serialize(text.as_bytes()).collect()
}

/// `base64::Engine::encode` of the engine `STANDARD`.
#[verifier::external_body]
fn base64_encode(bytes: &[u8]) -> (text: String)
    ensures
        text@ == base64_text(bytes@),
{
    base64::Engine::encode(&base64::engine::general_purpose::STANDARD, bytes)
}

/// `base64::Engine::encode` of the engine `URL_SAFE_NO_PAD`.
#[verifier::external_body]
fn base64url_encode(bytes: &[u8]) -> (text: String)
    ensures
        text@ == base64url_text(bytes@),
{
    base64::Engine::encode(&base64::engine::general_purpose::URL_SAFE_NO_PAD, bytes)
}

/// `ring::rand::SecureRandom::fill` of a `ring::rand::SystemRandom` on
/// sixteen bytes: the bytes where the system has randomness to give, and
/// which bytes they are is not for anyone to say.
#[verifier::external_body]
fn random_bytes() -> (r: Result<Vec<u8>, ring::error::Unspecified>)
    ensures
        r matches Ok(bytes) ==> bytes@.len() == 16,
{
    let mut bytes = vec![0u8; 16];
    ring::rand::SecureRandom::fill(&ring::rand::SystemRandom::new(), &mut bytes)?;
    Ok(bytes)
}

/// The text that a token of these bytes is handed about as: the bytes in
/// base64url.
pub fn token_text(bytes: &[u8]) -> (text: String)
    ensures
        text@ == base64url_text(bytes@),
{
    base64url_encode(bytes)
}

/// Whether a text is that of a token of sixteen bytes.
pub open spec fn is_token_text(text: Seq<char>) -> bool {
    exists|bytes: Seq<u8>| bytes.len() == 16 && text == #[trigger] base64url_text(bytes)
}

/// A text that nobody can guess: sixteen random bytes as `token_text` writes
/// them. There is none where the system has no randomness to give.
pub fn random_text() -> (r: Option<String>)
    ensures
        r matches Some(text) ==> is_token_text(text@),
{
    match random_bytes() {
        Ok(bytes) => Some(token_text(bytes.as_slice())),
        Err(_) => None,
    }
}

/// `url::Url::parse`, then `Url::query_pairs` with each name and value
/// copied out: the pairs that `url_query_pairs` knows, or the parser's
/// error.
#[verifier::external_body]
fn query_pairs(text: &str) -> (r: Result<Vec<(String, String)>, url::ParseError>)
    ensures
        r is Ok <==> url_query_pairs(text@) is Some,
        r matches Ok(pairs) ==> url_query_pairs(text@) == Some(pairs.deep_view()),
{
    let url = url::Url::parse(text)?;
    Ok(url.query_pairs().map(|(name, value)| (name.into_owned(), value.into_owned())).collect())
}

/// The value that ties the answer of the provider to the request that the
/// client sent the end user away with.
#[derive(Debug, Clone, PartialEq, Eq)]
pub struct CsrfToken {
    text: String,
}

impl View for CsrfToken {
    type V = Seq<char>;

    closed spec fn view(&self) -> Seq<char> {
        self.text@
    }
}

impl CsrfToken {
    /// A state value that nobody can guess.
    pub fn new_random() -> (r: Option<CsrfToken>)
        ensures
            r matches Some(state) ==> is_token_text(state@),
    {
        match random_text() {
            Some(text) => Some(CsrfToken { text }),
            None => None,
        }
    }

    /// A state value of this text.
    pub fn new(text: String) -> (value: CsrfToken)
        ensures
            value@ == text@,
    {
        CsrfToken { text }
    }

    /// The text of the value.
    pub fn secret(&self) -> (text: &str)
        ensures
            text@ == self@,
    {
        self.text.as_str()
    }
}

/// The code that the provider hands the client through the end user, to be
/// exchanged for tokens.
#[derive(Debug, Clone, PartialEq, Eq)]
pub struct AuthorizationCode {
    text: String,
}

impl View for AuthorizationCode {
    type V = Seq<char>;

    closed spec fn view(&self) -> Seq<char> {
        self.text@
    }
}

impl DeepView for AuthorizationCode {
    type V = Seq<char>;

    open spec fn deep_view(&self) -> Seq<char> {
        self@
    }
}

impl AuthorizationCode {
    /// A code of this text.
    pub fn new(text: String) -> (value: AuthorizationCode)
        ensures
            value@ == text@,
    {
        AuthorizationCode { text }
    }

    /// The text of the value.
    pub fn secret(&self) -> (text: &str)
        ensures
            text@ == self@,
    {
        self.text.as_str()
    }
}

/// A nonce that nobody can guess.
pub fn random_nonce() -> (r: Option<Nonce>)
    ensures
        r matches Some(nonce) ==> is_token_text(nonce@),
{
    match random_text() {
        Some(text) => Some(Nonce::new(text)),
        None => None,
    }
}

/// The scopes that are asked for: `openid` always, then the others.
pub open spec fn scope_text(scopes: Seq<Seq<char>>) -> Seq<char> {
    join(seq!["openid"@] + scopes, ' ')
}

/// The names and values of an authorization request.
pub open spec fn authorization_pairs(
    client_id: Seq<char>,
    redirect_uri: Seq<char>,
    response_types: Seq<Seq<char>>,
    scopes: Seq<Seq<char>>,
    state: Seq<char>,
    nonce: Seq<char>,
    display: Option<Seq<char>>,
    prompt: Option<Seq<char>>,
) -> Pairs {
    let always = seq![
        ("response_type"@, join(response_types, ' ')),
        ("client_id"@, client_id),
        ("redirect_uri"@, redirect_uri),
        ("scope"@, scope_text(scopes)),
        ("state"@, state),
        ("nonce"@, nonce),
    ];
    let displayed = match display {
        Some(display) => always.push(("display"@, display)),
        None => always,
    };
    match prompt {
        Some(prompt) => displayed.push(("prompt"@, prompt)),
        None => displayed,
    }
}

/// An address with a query added to it: behind a `?`, or behind a `&` where
/// the address has a query already, and before the fragment where it has
/// one.
pub open spec fn with_query(address: Seq<char>, query: Seq<char>) -> Seq<char> {
    let end = index_of(address, '#');
    let head = address.take(end);
    let fragment = address.skip(end);
    let mark = if head.contains('?') {
        seq!['&']
    } else {
        seq!['?']
    };
    head + mark + query + fragment
}

/// Adds a query to an address.
pub fn add_query(address: &str, query: &str) -> (url: String)
    ensures
        url@ == with_query(address@, query@),
{
    let n = address.unicode_len();
    let end = find_char(address, '#');
    let head = address.substring_char(0, end);
    let fragment = address.substring_char(end, n);
    proof {
        reveal_strlit("&");
        reveal_strlit("?");
    }
    let mut url = String::from_str(head);
    if holds_char(head, '?') {
        url.append("&");
    } else {
        url.append("?");
    }
    url.append(query);
    url.append(fragment);
    url
}

/// The address that the end user is sent to for authentication: the
/// authorization endpoint with the request as its query.
pub fn authorize_url(
    endpoint: &EndpointUrl,
    client_id: &ClientId,
    redirect_uri: &EndpointUrl,
    response_types: &ResponseTypes,
    scopes: &Vec<String>,
    state: &CsrfToken,
    nonce: &Nonce,
    display: Option<&str>,
    prompt: Option<&str>,
) -> (url: String)
    ensures
        url@ == with_query(
            endpoint@,
            form_encoded(
                authorization_pairs(
                    client_id@,
                    redirect_uri@,
                    response_types@,
                    scopes.deep_view(),
                    state@,
                    nonce@,
                    display.deep_view(),
                    prompt.deep_view(),
                ),
            ),
        ),
{
    let mut asked: Vec<String> = Vec::new();
    asked.push(String::from_str("openid"));
    let n = scopes.len();
    let mut i: usize = 0;
    while i < n
        invariant
            n == scopes.len(),
            i <= n,
            asked.deep_view() == seq!["openid"@] + scopes.deep_view().take(i as int),
        decreases n - i,
    {
        let ghost before = asked.deep_view();
        asked.push(scopes[i].clone());
        proof {
            assert(asked.deep_view() =~= before.push(scopes.deep_view()[i as int]));
        }
        i += 1;
    }
    assert(scopes.deep_view().take(n as int) =~= scopes.deep_view());
    let mut pairs: Vec<(String, String)> = Vec::new();
    pairs.push((String::from_str("response_type"), response_types.to_text()));
    pairs.push((String::from_str("client_id"), String::from_str(client_id.as_str())));
    pairs.push((String::from_str("redirect_uri"), String::from_str(redirect_uri.as_str())));
    pairs.push((String::from_str("scope"), join_spaced(&asked)));
    pairs.push((String::from_str("state"), String::from_str(state.secret())));
    pairs.push((String::from_str("nonce"), String::from_str(nonce.secret())));
    match display {
        Some(display) => {
            pairs.push((String::from_str("display"), String::from_str(display)));
        },
        None => {},
    }
    match prompt {
        Some(prompt) => {
            pairs.push((String::from_str("prompt"), String::from_str(prompt)));
        },
        None => {},
    }
    assert(pairs.deep_view() =~= authorization_pairs(
        client_id@,
        redirect_uri@,
        response_types@,
        scopes.deep_view(),
        state@,
        nonce@,
        display.deep_view(),
        prompt.deep_view(),
    ));
    let query = form_encode(&pairs);
    add_query(endpoint.as_str(), query.as_str())
}

/// Why no authorization code was had.
#[derive(Debug, PartialEq, Eq)]
pub enum AuthorizationError {
    /// The address that the end user came back to is no URL.
    Url(url::ParseError),
    /// The provider reports an error; this is its code.
    Provider(String),
    /// The answer does not belong to the request that was sent.
    StateMismatch,
    /// The answer holds no code, or an empty one.
    MissingCode,
}

/// What an `AuthorizationError` says.
pub enum AuthorizationFault {
    Url,
    Provider(Seq<char>),
    StateMismatch,
    MissingCode,
}

impl View for AuthorizationError {
    type V = AuthorizationFault;

    open spec fn view(&self) -> AuthorizationFault {
        match self {
            AuthorizationError::Url(_) => AuthorizationFault::Url,
            AuthorizationError::Provider(code) => AuthorizationFault::Provider(code@),
            AuthorizationError::StateMismatch => AuthorizationFault::StateMismatch,
            AuthorizationError::MissingCode => AuthorizationFault::MissingCode,
        }
    }
}

/// The position of the first pair called `name` at or after `from`; the
/// number of pairs where there is none.
pub open spec fn pair_from(pairs: Pairs, name: Seq<char>, from: int) -> int
    decreases pairs.len() - from,
{
    if from < 0 || from >= pairs.len() {
        pairs.len() as int
    } else if pairs[from].0 == name {
        from
    } else {
        pair_from(pairs, name, from + 1)
    }
}

/// The value of the first pair called `name`.
pub open spec fn pair_value(pairs: Pairs, name: Seq<char>) -> Option<Seq<char>> {
    let at = pair_from(pairs, name, 0);
    if 0 <= at < pairs.len() {
        Some(pairs[at].1)
    } else {
        None
    }
}

/// Finds the value of the first pair called `name`.
pub fn find_pair<'a>(pairs: &'a Vec<(String, String)>, name: &str) -> (value: Option<&'a str>)
    ensures
        value.deep_view() == pair_value(pairs.deep_view(), name@),
{
    let n = pairs.len();
    let ghost all = pairs.deep_view();
    let mut i: usize = 0;
    while i < n
        invariant
            n == pairs.len(),
            i <= n,
            all == pairs.deep_view(),
            pair_from(all, name@, 0) == pair_from(all, name@, i as int),
        decreases n - i,
    {
        if str_eq(pairs[i].0.as_str(), name) {
            return Some(pairs[i].1.as_str());
        }
        i += 1;
    }
    None
}

/// The authorization code in the names and values that the end user came
/// back with. An error that the provider reports comes first; then the
/// state must be the one that was sent; then there must be a code, and not
/// an empty one.
pub open spec fn authorization_code_in(pairs: Pairs, state: Seq<char>) -> Result<
    Seq<char>,
    AuthorizationFault,
> {
    if pair_value(pairs, "error"@) is Some {
        Err(AuthorizationFault::Provider(pair_value(pairs, "error"@)->0))
    } else if pair_value(pairs, "state"@) != Some(state) {
        Err(AuthorizationFault::StateMismatch)
    } else if pair_value(pairs, "code"@) is None || pair_value(pairs, "code"@)->0.len() == 0 {
        Err(AuthorizationFault::MissingCode)
    } else {
        Ok(pair_value(pairs, "code"@)->0)
    }
}

/// Whether reading the answer of the provider gave the result that is stated for it.
pub open spec fn authorized(
    r: Result<AuthorizationCode, AuthorizationError>,
    s: Result<Seq<char>, AuthorizationFault>,
) -> bool {
    match (r, s) {
        (Ok(x), Ok(y)) => x@ == y,
        (Err(e), Err(f)) => e@ == f,
        _ => false,
    }
}

/// Takes the authorization code out of the names and values that the end
/// user came back with.
pub fn authorization_code(pairs: &Vec<(String, String)>, state: &CsrfToken) -> (r: Result<
    AuthorizationCode,
    AuthorizationError,
>)
    ensures
        authorized(r, authorization_code_in(pairs.deep_view(), state@)),
{
    match find_pair(pairs, "error") {
        Some(code) => {
            return Err(AuthorizationError::Provider(String::from_str(code)));
        },
        None => {},
    }
    let same = match find_pair(pairs, "state") {
        Some(found) => constant_time_eq(found, state.secret()),
        None => false,
    };
    if !same {
        return Err(AuthorizationError::StateMismatch);
    }
    match find_pair(pairs, "code") {
        Some(code) => {
            if code.unicode_len() == 0 {
                Err(AuthorizationError::MissingCode)
            } else {
                Ok(AuthorizationCode::new(String::from_str(code)))
            }
        },
        None => Err(AuthorizationError::MissingCode),
    }
}

/// Takes the authorization code out of the address that the end user came
/// back to.
pub fn authorization_response(redirected: &str, state: &CsrfToken) -> (r: Result<
    AuthorizationCode,
    AuthorizationError,
>)
    ensures
        match url_query_pairs(redirected@) {
            Some(pairs) => authorized(r, authorization_code_in(pairs, state@)),
            None => r matches Err(error) && error@ == AuthorizationFault::Url,
        },
        r matches Ok(code) ==> code@.len() > 0,
{
    match query_pairs(redirected) {
        Ok(pairs) => authorization_code(&pairs, state),
        Err(error) => Err(AuthorizationError::Url(error)),
    }
}

/// How a client presents itself at the token endpoint.
#[derive(Debug, Clone, Copy, PartialEq, Eq, Structural)]
pub enum AuthType {
    /// In an `Authorization` header: `client_secret_basic`.
    BasicAuth,
    /// In the body of the request: `client_secret_post`.
    RequestBody,
}

/// Whether the client presents itself in a header: where that is asked for
/// and the client has a secret to present.
pub open spec fn presents_in_header(auth_type: AuthType, client_secret: Option<Seq<char>>) -> bool {
    auth_type == AuthType::BasicAuth && client_secret is Some
}

/// The names and values of a request that exchanges a code for tokens.
/// Where the client does not present itself in a header, its identifier and
/// its secret, if it has one, stand here.
pub open spec fn token_pairs(
    code: Seq<char>,
    redirect_uri: Seq<char>,
    client_id: Seq<char>,
    client_secret: Option<Seq<char>>,
    auth_type: AuthType,
) -> Pairs {
    let always = seq![
        ("grant_type"@, "authorization_code"@),
        ("code"@, code),
        ("redirect_uri"@, redirect_uri),
    ];
    if presents_in_header(auth_type, client_secret) {
        always
    } else {
        let named = always.push(("client_id"@, client_id));
        match client_secret {
            Some(secret) => named.push(("client_secret"@, secret)),
            None => named,
        }
    }
}

/// The value of the header in which a client presents itself: `Basic` and
/// the base64 text of its identifier and its secret, both form-encoded,
/// with a colon between them.
pub open spec fn basic_credentials(client_id: Seq<char>, client_secret: Seq<char>) -> Seq<char> {
    "Basic "@ + base64_text(
        vstd::utf8::encode_utf8(
            form_encoded_text(client_id) + seq![':'] + form_encoded_text(client_secret),
        ),
    )
}

/// The headers of a request that exchanges a code for tokens.
pub open spec fn token_headers(
    client_id: Seq<char>,
    client_secret: Option<Seq<char>>,
    auth_type: AuthType,
) -> Headers {
    let always = seq![
        ("Accept"@, "application/json"@),
        ("Content-Type"@, "application/x-www-form-urlencoded"@),
    ];
    if presents_in_header(auth_type, client_secret) {
        always.push(("Authorization"@, basic_credentials(client_id, client_secret->0)))
    } else {
        always
    }
}

/// Makes the request that exchanges an authorization code for tokens.
pub fn token_request(
    endpoint: &EndpointUrl,
    code: &AuthorizationCode,
    redirect_uri: &EndpointUrl,
    client_id: &ClientId,
    client_secret: Option<&ClientSecret>,
    auth_type: AuthType,
) -> (request: HttpRequest)
    ensures
        request.url@ == endpoint@,
        request.method == HttpRequestMethod::Post,
        request.headers.deep_view() == token_headers(
            client_id@,
            client_secret.deep_view(),
            auth_type,
        ),
        request.post_body@ == vstd::utf8::encode_utf8(
            form_encoded(
                token_pairs(
                    code@,
                    redirect_uri@,
                    client_id@,
                    client_secret.deep_view(),
                    auth_type,
                ),
            ),
        ),
{
    let mut headers: Vec<(String, String)> = Vec::new();
    headers.push((String::from_str("Accept"), String::from_str("application/json")));
    headers.push(
        (String::from_str("Content-Type"), String::from_str("application/x-www-form-urlencoded")),
    );
    let mut pairs: Vec<(String, String)> = Vec::new();
    pairs.push((String::from_str("grant_type"), String::from_str("authorization_code")));
    pairs.push((String::from_str("code"), String::from_str(code.secret())));
    pairs.push((String::from_str("redirect_uri"), String::from_str(redirect_uri.as_str())));
    let in_header = match (auth_type, client_secret) {
        (AuthType::BasicAuth, Some(secret)) => {
            let mut credentials = form_encode_text(client_id.as_str());
            proof {
                reveal_strlit(":");
                assert(":"@ =~= seq![':']);
            }
            credentials.append(":");
            credentials.append(form_encode_text(secret.secret()).as_str());
            let mut value = String::from_str("Basic ");
            value.append(base64_encode(credentials.as_str().as_bytes()).as_str());
            headers.push((String::from_str("Authorization"), value));
            true
        },
        _ => false,
    };
    if !in_header {
        pairs.push((String::from_str("client_id"), String::from_str(client_id.as_str())));
        match client_secret {
            Some(secret) => {
                pairs.push((String::from_str("client_secret"), String::from_str(secret.secret())));
            },
            None => {},
        }
    }
    proof {
        assert(pairs.deep_view() =~= token_pairs(
            code@,
            redirect_uri@,
            client_id@,
            client_secret.deep_view(),
            auth_type,
        ));
    }
    let body = form_encode(&pairs);
    HttpRequest {
        url: endpoint.clone(),
        method: HttpRequestMethod::Post,
        headers,
        post_body: body.as_str().as_bytes_vec(),
    }
}

/// What a provider hands out for an authorization code.
#[derive(Debug)]
pub struct TokenResponse {
    access_token: AccessToken,
    token_type: String,
    expires_in: Option<u64>,
    refresh_token: Option<String>,
    scope: Option<String>,
    id_token: IdToken,
}

/// What a `TokenResponse` holds.
pub struct TokenResponseView {
    pub access_token: Seq<char>,
    pub token_type: Seq<char>,
    pub expires_in: Option<u64>,
    pub refresh_token: Option<Seq<char>>,
    pub scope: Option<Seq<char>>,
    pub id_token: IdTokenView,
}

impl View for TokenResponse {
    type V = TokenResponseView;

    closed spec fn view(&self) -> TokenResponseView {
        TokenResponseView {
            access_token: self.access_token@,
            token_type: self.token_type@,
            expires_in: self.expires_in,
            refresh_token: self.refresh_token.deep_view(),
            scope: self.scope.deep_view(),
            id_token: self.id_token@,
        }
    }
}

impl DeepView for TokenResponse {
    type V = TokenResponseView;

    open spec fn deep_view(&self) -> TokenResponseView {
        self@
    }
}

/// The tokens that the members of a document stand for. The ID token must
/// be there and must be one that can be read.
pub open spec fn token_response_of(entries: Seq<Entry>) -> Option<TokenResponseView> {
    let access_token = required_text(entries, "access_token"@);
    let token_type = required_text(entries, "token_type"@);
    let expires_in = optional_unsigned(entries, "expires_in"@);
    let refresh_token = optional_text(entries, "refresh_token"@);
    let scope = optional_text(entries, "scope"@);
    let id_token = required_text(entries, "id_token"@);
    if access_token is Err || token_type is Err || expires_in is Err || refresh_token is Err
        || scope is Err || id_token is Err {
        None
    } else {
        match decode_id_token(id_token->Ok_0) {
            Err(_) => None,
            Ok(id_token) => Some(
                TokenResponseView {
                    access_token: access_token->Ok_0,
                    token_type: token_type->Ok_0,
                    expires_in: expires_in->Ok_0,
                    refresh_token: refresh_token->Ok_0,
                    scope: scope->Ok_0,
                    id_token,
                },
            ),
        }
    }
}

/// The tokens that a document stands for.
pub open spec fn decode_token_response(doc: Json) -> Option<TokenResponseView> {
    match members_of(doc) {
        Ok(members) => token_response_of(plain_entries(members)),
        Err(_) => None,
    }
}

impl TokenResponse {
    /// Reads the tokens from their document, or says why they cannot be
    /// read.
    pub fn from_json(doc: &JsonValue) -> (r: Result<TokenResponse, String>)
        ensures
            r is Ok <==> decode_token_response(doc@) is Some,
            r matches Ok(tokens) ==> Some(tokens@) == decode_token_response(doc@),
    {
        let entries = match plain_members(doc) {
            Ok(entries) => entries,
            Err(_) => {
                return Err(String::from_str("the token response is no object"));
            },
        };
        let access_token = match require_text(&entries, "access_token") {
            Ok(value) => AccessToken::new(value),
            Err(_) => {
                return Err(String::from_str("access_token"));
            },
        };
        let token_type = match require_text(&entries, "token_type") {
            Ok(value) => value,
            Err(_) => {
                return Err(String::from_str("token_type"));
            },
        };
        let expires_in = match read_unsigned(&entries, "expires_in") {
            Ok(value) => value,
            Err(_) => {
                return Err(String::from_str("expires_in"));
            },
        };
        let refresh_token = match read_text(&entries, "refresh_token") {
            Ok(value) => value,
            Err(_) => {
                return Err(String::from_str("refresh_token"));
            },
        };
        let scope = match read_text(&entries, "scope") {
            Ok(value) => value,
            Err(_) => {
                return Err(String::from_str("scope"));
            },
        };
        let compact = match require_text(&entries, "id_token") {
            Ok(value) => value,
            Err(_) => {
                return Err(String::from_str("id_token"));
            },
        };
        let id_token = match IdToken::parse(compact.as_str()) {
            Ok(token) => token,
            Err(_) => {
                return Err(String::from_str("id_token"));
            },
        };
        Ok(TokenResponse { access_token, token_type, expires_in, refresh_token, scope, id_token })
    }

    /// The token that grants access to the UserInfo endpoint.
    pub fn access_token(&self) -> (value: &AccessToken)
        ensures
            value@ == self@.access_token,
    {
        &self.access_token
    }

    /// The type of the access token, such as `Bearer`.
    pub fn token_type(&self) -> (value: &str)
        ensures
            value@ == self@.token_type,
    {
        self.token_type.as_str()
    }

    /// For how many seconds the access token is good.
    pub fn expires_in(&self) -> (value: Option<u64>)
        ensures
            value == self@.expires_in,
    {
        self.expires_in
    }

    /// The token with which new access tokens are had.
    pub fn refresh_token(&self) -> (value: Option<&str>)
        ensures
            value.deep_view() == self@.refresh_token,
    {
        optional_str(&self.refresh_token)
    }

    /// The scopes that were granted, where they differ from those asked.
    pub fn scope(&self) -> (value: Option<&str>)
        ensures
            value.deep_view() == self@.scope,
    {
        optional_str(&self.scope)
    }

    /// The ID token, yet to be verified.
    pub fn id_token(&self) -> (value: &IdToken)
        ensures
            value@ == self@.id_token,
    {
        &self.id_token
    }
}

/// Why no tokens were had.
#[derive(Debug)]
pub enum RequestTokenError<ET: ErrorResponseType> {
    /// The provider refused the exchange and said why.
    ServerResponse(ErrorResponse<ET>),
    /// The transport failed.
    Request(TransportError),
    /// The response has the wrong status or content type.
    Response(u32, String),
    /// The answer cannot be read: it is no JSON, or it holds no ID token
    /// that can be read.
    Parse(String),
    /// Anything else.
    Other(String),
}

/// What a `RequestTokenError` says, without its words.
pub enum TokenFault {
    ServerResponse(ErrorResponseView),
    Request,
    Response(u32, Seq<char>),
    Parse,
    Other,
}

impl<ET: ErrorResponseType> View for RequestTokenError<ET> {
    type V = TokenFault;

    open spec fn view(&self) -> TokenFault {
        match self {
            RequestTokenError::ServerResponse(error) => TokenFault::ServerResponse(error@),
            RequestTokenError::Request(_) => TokenFault::Request,
            RequestTokenError::Response(status, words) => TokenFault::Response(*status, words@),
            RequestTokenError::Parse(_) => TokenFault::Parse,
            RequestTokenError::Other(_) => TokenFault::Other,
        }
    }
}

/// Whether the exchange gave the result that is stated for it.
pub open spec fn exchanged<ET: ErrorResponseType>(
    r: Result<TokenResponse, RequestTokenError<ET>>,
    s: Result<TokenResponseView, TokenFault>,
) -> bool {
    match (r, s) {
        (Ok(x), Ok(y)) => x@ == y,
        (Err(e), Err(f)) => e@ == f,
        _ => false,
    }
}

/// What is made of the answer of the token endpoint. The status must be
/// 200 or 400 and the content type JSON. A body of status 400 is an error
/// that the provider reports; a body of status 200 holds the tokens, the ID
/// token among them.
pub open spec fn token_outcome<ET: ErrorResponseType>(
    status: u32,
    headers: Headers,
    body: Seq<u8>,
) -> Result<TokenResponseView, TokenFault> {
    if status != HTTP_STATUS_OK && status != HTTP_STATUS_BAD_REQUEST {
        Err(TokenFault::Response(status, "unexpected HTTP status code"@))
    } else if !has_content_type(headers, mime_type_json()) {
        Err(TokenFault::Response(status, content_type_complaint(headers, mime_type_json())))
    } else {
        match parsed_json(body) {
            None => Err(TokenFault::Parse),
            Some(doc) => if status == HTTP_STATUS_BAD_REQUEST {
                match decode_error_response::<ET>(doc) {
                    Ok(error) => Err(TokenFault::ServerResponse(error)),
                    Err(_) => Err(TokenFault::Parse),
                }
            } else {
                match decode_token_response(doc) {
                    Some(tokens) => Ok(tokens),
                    None => Err(TokenFault::Parse),
                }
            },
        }
    }
}

/// Makes of the answer of the token endpoint what `token_outcome` says.
pub fn tokens_from_response<ET: ErrorResponseType>(response: &HttpResponse) -> (r: Result<
    TokenResponse,
    RequestTokenError<ET>,
>)
    ensures
        exchanged(
            r,
            token_outcome::<ET>(response.status_code, response.headers.deep_view(), response.body@),
        ),
{
    let status = response.status_code;
    if status != HTTP_STATUS_OK && status != HTTP_STATUS_BAD_REQUEST {
        return Err(
            RequestTokenError::Response(status, String::from_str("unexpected HTTP status code")),
        );
    }
    match response.check_content_type("application/json") {
        Err(words) => {
            return Err(RequestTokenError::Response(status, words));
        },
        Ok(()) => {},
    }
    let doc = match parse(response.body.as_slice()) {
        Ok(doc) => doc,
        Err(_) => {
            return Err(RequestTokenError::Parse(String::from_str("the response is no JSON")));
        },
    };
    if status == HTTP_STATUS_BAD_REQUEST {
        match ErrorResponse::<ET>::from_json(&doc) {
            Ok(error) => Err(RequestTokenError::ServerResponse(error)),
            Err(_) => Err(RequestTokenError::Parse(String::from_str("error"))),
        }
    } else {
        match TokenResponse::from_json(&doc) {
            Ok(tokens) => Ok(tokens),
            Err(words) => Err(RequestTokenError::Parse(words)),
        }
    }
}

/// Whether the exchange failed, and with this fault.
pub open spec fn no_tokens<ET: ErrorResponseType>(
    r: Result<TokenResponse, RequestTokenError<ET>>,
    fault: TokenFault,
) -> bool {
    match r {
        Ok(_) => false,
        Err(error) => error@ == fault,
    }
}

/// Whether `r` is what the exchange makes of some answer.
pub open spec fn answers_exchange<ET: ErrorResponseType>(
    r: Result<TokenResponse, RequestTokenError<ET>>,
) -> bool {
    exists|status: u32, headers: Headers, body: Seq<u8>|
        exchanged(r, #[trigger] token_outcome::<ET>(status, headers, body))
}

/// Exchanges an authorization code for tokens: one request through
/// `transport`.
pub fn exchange_code<ET: ErrorResponseType, T: HttpTransport>(
    transport: &T,
    endpoint: &EndpointUrl,
    code: &AuthorizationCode,
    redirect_uri: &EndpointUrl,
    client_id: &ClientId,
    client_secret: Option<&ClientSecret>,
    auth_type: AuthType,
) -> (r: Result<TokenResponse, RequestTokenError<ET>>)
    ensures
        no_tokens(r, TokenFault::Request) || answers_exchange(r),
{
    let request = token_request(endpoint, code, redirect_uri, client_id, client_secret, auth_type);
    match transport.send(&request) {
        Err(error) => Err(RequestTokenError::Request(error)),
        Ok(response) => tokens_from_response::<ET>(&response),
    }
}

} // verus!
