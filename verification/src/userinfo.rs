//! The claims that a provider hands out about an end user at its UserInfo
//! endpoint, and the checks that a client makes on them.

use crate::algorithm::CoreJwsSigningAlgorithm;
use crate::claims::{standard_claims_of, AddressClaim, StandardClaims, StandardClaimsView};
use crate::http::{
    auth_bearer, bearer_header, content_type_complaint, has_content_type, mime_type_json,
    Headers, HttpRequest, HttpRequestMethod, HttpResponse, HttpTransport, TransportError,
    HTTP_STATUS_OK,
};
use crate::json::{parse, parsed_json, Json, JsonError, JsonFault, JsonValue};
use crate::jwk::{JsonWebKeySet, JsonWebKeyView};
use crate::jws::{
    decode_jws, parse_jws, HeaderView, JsonWebSignature, JwsView, SignatureFault,
    SignatureVerificationError,
};
use crate::reader::{
    agrees, members_of, optional_one_or_more, optional_text, plain_entries, plain_members,
    read_one_or_more, read_text, require_text, required_text, Entry,
};
use crate::text::{optional_str, str_eq, utf8_text};
use crate::types::{AccessToken, ClientId, EndpointUrl, IssuerUrl, SubjectIdentifier};
use crate::verification::{
    claims_error_of, claims_fault_of, default_algs, follows_plan, holds_text, signature_key,
    signature_plan, ClaimsFault, ClaimsVerificationError, SignatureRules, SignatureVerifier,
    VerificationKey,
};
use vstd::prelude::*;
use vstd::string::StringExecFns;

verus! {

/// The claims about an end user.
#[derive(Debug, Clone, PartialEq, Eq)]
pub struct UserInfoClaims {
    sub: String,
    iss: Option<String>,
    aud: Option<Vec<String>>,
    standard: StandardClaims,
}

/// What `UserInfoClaims` hold.
pub struct UserInfoView {
    pub sub: Seq<char>,
    pub iss: Option<Seq<char>>,
    pub aud: Option<Seq<Seq<char>>>,
    pub standard: StandardClaimsView,
}

impl View for UserInfoClaims {
    type V = UserInfoView;

    closed spec fn view(&self) -> UserInfoView {
        UserInfoView {
            sub: self.sub.deep_view(),
            iss: self.iss.deep_view(),
            aud: self.aud.deep_view(),
            standard: self.standard.deep_view(),
        }
    }
}

impl DeepView for UserInfoClaims {
    type V = UserInfoView;

    open spec fn deep_view(&self) -> UserInfoView {
        self@
    }
}

/// The claims that the members of a document stand for. Only the subject
/// must be there.
pub open spec fn user_info_of(entries: Seq<Entry>) -> Result<UserInfoView, JsonFault> {
    let sub = required_text(entries, "sub"@);
    let iss = optional_text(entries, "iss"@);
    let aud = optional_one_or_more(entries, "aud"@);
    let standard = standard_claims_of(entries);
    if sub is Err {
        Err(sub->Err_0)
    } else if iss is Err {
        Err(iss->Err_0)
    } else if aud is Err {
        Err(aud->Err_0)
    } else if standard is Err {
        Err(standard->Err_0)
    } else {
        Ok(
            UserInfoView {
                sub: sub->Ok_0,
                iss: iss->Ok_0,
                aud: aud->Ok_0,
                standard: standard->Ok_0,
            },
        )
    }
}

/// The claims that a document stands for.
pub open spec fn decode_user_info(doc: Json) -> Result<UserInfoView, JsonFault> {
    match members_of(doc) {
        Ok(members) => user_info_of(plain_entries(members)),
        Err(fault) => Err(fault),
    }
}

impl UserInfoClaims {
    /// Reads the claims from their document.
    pub fn from_json(doc: &JsonValue) -> (r: Result<UserInfoClaims, JsonError>)
        ensures
            agrees(r, decode_user_info(doc@)),
    {
        let entries = match plain_members(doc) {
            Ok(entries) => entries,
            Err(error) => {
                return Err(error);
            },
        };
        let sub = match require_text(&entries, "sub") {
            Ok(value) => value,
            Err(error) => {
                return Err(error);
            },
        };
        let iss = match read_text(&entries, "iss") {
            Ok(value) => value,
            Err(error) => {
                return Err(error);
            },
        };
        let aud = match read_one_or_more(&entries, "aud") {
            Ok(value) => value,
            Err(error) => {
                return Err(error);
            },
        };
        let standard = match StandardClaims::from_members(&entries) {
            Ok(value) => value,
            Err(error) => {
                return Err(error);
            },
        };
        Ok(
            UserInfoClaims {
                sub,
                iss,
                aud,
                standard,
            },
        )
    }

    /// The end user that the claims speak of.
    pub fn sub(&self) -> (value: &str)
        ensures
            value.deep_view() == self@.sub,
    {
        self.sub.as_str()
    }

    /// The issuer of the claims, where they say so.
    pub fn iss(&self) -> (value: Option<&str>)
        ensures
            value.deep_view() == self@.iss,
    {
        optional_str(&self.iss)
    }

    /// The audiences that the claims are meant for, where they say so.
    pub fn aud(&self) -> (value: Option<&Vec<String>>)
        ensures
            value.deep_view() == self@.aud,
    {
        self.aud.as_ref()
    }

    /// The claims about the end user that every provider knows.
    pub fn standard_claims(&self) -> (value: &StandardClaims)
        ensures
            value.deep_view() == self@.standard,
    {
        &self.standard
    }

    /// The full name of the end user.
    pub fn name(&self) -> (value: Option<&str>)
        ensures
            value.deep_view() == self@.standard.name,
    {
        self.standard.name()
    }

    /// The given name of the end user.
    pub fn given_name(&self) -> (value: Option<&str>)
        ensures
            value.deep_view() == self@.standard.given_name,
    {
        self.standard.given_name()
    }

    /// The family name of the end user.
    pub fn family_name(&self) -> (value: Option<&str>)
        ensures
            value.deep_view() == self@.standard.family_name,
    {
        self.standard.family_name()
    }

    /// The middle name of the end user.
    pub fn middle_name(&self) -> (value: Option<&str>)
        ensures
            value.deep_view() == self@.standard.middle_name,
    {
        self.standard.middle_name()
    }

    /// The casual name of the end user.
    pub fn nickname(&self) -> (value: Option<&str>)
        ensures
            value.deep_view() == self@.standard.nickname,
    {
        self.standard.nickname()
    }

    /// The name by which the end user wishes to be known at the client.
    pub fn preferred_username(&self) -> (value: Option<&str>)
        ensures
            value.deep_view() == self@.standard.preferred_username,
    {
        self.standard.preferred_username()
    }

    /// The address of the end user's profile page.
    pub fn profile(&self) -> (value: Option<&str>)
        ensures
            value.deep_view() == self@.standard.profile,
    {
        self.standard.profile()
    }

    /// The address of the end user's picture.
    pub fn picture(&self) -> (value: Option<&str>)
        ensures
            value.deep_view() == self@.standard.picture,
    {
        self.standard.picture()
    }

    /// The address of the end user's web site.
    pub fn website(&self) -> (value: Option<&str>)
        ensures
            value.deep_view() == self@.standard.website,
    {
        self.standard.website()
    }

    /// The e-mail address of the end user.
    pub fn email(&self) -> (value: Option<&str>)
        ensures
            value.deep_view() == self@.standard.email,
    {
        self.standard.email()
    }

    /// Whether the e-mail address was verified.
    pub fn email_verified(&self) -> (value: Option<bool>)
        ensures
            value.deep_view() == self@.standard.email_verified,
    {
        self.standard.email_verified()
    }

    /// The gender of the end user.
    pub fn gender(&self) -> (value: Option<&str>)
        ensures
            value.deep_view() == self@.standard.gender,
    {
        self.standard.gender()
    }

    /// The birthday of the end user.
    pub fn birthdate(&self) -> (value: Option<&str>)
        ensures
            value.deep_view() == self@.standard.birthdate,
    {
        self.standard.birthdate()
    }

    /// The time zone of the end user.
    pub fn zoneinfo(&self) -> (value: Option<&str>)
        ensures
            value.deep_view() == self@.standard.zoneinfo,
    {
        self.standard.zoneinfo()
    }

    /// The locale of the end user.
    pub fn locale(&self) -> (value: Option<&str>)
        ensures
            value.deep_view() == self@.standard.locale,
    {
        self.standard.locale()
    }

    /// The phone number of the end user.
    pub fn phone_number(&self) -> (value: Option<&str>)
        ensures
            value.deep_view() == self@.standard.phone_number,
    {
        self.standard.phone_number()
    }

    /// Whether the phone number was verified.
    pub fn phone_number_verified(&self) -> (value: Option<bool>)
        ensures
            value.deep_view() == self@.standard.phone_number_verified,
    {
        self.standard.phone_number_verified()
    }

    /// The postal address of the end user.
    pub fn address(&self) -> (value: Option<&AddressClaim>)
        ensures
            value.deep_view() == self@.standard.address,
    {
        self.standard.address()
    }

    /// When the claims were last changed, in seconds since the start of 1970.
    pub fn updated_at(&self) -> (value: Option<u64>)
        ensures
            value.deep_view() == self@.standard.updated_at,
    {
        self.standard.updated_at()
    }

}

/// Why no claims about the end user were had.
#[derive(Debug)]
pub enum UserInfoError {
    /// The claims were not accepted.
    ClaimsVerification(ClaimsVerificationError),
    /// The transport failed.
    Request(TransportError),
    /// The response has the wrong status or content type.
    Response(u32, String),
    /// The document could not be read.
    Json(JsonError),
    /// Anything else.
    Other(String),
}

/// What a `UserInfoError` says, without its words.
pub enum UserInfoFault {
    ClaimsVerification(ClaimsFault),
    Request,
    Response(u32, Seq<char>),
    Json(JsonFault),
    Other,
}

impl View for UserInfoError {
    type V = UserInfoFault;

    open spec fn view(&self) -> UserInfoFault {
        match self {
            UserInfoError::ClaimsVerification(error) => UserInfoFault::ClaimsVerification(error@),
            UserInfoError::Request(_) => UserInfoFault::Request,
            UserInfoError::Response(status, words) => UserInfoFault::Response(*status, words@),
            UserInfoError::Json(error) => UserInfoFault::Json(error@),
            UserInfoError::Other(_) => UserInfoFault::Other,
        }
    }
}

/// Whether a step at the UserInfo endpoint gave the result that is stated for it.
pub open spec fn informed<T: DeepView>(r: Result<T, UserInfoError>, s: Result<T::V, UserInfoFault>) -> bool {
    match (r, s) {
        (Ok(x), Ok(y)) => x.deep_view() == y,
        (Err(e), Err(f)) => e@ == f,
        _ => false,
    }
}

/// What a client believes claims about an end user by: who it is, who the
/// provider is and which keys the provider has, and which end user the ID
/// token spoke of.
#[derive(Debug)]
pub struct UserInfoVerifier {
    client_id: ClientId,
    issuer: IssuerUrl,
    keys: JsonWebKeySet,
    sub: SubjectIdentifier,
    allowed_algs: Vec<CoreJwsSigningAlgorithm>,
    signed_response: bool,
    issuer_match: bool,
    audience_match: bool,
}

/// What a `UserInfoVerifier` holds.
pub struct UserInfoVerifierView {
    pub client_id: Seq<char>,
    pub issuer: Seq<char>,
    pub keys: Seq<JsonWebKeyView>,
    pub sub: Seq<char>,
    pub allowed_algs: Seq<CoreJwsSigningAlgorithm>,
    pub signed_response: bool,
    pub issuer_match: bool,
    pub audience_match: bool,
}

impl View for UserInfoVerifier {
    type V = UserInfoVerifierView;

    closed spec fn view(&self) -> UserInfoVerifierView {
        UserInfoVerifierView {
            client_id: self.client_id@,
            issuer: self.issuer@,
            keys: self.keys@,
            sub: self.sub@,
            allowed_algs: self.allowed_algs@,
            signed_response: self.signed_response,
            issuer_match: self.issuer_match,
            audience_match: self.audience_match,
        }
    }
}

impl UserInfoVerifierView {
    /// The rules by which the signature of signed claims is checked: those
    /// of a client without a secret.
    pub open spec fn signature_rules(self) -> SignatureRules {
        SignatureRules {
            keys: self.keys,
            client_secret: None,
            allowed_algs: self.allowed_algs,
            signature_check: true,
        }
    }
}

impl UserInfoVerifier {
    /// The verifier for the end user that an ID token spoke of: plain
    /// claims are taken, and signed claims must name the issuer and the
    /// client.
    pub fn new(client_id: ClientId, issuer: IssuerUrl, keys: JsonWebKeySet, sub: SubjectIdentifier) -> (verifier:
        UserInfoVerifier)
        ensures
            verifier@ == (UserInfoVerifierView {
                client_id: client_id@,
                issuer: issuer@,
                keys: keys@,
                sub: sub@,
                allowed_algs: seq![CoreJwsSigningAlgorithm::RsaSsaPkcs1V15Sha256],
                signed_response: false,
                issuer_match: true,
                audience_match: true,
            }),
    {
        UserInfoVerifier {
            client_id,
            issuer,
            keys,
            sub,
            allowed_algs: default_algs(),
            signed_response: false,
            issuer_match: true,
            audience_match: true,
        }
    }

    /// Allows these algorithms and no others.
    pub fn set_allowed_algs(
        self,
        algs: Vec<CoreJwsSigningAlgorithm>,
    ) -> (verifier: UserInfoVerifier)
        ensures
            verifier@ == (UserInfoVerifierView { allowed_algs: algs@, ..self@ }),
    {
        let mut verifier = self;
        verifier.allowed_algs = algs;
        verifier
    }

    /// Says whether the response must be signed, whatever content type it
    /// names.
    pub fn require_signed_response(self, required: bool) -> (verifier: UserInfoVerifier)
        ensures
            verifier@ == (UserInfoVerifierView { signed_response: required, ..self@ }),
    {
        let mut verifier = self;
        verifier.signed_response = required;
        verifier
    }

    /// Says whether signed claims must name the issuer.
    pub fn require_issuer_match(self, required: bool) -> (verifier: UserInfoVerifier)
        ensures
            verifier@ == (UserInfoVerifierView { issuer_match: required, ..self@ }),
    {
        let mut verifier = self;
        verifier.issuer_match = required;
        verifier
    }

    /// Says whether signed claims must name the client as their audience.
    pub fn require_audience_match(self, required: bool) -> (verifier: UserInfoVerifier)
        ensures
            verifier@ == (UserInfoVerifierView { audience_match: required, ..self@ }),
    {
        let mut verifier = self;
        verifier.audience_match = required;
        verifier
    }
}

/// What is wrong with claims about an end user, if anything. Signed claims
/// are held to their signature, and to name the issuer and the client
/// unless the verifier lets that go; all claims must speak of the end user
/// that the ID token spoke of.
pub open spec fn user_info_fault(
    verifier: UserInfoVerifierView,
    header: Option<HeaderView>,
    claims: UserInfoView,
    signature_ok: bool,
) -> Option<ClaimsFault> {
    let signature = match header {
        None => None,
        Some(header) => match signature_plan(verifier.signature_rules(), header) {
            Err(fault) => Some(ClaimsFault::SignatureVerification(fault)),
            Ok(_) => if signature_ok {
                None
            } else {
                Some(ClaimsFault::SignatureVerification(SignatureFault::CryptoError))
            },
        },
    };
    if signature is Some {
        signature
    } else if header is Some && verifier.issuer_match && claims.iss != Some(verifier.issuer) {
        Some(ClaimsFault::InvalidIssuer)
    } else if header is Some && verifier.audience_match && !(claims.aud is Some
        && claims.aud->0.contains(verifier.client_id)) {
        Some(ClaimsFault::InvalidAudience)
    } else if claims.sub != verifier.sub {
        Some(ClaimsFault::InvalidSubject)
    } else {
        None
    }
}

/// Whether a check of claims reports this fault, or none.
pub open spec fn finds(r: Result<(), ClaimsVerificationError>, fault: Option<ClaimsFault>) -> bool {
    match (r, fault) {
        (Ok(_), None) => true,
        (Err(error), Some(fault)) => error@ == fault,
        _ => false,
    }
}

impl UserInfoVerifier {
    /// Finds the key that the signature of signed claims is to be checked
    /// with.
    pub fn signature_key<'a>(&'a self, header: &crate::jws::JwsHeader) -> (r: Result<
        Option<VerificationKey<'a>>,
        SignatureVerificationError,
    >)
        ensures
            follows_plan(
                r,
                signature_plan(self@.signature_rules(), header@),
                self@.signature_rules(),
            ),
    {
        signature_key(&self.keys, None, &self.allowed_algs, true, header)
    }

    /// Checks claims about an end user, given the header that they were
    /// signed under, if they were, and what the cryptography said of the
    /// signature.
    pub fn check_claims(
        &self,
        header: Option<&crate::jws::JwsHeader>,
        claims: &UserInfoClaims,
        signature_ok: bool,
    ) -> (r: Result<(), ClaimsVerificationError>)
        ensures
            finds(r, user_info_fault(self@, header.deep_view(), claims@, signature_ok)),
    {
        match header {
            Some(header) => {
                match self.signature_key(header) {
                    Err(error) => {
                        return Err(ClaimsVerificationError::SignatureVerification(error));
                    },
                    Ok(_) => {},
                }
                if !signature_ok {
                    return Err(
                        ClaimsVerificationError::SignatureVerification(
                            SignatureVerificationError::CryptoError(
                                String::from_str("the signature is not valid"),
                            ),
                        ),
                    );
                }
                if self.issuer_match {
                    let named = match claims.iss() {
                        Some(iss) => str_eq(iss, self.issuer.as_str()),
                        None => false,
                    };
                    if !named {
                        return Err(
                            ClaimsVerificationError::InvalidIssuer(
                                String::from_str("the claims do not name the issuer"),
                            ),
                        );
                    }
                }
                if self.audience_match {
                    let named = match claims.aud() {
                        Some(aud) => holds_text(aud, self.client_id.as_str()),
                        None => false,
                    };
                    if !named {
                        return Err(
                            ClaimsVerificationError::InvalidAudience(
                                String::from_str("the audience does not hold the client"),
                            ),
                        );
                    }
                }
            },
            None => {},
        }
        if !str_eq(claims.sub(), self.sub.as_str()) {
            return Err(ClaimsVerificationError::InvalidSubject(String::from_str(claims.sub())));
        }
        Ok(())
    }
}

/// The media type of a signed response.
pub open spec fn mime_type_jwt() -> Seq<char> {
    "application/jwt"@
}

/// Whether a response is read as signed claims: where the verifier asks
/// for that, or the response names the media type of a signed token.
pub open spec fn reads_as_signed(verifier: UserInfoVerifierView, headers: Headers) -> bool {
    verifier.signed_response || has_content_type(headers, mime_type_jwt())
}

/// What a response of the UserInfo endpoint holds before its claims are
/// checked: the claims, and with them the signature that they came under
/// where they came under one.
#[derive(Debug)]
pub struct UnverifiedUserInfo {
    pub signature: Option<JsonWebSignature>,
    pub claims: UserInfoClaims,
}

/// What an `UnverifiedUserInfo` holds.
pub struct UnverifiedView {
    pub signature: Option<JwsView>,
    pub claims: UserInfoView,
}

impl View for UnverifiedUserInfo {
    type V = UnverifiedView;

    open spec fn view(&self) -> UnverifiedView {
        UnverifiedView {
            signature: match self.signature {
                Some(jws) => Some(jws@),
                None => None,
            },
            claims: self.claims@,
        }
    }
}

impl DeepView for UnverifiedUserInfo {
    type V = UnverifiedView;

    open spec fn deep_view(&self) -> UnverifiedView {
        self@
    }
}

/// The header in an optional signature.
pub open spec fn header_in(signature: Option<JwsView>) -> Option<HeaderView> {
    match signature {
        Some(jws) => Some(jws.header),
        None => None,
    }
}

/// What the response of the UserInfo endpoint holds. The status must be
/// 200. A signed response is a compact signature over the claims; any other
/// must name JSON as its content type and hold the claims as a JSON
/// document.
pub open spec fn user_info_in(
    verifier: UserInfoVerifierView,
    status: u32,
    headers: Headers,
    body: Seq<u8>,
) -> Result<UnverifiedView, UserInfoFault> {
    if status != HTTP_STATUS_OK {
        Err(UserInfoFault::Response(status, "unexpected HTTP status code"@))
    } else if reads_as_signed(verifier, headers) {
        if !vstd::utf8::valid_utf8(body) {
            Err(UserInfoFault::Other)
        } else {
            match decode_jws(vstd::utf8::decode_utf8(body)) {
                None => Err(UserInfoFault::ClaimsVerification(ClaimsFault::Parse)),
                Some(jws) => match decode_user_info(jws.payload) {
                    Err(fault) => Err(UserInfoFault::ClaimsVerification(claims_fault_of(fault))),
                    Ok(claims) => Ok(UnverifiedView { signature: Some(jws), claims }),
                },
            }
        }
    } else if !has_content_type(headers, mime_type_json()) {
        Err(UserInfoFault::Response(status, content_type_complaint(headers, mime_type_json())))
    } else {
        match parsed_json(body) {
            None => Err(UserInfoFault::Json(JsonFault::Syntax)),
            Some(doc) => match decode_user_info(doc) {
                Err(fault) => Err(UserInfoFault::Json(fault)),
                Ok(claims) => Ok(UnverifiedView { signature: None, claims }),
            },
        }
    }
}

/// What is made of the response of the UserInfo endpoint, given what the
/// cryptography said of the signature where there is one: the claims that
/// the response holds, where nothing is wrong with them.
pub open spec fn user_info_outcome(
    verifier: UserInfoVerifierView,
    status: u32,
    headers: Headers,
    body: Seq<u8>,
    signature_ok: bool,
) -> Result<UserInfoView, UserInfoFault> {
    match user_info_in(verifier, status, headers, body) {
        Err(fault) => Err(fault),
        Ok(found) => match user_info_fault(
            verifier,
            header_in(found.signature),
            found.claims,
            signature_ok,
        ) {
            Some(fault) => Err(UserInfoFault::ClaimsVerification(fault)),
            None => Ok(found.claims),
        },
    }
}

/// The request that asks for the claims about the end user: a `GET` that
/// presents the access token.
pub fn user_info_request(
    endpoint: &EndpointUrl,
    access_token: &AccessToken,
) -> (request: HttpRequest)
    ensures
        request.url@ == endpoint@,
        request.method == HttpRequestMethod::Get,
        request.headers.deep_view() == seq![
            ("Accept"@, "application/json"@),
            bearer_header(access_token@),
        ],
        request.post_body@ == Seq::<u8>::empty(),
{
    let mut headers: Vec<(String, String)> = Vec::new();
    headers.push((String::from_str("Accept"), String::from_str("application/json")));
    headers.push(auth_bearer(access_token));
    HttpRequest {
        url: endpoint.clone(),
        method: HttpRequestMethod::Get,
        headers,
        post_body: Vec::new(),
    }
}

/// Whether `r` is what is made of a response, whatever the cryptography
/// said.
pub open spec fn answers_user_info(
    r: Result<UserInfoClaims, UserInfoError>,
    verifier: UserInfoVerifierView,
    status: u32,
    headers: Headers,
    body: Seq<u8>,
) -> bool {
    informed(r, user_info_outcome(verifier, status, headers, body, true)) || informed(
        r,
        user_info_outcome(verifier, status, headers, body, false),
    )
}

/// Reads what the response of the UserInfo endpoint holds.
pub fn read_user_info(verifier: &UserInfoVerifier, response: &HttpResponse) -> (r: Result<
    UnverifiedUserInfo,
    UserInfoError,
>)
    ensures
        informed(
            r,
            user_info_in(
                verifier@,
                response.status_code,
                response.headers.deep_view(),
                response.body@,
            ),
        ),
{
    if response.status_code != HTTP_STATUS_OK {
        return Err(
            UserInfoError::Response(
                response.status_code,
                String::from_str("unexpected HTTP status code"),
            ),
        );
    }
    let signed = verifier.signed_response || response.check_content_type("application/jwt").is_ok();
    if signed {
        let compact = match utf8_text(response.body.as_slice()) {
            Ok(text) => text,
            Err(complaint) => {
                return Err(UserInfoError::Other(complaint));
            },
        };
        let jws = match parse_jws(compact.as_str()) {
            Some(jws) => jws,
            None => {
                return Err(
                    UserInfoError::ClaimsVerification(
                        ClaimsVerificationError::Parse(
                            String::from_str("the response is no compact signature"),
                        ),
                    ),
                );
            },
        };
        let claims = match UserInfoClaims::from_json(&jws.payload) {
            Ok(claims) => claims,
            Err(error) => {
                return Err(UserInfoError::ClaimsVerification(claims_error_of(error)));
            },
        };
        Ok(UnverifiedUserInfo { signature: Some(jws), claims })
    } else {
        match response.check_content_type("application/json") {
            Err(words) => {
                return Err(UserInfoError::Response(response.status_code, words));
            },
            Ok(()) => {},
        }
        let doc = match parse(response.body.as_slice()) {
            Ok(doc) => doc,
            Err(error) => {
                return Err(UserInfoError::Json(error));
            },
        };
        let claims = match UserInfoClaims::from_json(&doc) {
            Ok(claims) => claims,
            Err(error) => {
                return Err(UserInfoError::Json(error));
            },
        };
        Ok(UnverifiedUserInfo { signature: None, claims })
    }
}

impl UserInfoVerifier {
    /// Hands out the claims that a response held where nothing is wrong
    /// with them, given what the cryptography said of the signature where
    /// there is one.
    pub fn verified_claims(&self, found: UnverifiedUserInfo, signature_ok: bool) -> (r: Result<
        UserInfoClaims,
        UserInfoError,
    >)
        ensures
            match user_info_fault(self@, header_in(found@.signature), found@.claims, signature_ok) {
                Some(fault) => r matches Err(error) && error@ == UserInfoFault::ClaimsVerification(
                    fault,
                ),
                None => r matches Ok(claims) && claims@ == found@.claims,
            },
    {
        let checked = match &found.signature {
            Some(jws) => self.check_claims(Some(&jws.header), &found.claims, signature_ok),
            None => self.check_claims(None, &found.claims, signature_ok),
        };
        match checked {
            Ok(()) => Ok(found.claims),
            Err(error) => Err(UserInfoError::ClaimsVerification(error)),
        }
    }
}

/// Makes of the response of the UserInfo endpoint what `user_info_outcome`
/// says. The cryptography is asked about the signature of a signed
/// response where `signature_key` names a key. Claims that come back speak
/// of the end user that the verifier names.
pub fn user_info_from_response<C: SignatureVerifier>(
    verifier: &UserInfoVerifier,
    response: &HttpResponse,
    crypto: &C,
) -> (r: Result<UserInfoClaims, UserInfoError>)
    ensures
        answers_user_info(
            r,
            verifier@,
            response.status_code,
            response.headers.deep_view(),
            response.body@,
        ),
        r matches Ok(claims) ==> claims@.sub == verifier@.sub,
{
    let found = match read_user_info(verifier, response) {
        Ok(found) => found,
        Err(error) => {
            return Err(error);
        },
    };
    let signature_ok = match &found.signature {
        Some(jws) => match verifier.signature_key(&jws.header) {
            Ok(Some(key)) => crypto.verify_signature(
                jws.header.alg,
                key,
                jws.signing_input.as_str().as_bytes(),
                jws.signature.as_slice(),
            ).is_ok(),
            _ => true,
        },
        None => true,
    };
    verifier.verified_claims(found, signature_ok)
}

/// Fetches the claims about the end user and checks them: one request
/// through `transport`. Claims that come back speak of the end user that
/// the verifier names.
pub fn get_user_info<T: HttpTransport, C: SignatureVerifier>(
    transport: &T,
    endpoint: &EndpointUrl,
    access_token: &AccessToken,
    verifier: &UserInfoVerifier,
    crypto: &C,
) -> (r: Result<UserInfoClaims, UserInfoError>)
    ensures
        (r matches Err(error) && error@ == UserInfoFault::Request) || exists|
            status: u32,
            headers: Headers,
            body: Seq<u8>,
        | #[trigger] answers_user_info(r, verifier@, status, headers, body),
        r matches Ok(claims) ==> claims@.sub == verifier@.sub,
{
    let request = user_info_request(endpoint, access_token);
    match transport.send(&request) {
        Err(error) => Err(UserInfoError::Request(error)),
        Ok(response) => {
            let r = user_info_from_response(verifier, &response, crypto);
            r
        },
    }
}

/// Claims that speak of another end user than the ID token did are never
/// believed; where nothing else is wrong with them, they are refused for
/// their subject.
pub proof fn lemma_subject_binds(
    verifier: UserInfoVerifierView,
    header: Option<HeaderView>,
    claims: UserInfoView,
    signature_ok: bool,
)
    requires
        claims.sub != verifier.sub,
    ensures
        user_info_fault(verifier, header, claims, signature_ok) is Some,
        user_info_fault(
            verifier,
            header,
            UserInfoView { sub: verifier.sub, ..claims },
            signature_ok,
        ) is None ==> user_info_fault(verifier, header, claims, signature_ok) == Some(
            ClaimsFault::InvalidSubject,
        ),
{
}

/// Whatever response comes back, claims that are handed out speak of the
/// end user that the verifier names.
pub proof fn lemma_user_info_subject(
    verifier: UserInfoVerifierView,
    status: u32,
    headers: Headers,
    body: Seq<u8>,
    signature_ok: bool,
)
    ensures
        user_info_outcome(verifier, status, headers, body, signature_ok) matches Ok(claims)
            ==> claims.sub == verifier.sub,
{
}

} // verus!
