//! The checks that a client makes on an ID token before it believes it.

use crate::algorithm::CoreJwsSigningAlgorithm;
use crate::claims::{standard_claims_of, AddressClaim, StandardClaims, StandardClaimsView};
use crate::json::{Json, JsonError, JsonFault, JsonValue};
use crate::jwk::{JsonWebKey, JsonWebKeySet, JsonWebKeyView};
use crate::jws::{
    chosen_key, decode_jws, is_candidate, lemma_candidates_fit, parse_jws, select_key,
    HeaderView, JwsHeader, SignatureFault, SignatureVerificationError,
};
use crate::reader::{
    agrees, members_of, optional_text, optional_texts, optional_unsigned, plain_entries,
    plain_members, read_text, read_texts, read_unsigned, require_one_or_more, require_text,
    require_unsigned, required_one_or_more, required_text, required_unsigned, Entry,
};
use crate::text::{optional_str, str_eq};
use crate::types::{ClientId, ClientSecret, IssuerUrl, Nonce};
use vstd::prelude::*;
use vstd::string::StringExecFns;

verus! {

/// Why the claims of a token were not accepted.
#[derive(Debug, Clone, PartialEq, Eq)]
pub enum ClaimsVerificationError {
    /// The token has expired.
    Expired(String),
    /// The token is not meant for this client.
    InvalidAudience(String),
    /// The token is not from the provider that was asked.
    InvalidIssuer(String),
    /// The token does not belong to the request that asked for it.
    InvalidNonce(String),
    /// The claims speak of another end user.
    InvalidSubject(String),
    /// A claim that must be there is not.
    MissingClaim(String),
    /// The token cannot be read.
    Parse(String),
    /// The signature was not accepted.
    SignatureVerification(SignatureVerificationError),
}

/// What a `ClaimsVerificationError` says, without its words.
pub enum ClaimsFault {
    Expired,
    InvalidAudience,
    InvalidIssuer,
    InvalidNonce,
    InvalidSubject,
    MissingClaim,
    Parse,
    SignatureVerification(SignatureFault),
}

impl View for ClaimsVerificationError {
    type V = ClaimsFault;

    open spec fn view(&self) -> ClaimsFault {
        match self {
            ClaimsVerificationError::Expired(_) => ClaimsFault::Expired,
            ClaimsVerificationError::InvalidAudience(_) => ClaimsFault::InvalidAudience,
            ClaimsVerificationError::InvalidIssuer(_) => ClaimsFault::InvalidIssuer,
            ClaimsVerificationError::InvalidNonce(_) => ClaimsFault::InvalidNonce,
            ClaimsVerificationError::InvalidSubject(_) => ClaimsFault::InvalidSubject,
            ClaimsVerificationError::MissingClaim(_) => ClaimsFault::MissingClaim,
            ClaimsVerificationError::Parse(_) => ClaimsFault::Parse,
            ClaimsVerificationError::SignatureVerification(error) => ClaimsFault::SignatureVerification(
                error@,
            ),
        }
    }
}

/// How a fault in the document of the claims is reported: a claim that is
/// not there as a missing claim, anything else as a token that cannot be
/// read.
pub open spec fn claims_fault_of(fault: JsonFault) -> ClaimsFault {
    match fault {
        JsonFault::MissingField(_) => ClaimsFault::MissingClaim,
        _ => ClaimsFault::Parse,
    }
}

/// Reports a fault in the document of the claims.
pub fn claims_error_of(error: JsonError) -> (r: ClaimsVerificationError)
    ensures
        r@ == claims_fault_of(error@),
{
    match error {
        JsonError::MissingField(name) => ClaimsVerificationError::MissingClaim(name),
        JsonError::Syntax(words) => ClaimsVerificationError::Parse(words),
        JsonError::Number(words) => ClaimsVerificationError::Parse(words),
        JsonError::NotAnObject => ClaimsVerificationError::Parse(
            String::from_str("the claims are no object"),
        ),
        JsonError::DuplicateField(name) => ClaimsVerificationError::Parse(name),
        JsonError::UnexpectedLanguageTag(name) => ClaimsVerificationError::Parse(name),
        JsonError::InvalidValue(name) => ClaimsVerificationError::Parse(name),
    }
}

/// The claims of an ID token.
#[derive(Debug, Clone, PartialEq, Eq)]
pub struct IdTokenClaims {
    iss: String,
    sub: String,
    aud: Vec<String>,
    exp: u64,
    iat: u64,
    nonce: Option<String>,
    auth_time: Option<u64>,
    acr: Option<String>,
    amr: Option<Vec<String>>,
    azp: Option<String>,
    standard: StandardClaims,
}

/// What `IdTokenClaims` hold.
pub struct ClaimsView {
    pub iss: Seq<char>,
    pub sub: Seq<char>,
    pub aud: Seq<Seq<char>>,
    pub exp: u64,
    pub iat: u64,
    pub nonce: Option<Seq<char>>,
    pub auth_time: Option<u64>,
    pub acr: Option<Seq<char>>,
    pub amr: Option<Seq<Seq<char>>>,
    pub azp: Option<Seq<char>>,
    pub standard: StandardClaimsView,
}

impl View for IdTokenClaims {
    type V = ClaimsView;

    closed spec fn view(&self) -> ClaimsView {
        ClaimsView {
            iss: self.iss.deep_view(),
            sub: self.sub.deep_view(),
            aud: self.aud.deep_view(),
            exp: self.exp.deep_view(),
            iat: self.iat.deep_view(),
            nonce: self.nonce.deep_view(),
            auth_time: self.auth_time.deep_view(),
            acr: self.acr.deep_view(),
            amr: self.amr.deep_view(),
            azp: self.azp.deep_view(),
            standard: self.standard.deep_view(),
        }
    }
}

impl DeepView for IdTokenClaims {
    type V = ClaimsView;

    open spec fn deep_view(&self) -> ClaimsView {
        self@
    }
}

/// The claims that the members of a document stand for. The issuer, the
/// subject, the audience and both instants must be there; the audience may
/// be one text or a list.
pub open spec fn claims_of(entries: Seq<Entry>) -> Result<ClaimsView, JsonFault> {
    let iss = required_text(entries, "iss"@);
    let sub = required_text(entries, "sub"@);
    let aud = required_one_or_more(entries, "aud"@);
    let exp = required_unsigned(entries, "exp"@);
    let iat = required_unsigned(entries, "iat"@);
    let nonce = optional_text(entries, "nonce"@);
    let auth_time = optional_unsigned(entries, "auth_time"@);
    let acr = optional_text(entries, "acr"@);
    let amr = optional_texts(entries, "amr"@);
    let azp = optional_text(entries, "azp"@);
    let standard = standard_claims_of(entries);
    if iss is Err {
        Err(iss->Err_0)
    } else if sub is Err {
        Err(sub->Err_0)
    } else if aud is Err {
        Err(aud->Err_0)
    } else if exp is Err {
        Err(exp->Err_0)
    } else if iat is Err {
        Err(iat->Err_0)
    } else if nonce is Err {
        Err(nonce->Err_0)
    } else if auth_time is Err {
        Err(auth_time->Err_0)
    } else if acr is Err {
        Err(acr->Err_0)
    } else if amr is Err {
        Err(amr->Err_0)
    } else if azp is Err {
        Err(azp->Err_0)
    } else if standard is Err {
        Err(standard->Err_0)
    } else {
        Ok(
            ClaimsView {
                iss: iss->Ok_0,
                sub: sub->Ok_0,
                aud: aud->Ok_0,
                exp: exp->Ok_0,
                iat: iat->Ok_0,
                nonce: nonce->Ok_0,
                auth_time: auth_time->Ok_0,
                acr: acr->Ok_0,
                amr: amr->Ok_0,
                azp: azp->Ok_0,
                standard: standard->Ok_0,
            },
        )
    }
}

/// The claims that a document stands for.
pub open spec fn decode_claims(doc: Json) -> Result<ClaimsView, JsonFault> {
    match members_of(doc) {
        Ok(members) => claims_of(plain_entries(members)),
        Err(fault) => Err(fault),
    }
}

impl IdTokenClaims {
    /// Reads the claims from their document.
    pub fn from_json(doc: &JsonValue) -> (r: Result<IdTokenClaims, JsonError>)
        ensures
            agrees(r, decode_claims(doc@)),
    {
        let entries = match plain_members(doc) {
            Ok(entries) => entries,
            Err(error) => {
                return Err(error);
            },
        };
        let iss = match require_text(&entries, "iss") {
            Ok(value) => value,
            Err(error) => {
                return Err(error);
            },
        };
        let sub = match require_text(&entries, "sub") {
            Ok(value) => value,
            Err(error) => {
                return Err(error);
            },
        };
        let aud = match require_one_or_more(&entries, "aud") {
            Ok(value) => value,
            Err(error) => {
                return Err(error);
            },
        };
        let exp = match require_unsigned(&entries, "exp") {
            Ok(value) => value,
            Err(error) => {
                return Err(error);
            },
        };
        let iat = match require_unsigned(&entries, "iat") {
            Ok(value) => value,
            Err(error) => {
                return Err(error);
            },
        };
        let nonce = match read_text(&entries, "nonce") {
            Ok(value) => value,
            Err(error) => {
                return Err(error);
            },
        };
        let auth_time = match read_unsigned(&entries, "auth_time") {
            Ok(value) => value,
            Err(error) => {
                return Err(error);
            },
        };
        let acr = match read_text(&entries, "acr") {
            Ok(value) => value,
            Err(error) => {
                return Err(error);
            },
        };
        let amr = match read_texts(&entries, "amr") {
            Ok(value) => value,
            Err(error) => {
                return Err(error);
            },
        };
        let azp = match read_text(&entries, "azp") {
            Ok(value) => value,
            Err(error) => {
                return Err(error);
            },
        };
        let standard = match StandardClaims::from_members(&entries) {
            Ok(value) => value,
            Err(error) => {
                return Err(error);
            },
        };
        Ok(
            IdTokenClaims {
                iss,
                sub,
                aud,
                exp,
                iat,
                nonce,
                auth_time,
                acr,
                amr,
                azp,
                standard,
            },
        )
    }

    /// The issuer of the token.
    pub fn iss(&self) -> (value: &str)
        ensures
            value.deep_view() == self@.iss,
    {
        self.iss.as_str()
    }

    /// The end user that the token speaks of.
    pub fn sub(&self) -> (value: &str)
        ensures
            value.deep_view() == self@.sub,
    {
        self.sub.as_str()
    }

    /// The audiences that the token is meant for.
    pub fn aud(&self) -> (value: &Vec<String>)
        ensures
            value.deep_view() == self@.aud,
    {
        &self.aud
    }

    /// When the token expires, in seconds since the start of 1970.
    pub fn exp(&self) -> (value: u64)
        ensures
            value.deep_view() == self@.exp,
    {
        self.exp
    }

    /// When the token was issued, in seconds since the start of 1970.
    pub fn iat(&self) -> (value: u64)
        ensures
            value.deep_view() == self@.iat,
    {
        self.iat
    }

    /// The nonce of the request that asked for the token.
    pub fn nonce(&self) -> (value: Option<&str>)
        ensures
            value.deep_view() == self@.nonce,
    {
        optional_str(&self.nonce)
    }

    /// When the end user was authenticated.
    pub fn auth_time(&self) -> (value: Option<u64>)
        ensures
            value.deep_view() == self@.auth_time,
    {
        self.auth_time
    }

    /// The authentication context class.
    pub fn acr(&self) -> (value: Option<&str>)
        ensures
            value.deep_view() == self@.acr,
    {
        optional_str(&self.acr)
    }

    /// The authentication methods.
    pub fn amr(&self) -> (value: Option<&Vec<String>>)
        ensures
            value.deep_view() == self@.amr,
    {
        self.amr.as_ref()
    }

    /// The party that the token was issued to.
    pub fn azp(&self) -> (value: Option<&str>)
        ensures
            value.deep_view() == self@.azp,
    {
        optional_str(&self.azp)
    }

    /// The claims about the end user that every provider knows.
    pub fn standard_claims(&self) -> (value: &StandardClaims)
        ensures
            value.deep_view() == self@.standard,
    {
        &self.standard
    }

    /// The full name of the end user.
    pub fn name(&self) -> (value: Option<&str>)
        ensures
            value.deep_view() == self@.standard.name,
    {
        self.standard.name()
    }

    /// The given name of the end user.
    pub fn given_name(&self) -> (value: Option<&str>)
        ensures
            value.deep_view() == self@.standard.given_name,
    {
        self.standard.given_name()
    }

    /// The family name of the end user.
    pub fn family_name(&self) -> (value: Option<&str>)
        ensures
            value.deep_view() == self@.standard.family_name,
    {
        self.standard.family_name()
    }

    /// The middle name of the end user.
    pub fn middle_name(&self) -> (value: Option<&str>)
        ensures
            value.deep_view() == self@.standard.middle_name,
    {
        self.standard.middle_name()
    }

    /// The casual name of the end user.
    pub fn nickname(&self) -> (value: Option<&str>)
        ensures
            value.deep_view() == self@.standard.nickname,
    {
        self.standard.nickname()
    }

    /// The name by which the end user wishes to be known at the client.
    pub fn preferred_username(&self) -> (value: Option<&str>)
        ensures
            value.deep_view() == self@.standard.preferred_username,
    {
        self.standard.preferred_username()
    }

    /// The address of the end user's profile page.
    pub fn profile(&self) -> (value: Option<&str>)
        ensures
            value.deep_view() == self@.standard.profile,
    {
        self.standard.profile()
    }

    /// The address of the end user's picture.
    pub fn picture(&self) -> (value: Option<&str>)
        ensures
            value.deep_view() == self@.standard.picture,
    {
        self.standard.picture()
    }

    /// The address of the end user's web site.
    pub fn website(&self) -> (value: Option<&str>)
        ensures
            value.deep_view() == self@.standard.website,
    {
        self.standard.website()
    }

    /// The e-mail address of the end user.
    pub fn email(&self) -> (value: Option<&str>)
        ensures
            value.deep_view() == self@.standard.email,
    {
        self.standard.email()
    }

    /// Whether the e-mail address was verified.
    pub fn email_verified(&self) -> (value: Option<bool>)
        ensures
            value.deep_view() == self@.standard.email_verified,
    {
        self.standard.email_verified()
    }

    /// The gender of the end user.
    pub fn gender(&self) -> (value: Option<&str>)
        ensures
            value.deep_view() == self@.standard.gender,
    {
        self.standard.gender()
    }

    /// The birthday of the end user.
    pub fn birthdate(&self) -> (value: Option<&str>)
        ensures
            value.deep_view() == self@.standard.birthdate,
    {
        self.standard.birthdate()
    }

    /// The time zone of the end user.
    pub fn zoneinfo(&self) -> (value: Option<&str>)
        ensures
            value.deep_view() == self@.standard.zoneinfo,
    {
        self.standard.zoneinfo()
    }

    /// The locale of the end user.
    pub fn locale(&self) -> (value: Option<&str>)
        ensures
            value.deep_view() == self@.standard.locale,
    {
        self.standard.locale()
    }

    /// The phone number of the end user.
    pub fn phone_number(&self) -> (value: Option<&str>)
        ensures
            value.deep_view() == self@.standard.phone_number,
    {
        self.standard.phone_number()
    }

    /// Whether the phone number was verified.
    pub fn phone_number_verified(&self) -> (value: Option<bool>)
        ensures
            value.deep_view() == self@.standard.phone_number_verified,
    {
        self.standard.phone_number_verified()
    }

    /// The postal address of the end user.
    pub fn address(&self) -> (value: Option<&AddressClaim>)
        ensures
            value.deep_view() == self@.standard.address,
    {
        self.standard.address()
    }

    /// When the claims were last changed, in seconds since the start of 1970.
    pub fn updated_at(&self) -> (value: Option<u64>)
        ensures
            value.deep_view() == self@.standard.updated_at,
    {
        self.standard.updated_at()
    }

}

/// An ID token taken apart: what its header and its claims say, the text
/// that was signed and the signature.
#[derive(Debug)]
pub struct IdToken {
    header: JwsHeader,
    claims: IdTokenClaims,
    signing_input: String,
    signature: Vec<u8>,
}

/// What an `IdToken` holds.
pub struct IdTokenView {
    pub header: HeaderView,
    pub claims: ClaimsView,
    pub signing_input: Seq<char>,
    pub signature: Seq<u8>,
}

impl View for IdToken {
    type V = IdTokenView;

    closed spec fn view(&self) -> IdTokenView {
        IdTokenView {
            header: self.header@,
            claims: self.claims@,
            signing_input: self.signing_input@,
            signature: self.signature@,
        }
    }
}

impl DeepView for IdToken {
    type V = IdTokenView;

    open spec fn deep_view(&self) -> IdTokenView {
        self@
    }
}

/// The ID token that a compact form stands for.
pub open spec fn decode_id_token(compact: Seq<char>) -> Result<IdTokenView, ClaimsFault> {
    match decode_jws(compact) {
        None => Err(ClaimsFault::Parse),
        Some(jws) => match decode_claims(jws.payload) {
            Err(fault) => Err(claims_fault_of(fault)),
            Ok(claims) => Ok(
                IdTokenView {
                    header: jws.header,
                    claims,
                    signing_input: jws.signing_input,
                    signature: jws.signature,
                },
            ),
        },
    }
}

/// Whether a step of verification gave the result that is stated for it.
pub open spec fn verified<T: DeepView>(
    r: Result<T, ClaimsVerificationError>,
    s: Result<T::V, ClaimsFault>,
) -> bool {
    match (r, s) {
        (Ok(x), Ok(y)) => x.deep_view() == y,
        (Err(e), Err(f)) => e@ == f,
        _ => false,
    }
}

/// A key that a signature is checked with: a key of the provider, or the
/// secret that the client shares with the provider.
pub enum VerificationKey<'a> {
    Key(&'a JsonWebKey),
    Secret(&'a ClientSecret),
}

/// The cryptography that checks signatures. It says whether `signature` is
/// that of `key` over `message` under `alg`, and what is wrong where it is
/// not. The library decides which key to ask about and what follows from
/// the answer.
pub trait SignatureVerifier {
    fn verify_signature(
        &self,
        alg: CoreJwsSigningAlgorithm,
        key: VerificationKey,
        message: &[u8],
        signature: &[u8],
    ) -> Result<(), String>;
}

/// What a client believes an ID token by: who it is, who the provider is
/// and which keys the provider has, which algorithms it allows, and how far
/// the clocks may differ.
#[derive(Debug)]
pub struct IdTokenVerifier {
    client_id: ClientId,
    client_secret: Option<ClientSecret>,
    issuer: IssuerUrl,
    keys: JsonWebKeySet,
    allowed_algs: Vec<CoreJwsSigningAlgorithm>,
    signature_check: bool,
    leeway: u64,
}

/// The rules by which a signature is checked: the keys of the provider, the
/// secret that the client shares with it, the algorithms that are allowed,
/// and whether signatures are checked at all.
pub struct SignatureRules {
    pub keys: Seq<JsonWebKeyView>,
    pub client_secret: Option<Seq<char>>,
    pub allowed_algs: Seq<CoreJwsSigningAlgorithm>,
    pub signature_check: bool,
}

/// What an `IdTokenVerifier` holds.
pub struct VerifierView {
    pub client_id: Seq<char>,
    pub issuer: Seq<char>,
    pub rules: SignatureRules,
    pub leeway: u64,
}

impl View for IdTokenVerifier {
    type V = VerifierView;

    closed spec fn view(&self) -> VerifierView {
        VerifierView {
            client_id: self.client_id@,
            issuer: self.issuer@,
            rules: SignatureRules {
                keys: self.keys@,
                client_secret: self.client_secret.deep_view(),
                allowed_algs: self.allowed_algs@,
                signature_check: self.signature_check,
            },
            leeway: self.leeway,
        }
    }
}

/// The rules of a client as it starts out: signatures are checked, and only
/// RSASSA-PKCS1-v1_5 with SHA-256 is allowed.
pub open spec fn default_rules(
    keys: Seq<JsonWebKeyView>,
    client_secret: Option<Seq<char>>,
) -> SignatureRules {
    SignatureRules {
        keys,
        client_secret,
        allowed_algs: seq![CoreJwsSigningAlgorithm::RsaSsaPkcs1V15Sha256],
        signature_check: true,
    }
}

/// The verifier of a client as it starts out: the rules it starts out
/// with, and no leeway.
pub open spec fn default_verifier(
    client_id: Seq<char>,
    client_secret: Option<Seq<char>>,
    issuer: Seq<char>,
    keys: Seq<JsonWebKeyView>,
) -> VerifierView {
    VerifierView { client_id, issuer, rules: default_rules(keys, client_secret), leeway: 0 }
}

/// The one algorithm that is allowed from the start.
pub fn default_algs() -> (algs: Vec<CoreJwsSigningAlgorithm>)
    ensures
        algs@ == seq![CoreJwsSigningAlgorithm::RsaSsaPkcs1V15Sha256],
{
    let mut algs: Vec<CoreJwsSigningAlgorithm> = Vec::new();
    algs.push(CoreJwsSigningAlgorithm::RsaSsaPkcs1V15Sha256);
    algs
}

impl IdTokenVerifier {
    /// The verifier of a client without a secret.
    pub fn new_public_client(client_id: ClientId, issuer: IssuerUrl, keys: JsonWebKeySet) -> (verifier:
        IdTokenVerifier)
        ensures
            verifier@ == default_verifier(client_id@, None, issuer@, keys@),
    {
        IdTokenVerifier {
            client_id,
            client_secret: None,
            issuer,
            keys,
            allowed_algs: default_algs(),
            signature_check: true,
            leeway: 0,
        }
    }

    /// The verifier of a client that shares a secret with the provider.
    pub fn new_private_client(
        client_id: ClientId,
        client_secret: ClientSecret,
        issuer: IssuerUrl,
        keys: JsonWebKeySet,
    ) -> (verifier: IdTokenVerifier)
        ensures
            verifier@ == default_verifier(client_id@, Some(client_secret@), issuer@, keys@),
    {
        IdTokenVerifier {
            client_id,
            client_secret: Some(client_secret),
            issuer,
            keys,
            allowed_algs: default_algs(),
            signature_check: true,
            leeway: 0,
        }
    }

    /// Allows these algorithms and no others.
    pub fn set_allowed_algs(self, algs: Vec<CoreJwsSigningAlgorithm>) -> (verifier: IdTokenVerifier)
        ensures
            verifier@ == (VerifierView {
                rules: SignatureRules { allowed_algs: algs@, ..self@.rules },
                ..self@
            }),
    {
        let mut verifier = self;
        verifier.allowed_algs = algs;
        verifier
    }

    /// Stops checking signatures: a token is then believed whoever made it,
    /// one without a signature included. This is for trying out what a
    /// provider sends, never for use.
    pub fn insecure_disable_signature_check(self) -> (verifier: IdTokenVerifier)
        ensures
            verifier@ == (VerifierView {
                rules: SignatureRules { signature_check: false, ..self@.rules },
                ..self@
            }),
    {
        let mut verifier = self;
        verifier.signature_check = false;
        verifier
    }

    /// Lets a token count as not yet expired for so many seconds after its
    /// expiry.
    pub fn set_leeway(self, seconds: u64) -> (verifier: IdTokenVerifier)
        ensures
            verifier@ == (VerifierView { leeway: seconds, ..self@ }),
    {
        let mut verifier = self;
        verifier.leeway = seconds;
        verifier
    }

    /// The client that tokens must be meant for.
    pub fn client_id(&self) -> (value: &ClientId)
        ensures
            value@ == self@.client_id,
    {
        &self.client_id
    }

    /// The provider that tokens must come from.
    pub fn issuer(&self) -> (value: &IssuerUrl)
        ensures
            value@ == self@.issuer,
    {
        &self.issuer
    }
}

/// How a signature is to be checked.
pub enum SignatureCheck {
    /// Not at all: the verifier does not check signatures.
    Skipped,
    /// With the secret that the client shares with the provider.
    WithSecret,
    /// With the key of the provider at this position in its key set.
    WithKey(int),
}

/// How the signature under a header is to be checked, or why it cannot be
/// accepted whatever it is. Where signatures are checked, none is taken
/// that is no signature, and none of an algorithm that is not allowed; an
/// algorithm with a shared secret needs the client to have one; any other
/// needs exactly one key of the provider that may have made the signature.
pub open spec fn signature_plan(rules: SignatureRules, header: HeaderView) -> Result<
    SignatureCheck,
    SignatureFault,
> {
    if !rules.signature_check {
        Ok(SignatureCheck::Skipped)
    } else if header.alg is Unsecured {
        Err(SignatureFault::DisallowedAlg)
    } else if !rules.allowed_algs.contains(header.alg) {
        Err(SignatureFault::DisallowedAlg)
    } else if header.alg.is_symmetric() {
        if rules.client_secret is Some {
            Ok(SignatureCheck::WithSecret)
        } else {
            Err(SignatureFault::DisallowedAlg)
        }
    } else {
        match chosen_key(rules.keys, header.alg.key_type()->0, header.kid) {
            Ok(at) => Ok(SignatureCheck::WithKey(at)),
            Err(fault) => Err(fault),
        }
    }
}

/// Whether `r` names the key that the plan asks for: none where the
/// signature is not checked, the client's secret or the chosen key of the
/// provider where it is, and the plan's fault where there is one.
pub open spec fn follows_plan(
    r: Result<Option<VerificationKey>, SignatureVerificationError>,
    plan: Result<SignatureCheck, SignatureFault>,
    rules: SignatureRules,
) -> bool {
    match plan {
        Err(fault) => r matches Err(error) && error@ == fault,
        Ok(SignatureCheck::Skipped) => r matches Ok(None),
        Ok(SignatureCheck::WithSecret) => r matches Ok(Some(VerificationKey::Secret(secret)))
            && Some(secret@) == rules.client_secret,
        Ok(SignatureCheck::WithKey(at)) => r matches Ok(Some(VerificationKey::Key(key))) && 0
            <= at < rules.keys.len() && key@ == rules.keys[at],
    }
}

/// Finds the key that the signature under a header is to be checked with.
pub fn signature_key<'a>(
    keys: &'a JsonWebKeySet,
    client_secret: Option<&'a ClientSecret>,
    allowed_algs: &Vec<CoreJwsSigningAlgorithm>,
    signature_check: bool,
    header: &JwsHeader,
) -> (r: Result<Option<VerificationKey<'a>>, SignatureVerificationError>)
    ensures
        follows_plan(
            r,
            signature_plan(
                SignatureRules {
                    keys: keys@,
                    client_secret: client_secret.deep_view(),
                    allowed_algs: allowed_algs@,
                    signature_check,
                },
                header@,
            ),
            SignatureRules {
                keys: keys@,
                client_secret: client_secret.deep_view(),
                allowed_algs: allowed_algs@,
                signature_check,
            },
        ),
{
    if !signature_check {
        return Ok(None);
    }
    let alg = header.alg;
    if alg == CoreJwsSigningAlgorithm::Unsecured {
        return Err(
            SignatureVerificationError::DisallowedAlg(String::from_str("there is no signature")),
        );
    }
    if !is_allowed(allowed_algs, alg) {
        return Err(SignatureVerificationError::DisallowedAlg(String::from_str(alg.as_str())));
    }
    if alg.uses_shared_secret() {
        return match client_secret {
            Some(secret) => Ok(Some(VerificationKey::Secret(secret))),
            None => Err(
                SignatureVerificationError::DisallowedAlg(
                    String::from_str("the client has no secret"),
                ),
            ),
        };
    }
    let key_type = match alg.required_key_type() {
        Some(key_type) => key_type,
        None => "",
    };
    match select_key(keys, key_type, optional_str(&header.kid)) {
        Ok(key) => Ok(Some(VerificationKey::Key(key))),
        Err(error) => Err(error),
    }
}

/// What is wrong with claims whose signature was accepted, if anything.
/// The issuer must be the provider's; the audience must hold the client,
/// and where it holds others too the token must have been issued to the
/// client; the expiry, moved on by the leeway, must lie after `now`; and the
/// nonce must be the one that is expected, where one is.
pub open spec fn claims_fault(
    verifier: VerifierView,
    claims: ClaimsView,
    nonce: Option<Seq<char>>,
    now: u64,
) -> Option<ClaimsFault> {
    if claims.iss != verifier.issuer {
        Some(ClaimsFault::InvalidIssuer)
    } else if !claims.aud.contains(verifier.client_id) {
        Some(ClaimsFault::InvalidAudience)
    } else if claims.aud.len() > 1 && claims.azp != Some(verifier.client_id) {
        Some(ClaimsFault::InvalidAudience)
    } else if claims.exp + verifier.leeway <= now {
        Some(ClaimsFault::Expired)
    } else if nonce is Some && claims.nonce != nonce {
        Some(ClaimsFault::InvalidNonce)
    } else {
        None
    }
}

/// What verification makes of a token, given what the cryptography said of
/// its signature where it was asked.
pub open spec fn verification_fault(
    verifier: VerifierView,
    token: IdTokenView,
    nonce: Option<Seq<char>>,
    now: u64,
    signature_ok: bool,
) -> Option<ClaimsFault> {
    match signature_plan(verifier.rules, token.header) {
        Err(fault) => Some(ClaimsFault::SignatureVerification(fault)),
        Ok(SignatureCheck::Skipped) => claims_fault(verifier, token.claims, nonce, now),
        Ok(_) => if signature_ok {
            claims_fault(verifier, token.claims, nonce, now)
        } else {
            Some(ClaimsFault::SignatureVerification(SignatureFault::CryptoError))
        },
    }
}

/// Whether a result of verification reports this fault, or none.
pub open spec fn reports<T>(r: Result<T, ClaimsVerificationError>, fault: Option<ClaimsFault>) -> bool {
    match (r, fault) {
        (Ok(_), None) => true,
        (Err(error), Some(fault)) => error@ == fault,
        _ => false,
    }
}

/// Whether two texts are the same, found out without stopping at the first
/// difference.
pub fn constant_time_eq(a: &str, b: &str) -> (same: bool)
    ensures
        same == (a@ == b@),
{
    let x = a.as_bytes();
    let y = b.as_bytes();
    proof {
        vstd::utf8::encode_utf8_decode_utf8(a@);
        vstd::utf8::encode_utf8_decode_utf8(b@);
    }
    if x.len() != y.len() {
        return false;
    }
    let n = x.len();
    let mut difference: u8 = 0;
    let mut i: usize = 0;
    assert(x@.take(0) =~= y@.take(0));
    while i < n
        invariant
            n == x@.len(),
            n == y@.len(),
            i <= n,
            difference == 0 <==> x@.take(i as int) == y@.take(i as int),
        decreases n - i,
    {
        let p = x[i];
        let q = y[i];
        let ghost before = difference;
        difference = difference | (p ^ q);
        proof {
            assert((before | (p ^ q)) == 0 <==> (before == 0 && p == q)) by (bit_vector);
            assert(x@.take(i + 1) =~= x@.take(i as int).push(p));
            assert(y@.take(i + 1) =~= y@.take(i as int).push(q));
            if x@.take(i + 1) == y@.take(i + 1) {
                assert(x@.take(i as int) =~= x@.take(i + 1).take(i as int));
                assert(y@.take(i as int) =~= y@.take(i + 1).take(i as int));
                assert(x@.take(i + 1)[i as int] == y@.take(i + 1)[i as int]);
            }
        }
        i += 1;
    }
    proof {
        assert(x@.take(n as int) =~= x@);
        assert(y@.take(n as int) =~= y@);
    }
    difference == 0
}

/// Whether an algorithm is among those allowed.
pub fn is_allowed(
    algs: &Vec<CoreJwsSigningAlgorithm>,
    alg: CoreJwsSigningAlgorithm,
) -> (found: bool)
    ensures
        found == algs@.contains(alg),
{
    let n = algs.len();
    let mut i: usize = 0;
    while i < n
        invariant
            n == algs.len(),
            i <= n,
            forall|j: int| 0 <= j < i ==> algs@[j] != alg,
        decreases n - i,
    {
        if algs[i] == alg {
            return true;
        }
        i += 1;
    }
    false
}

/// Whether a text is among those of a list.
pub fn holds_text(texts: &Vec<String>, text: &str) -> (found: bool)
    ensures
        found == texts.deep_view().contains(text@),
{
    let n = texts.len();
    let mut i: usize = 0;
    while i < n
        invariant
            n == texts.len(),
            i <= n,
            forall|j: int| 0 <= j < i ==> texts.deep_view()[j] != text@,
        decreases n - i,
    {
        assert(texts.deep_view()[i as int] == texts[i as int]@);
        if str_eq(texts[i].as_str(), text) {
            return true;
        }
        i += 1;
    }
    false
}

impl IdTokenVerifier {
    /// Finds the key that the signature of a token is to be checked with.
    pub fn signature_key<'a>(&'a self, header: &JwsHeader) -> (r: Result<
        Option<VerificationKey<'a>>,
        SignatureVerificationError,
    >)
        ensures
            follows_plan(r, signature_plan(self@.rules, header@), self@.rules),
    {
        signature_key(
            &self.keys,
            self.client_secret.as_ref(),
            &self.allowed_algs,
            self.signature_check,
            header,
        )
    }

    /// Checks claims whose signature was accepted.
    pub fn check_claims(&self, claims: &IdTokenClaims, nonce: Option<&Nonce>, now: u64) -> (r: Result<
        (),
        ClaimsVerificationError,
    >)
        ensures
            reports(r, claims_fault(self@, claims@, nonce.deep_view(), now)),
    {
        if !str_eq(claims.iss(), self.issuer.as_str()) {
            return Err(ClaimsVerificationError::InvalidIssuer(String::from_str(claims.iss())));
        }
        if !holds_text(claims.aud(), self.client_id.as_str()) {
            return Err(
                ClaimsVerificationError::InvalidAudience(
                    String::from_str("the audience does not hold the client"),
                ),
            );
        }
        if claims.aud().len() > 1 {
            let issued_to_client = match claims.azp() {
                Some(azp) => str_eq(azp, self.client_id.as_str()),
                None => false,
            };
            if !issued_to_client {
                return Err(
                    ClaimsVerificationError::InvalidAudience(
                        String::from_str("the token was not issued to the client"),
                    ),
                );
            }
        }
        let expired = match claims.exp().checked_add(self.leeway) {
            Some(end) => end <= now,
            None => false,
        };
        if expired {
            return Err(ClaimsVerificationError::Expired(String::from_str("the token has expired")));
        }
        match nonce {
            Some(expected) => {
                let same = match claims.nonce() {
                    Some(found) => constant_time_eq(found, expected.secret()),
                    None => false,
                };
                if !same {
                    return Err(
                        ClaimsVerificationError::InvalidNonce(
                            String::from_str("the nonce is not the one that was sent"),
                        ),
                    );
                }
            },
            None => {},
        }
        Ok(())
    }
}

impl IdToken {
    /// Takes an ID token in its compact form apart.
    pub fn parse(compact: &str) -> (r: Result<IdToken, ClaimsVerificationError>)
        ensures
            verified(r, decode_id_token(compact@)),
    {
        let jws = match parse_jws(compact) {
            Some(jws) => jws,
            None => {
                return Err(
                    ClaimsVerificationError::Parse(
                        String::from_str("the token is no compact signature"),
                    ),
                );
            },
        };
        let claims = match IdTokenClaims::from_json(&jws.payload) {
            Ok(claims) => claims,
            Err(error) => {
                return Err(claims_error_of(error));
            },
        };
        Ok(
            IdToken {
                header: jws.header,
                claims,
                signing_input: jws.signing_input,
                signature: jws.signature,
            },
        )
    }

    /// What the header of the token says.
    pub fn header(&self) -> (header: &JwsHeader)
        ensures
            header@ == self@.header,
    {
        &self.header
    }

    /// The text that the signature covers.
    pub fn signing_input(&self) -> (text: &str)
        ensures
            text@ == self@.signing_input,
    {
        self.signing_input.as_str()
    }

    /// The signature over the signing input.
    pub fn signature(&self) -> (bytes: &Vec<u8>)
        ensures
            bytes@ == self@.signature,
    {
        &self.signature
    }

    /// The claims as they stand in the token, whether or not they are to be
    /// believed.
    pub fn unverified_claims(&self) -> (claims: &IdTokenClaims)
        ensures
            claims@ == self@.claims,
    {
        &self.claims
    }

    /// Hands out the claims of the token where they are to be believed,
    /// given what the cryptography said of the signature.
    pub fn claims_given(
        &self,
        verifier: &IdTokenVerifier,
        nonce: Option<&Nonce>,
        now: u64,
        signature_ok: bool,
    ) -> (r: Result<&IdTokenClaims, ClaimsVerificationError>)
        ensures
            reports(r, verification_fault(verifier@, self@, nonce.deep_view(), now, signature_ok)),
            r matches Ok(claims) ==> claims@ == self@.claims,
    {
        match verifier.signature_key(&self.header) {
            Err(error) => {
                return Err(ClaimsVerificationError::SignatureVerification(error));
            },
            Ok(None) => {},
            Ok(Some(_)) => {
                if !signature_ok {
                    return Err(
                        ClaimsVerificationError::SignatureVerification(
                            SignatureVerificationError::CryptoError(
                                String::from_str("the signature is not valid"),
                            ),
                        ),
                    );
                }
            },
        }
        match verifier.check_claims(&self.claims, nonce, now) {
            Ok(()) => Ok(&self.claims),
            Err(error) => Err(error),
        }
    }

    /// Hands out the claims of the token where they are to be believed at
    /// the time `now`, in seconds since the start of 1970. The cryptography
    /// is asked about the signature where `signature_key` names a key, about
    /// that key, the signing input and the signature of the token.
    pub fn claims_at<C: SignatureVerifier>(
        &self,
        verifier: &IdTokenVerifier,
        nonce: Option<&Nonce>,
        now: u64,
        crypto: &C,
    ) -> (r: Result<&IdTokenClaims, ClaimsVerificationError>)
        ensures
            reports(r, verification_fault(verifier@, self@, nonce.deep_view(), now, true))
                || reports(
                r,
                verification_fault(verifier@, self@, nonce.deep_view(), now, false),
            ),
            r matches Ok(claims) ==> claims@ == self@.claims,
    {
        let signature_ok = match verifier.signature_key(&self.header) {
            Ok(Some(key)) => crypto.verify_signature(
                self.header.alg,
                key,
                self.signing_input.as_str().as_bytes(),
                self.signature.as_slice(),
            ).is_ok(),
            _ => true,
        };
        self.claims_given(verifier, nonce, now, signature_ok)
    }
}

impl IdToken {
    /// Hands out the claims of the token where they are to be believed
    /// now, by the clock of the machine.
    pub fn claims<C: SignatureVerifier>(
        &self,
        verifier: &IdTokenVerifier,
        nonce: Option<&Nonce>,
        crypto: &C,
    ) -> (r: Result<&IdTokenClaims, ClaimsVerificationError>)
        ensures
            exists|now: u64, signature_ok: bool|
                reports(
                    r,
                    #[trigger] verification_fault(
                        verifier@,
                        self@,
                        nonce.deep_view(),
                        now,
                        signature_ok,
                    ),
                ),
            signature_plan(verifier@.rules, self@.header) matches Err(fault) ==> reports(
                r,
                Some(ClaimsFault::SignatureVerification(fault)),
            ),
            r matches Ok(claims) ==> claims@ == self@.claims,
    {
        let now = crate::types::unix_time_now();
        let r = self.claims_at(verifier, nonce, now, crypto);
        proof {
            if reports(r, verification_fault(verifier@, self@, nonce.deep_view(), now, true)) {
            } else {
            }
        }
        r
    }
}

/// A token whose header names a key that the provider does not have is
/// refused for want of a matching key, whatever else it holds.
pub proof fn lemma_unknown_key_is_no_match(
    verifier: VerifierView,
    token: IdTokenView,
    nonce: Option<Seq<char>>,
    now: u64,
    signature_ok: bool,
)
    requires
        verifier.rules.signature_check,
        verifier.rules.allowed_algs.contains(token.header.alg),
        !(token.header.alg is Unsecured),
        !token.header.alg.is_symmetric(),
        token.header.kid is Some,
        forall|i: int| 0 <= i < verifier.rules.keys.len() ==> (#[trigger] verifier.rules.keys[i]).kid
            != token.header.kid,
    ensures
        verification_fault(verifier, token, nonce, now, signature_ok) == Some(
            ClaimsFault::SignatureVerification(SignatureFault::NoMatchingKey),
        ),
{
    let key_type = token.header.alg.key_type()->0;
    lemma_candidates_fit(verifier.rules.keys, key_type, token.header.kid);
    let found = crate::jws::candidates(verifier.rules.keys, key_type, token.header.kid);
    if found.len() > 0 {
        let at = found[0];
    }
}

/// A token whose header names no key is refused as ambiguous where two keys
/// of the provider may have made its signature: the keys are not tried one
/// after the other.
pub proof fn lemma_two_candidates_are_ambiguous(
    verifier: VerifierView,
    token: IdTokenView,
    nonce: Option<Seq<char>>,
    now: u64,
    signature_ok: bool,
    first: int,
    second: int,
)
    requires
        verifier.rules.signature_check,
        verifier.rules.allowed_algs.contains(token.header.alg),
        !(token.header.alg is Unsecured),
        !token.header.alg.is_symmetric(),
        token.header.kid is None,
        0 <= first < second < verifier.rules.keys.len(),
        is_candidate(verifier.rules.keys[first], token.header.alg.key_type()->0, None),
        is_candidate(verifier.rules.keys[second], token.header.alg.key_type()->0, None),
    ensures
        verification_fault(verifier, token, nonce, now, signature_ok) == Some(
            ClaimsFault::SignatureVerification(SignatureFault::AmbiguousKeyId),
        ),
{
    let key_type = token.header.alg.key_type()->0;
    lemma_candidates_fit(verifier.rules.keys, key_type, None);
    let found = crate::jws::candidates(verifier.rules.keys, key_type, None);
    let a = choose|k: int| 0 <= k < found.len() && found[k] == first;
    let b = choose|k: int| 0 <= k < found.len() && found[k] == second;
}

/// A token without a signature is refused by every verifier that checks
/// signatures, and only by the switch that stops the checking can it pass.
pub proof fn lemma_unsigned_token_needs_the_switch(
    verifier: VerifierView,
    token: IdTokenView,
    nonce: Option<Seq<char>>,
    now: u64,
    signature_ok: bool,
)
    requires
        token.header.alg is Unsecured,
    ensures
        verifier.rules.signature_check ==> verification_fault(
            verifier,
            token,
            nonce,
            now,
            signature_ok,
        ) == Some(ClaimsFault::SignatureVerification(SignatureFault::DisallowedAlg)),
        verification_fault(verifier, token, nonce, now, signature_ok) is None
            ==> !verifier.rules.signature_check,
{
}

/// A token that carries another nonce than the one that is expected, or
/// none, is never believed; where nothing else is wrong with it, it is
/// refused for its nonce.
pub proof fn lemma_nonce_binds(
    verifier: VerifierView,
    token: IdTokenView,
    nonce: Seq<char>,
    now: u64,
    signature_ok: bool,
)
    requires
        token.claims.nonce != Some(nonce),
    ensures
        verification_fault(verifier, token, Some(nonce), now, signature_ok) is Some,
        verification_fault(verifier, token, None, now, signature_ok) is None
            ==> verification_fault(verifier, token, Some(nonce), now, signature_ok) == Some(
            ClaimsFault::InvalidNonce,
        ),
{
}

} // verus!
