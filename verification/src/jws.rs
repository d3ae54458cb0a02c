//! Compact JSON Web Signatures: their three parts, and the choice of the key
//! that a signature is checked with.

use crate::algorithm::CoreJwsSigningAlgorithm;
use crate::json::{parse, parsed_json, Json, JsonError, JsonFault, JsonValue};
use crate::jwk::{JsonWebKey, JsonWebKeySet, JsonWebKeyView};
use crate::reader::{
    agrees, members_of, optional_text, plain_entries, plain_members, read_text, require_text,
    required_text, Entry,
};
use crate::text::{split, split_text, str_eq};
use vstd::prelude::*;
use vstd::string::StringExecFns;

verus! {

/// Why a signature was not accepted.
#[derive(Debug, Clone, PartialEq, Eq)]
pub enum SignatureVerificationError {
    /// More than one key could have made the signature.
    AmbiguousKeyId(String),
    /// The signature is not that of the key, or the key cannot be used.
    CryptoError(String),
    /// The algorithm is not one that the verifier allows.
    DisallowedAlg(String),
    /// No key could have made the signature.
    NoMatchingKey,
}

/// What a `SignatureVerificationError` says, without its words.
pub enum SignatureFault {
    AmbiguousKeyId,
    CryptoError,
    DisallowedAlg,
    NoMatchingKey,
}

impl View for SignatureVerificationError {
    type V = SignatureFault;

    open spec fn view(&self) -> SignatureFault {
        match self {
            SignatureVerificationError::AmbiguousKeyId(_) => SignatureFault::AmbiguousKeyId,
            SignatureVerificationError::CryptoError(_) => SignatureFault::CryptoError,
            SignatureVerificationError::DisallowedAlg(_) => SignatureFault::DisallowedAlg,
            SignatureVerificationError::NoMatchingKey => SignatureFault::NoMatchingKey,
        }
    }
}

/// Whether a key may have made a signature: it is meant for signatures or
/// for anything, it is of the type that the algorithm asks for, and it
/// carries the key identifier of the header where the header names one.
pub open spec fn is_candidate(
    key: JsonWebKeyView,
    key_type: Seq<char>,
    kid: Option<Seq<char>>,
) -> bool {
    &&& key.key_use is None || key.key_use == Some("sig"@)
    &&& key.kty == key_type
    &&& kid is None || key.kid == kid
}

/// The positions of the keys that may have made a signature.
pub open spec fn candidates(
    keys: Seq<JsonWebKeyView>,
    key_type: Seq<char>,
    kid: Option<Seq<char>>,
) -> Seq<int>
    decreases keys.len(),
{
    if keys.len() == 0 {
        Seq::empty()
    } else if is_candidate(keys.last(), key_type, kid) {
        candidates(keys.drop_last(), key_type, kid).push(keys.len() - 1)
    } else {
        candidates(keys.drop_last(), key_type, kid)
    }
}

/// The position of the one key that may have made a signature. Several
/// such keys are never tried one after the other: the choice is ambiguous.
pub open spec fn chosen_key(
    keys: Seq<JsonWebKeyView>,
    key_type: Seq<char>,
    kid: Option<Seq<char>>,
) -> Result<int, SignatureFault> {
    let found = candidates(keys, key_type, kid);
    if found.len() == 0 {
        Err(SignatureFault::NoMatchingKey)
    } else if found.len() > 1 {
        Err(SignatureFault::AmbiguousKeyId)
    } else {
        Ok(found[0])
    }
}

/// Whether a key may have made a signature.
pub fn may_have_signed(key: &JsonWebKey, key_type: &str, kid: Option<&str>) -> (fits: bool)
    ensures
        fits == is_candidate(key@, key_type@, kid.deep_view()),
{
    let for_signatures = match key.key_use() {
        None => true,
        Some(key_use) => str_eq(key_use, "sig"),
    };
    let identified = match kid {
        None => true,
        Some(kid) => match key.kid() {
            Some(own) => str_eq(own, kid),
            None => false,
        },
    };
    for_signatures && str_eq(key.kty(), key_type) && identified
}

/// Chooses the key that a signature is checked with.
pub fn select_key<'a>(keys: &'a JsonWebKeySet, key_type: &str, kid: Option<&str>) -> (r: Result<
    &'a JsonWebKey,
    SignatureVerificationError,
>)
    ensures
        match chosen_key(keys@, key_type@, kid.deep_view()) {
            Ok(at) => r matches Ok(key) && 0 <= at < keys@.len() && key@ == keys@[at],
            Err(fault) => r matches Err(error) && error@ == fault,
        },
{
    let all = keys.keys();
    let n = all.len();
    let ghost views = keys@;
    let mut first: Option<usize> = None;
    let mut i: usize = 0;
    while i < n
        invariant
            n == all.len(),
            i <= n,
            views == all.deep_view(),
            views == keys@,
            candidates(views.take(i as int), key_type@, kid.deep_view()).len() <= 1,
            first is None <==> candidates(views.take(i as int), key_type@, kid.deep_view()).len()
                == 0,
            first matches Some(at) ==> at < i && candidates(
                views.take(i as int),
                key_type@,
                kid.deep_view(),
            )[0] == at,
        decreases n - i,
    {
        proof {
            assert(views.take(i + 1).drop_last() =~= views.take(i as int));
        }
        if may_have_signed(&all[i], key_type, kid) {
            if first.is_some() {
                proof {
                    lemma_candidates_grow(views, key_type@, kid.deep_view(), i + 1, n as int);
                    assert(views.take(n as int) =~= views);
                }
                return Err(
                    SignatureVerificationError::AmbiguousKeyId(
                        String::from_str("several keys may have made the signature"),
                    ),
                );
            }
            first = Some(i);
        }
        i += 1;
    }
    assert(views.take(n as int) =~= views);
    match first {
        Some(at) => Ok(&all[at]),
        None => Err(SignatureVerificationError::NoMatchingKey),
    }
}

/// A longer prefix of a key set holds at least as many candidates.
pub proof fn lemma_candidates_grow(
    keys: Seq<JsonWebKeyView>,
    key_type: Seq<char>,
    kid: Option<Seq<char>>,
    from: int,
    to: int,
)
    requires
        0 <= from <= to <= keys.len(),
    ensures
        candidates(keys.take(from), key_type, kid).len() <= candidates(
            keys.take(to),
            key_type,
            kid,
        ).len(),
    decreases to - from,
{
    if from < to {
        lemma_candidates_grow(keys, key_type, kid, from, to - 1);
        assert(keys.take(to).drop_last() =~= keys.take(to - 1));
    }
}

/// Every candidate is a key of the set that may have made the signature.
pub proof fn lemma_candidates_fit(
    keys: Seq<JsonWebKeyView>,
    key_type: Seq<char>,
    kid: Option<Seq<char>>,
)
    ensures
        forall|k: int|
            0 <= k < candidates(keys, key_type, kid).len() ==> {
                let at = #[trigger] candidates(keys, key_type, kid)[k];
                0 <= at < keys.len() && is_candidate(keys[at], key_type, kid)
            },
        forall|at: int|
            0 <= at < keys.len() && is_candidate(#[trigger] keys[at], key_type, kid)
                ==> candidates(keys, key_type, kid).contains(at),
    decreases keys.len(),
{
    if keys.len() > 0 {
        let rest = keys.drop_last();
        lemma_candidates_fit(rest, key_type, kid);
        let found = candidates(keys, key_type, kid);
        let before = candidates(rest, key_type, kid);
        assert forall|k: int| 0 <= k < found.len() implies {
            let at = #[trigger] found[k];
            0 <= at < keys.len() && is_candidate(keys[at], key_type, kid)
        } by {
            if k < before.len() {
            }
        }
        assert forall|at: int|
            0 <= at < keys.len() && is_candidate(#[trigger] keys[at], key_type, kid) implies found.contains(
            at,
        ) by {
            if at < rest.len() {
                assert(rest[at] == keys[at]);
                let k = choose|k: int| 0 <= k < before.len() && before[k] == at;
                assert(found[k] == at);
            } else {
                assert(found[found.len() - 1] == at);
            }
        }
    }
}

#[verifier::external_type_specification]
#[verifier::external_body]
pub struct ExBase64DecodeError(base64::DecodeError);

/// The bytes that a text stands for in base64 with the URL-safe alphabet
/// and without padding, where it stands for any.
pub uninterp spec fn base64url_decoded(text: Seq<char>) -> Option<Seq<u8>>;

/// `base64::Engine::decode` of the engine `URL_SAFE_NO_PAD`: the bytes that
/// `base64url_decoded` knows, or the decoder's error.
#[verifier::external_body]
fn base64url_decode(text: &str) -> (r: Result<Vec<u8>, base64::DecodeError>)
    ensures
        r is Ok <==> base64url_decoded(text@) is Some,
        r matches Ok(bytes) ==> base64url_decoded(text@) == Some(bytes@),
{
    base64::Engine::decode(&base64::engine::general_purpose::URL_SAFE_NO_PAD, text)
}

/// The bytes that a text stands for in base64url, where it stands for any.
pub fn decode_base64url(text: &str) -> (bytes: Option<Vec<u8>>)
    ensures
        match base64url_decoded(text@) {
            Some(decoded) => bytes matches Some(found) && found@ == decoded,
            None => bytes is None,
        },
{
    match base64url_decode(text) {
        Ok(bytes) => Some(bytes),
        Err(_) => None,
    }
}

/// The header of a signature: the algorithm, and which key made it.
#[derive(Debug, Clone, PartialEq, Eq)]
pub struct JwsHeader {
    pub alg: CoreJwsSigningAlgorithm,
    pub kid: Option<String>,
    pub typ: Option<String>,
}

/// What a `JwsHeader` holds.
pub struct HeaderView {
    pub alg: CoreJwsSigningAlgorithm,
    pub kid: Option<Seq<char>>,
    pub typ: Option<Seq<char>>,
}

impl View for JwsHeader {
    type V = HeaderView;

    open spec fn view(&self) -> HeaderView {
        HeaderView { alg: self.alg, kid: self.kid.deep_view(), typ: self.typ.deep_view() }
    }
}

impl DeepView for JwsHeader {
    type V = HeaderView;

    open spec fn deep_view(&self) -> HeaderView {
        self@
    }
}

/// The header that the members of a document stand for: `alg` must name an
/// algorithm of the core profile.
pub open spec fn header_of(entries: Seq<Entry>) -> Result<HeaderView, JsonFault> {
    let alg = required_text(entries, "alg"@);
    let kid = optional_text(entries, "kid"@);
    let typ = optional_text(entries, "typ"@);
    if alg is Err {
        Err(alg->Err_0)
    } else if CoreJwsSigningAlgorithm::named(alg->Ok_0) is None {
        Err(JsonFault::InvalidValue("alg"@))
    } else if kid is Err {
        Err(kid->Err_0)
    } else if typ is Err {
        Err(typ->Err_0)
    } else {
        Ok(
            HeaderView {
                alg: CoreJwsSigningAlgorithm::named(alg->Ok_0)->0,
                kid: kid->Ok_0,
                typ: typ->Ok_0,
            },
        )
    }
}

/// The header that a document stands for.
pub open spec fn decode_header(doc: Json) -> Result<HeaderView, JsonFault> {
    match members_of(doc) {
        Ok(members) => header_of(plain_entries(members)),
        Err(fault) => Err(fault),
    }
}

impl JwsHeader {
    /// Reads a header from its document.
    pub fn from_json(doc: &JsonValue) -> (r: Result<JwsHeader, JsonError>)
        ensures
            agrees(r, decode_header(doc@)),
    {
        let entries = match plain_members(doc) {
            Ok(entries) => entries,
            Err(error) => {
                return Err(error);
            },
        };
        let name = match require_text(&entries, "alg") {
            Ok(name) => name,
            Err(error) => {
                return Err(error);
            },
        };
        let alg = match CoreJwsSigningAlgorithm::from_name(name.as_str()) {
            Some(alg) => alg,
            None => {
                return Err(JsonError::InvalidValue(String::from_str("alg")));
            },
        };
        let kid = match read_text(&entries, "kid") {
            Ok(value) => value,
            Err(error) => {
                return Err(error);
            },
        };
        let typ = match read_text(&entries, "typ") {
            Ok(value) => value,
            Err(error) => {
                return Err(error);
            },
        };
        Ok(JwsHeader { alg, kid, typ })
    }
}

/// A signature in its compact form, taken apart: the header, the payload
/// as a document, the text that was signed and the signature.
#[derive(Debug)]
pub struct JsonWebSignature {
    pub header: JwsHeader,
    pub payload: JsonValue,
    pub signing_input: String,
    pub signature: Vec<u8>,
}

/// What a `JsonWebSignature` holds.
pub struct JwsView {
    pub header: HeaderView,
    pub payload: Json,
    pub signing_input: Seq<char>,
    pub signature: Seq<u8>,
}

impl View for JsonWebSignature {
    type V = JwsView;

    open spec fn view(&self) -> JwsView {
        JwsView {
            header: self.header@,
            payload: self.payload@,
            signing_input: self.signing_input@,
            signature: self.signature@,
        }
    }
}

/// The text that a signature covers: the first two parts of the compact
/// form with the dot between them.
pub open spec fn signing_input(header: Seq<char>, payload: Seq<char>) -> Seq<char> {
    header + seq!['.'] + payload
}

/// The signature that a compact form stands for: three parts between dots,
/// each in base64url, the first a header and the second a JSON document.
pub open spec fn decode_jws(compact: Seq<char>) -> Option<JwsView> {
    let parts = split(compact, '.');
    if parts.len() != 3 {
        None
    } else {
        match (
            base64url_decoded(parts[0]),
            base64url_decoded(parts[1]),
            base64url_decoded(parts[2]),
        ) {
            (Some(header), Some(payload), Some(signature)) => match (
                parsed_json(header),
                parsed_json(payload),
            ) {
                (Some(header), Some(payload)) => match decode_header(header) {
                    Ok(header) => Some(
                        JwsView {
                            header,
                            payload,
                            signing_input: signing_input(parts[0], parts[1]),
                            signature,
                        },
                    ),
                    Err(_) => None,
                },
                _ => None,
            },
            _ => None,
        }
    }
}

/// Takes a compact signature apart.
pub fn parse_jws(compact: &str) -> (r: Option<JsonWebSignature>)
    ensures
        r is Some <==> decode_jws(compact@) is Some,
        r matches Some(jws) ==> Some(jws@) == decode_jws(compact@),
{
    let parts = split_text(compact, '.');
    if parts.len() != 3 {
        return None;
    }
    let header_bytes = match base64url_decode(parts[0].as_str()) {
        Ok(bytes) => bytes,
        Err(_) => {
            return None;
        },
    };
    let payload_bytes = match base64url_decode(parts[1].as_str()) {
        Ok(bytes) => bytes,
        Err(_) => {
            return None;
        },
    };
    let signature = match base64url_decode(parts[2].as_str()) {
        Ok(bytes) => bytes,
        Err(_) => {
            return None;
        },
    };
    let header_doc = match parse(header_bytes.as_slice()) {
        Ok(doc) => doc,
        Err(_) => {
            return None;
        },
    };
    let payload = match parse(payload_bytes.as_slice()) {
        Ok(doc) => doc,
        Err(_) => {
            return None;
        },
    };
    let header = match JwsHeader::from_json(&header_doc) {
        Ok(header) => header,
        Err(_) => {
            return None;
        },
    };
    let mut signing_input = parts[0].clone();
    proof {
        reveal_strlit(".");
        assert("."@ =~= seq!['.']);
    }
    signing_input.append(".");
    signing_input.append(parts[1].as_str());
    Some(JsonWebSignature { header, payload, signing_input, signature })
}

} // verus!
