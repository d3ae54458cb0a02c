//! The vocabulary of the protocol: URLs, identifiers and secrets, response
//! type sets and instants.

use crate::text::{find_char, join, join_spaced, split, split_text, str_eq};
use vstd::prelude::*;
use vstd::string::StrSliceExecFns;
use vstd::string::StringExecFns;

verus! {

#[verifier::external_type_specification]
#[verifier::external_body]
pub struct ExUrlParseError(url::ParseError);

/// Whether the URL parser accepts `text` as an absolute URL.
pub uninterp spec fn url_parses(text: Seq<char>) -> bool;

/// `url::Url::parse`, asked only whether it accepts the text: `Ok` exactly on
/// the texts that `url_parses` knows, else the parser's error.
#[verifier::external_body]
fn check_url(text: &str) -> (r: Result<(), url::ParseError>)
    ensures
        r is Ok <==> url_parses(text@),
{
    url::Url::parse(text).map(|_| ())
}

/// An absolute URL, kept as the text it was given as.
#[derive(Debug, PartialEq, Eq)]
pub struct EndpointUrl {
    text: String,
}

impl View for EndpointUrl {
    type V = Seq<char>;

    closed spec fn view(&self) -> Seq<char> {
        self.text@
    }
}

impl DeepView for EndpointUrl {
    type V = Seq<char>;

    open spec fn deep_view(&self) -> Seq<char> {
        self@
    }
}

impl EndpointUrl {
    #[verifier::type_invariant]
    spec fn well_formed(&self) -> bool {
        url_parses(self.text@)
    }

    /// Accepts the text where the URL parser does.
    pub fn new(text: String) -> (r: Result<EndpointUrl, url::ParseError>)
        ensures
            r is Ok <==> url_parses(text@),
            r matches Ok(url) ==> url@ == text@,
    {
        match check_url(text.as_str()) {
            Ok(()) => Ok(EndpointUrl { text }),
            Err(error) => Err(error),
        }
    }

    /// The text of the URL.
    pub fn as_str(&self) -> (text: &str)
        ensures
            text@ == self@,
            url_parses(self@),
    {
        proof {
            use_type_invariant(self);
        }
        self.text.as_str()
    }

    /// Whether two URLs have the same text.
    pub fn same_as(&self, other: &EndpointUrl) -> (same: bool)
        ensures
            same == (self@ == other@),
    {
        self.text == other.text
    }

}

impl Clone for EndpointUrl {
    fn clone(&self) -> (copy: EndpointUrl)
        ensures
            copy@ == self@,
    {
        proof {
            use_type_invariant(self);
        }
        EndpointUrl { text: self.text.clone() }
    }
}

/// Whether every text of a list is a URL that the URL parser accepts.
pub open spec fn all_parse(urls: Seq<Seq<char>>) -> bool {
    forall|i: int| 0 <= i < urls.len() ==> url_parses(#[trigger] urls[i])
}

/// Walks a list of URLs and finds every one of them to be one that the URL
/// parser accepts, as each was when it was made.
pub fn urls_are_valid(urls: &Vec<EndpointUrl>)
    ensures
        all_parse(urls.deep_view()),
{
    let n = urls.len();
    let mut i: usize = 0;
    while i < n
        invariant
            n == urls.len(),
            i <= n,
            forall|j: int| 0 <= j < i ==> url_parses(#[trigger] urls.deep_view()[j]),
        decreases n - i,
    {
        let _ = urls[i].as_str();
        i += 1;
    }
}

/// A copy of a list of URLs. It walks the list, and so finds every URL of
/// it to be one that the URL parser accepts.
pub fn copy_urls(from: &Vec<EndpointUrl>) -> (urls: Vec<EndpointUrl>)
    ensures
        urls.deep_view() == from.deep_view(),
        all_parse(from.deep_view()),
{
    let n = from.len();
    let mut urls: Vec<EndpointUrl> = Vec::new();
    let mut i: usize = 0;
    while i < n
        invariant
            n == from.len(),
            i <= n,
            urls.deep_view() == from.deep_view().take(i as int),
            forall|j: int| 0 <= j < i ==> url_parses(#[trigger] from.deep_view()[j]),
        decreases n - i,
    {
        let ghost before = urls.deep_view();
        let url = from[i].clone();
        let _ = url.as_str();
        urls.push(url);
        assert(urls.deep_view() =~= before.push(from.deep_view()[i as int]));
        i += 1;
    }
    urls
}

/// Why a text is no issuer URL.
#[derive(Debug, Clone, Copy, PartialEq, Eq)]
pub enum IssuerUrlError {
    /// The URL parser refuses the text.
    Parse(url::ParseError),
    /// The text does not begin with `https://`.
    NotHttps,
    /// The text holds a `?`.
    HasQuery,
    /// The text holds a `#`.
    HasFragment,
}

/// Whether `text` begins with `prefix`.
pub open spec fn starts_with(text: Seq<char>, prefix: Seq<char>) -> bool {
    prefix.len() <= text.len() && text.take(prefix.len() as int) == prefix
}

/// What an issuer URL must be: an absolute URL over HTTPS with neither a
/// query nor a fragment.
pub open spec fn is_issuer_text(text: Seq<char>) -> bool {
    &&& url_parses(text)
    &&& starts_with(text, "https://"@)
    &&& !text.contains('?')
    &&& !text.contains('#')
}

/// The address of the discovery document of an issuer.
pub open spec fn discovery_url_text(issuer: Seq<char>) -> Seq<char> {
    issuer + "/.well-known/openid-configuration"@
}

/// Whether `text` holds the character, decided by a scan.
pub fn holds_char(text: &str, c: char) -> (found: bool)
    ensures
        found == text@.contains(c),
{
    let at = find_char(text, c);
    proof {
        crate::text::lemma_find_from(text@, c, 0);
        if at < text@.len() {
        }
    }
    at < text.unicode_len()
}

/// Whether `text` begins with `prefix`, decided by a comparison.
pub fn has_prefix(text: &str, prefix: &str) -> (found: bool)
    ensures
        found == starts_with(text@, prefix@),
{
    let n = prefix.unicode_len();
    if text.unicode_len() < n {
        return false;
    }
    let head = text.substring_char(0, n);
    str_eq(head, prefix)
}

/// The URL that names an OpenID Provider. Two issuers are the same where
/// their texts are the same, character by character.
#[derive(Debug, PartialEq, Eq)]
pub struct IssuerUrl {
    text: String,
}

impl View for IssuerUrl {
    type V = Seq<char>;

    closed spec fn view(&self) -> Seq<char> {
        self.text@
    }
}

impl DeepView for IssuerUrl {
    type V = Seq<char>;

    open spec fn deep_view(&self) -> Seq<char> {
        self@
    }
}

impl Clone for IssuerUrl {
    fn clone(&self) -> (copy: IssuerUrl)
        ensures
            copy@ == self@,
    {
        proof {
            use_type_invariant(self);
        }
        IssuerUrl { text: self.text.clone() }
    }
}

impl IssuerUrl {
    #[verifier::type_invariant]
    spec fn well_formed(&self) -> bool {
        is_issuer_text(self.text@)
    }

    /// Accepts an issuer text, or says what is wrong with it: first what the
    /// URL parser objects to, then the scheme, a query, a fragment.
    pub fn new(text: String) -> (r: Result<IssuerUrl, IssuerUrlError>)
        ensures
            r is Ok <==> is_issuer_text(text@),
            r matches Ok(issuer) ==> issuer@ == text@,
            r matches Err(IssuerUrlError::Parse(_)) ==> !url_parses(text@),
            r matches Err(IssuerUrlError::NotHttps) ==> url_parses(text@) && !starts_with(
                text@,
                "https://"@,
            ),
            r matches Err(IssuerUrlError::HasQuery) ==> url_parses(text@) && starts_with(
                text@,
                "https://"@,
            ) && text@.contains('?'),
            r matches Err(IssuerUrlError::HasFragment) ==> url_parses(text@) && starts_with(
                text@,
                "https://"@,
            ) && !text@.contains('?') && text@.contains('#'),
    {
        match check_url(text.as_str()) {
            Err(error) => Err(IssuerUrlError::Parse(error)),
            Ok(()) => {
                if !has_prefix(text.as_str(), "https://") {
                    Err(IssuerUrlError::NotHttps)
                } else if holds_char(text.as_str(), '?') {
                    Err(IssuerUrlError::HasQuery)
                } else if holds_char(text.as_str(), '#') {
                    Err(IssuerUrlError::HasFragment)
                } else {
                    Ok(IssuerUrl { text })
                }
            },
        }
    }

    /// The text of the issuer.
    pub fn as_str(&self) -> (text: &str)
        ensures
            text@ == self@,
            is_issuer_text(self@),
    {
        proof {
            use_type_invariant(self);
        }
        self.text.as_str()
    }

    /// Whether two issuers are the same.
    pub fn same_as(&self, other: &IssuerUrl) -> (same: bool)
        ensures
            same == (self@ == other@),
    {
        self.text == other.text
    }

    /// The address of this issuer's discovery document: the issuer's text
    /// followed by `/.well-known/openid-configuration`, where the URL parser
    /// accepts that.
    pub fn discovery_url(&self) -> (r: Result<EndpointUrl, url::ParseError>)
        ensures
            r is Ok <==> url_parses(discovery_url_text(self@)),
            r matches Ok(url) ==> url@ == discovery_url_text(self@),
    {
        let mut text = self.text.clone();
        text.append("/.well-known/openid-configuration");
        EndpointUrl::new(text)
    }
}

/// A language tag as it stands behind the `#` of a member's name. It is
/// never empty.
#[derive(Debug, PartialEq, Eq)]
pub struct LanguageTag {
    text: String,
}

impl View for LanguageTag {
    type V = Seq<char>;

    closed spec fn view(&self) -> Seq<char> {
        self.text@
    }
}

impl DeepView for LanguageTag {
    type V = Seq<char>;

    open spec fn deep_view(&self) -> Seq<char> {
        self@
    }
}

impl Clone for LanguageTag {
    fn clone(&self) -> (copy: LanguageTag)
        ensures
            copy@ == self@,
    {
        proof {
            use_type_invariant(self);
        }
        LanguageTag { text: self.text.clone() }
    }
}

impl LanguageTag {
    #[verifier::type_invariant]
    spec fn well_formed(&self) -> bool {
        self.text@.len() > 0
    }

    /// A tag from its text; the empty text is none.
    pub fn new(text: String) -> (r: Option<LanguageTag>)
        ensures
            r is Some <==> text@.len() > 0,
            r matches Some(tag) ==> tag@ == text@,
    {
        if text.as_str().unicode_len() == 0 {
            None
        } else {
            Some(LanguageTag { text })
        }
    }

    /// The text of the tag.
    pub fn as_str(&self) -> (text: &str)
        ensures
            text@ == self@,
            self@.len() > 0,
    {
        proof {
            use_type_invariant(self);
        }
        self.text.as_str()
    }
}

/// What a set of response types must be: at least one, none empty, none
/// with a space in it.
pub open spec fn is_response_types(parts: Seq<Seq<char>>) -> bool {
    &&& parts.len() >= 1
    &&& forall|i: int|
        0 <= i < parts.len() ==> (#[trigger] parts[i]).len() > 0 && !parts[i].contains(' ')
}

/// The set that a text of space-separated response types stands for.
pub open spec fn parse_response_types(text: Seq<char>) -> Option<Seq<Seq<char>>> {
    let parts = split(text, ' ');
    if is_response_types(parts) {
        Some(parts)
    } else {
        None
    }
}

/// A set of response types read back from its text is the set itself.
pub proof fn lemma_response_types_round_trip(parts: Seq<Seq<char>>)
    requires
        is_response_types(parts),
    ensures
        parse_response_types(join(parts, ' ')) == Some(parts),
{
    crate::text::lemma_split_join(parts, ' ');
}

/// Whether the texts can stand together as a set of response types.
pub fn check_response_types(parts: &Vec<String>) -> (ok: bool)
    ensures
        ok == is_response_types(parts.deep_view()),
{
    let n = parts.len();
    if n == 0 {
        return false;
    }
    let mut i: usize = 0;
    while i < n
        invariant
            n == parts.len(),
            i <= n,
            forall|j: int|
                0 <= j < i ==> (#[trigger] parts.deep_view()[j]).len() > 0
                    && !parts.deep_view()[j].contains(' '),
        decreases n - i,
    {
        let part = parts[i].as_str();
        assert(part@ == parts.deep_view()[i as int]);
        if part.unicode_len() == 0 || holds_char(part, ' ') {
            return false;
        }
        i += 1;
    }
    true
}

/// The response types asked of one authorization request, such as `code` or
/// `code id_token`. On the wire they stand in one text, a space between them.
#[derive(Debug, PartialEq, Eq)]
pub struct ResponseTypes {
    parts: Vec<String>,
}

impl View for ResponseTypes {
    type V = Seq<Seq<char>>;

    closed spec fn view(&self) -> Seq<Seq<char>> {
        self.parts.deep_view()
    }
}

impl DeepView for ResponseTypes {
    type V = Seq<Seq<char>>;

    open spec fn deep_view(&self) -> Seq<Seq<char>> {
        self@
    }
}

/// A copy of a list of texts.
pub fn copy_texts(from: &Vec<String>) -> (texts: Vec<String>)
    ensures
        texts.deep_view() == from.deep_view(),
{
    let n = from.len();
    let mut texts: Vec<String> = Vec::new();
    let mut i: usize = 0;
    while i < n
        invariant
            n == from.len(),
            i <= n,
            texts.deep_view() == from.deep_view().take(i as int),
        decreases n - i,
    {
        let ghost before = texts.deep_view();
        texts.push(from[i].clone());
        assert(texts.deep_view() =~= before.push(from.deep_view()[i as int]));
        i += 1;
    }
    texts
}

impl Clone for ResponseTypes {
    fn clone(&self) -> (copy: ResponseTypes)
        ensures
            copy@ == self@,
    {
        proof {
            use_type_invariant(self);
        }
        ResponseTypes { parts: copy_texts(&self.parts) }
    }
}

impl ResponseTypes {
    #[verifier::type_invariant]
    spec fn well_formed(&self) -> bool {
        is_response_types(self.parts.deep_view())
    }

    /// A set from its members, where they can stand together.
    pub fn new(parts: Vec<String>) -> (r: Option<ResponseTypes>)
        ensures
            r is Some <==> is_response_types(parts.deep_view()),
            r matches Some(set) ==> set@ == parts.deep_view(),
    {
        if check_response_types(&parts) {
            Some(ResponseTypes { parts })
        } else {
            None
        }
    }

    /// Reads a set from its text.
    pub fn parse(text: &str) -> (r: Option<ResponseTypes>)
        ensures
            r.deep_view() == parse_response_types(text@),
    {
        ResponseTypes::new(split_text(text, ' '))
    }

    /// The text of the set.
    pub fn to_text(&self) -> (text: String)
        ensures
            text@ == join(self@, ' '),
            is_response_types(self@),
    {
        proof {
            use_type_invariant(self);
        }
        join_spaced(&self.parts)
    }

    /// The members of the set.
    pub fn parts(&self) -> (parts: &Vec<String>)
        ensures
            parts.deep_view() == self@,
            is_response_types(self@),
    {
        proof {
            use_type_invariant(self);
        }
        &self.parts
    }
}

/// The identifier that a provider gave a client.
#[derive(Debug, Clone, PartialEq, Eq)]
pub struct ClientId {
    text: String,
}

impl View for ClientId {
    type V = Seq<char>;

    closed spec fn view(&self) -> Seq<char> {
        self.text@
    }
}

impl DeepView for ClientId {
    type V = Seq<char>;

    open spec fn deep_view(&self) -> Seq<char> {
        self@
    }
}

impl ClientId {
    /// A value of this text.
    pub fn new(text: String) -> (value: ClientId)
        ensures
            value@ == text@,
    {
        ClientId { text }
    }

    /// The text of the value.
    pub fn as_str(&self) -> (text: &str)
        ensures
            text@ == self@,
    {
        self.text.as_str()
    }
}

/// The secret that a provider gave a client.
#[derive(Debug, Clone, PartialEq, Eq)]
pub struct ClientSecret {
    text: String,
}

impl View for ClientSecret {
    type V = Seq<char>;

    closed spec fn view(&self) -> Seq<char> {
        self.text@
    }
}

impl DeepView for ClientSecret {
    type V = Seq<char>;

    open spec fn deep_view(&self) -> Seq<char> {
        self@
    }
}

impl ClientSecret {
    /// A value of this text.
    pub fn new(text: String) -> (value: ClientSecret)
        ensures
            value@ == text@,
    {
        ClientSecret { text }
    }

    /// The text of the value.
    pub fn secret(&self) -> (text: &str)
        ensures
            text@ == self@,
    {
        self.text.as_str()
    }
}

/// A token that grants access to a protected resource.
#[derive(Debug, Clone, PartialEq, Eq)]
pub struct AccessToken {
    text: String,
}

impl View for AccessToken {
    type V = Seq<char>;

    closed spec fn view(&self) -> Seq<char> {
        self.text@
    }
}

impl DeepView for AccessToken {
    type V = Seq<char>;

    open spec fn deep_view(&self) -> Seq<char> {
        self@
    }
}

impl AccessToken {
    /// A value of this text.
    pub fn new(text: String) -> (value: AccessToken)
        ensures
            value@ == text@,
    {
        AccessToken { text }
    }

    /// The text of the value.
    pub fn secret(&self) -> (text: &str)
        ensures
            text@ == self@,
    {
        self.text.as_str()
    }
}

/// The token with which a client reads and changes its own registration.
#[derive(Debug, Clone, PartialEq, Eq)]
pub struct RegistrationAccessToken {
    text: String,
}

impl View for RegistrationAccessToken {
    type V = Seq<char>;

    closed spec fn view(&self) -> Seq<char> {
        self.text@
    }
}

impl DeepView for RegistrationAccessToken {
    type V = Seq<char>;

    open spec fn deep_view(&self) -> Seq<char> {
        self@
    }
}

impl RegistrationAccessToken {
    /// A value of this text.
    pub fn new(text: String) -> (value: RegistrationAccessToken)
        ensures
            value@ == text@,
    {
        RegistrationAccessToken { text }
    }

    /// The text of the value.
    pub fn secret(&self) -> (text: &str)
        ensures
            text@ == self@,
    {
        self.text.as_str()
    }
}

/// The value that ties an ID token to the request that asked for it.
#[derive(Debug, Clone, PartialEq, Eq)]
pub struct Nonce {
    text: String,
}

impl View for Nonce {
    type V = Seq<char>;

    closed spec fn view(&self) -> Seq<char> {
        self.text@
    }
}

impl DeepView for Nonce {
    type V = Seq<char>;

    open spec fn deep_view(&self) -> Seq<char> {
        self@
    }
}

impl Nonce {
    /// A value of this text.
    pub fn new(text: String) -> (value: Nonce)
        ensures
            value@ == text@,
    {
        Nonce { text }
    }

    /// The text of the value.
    pub fn secret(&self) -> (text: &str)
        ensures
            text@ == self@,
    {
        self.text.as_str()
    }
}

/// The identifier of an end user at a provider.
#[derive(Debug, Clone, PartialEq, Eq)]
pub struct SubjectIdentifier {
    text: String,
}

impl View for SubjectIdentifier {
    type V = Seq<char>;

    closed spec fn view(&self) -> Seq<char> {
        self.text@
    }
}

impl DeepView for SubjectIdentifier {
    type V = Seq<char>;

    open spec fn deep_view(&self) -> Seq<char> {
        self@
    }
}

impl SubjectIdentifier {
    /// A value of this text.
    pub fn new(text: String) -> (value: SubjectIdentifier)
        ensures
            value@ == text@,
    {
        SubjectIdentifier { text }
    }

    /// The text of the value.
    pub fn as_str(&self) -> (text: &str)
        ensures
            text@ == self@,
    {
        self.text.as_str()
    }
}

/// The last second that can be told as an instant: the end of the year
/// 262142.
pub const LAST_INSTANT: u64 = 8210266876799;

/// `chrono::TimeZone::timestamp_opt` for UTC at a whole second, asked only
/// whether it knows an instant for it. From 1970 on, it does up to the end of
/// the year 262142.
#[verifier::external_body]
fn utc_instant_exists(seconds: i64) -> (exists: bool)
    requires
        seconds >= 0,
    ensures
        exists == (seconds <= LAST_INSTANT),
{
    chrono::TimeZone::timestamp_opt(&chrono::Utc, seconds, 0).single().is_some()
}

/// `std::time::SystemTime::now`, as whole seconds since the start of 1970;
/// zero where the clock stands before that.
#[verifier::external_body]
pub(crate) fn unix_time_now() -> u64 {
    match std::time::SystemTime::now().duration_since(std::time::UNIX_EPOCH) {
        Ok(elapsed) => elapsed.as_secs(),
        Err(_) => 0,
    }
}

/// Whether every set of a list is a proper set of response types.
pub open spec fn all_response_types(sets: Seq<Seq<Seq<char>>>) -> bool {
    forall|i: int| 0 <= i < sets.len() ==> is_response_types(#[trigger] sets[i])
}

/// Walks a list of sets of response types and finds every one of them to
/// be a proper set, as each was when it was made.
pub fn sets_are_valid(sets: &Vec<ResponseTypes>)
    ensures
        all_response_types(sets.deep_view()),
{
    let n = sets.len();
    let mut i: usize = 0;
    while i < n
        invariant
            n == sets.len(),
            i <= n,
            forall|j: int| 0 <= j < i ==> is_response_types(#[trigger] sets.deep_view()[j]),
        decreases n - i,
    {
        let _ = sets[i].parts();
        i += 1;
    }
}

/// A copy of a list of sets of response types. It walks the list, and so
/// finds every set of it to be a proper one.
pub fn copy_sets(from: &Vec<ResponseTypes>) -> (sets: Vec<ResponseTypes>)
    ensures
        sets.deep_view() == from.deep_view(),
        all_response_types(from.deep_view()),
{
    let n = from.len();
    let mut sets: Vec<ResponseTypes> = Vec::new();
    let mut i: usize = 0;
    while i < n
        invariant
            n == from.len(),
            i <= n,
            sets.deep_view() == from.deep_view().take(i as int),
            forall|j: int| 0 <= j < i ==> is_response_types(#[trigger] from.deep_view()[j]),
        decreases n - i,
    {
        let ghost before = sets.deep_view();
        let set = from[i].clone();
        let _ = set.parts();
        sets.push(set);
        assert(sets.deep_view() =~= before.push(from.deep_view()[i as int]));
        i += 1;
    }
    sets
}

/// A copy of an optional URL.
pub fn copy_optional_url(value: &Option<EndpointUrl>) -> (copy: Option<EndpointUrl>)
    ensures
        copy.deep_view() == value.deep_view(),
{
    match value {
        Some(url) => Some(url.clone()),
        None => None,
    }
}

/// A copy of an optional list of URLs.
pub fn copy_optional_urls(value: &Option<Vec<EndpointUrl>>) -> (copy: Option<Vec<EndpointUrl>>)
    ensures
        copy.deep_view() == value.deep_view(),
{
    match value {
        Some(urls) => Some(copy_urls(urls)),
        None => None,
    }
}

/// A copy of an optional list of texts.
pub fn copy_optional_texts(value: &Option<Vec<String>>) -> (copy: Option<Vec<String>>)
    ensures
        copy.deep_view() == value.deep_view(),
{
    match value {
        Some(texts) => Some(copy_texts(texts)),
        None => None,
    }
}

/// A copy of an optional list of sets of response types.
pub fn copy_optional_sets(value: &Option<Vec<ResponseTypes>>) -> (copy: Option<Vec<ResponseTypes>>)
    ensures
        copy.deep_view() == value.deep_view(),
{
    match value {
        Some(sets) => Some(copy_sets(sets)),
        None => None,
    }
}

/// An instant, as whole seconds since the start of 1970 in UTC.
#[derive(Debug, Clone, Copy, PartialEq, Eq)]
pub struct Timestamp {
    seconds: u64,
}

impl View for Timestamp {
    type V = u64;

    closed spec fn view(&self) -> u64 {
        self.seconds
    }
}

impl DeepView for Timestamp {
    type V = u64;

    open spec fn deep_view(&self) -> u64 {
        self@
    }
}

impl Timestamp {
    /// The instant `seconds` after the start of 1970, unless that is out of
    /// range.
    pub fn from_unix_seconds(seconds: u64) -> (r: Result<Timestamp, ()>)
        ensures
            r is Ok <==> seconds <= LAST_INSTANT,
            r matches Ok(instant) ==> instant@ == seconds,
    {
        if seconds > 0x7fff_ffff_ffff_ffff {
            return Err(());
        }
        if utc_instant_exists(seconds as i64) {
            Ok(Timestamp { seconds })
        } else {
            Err(())
        }
    }

    /// The instant as seconds since the start of 1970.
    pub fn unix_seconds(&self) -> (seconds: u64)
        ensures
            seconds == self@,
    {
        self.seconds
    }
}

} // verus!
