//! Readers that take typed members out of a JSON object. A member is looked
//! up by its name; a name that occurs twice, or carries a language tag where
//! none belongs, is an error, and `null` counts as absent.

use crate::json::{Json, JsonError, JsonFault, JsonValue};
use crate::language::{
    has_tag, holds_urls, split_key, split_language_tag_key, Localized, LocalizedClaim,
    LocalizedUrls,
};
use crate::text::str_eq;
use crate::types::{
    is_issuer_text, parse_response_types, url_parses, EndpointUrl, IssuerUrl, LanguageTag,
    ResponseTypes,
};
use vstd::prelude::*;
use vstd::string::StringExecFns;

verus! {

/// A member of an object: its name, its language tag and its value.
pub struct Entry {
    pub name: Seq<char>,
    pub tag: Option<Seq<char>>,
    pub value: Json,
}

/// A member of an object that is being read.
pub struct Member<'a> {
    pub name: String,
    pub tag: Option<LanguageTag>,
    pub value: &'a JsonValue,
}

impl<'a> DeepView for Member<'a> {
    type V = Entry;

    open spec fn deep_view(&self) -> Entry {
        Entry { name: self.name@, tag: self.tag.deep_view(), value: self.value@ }
    }
}

/// The members of an object whose keys are names as they stand.
pub open spec fn plain_entries(members: Seq<(Seq<char>, Json)>) -> Seq<Entry> {
    Seq::new(
        members.len(),
        |i: int| Entry { name: members[i].0, tag: None, value: members[i].1 },
    )
}

/// The members of an object whose keys may carry a language tag.
pub open spec fn tagged_entries(members: Seq<(Seq<char>, Json)>) -> Seq<Entry> {
    Seq::new(
        members.len(),
        |i: int|
            Entry {
                name: split_key(members[i].0).0,
                tag: split_key(members[i].0).1,
                value: members[i].1,
            },
    )
}

/// Whether what was computed is what was to be computed: the same value, or
/// the same fault.
pub open spec fn agrees<T: DeepView>(r: Result<T, JsonError>, s: Result<T::V, JsonFault>) -> bool {
    match (r, s) {
        (Ok(x), Ok(y)) => x.deep_view() == y,
        (Err(e), Err(f)) => e@ == f,
        _ => false,
    }
}

/// The members of a document that must be an object.
pub open spec fn members_of(doc: Json) -> Result<Seq<(Seq<char>, Json)>, JsonFault> {
    match doc {
        Json::Object(members) => Ok(members),
        _ => Err(JsonFault::NotAnObject),
    }
}

/// Lists the members of an object, each key taken as a name.
pub fn plain_members<'a>(doc: &'a JsonValue) -> (r: Result<Vec<Member<'a>>, JsonError>)
    ensures
        match members_of(doc@) {
            Ok(members) => r matches Ok(entries) && entries.deep_view() == plain_entries(members),
            Err(fault) => r matches Err(e) && e@ == fault,
        },
{
    match doc {
        JsonValue::Object(members) => {
            let n = members.len();
            let mut entries: Vec<Member<'a>> = Vec::new();
            let mut i: usize = 0;
            let ghost all = doc@->Object_0;
            proof {
                crate::json::lemma_object_view(*doc);
            }
            while i < n
                invariant
                    n == members.len(),
                    i <= n,
                    all.len() == n,
                    all == members.deep_view(),
                    entries.deep_view() == plain_entries(all).take(i as int),
                decreases n - i,
            {
                let ghost before = entries.deep_view();
                entries.push(
                    Member { name: members[i].0.clone(), tag: None, value: &members[i].1 },
                );
                proof {
                    assert(entries.deep_view() =~= before.push(plain_entries(all)[i as int]));
                }
                i += 1;
            }
            Ok(entries)
        },
        _ => Err(JsonError::NotAnObject),
    }
}

/// Lists the members of an object, each key split into name and language tag.
pub fn tagged_members<'a>(doc: &'a JsonValue) -> (r: Result<Vec<Member<'a>>, JsonError>)
    ensures
        match members_of(doc@) {
            Ok(members) => r matches Ok(entries) && entries.deep_view() == tagged_entries(members),
            Err(fault) => r matches Err(e) && e@ == fault,
        },
{
    match doc {
        JsonValue::Object(members) => {
            let n = members.len();
            let mut entries: Vec<Member<'a>> = Vec::new();
            let mut i: usize = 0;
            let ghost all = doc@->Object_0;
            proof {
                crate::json::lemma_object_view(*doc);
            }
            while i < n
                invariant
                    n == members.len(),
                    i <= n,
                    all.len() == n,
                    all == members.deep_view(),
                    entries.deep_view() == tagged_entries(all).take(i as int),
                decreases n - i,
            {
                let ghost before = entries.deep_view();
                let (name, tag) = split_language_tag_key(members[i].0.as_str());
                entries.push(Member { name, tag, value: &members[i].1 });
                proof {
                    assert(entries.deep_view() =~= before.push(tagged_entries(all)[i as int]));
                }
                i += 1;
            }
            Ok(entries)
        },
        _ => Err(JsonError::NotAnObject),
    }
}

/// The members called `name`, in order.
pub open spec fn named(entries: Seq<Entry>, name: Seq<char>) -> Seq<Entry>
    decreases entries.len(),
{
    if entries.len() == 0 {
        Seq::empty()
    } else if entries.last().name == name {
        named(entries.drop_last(), name).push(entries.last())
    } else {
        named(entries.drop_last(), name)
    }
}

/// The value of the one member called `name`. No such member, or one that
/// holds `null`, is `None`.
pub open spec fn single(entries: Seq<Entry>, name: Seq<char>) -> Result<Option<Json>, JsonFault> {
    let hits = named(entries, name);
    if hits.len() == 0 {
        Ok(None)
    } else if hits.len() > 1 {
        Err(JsonFault::DuplicateField(name))
    } else if hits[0].tag is Some {
        Err(JsonFault::UnexpectedLanguageTag(name))
    } else if hits[0].value is Null {
        Ok(None)
    } else {
        Ok(Some(hits[0].value))
    }
}

/// Looks up the one member called `name`.
pub fn find<'a>(entries: &Vec<Member<'a>>, name: &str) -> (r: Result<
    Option<&'a JsonValue>,
    JsonError,
>)
    ensures
        agrees(r, single(entries.deep_view(), name@)),
{
    let n = entries.len();
    let ghost all = entries.deep_view();
    let mut first: Option<usize> = None;
    let mut i: usize = 0;
    while i < n
        invariant
            n == entries.len(),
            i <= n,
            all == entries.deep_view(),
            named(all.take(i as int), name@).len() <= 1,
            first is None <==> named(all.take(i as int), name@).len() == 0,
            first matches Some(at) ==> at < i && named(all.take(i as int), name@)[0] == all[at as int],
        decreases n - i,
    {
        proof {
            assert(all.take(i + 1).drop_last() =~= all.take(i as int));
        }
        if str_eq(entries[i].name.as_str(), name) {
            if first.is_some() {
                proof {
                    lemma_named_grows(all, name@, i + 1, n as int);
                    assert(all.take(n as int) =~= all);
                }
                return Err(JsonError::DuplicateField(String::from_str(name)));
            }
            first = Some(i);
        }
        i += 1;
    }
    assert(all.take(n as int) =~= all);
    match first {
        None => Ok(None),
        Some(at) => {
            if entries[at].tag.is_some() {
                Err(JsonError::UnexpectedLanguageTag(String::from_str(name)))
            } else {
                match entries[at].value {
                    JsonValue::Null => Ok(None),
                    _ => Ok(Some(entries[at].value)),
                }
            }
        },
    }
}

/// A longer prefix holds at least as many members of a name.
pub proof fn lemma_named_grows(entries: Seq<Entry>, name: Seq<char>, from: int, to: int)
    requires
        0 <= from <= to <= entries.len(),
    ensures
        named(entries.take(from), name).len() <= named(entries.take(to), name).len(),
    decreases to - from,
{
    if from < to {
        lemma_named_grows(entries, name, from, to - 1);
        assert(entries.take(to).drop_last() =~= entries.take(to - 1));
    }
}

/// The text that a value holds.
pub open spec fn as_text(value: Json) -> Option<Seq<char>> {
    match value {
        Json::Text(text) => Some(text),
        _ => None,
    }
}

/// The truth value that a value holds.
pub open spec fn as_flag(value: Json) -> Option<bool> {
    match value {
        Json::Bool(flag) => Some(flag),
        _ => None,
    }
}

/// The number that a value holds, where it is a whole number of 64 bits
/// that is not negative.
pub open spec fn as_unsigned(value: Json) -> Option<u64> {
    match value {
        Json::Unsigned(n) => Some(n),
        _ => None,
    }
}

/// The URL that a value holds: a text that the URL parser accepts.
pub open spec fn as_url(value: Json) -> Option<Seq<char>> {
    match value {
        Json::Text(text) => if url_parses(text) {
            Some(text)
        } else {
            None
        },
        _ => None,
    }
}

/// The items that an array holds, each read by `read`; none where the value
/// is no array or `read` refuses an item.
pub open spec fn as_list<T>(value: Json, read: spec_fn(Json) -> Option<T>) -> Option<Seq<T>> {
    match value {
        Json::Array(items) => if forall|i: int| 0 <= i < items.len() ==> read(#[trigger] items[i]) is Some {
            Some(Seq::new(items.len(), |i: int| read(items[i])->0))
        } else {
            None
        },
        _ => None,
    }
}

/// The issuer URL that a value holds.
pub open spec fn as_issuer(value: Json) -> Option<Seq<char>> {
    match value {
        Json::Text(text) => if is_issuer_text(text) {
            Some(text)
        } else {
            None
        },
        _ => None,
    }
}

/// The set of response types that a value holds as one text.
pub open spec fn as_response_types(value: Json) -> Option<Seq<Seq<char>>> {
    match value {
        Json::Text(text) => parse_response_types(text),
        _ => None,
    }
}

/// The sets of response types that an array holds.
pub open spec fn as_response_type_sets(value: Json) -> Option<Seq<Seq<Seq<char>>>> {
    as_list(value, |item: Json| as_response_types(item))
}

/// A list that must hold something.
pub open spec fn nonempty<T>(list: Result<Seq<T>, JsonFault>, name: Seq<char>) -> Result<
    Seq<T>,
    JsonFault,
> {
    match list {
        Ok(items) => if items.len() > 0 {
            Ok(items)
        } else {
            Err(JsonFault::InvalidValue(name))
        },
        Err(fault) => Err(fault),
    }
}

/// The texts that an array holds.
pub open spec fn as_texts(value: Json) -> Option<Seq<Seq<char>>> {
    as_list(value, |item: Json| as_text(item))
}

/// The URLs that an array holds.
pub open spec fn as_urls(value: Json) -> Option<Seq<Seq<char>>> {
    as_list(value, |item: Json| as_url(item))
}

/// A member that may be absent, read by `read`.
pub open spec fn optional<T>(
    entries: Seq<Entry>,
    name: Seq<char>,
    read: spec_fn(Json) -> Option<T>,
) -> Result<Option<T>, JsonFault> {
    match single(entries, name) {
        Err(fault) => Err(fault),
        Ok(None) => Ok(None),
        Ok(Some(value)) => match read(value) {
            Some(item) => Ok(Some(item)),
            None => Err(JsonFault::InvalidValue(name)),
        },
    }
}

/// A member that must be there, read by `read`.
pub open spec fn required<T>(
    entries: Seq<Entry>,
    name: Seq<char>,
    read: spec_fn(Json) -> Option<T>,
) -> Result<T, JsonFault> {
    match optional(entries, name, read) {
        Err(fault) => Err(fault),
        Ok(None) => Err(JsonFault::MissingField(name)),
        Ok(Some(item)) => Ok(item),
    }
}

/// A text that may be absent.
pub open spec fn optional_text(entries: Seq<Entry>, name: Seq<char>) -> Result<
    Option<Seq<char>>,
    JsonFault,
> {
    optional(entries, name, |value: Json| as_text(value))
}

/// A text that must be there.
pub open spec fn required_text(entries: Seq<Entry>, name: Seq<char>) -> Result<
    Seq<char>,
    JsonFault,
> {
    required(entries, name, |value: Json| as_text(value))
}

/// A list of texts that may be absent.
pub open spec fn optional_texts(entries: Seq<Entry>, name: Seq<char>) -> Result<
    Option<Seq<Seq<char>>>,
    JsonFault,
> {
    optional(entries, name, |value: Json| as_texts(value))
}

/// A list of texts that must be there.
pub open spec fn required_texts(entries: Seq<Entry>, name: Seq<char>) -> Result<
    Seq<Seq<char>>,
    JsonFault,
> {
    required(entries, name, |value: Json| as_texts(value))
}

/// A truth value that may be absent.
pub open spec fn optional_flag(entries: Seq<Entry>, name: Seq<char>) -> Result<
    Option<bool>,
    JsonFault,
> {
    optional(entries, name, |value: Json| as_flag(value))
}

/// A number that may be absent.
pub open spec fn optional_unsigned(entries: Seq<Entry>, name: Seq<char>) -> Result<
    Option<u64>,
    JsonFault,
> {
    optional(entries, name, |value: Json| as_unsigned(value))
}

/// A URL that may be absent.
pub open spec fn optional_url(entries: Seq<Entry>, name: Seq<char>) -> Result<
    Option<Seq<char>>,
    JsonFault,
> {
    optional(entries, name, |value: Json| as_url(value))
}

/// A URL that must be there.
pub open spec fn required_url(entries: Seq<Entry>, name: Seq<char>) -> Result<
    Seq<char>,
    JsonFault,
> {
    required(entries, name, |value: Json| as_url(value))
}

/// A list of URLs that may be absent.
pub open spec fn optional_urls(entries: Seq<Entry>, name: Seq<char>) -> Result<
    Option<Seq<Seq<char>>>,
    JsonFault,
> {
    optional(entries, name, |value: Json| as_urls(value))
}

/// A list of URLs that must be there.
pub open spec fn required_urls(entries: Seq<Entry>, name: Seq<char>) -> Result<
    Seq<Seq<char>>,
    JsonFault,
> {
    required(entries, name, |value: Json| as_urls(value))
}

/// An issuer URL that must be there.
pub open spec fn required_issuer(entries: Seq<Entry>, name: Seq<char>) -> Result<
    Seq<char>,
    JsonFault,
> {
    required(entries, name, |value: Json| as_issuer(value))
}

/// A list of sets of response types that may be absent.
pub open spec fn optional_response_type_sets(entries: Seq<Entry>, name: Seq<char>) -> Result<
    Option<Seq<Seq<Seq<char>>>>,
    JsonFault,
> {
    optional(entries, name, |value: Json| as_response_type_sets(value))
}

/// A list of sets of response types that must be there.
pub open spec fn required_response_type_sets(entries: Seq<Entry>, name: Seq<char>) -> Result<
    Seq<Seq<Seq<char>>>,
    JsonFault,
> {
    required(entries, name, |value: Json| as_response_type_sets(value))
}

/// A number that must be there.
pub open spec fn required_unsigned(entries: Seq<Entry>, name: Seq<char>) -> Result<
    u64,
    JsonFault,
> {
    required(entries, name, |value: Json| as_unsigned(value))
}

/// The texts that a value holds where it may be one text or an array of
/// texts.
pub open spec fn as_one_or_more(value: Json) -> Option<Seq<Seq<char>>> {
    match value {
        Json::Text(text) => Some(seq![text]),
        _ => as_texts(value),
    }
}

/// One text or several that may be absent.
pub open spec fn optional_one_or_more(entries: Seq<Entry>, name: Seq<char>) -> Result<
    Option<Seq<Seq<char>>>,
    JsonFault,
> {
    optional(entries, name, |value: Json| as_one_or_more(value))
}

/// One text or several that must be there.
pub open spec fn required_one_or_more(entries: Seq<Entry>, name: Seq<char>) -> Result<
    Seq<Seq<char>>,
    JsonFault,
> {
    required(entries, name, |value: Json| as_one_or_more(value))
}

/// The text in a value.
pub fn text_of(value: &JsonValue) -> (r: Option<String>)
    ensures
        r.deep_view() == as_text(value@),
{
    match value {
        JsonValue::Text(text) => Some(text.clone()),
        _ => None,
    }
}

/// The truth value in a value.
pub fn flag_of(value: &JsonValue) -> (r: Option<bool>)
    ensures
        r == as_flag(value@),
{
    match value {
        JsonValue::Bool(flag) => Some(*flag),
        _ => None,
    }
}

/// The number in a value.
pub fn unsigned_of(value: &JsonValue) -> (r: Option<u64>)
    ensures
        r == as_unsigned(value@),
{
    match value {
        JsonValue::Unsigned(n) => Some(*n),
        _ => None,
    }
}

/// The URL in a value.
pub fn url_of(value: &JsonValue) -> (r: Option<EndpointUrl>)
    ensures
        r.deep_view() == as_url(value@),
{
    match value {
        JsonValue::Text(text) => match EndpointUrl::new(text.clone()) {
            Ok(url) => Some(url),
            Err(_) => None,
        },
        _ => None,
    }
}

/// The texts in an array.
pub fn texts_of(value: &JsonValue) -> (r: Option<Vec<String>>)
    ensures
        r.deep_view() == as_texts(value@),
{
    match value {
        JsonValue::Array(items) => {
            proof {
                crate::json::lemma_array_view(*value);
            }
            let ghost all = items.deep_view();
            let n = items.len();
            let mut texts: Vec<String> = Vec::new();
            let mut i: usize = 0;
            while i < n
                invariant
                    n == items.len(),
                    i <= n,
                    all == items.deep_view(),
                    value@ == Json::Array(all),
                    texts.len() == i,
                    forall|j: int| 0 <= j < i ==> as_text(#[trigger] all[j]) == Some(texts[j]@),
                decreases n - i,
            {
                assert(all[i as int] == items[i as int]@);
                match text_of(&items[i]) {
                    Some(text) => {
                        texts.push(text);
                    },
                    None => {
                        return None;
                    },
                }
                i += 1;
            }
            Some(texts)
        },
        _ => None,
    }
}

/// The URLs in an array.
pub fn urls_of(value: &JsonValue) -> (r: Option<Vec<EndpointUrl>>)
    ensures
        r.deep_view() == as_urls(value@),
{
    match value {
        JsonValue::Array(items) => {
            proof {
                crate::json::lemma_array_view(*value);
            }
            let ghost all = items.deep_view();
            let n = items.len();
            let mut urls: Vec<EndpointUrl> = Vec::new();
            let mut i: usize = 0;
            while i < n
                invariant
                    n == items.len(),
                    i <= n,
                    all == items.deep_view(),
                    value@ == Json::Array(all),
                    urls.len() == i,
                    forall|j: int| 0 <= j < i ==> as_url(#[trigger] all[j]) == Some(urls[j]@),
                decreases n - i,
            {
                assert(all[i as int] == items[i as int]@);
                match url_of(&items[i]) {
                    Some(url) => {
                        urls.push(url);
                    },
                    None => {
                        return None;
                    },
                }
                i += 1;
            }
            Some(urls)
        },
        _ => None,
    }
}

/// Reads a text that may be absent.
pub fn read_text(entries: &Vec<Member>, name: &str) -> (r: Result<Option<String>, JsonError>)
    ensures
        agrees(r, optional_text(entries.deep_view(), name@)),
{
    match find(entries, name) {
        Err(error) => Err(error),
        Ok(None) => Ok(None),
        Ok(Some(value)) => match text_of(value) {
            Some(text) => Ok(Some(text)),
            None => Err(JsonError::InvalidValue(String::from_str(name))),
        },
    }
}

/// Reads a text that must be there.
pub fn require_text(entries: &Vec<Member>, name: &str) -> (r: Result<String, JsonError>)
    ensures
        agrees(r, required_text(entries.deep_view(), name@)),
{
    match read_text(entries, name) {
        Err(error) => Err(error),
        Ok(None) => Err(JsonError::MissingField(String::from_str(name))),
        Ok(Some(text)) => Ok(text),
    }
}

/// Reads a list of texts that may be absent.
pub fn read_texts(entries: &Vec<Member>, name: &str) -> (r: Result<Option<Vec<String>>, JsonError>)
    ensures
        agrees(r, optional_texts(entries.deep_view(), name@)),
{
    match find(entries, name) {
        Err(error) => Err(error),
        Ok(None) => Ok(None),
        Ok(Some(value)) => match texts_of(value) {
            Some(texts) => Ok(Some(texts)),
            None => Err(JsonError::InvalidValue(String::from_str(name))),
        },
    }
}

/// Reads a list of texts that must be there.
pub fn require_texts(entries: &Vec<Member>, name: &str) -> (r: Result<Vec<String>, JsonError>)
    ensures
        agrees(r, required_texts(entries.deep_view(), name@)),
{
    match read_texts(entries, name) {
        Err(error) => Err(error),
        Ok(None) => Err(JsonError::MissingField(String::from_str(name))),
        Ok(Some(texts)) => Ok(texts),
    }
}

/// Reads a truth value that may be absent.
pub fn read_flag(entries: &Vec<Member>, name: &str) -> (r: Result<Option<bool>, JsonError>)
    ensures
        agrees(r, optional_flag(entries.deep_view(), name@)),
{
    match find(entries, name) {
        Err(error) => Err(error),
        Ok(None) => Ok(None),
        Ok(Some(value)) => match flag_of(value) {
            Some(flag) => Ok(Some(flag)),
            None => Err(JsonError::InvalidValue(String::from_str(name))),
        },
    }
}

/// Reads a number that may be absent.
pub fn read_unsigned(entries: &Vec<Member>, name: &str) -> (r: Result<Option<u64>, JsonError>)
    ensures
        agrees(r, optional_unsigned(entries.deep_view(), name@)),
{
    match find(entries, name) {
        Err(error) => Err(error),
        Ok(None) => Ok(None),
        Ok(Some(value)) => match unsigned_of(value) {
            Some(n) => Ok(Some(n)),
            None => Err(JsonError::InvalidValue(String::from_str(name))),
        },
    }
}

/// Reads a URL that may be absent.
pub fn read_url(entries: &Vec<Member>, name: &str) -> (r: Result<Option<EndpointUrl>, JsonError>)
    ensures
        agrees(r, optional_url(entries.deep_view(), name@)),
{
    match find(entries, name) {
        Err(error) => Err(error),
        Ok(None) => Ok(None),
        Ok(Some(value)) => match url_of(value) {
            Some(url) => Ok(Some(url)),
            None => Err(JsonError::InvalidValue(String::from_str(name))),
        },
    }
}

/// Reads a URL that must be there.
pub fn require_url(entries: &Vec<Member>, name: &str) -> (r: Result<EndpointUrl, JsonError>)
    ensures
        agrees(r, required_url(entries.deep_view(), name@)),
{
    match read_url(entries, name) {
        Err(error) => Err(error),
        Ok(None) => Err(JsonError::MissingField(String::from_str(name))),
        Ok(Some(url)) => Ok(url),
    }
}

/// Reads a list of URLs that may be absent.
pub fn read_urls(entries: &Vec<Member>, name: &str) -> (r: Result<
    Option<Vec<EndpointUrl>>,
    JsonError,
>)
    ensures
        agrees(r, optional_urls(entries.deep_view(), name@)),
{
    match find(entries, name) {
        Err(error) => Err(error),
        Ok(None) => Ok(None),
        Ok(Some(value)) => match urls_of(value) {
            Some(urls) => Ok(Some(urls)),
            None => Err(JsonError::InvalidValue(String::from_str(name))),
        },
    }
}

/// Reads a list of URLs that must be there.
pub fn require_urls(entries: &Vec<Member>, name: &str) -> (r: Result<Vec<EndpointUrl>, JsonError>)
    ensures
        agrees(r, required_urls(entries.deep_view(), name@)),
{
    match read_urls(entries, name) {
        Err(error) => Err(error),
        Ok(None) => Err(JsonError::MissingField(String::from_str(name))),
        Ok(Some(urls)) => Ok(urls),
    }
}

/// The values of a claim by language, taken from the members that carry its
/// name: each value read as a text, or as a URL where `urls` is set. A tag
/// that comes twice is an error.
pub open spec fn gather(hits: Seq<Entry>, name: Seq<char>, urls: bool) -> Result<
    Localized,
    JsonFault,
>
    decreases hits.len(),
{
    if hits.len() == 0 {
        Ok(Seq::empty())
    } else {
        match gather(hits.drop_last(), name, urls) {
            Err(fault) => Err(fault),
            Ok(claim) => {
                let entry = hits.last();
                let read = if urls {
                    as_url(entry.value)
                } else {
                    as_text(entry.value)
                };
                if has_tag(claim, entry.tag) {
                    Err(JsonFault::DuplicateField(name))
                } else {
                    match read {
                        Some(text) => Ok(claim.push((entry.tag, text))),
                        None => Err(JsonFault::InvalidValue(name)),
                    }
                }
            },
        }
    }
}

/// A claim that comes once per language and may be absent altogether.
pub open spec fn localized(entries: Seq<Entry>, name: Seq<char>, urls: bool) -> Result<
    Option<Localized>,
    JsonFault,
> {
    let hits = named(entries, name);
    if hits.len() == 0 {
        Ok(None)
    } else {
        match gather(hits, name, urls) {
            Ok(claim) => Ok(Some(claim)),
            Err(fault) => Err(fault),
        }
    }
}

/// Once the members read so far are in error, reading further members does
/// not mend it.
pub proof fn lemma_gather_fault_stays(
    entries: Seq<Entry>,
    name: Seq<char>,
    urls: bool,
    from: int,
    to: int,
)
    requires
        0 <= from <= to <= entries.len(),
        gather(named(entries.take(from), name), name, urls) is Err,
    ensures
        gather(named(entries.take(to), name), name, urls) == gather(
            named(entries.take(from), name),
            name,
            urls,
        ),
        named(entries.take(to), name).len() > 0,
    decreases to - from,
{
    if from < to {
        lemma_gather_fault_stays(entries, name, urls, from, to - 1);
        assert(entries.take(to).drop_last() =~= entries.take(to - 1));
        let hits = named(entries.take(to), name);
        let before = named(entries.take(to - 1), name);
        if entries.take(to).last().name == name {
            assert(hits.drop_last() =~= before);
        }
    }
}

/// Reads a claim that comes once per language.
pub fn read_localized(entries: &Vec<Member>, name: &str, urls: bool) -> (r: Result<
    Option<LocalizedClaim>,
    JsonError,
>)
    ensures
        agrees(r, localized(entries.deep_view(), name@, urls)),
{
    let n = entries.len();
    let ghost all = entries.deep_view();
    let mut claim: Option<LocalizedClaim> = None;
    let mut i: usize = 0;
    while i < n
        invariant
            n == entries.len(),
            i <= n,
            all == entries.deep_view(),
            claim is None <==> named(all.take(i as int), name@).len() == 0,
            claim matches Some(c) ==> gather(named(all.take(i as int), name@), name@, urls) == Ok::<
                Localized,
                JsonFault,
            >(c@),
        decreases n - i,
    {
        proof {
            assert(all.take(i + 1).drop_last() =~= all.take(i as int));
        }
        if str_eq(entries[i].name.as_str(), name) {
            let ghost hits = named(all.take(i + 1), name@);
            proof {
                assert(hits.drop_last() =~= named(all.take(i as int), name@));
                assert(all.take(n as int) =~= all);
            }
            let tag = entries[i].tag.clone();
            let taken = match &claim {
                Some(c) => match &tag {
                    Some(t) => c.contains(Some(t.as_str())),
                    None => c.contains(None),
                },
                None => false,
            };
            if taken {
                proof {
                    lemma_gather_fault_stays(all, name@, urls, i + 1, n as int);
                }
                return Err(JsonError::DuplicateField(String::from_str(name)));
            }
            let text = if urls {
                match url_of(entries[i].value) {
                    Some(url) => Some(String::from_str(url.as_str())),
                    None => None,
                }
            } else {
                text_of(entries[i].value)
            };
            match text {
                None => {
                    proof {
                        lemma_gather_fault_stays(all, name@, urls, i + 1, n as int);
                    }
                    return Err(JsonError::InvalidValue(String::from_str(name)));
                },
                Some(text) => {
                    claim = match claim {
                        None => Some(LocalizedClaim::new(tag, text)),
                        Some(c) => {
                            let mut c = c;
                            c.insert(tag, text);
                            Some(c)
                        },
                    };
                },
            }
        }
        i += 1;
    }
    assert(all.take(n as int) =~= all);
    Ok(claim)
}

/// The values that are gathered as URLs are URLs that the URL parser
/// accepts.
pub proof fn lemma_gathered_urls(hits: Seq<Entry>, name: Seq<char>)
    ensures
        gather(hits, name, true) matches Ok(claim) ==> holds_urls(claim),
    decreases hits.len(),
{
    if hits.len() > 0 {
        lemma_gathered_urls(hits.drop_last(), name);
    }
}

/// Reads a claim of URLs that comes once per language.
pub fn read_localized_urls(entries: &Vec<Member>, name: &str) -> (r: Result<
    Option<LocalizedUrls>,
    JsonError,
>)
    ensures
        agrees(r, localized(entries.deep_view(), name@, true)),
{
    match read_localized(entries, name, true) {
        Err(error) => Err(error),
        Ok(None) => Ok(None),
        Ok(Some(claim)) => {
            proof {
                lemma_gathered_urls(named(entries.deep_view(), name@), name@);
            }
            Ok(Some(LocalizedUrls::from_claim(claim)))
        },
    }
}

/// The issuer URL in a value.
pub fn issuer_of(value: &JsonValue) -> (r: Option<IssuerUrl>)
    ensures
        r.deep_view() == as_issuer(value@),
{
    match value {
        JsonValue::Text(text) => match IssuerUrl::new(text.clone()) {
            Ok(issuer) => Some(issuer),
            Err(_) => None,
        },
        _ => None,
    }
}

/// Reads an issuer URL that must be there.
pub fn require_issuer(entries: &Vec<Member>, name: &str) -> (r: Result<IssuerUrl, JsonError>)
    ensures
        agrees(r, required_issuer(entries.deep_view(), name@)),
{
    match find(entries, name) {
        Err(error) => Err(error),
        Ok(None) => Err(JsonError::MissingField(String::from_str(name))),
        Ok(Some(value)) => match issuer_of(value) {
            Some(issuer) => Ok(issuer),
            None => Err(JsonError::InvalidValue(String::from_str(name))),
        },
    }
}

/// The set of response types in a value.
pub fn response_types_of(value: &JsonValue) -> (r: Option<ResponseTypes>)
    ensures
        r.deep_view() == as_response_types(value@),
{
    match value {
        JsonValue::Text(text) => ResponseTypes::parse(text.as_str()),
        _ => None,
    }
}

/// The sets of response types in an array.
pub fn response_type_sets_of(value: &JsonValue) -> (r: Option<Vec<ResponseTypes>>)
    ensures
        r.deep_view() == as_response_type_sets(value@),
{
    match value {
        JsonValue::Array(items) => {
            proof {
                crate::json::lemma_array_view(*value);
            }
            let ghost all = items.deep_view();
            let n = items.len();
            let mut sets: Vec<ResponseTypes> = Vec::new();
            let mut i: usize = 0;
            while i < n
                invariant
                    n == items.len(),
                    i <= n,
                    all == items.deep_view(),
                    value@ == Json::Array(all),
                    sets.len() == i,
                    forall|j: int|
                        0 <= j < i ==> as_response_types(#[trigger] all[j]) == Some(sets[j]@),
                decreases n - i,
            {
                assert(all[i as int] == items[i as int]@);
                match response_types_of(&items[i]) {
                    Some(set) => {
                        sets.push(set);
                    },
                    None => {
                        return None;
                    },
                }
                i += 1;
            }
            Some(sets)
        },
        _ => None,
    }
}

/// Reads a list of sets of response types that may be absent.
pub fn read_response_type_sets(entries: &Vec<Member>, name: &str) -> (r: Result<
    Option<Vec<ResponseTypes>>,
    JsonError,
>)
    ensures
        agrees(r, optional_response_type_sets(entries.deep_view(), name@)),
{
    match find(entries, name) {
        Err(error) => Err(error),
        Ok(None) => Ok(None),
        Ok(Some(value)) => match response_type_sets_of(value) {
            Some(sets) => Ok(Some(sets)),
            None => Err(JsonError::InvalidValue(String::from_str(name))),
        },
    }
}

/// Reads a list of sets of response types that must be there and hold
/// something.
pub fn require_response_type_sets(entries: &Vec<Member>, name: &str) -> (r: Result<
    Vec<ResponseTypes>,
    JsonError,
>)
    ensures
        agrees(r, nonempty(required_response_type_sets(entries.deep_view(), name@), name@)),
{
    match read_response_type_sets(entries, name) {
        Err(error) => Err(error),
        Ok(None) => Err(JsonError::MissingField(String::from_str(name))),
        Ok(Some(sets)) => if sets.len() > 0 {
            Ok(sets)
        } else {
            Err(JsonError::InvalidValue(String::from_str(name)))
        },
    }
}

/// Reads a list of texts that must be there and hold something.
pub fn require_some_texts(entries: &Vec<Member>, name: &str) -> (r: Result<Vec<String>, JsonError>)
    ensures
        agrees(r, nonempty(required_texts(entries.deep_view(), name@), name@)),
{
    match require_texts(entries, name) {
        Err(error) => Err(error),
        Ok(texts) => if texts.len() > 0 {
            Ok(texts)
        } else {
            Err(JsonError::InvalidValue(String::from_str(name)))
        },
    }
}

/// Reads a list of URLs that must be there and hold something.
pub fn require_some_urls(entries: &Vec<Member>, name: &str) -> (r: Result<
    Vec<EndpointUrl>,
    JsonError,
>)
    ensures
        agrees(r, nonempty(required_urls(entries.deep_view(), name@), name@)),
{
    match require_urls(entries, name) {
        Err(error) => Err(error),
        Ok(urls) => if urls.len() > 0 {
            Ok(urls)
        } else {
            Err(JsonError::InvalidValue(String::from_str(name)))
        },
    }
}

/// Reads a number that must be there.
pub fn require_unsigned(entries: &Vec<Member>, name: &str) -> (r: Result<u64, JsonError>)
    ensures
        agrees(r, required_unsigned(entries.deep_view(), name@)),
{
    match read_unsigned(entries, name) {
        Err(error) => Err(error),
        Ok(None) => Err(JsonError::MissingField(String::from_str(name))),
        Ok(Some(n)) => Ok(n),
    }
}

/// The texts in a value that may be one text or an array of texts.
pub fn one_or_more_of(value: &JsonValue) -> (r: Option<Vec<String>>)
    ensures
        r.deep_view() == as_one_or_more(value@),
{
    match value {
        JsonValue::Text(text) => {
            let mut texts: Vec<String> = Vec::new();
            texts.push(text.clone());
            Some(texts)
        },
        _ => texts_of(value),
    }
}

/// Reads one text or several that may be absent.
pub fn read_one_or_more(entries: &Vec<Member>, name: &str) -> (r: Result<
    Option<Vec<String>>,
    JsonError,
>)
    ensures
        agrees(r, optional_one_or_more(entries.deep_view(), name@)),
{
    match find(entries, name) {
        Err(error) => Err(error),
        Ok(None) => Ok(None),
        Ok(Some(value)) => match one_or_more_of(value) {
            Some(texts) => Ok(Some(texts)),
            None => Err(JsonError::InvalidValue(String::from_str(name))),
        },
    }
}

/// Reads one text or several that must be there.
pub fn require_one_or_more(entries: &Vec<Member>, name: &str) -> (r: Result<
    Vec<String>,
    JsonError,
>)
    ensures
        agrees(r, required_one_or_more(entries.deep_view(), name@)),
{
    match read_one_or_more(entries, name) {
        Err(error) => Err(error),
        Ok(None) => Err(JsonError::MissingField(String::from_str(name))),
        Ok(Some(texts)) => Ok(texts),
    }
}

} // verus!
