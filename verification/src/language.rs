//! Human-readable claims that come once per language: `name` itself and
//! `name#tag` for each language tag.

use crate::text::{find_char, index_of, lemma_index_of_unique};
use crate::types::{url_parses, EndpointUrl, LanguageTag};
use vstd::prelude::*;
use vstd::string::StrSliceExecFns;
use vstd::string::StringExecFns;

verus! {

/// The name and the language tag in a member's key: what stands before the
/// first `#`, and what stands behind it unless that is empty.
pub open spec fn split_key(key: Seq<char>) -> (Seq<char>, Option<Seq<char>>) {
    let at = index_of(key, '#');
    if 0 <= at < key.len() {
        let tag = key.skip(at + 1);
        (
            key.take(at),
            if tag.len() > 0 {
                Some(tag)
            } else {
                None
            },
        )
    } else {
        (key, None)
    }
}

/// The key under which a claim is written for a language.
pub open spec fn tagged_key(name: Seq<char>, tag: Option<Seq<char>>) -> Seq<char> {
    match tag {
        Some(tag) => name + seq!['#'] + tag,
        None => name,
    }
}

/// Splitting a key gives back the name and the tag it was made of, for a
/// name without `#` and a tag that is not empty.
pub proof fn lemma_split_tagged_key(name: Seq<char>, tag: Option<Seq<char>>)
    requires
        !name.contains('#'),
        tag matches Some(t) ==> t.len() > 0,
    ensures
        split_key(tagged_key(name, tag)) == (name, tag),
{
    let key = tagged_key(name, tag);
    assert forall|j: int| 0 <= j < name.len() implies name[j] != '#' by {
        if name[j] == '#' {
        }
    }
    match tag {
        Some(t) => {
            lemma_index_of_unique(key, '#', name.len() as int);
        },
        None => {
            lemma_index_of_unique(key, '#', name.len() as int);
        },
    }
}

/// Tells the name and the language tag of a member's key apart.
pub fn split_language_tag_key(key: &str) -> (parts: (String, Option<LanguageTag>))
    ensures
        parts.0@ == split_key(key@).0,
        parts.1.deep_view() == split_key(key@).1,
{
    let n = key.unicode_len();
    let at = find_char(key, '#');
    if at < n {
        let name = String::from_str(key.substring_char(0, at));
        let tag = LanguageTag::new(String::from_str(key.substring_char(at + 1, n)));
        (name, tag)
    } else {
        (String::from_str(key), None)
    }
}

/// Writes the key of a claim for a language.
pub fn language_tag_key(name: &str, tag: Option<&str>) -> (key: String)
    ensures
        key@ == tagged_key(name@, tag.deep_view()),
{
    let mut key = String::from_str(name);
    match tag {
        Some(tag) => {
            proof {
                reveal_strlit("#");
            }
            key.append("#");
            key.append(tag);
        },
        None => {},
    }
    key
}

/// The values of one claim by language; `None` is the value that carries no
/// tag.
pub type Localized = Seq<(Option<Seq<char>>, Seq<char>)>;

/// Whether a value stands under `tag`.
pub open spec fn has_tag(claim: Localized, tag: Option<Seq<char>>) -> bool {
    exists|i: int| 0 <= i < claim.len() && (#[trigger] claim[i]).0 == tag
}

/// What a localized claim must be: at least one value, no tag twice, no empty
/// tag.
pub open spec fn is_localized(claim: Localized) -> bool {
    &&& claim.len() > 0
    &&& forall|i: int, j: int|
        0 <= i < j < claim.len() ==> (#[trigger] claim[i]).0 != (#[trigger] claim[j]).0
    &&& forall|i: int|
        0 <= i < claim.len() ==> ((#[trigger] claim[i]).0 matches Some(t) ==> t.len() > 0)
}

/// The value under `tag`, where there is one.
pub open spec fn value_for(claim: Localized, tag: Option<Seq<char>>) -> Option<Seq<char>>
    decreases claim.len(),
{
    if claim.len() == 0 {
        None
    } else if claim[0].0 == tag {
        Some(claim[0].1)
    } else {
        value_for(claim.drop_first(), tag)
    }
}

/// A claim with one value per language, in the order in which the values came.
#[derive(Debug, PartialEq, Eq)]
pub struct LocalizedClaim {
    entries: Vec<(Option<String>, String)>,
}

impl View for LocalizedClaim {
    type V = Localized;

    closed spec fn view(&self) -> Localized {
        self.entries.deep_view()
    }
}

impl DeepView for LocalizedClaim {
    type V = Localized;

    open spec fn deep_view(&self) -> Localized {
        self@
    }
}

/// A copy of the values of a claim.
fn copy_entries(from: &Vec<(Option<String>, String)>) -> (entries: Vec<(Option<String>, String)>)
    ensures
        entries.deep_view() == from.deep_view(),
{
    let n = from.len();
    let mut entries: Vec<(Option<String>, String)> = Vec::new();
    let mut i: usize = 0;
    while i < n
        invariant
            n == from.len(),
            i <= n,
            entries.deep_view() == from.deep_view().take(i as int),
        decreases n - i,
    {
        let ghost before = entries.deep_view();
        entries.push((from[i].0.clone(), from[i].1.clone()));
        assert(entries.deep_view() =~= before.push(from.deep_view()[i as int]));
        i += 1;
    }
    entries
}

/// Whether two optional tags are the same.
pub fn same_tag(a: &Option<String>, b: Option<&str>) -> (same: bool)
    ensures
        same == (a.deep_view() == b.deep_view()),
{
    match (a, b) {
        (Some(x), Some(y)) => crate::text::str_eq(x.as_str(), y),
        (None, None) => true,
        _ => false,
    }
}

impl LocalizedClaim {
    #[verifier::type_invariant]
    spec fn well_formed(&self) -> bool {
        is_localized(self.entries.deep_view())
    }

    /// A claim with one value.
    pub fn new(tag: Option<LanguageTag>, value: String) -> (claim: LocalizedClaim)
        ensures
            claim@ == seq![(tag.deep_view(), value@)],
            is_localized(claim@),
    {
        let raw = match &tag {
            Some(tag) => Some(String::from_str(tag.as_str())),
            None => None,
        };
        let mut entries: Vec<(Option<String>, String)> = Vec::new();
        entries.push((raw, value));
        LocalizedClaim { entries }
    }

    /// Whether a value stands under `tag`.
    pub fn contains(&self, tag: Option<&str>) -> (found: bool)
        ensures
            found == has_tag(self@, tag.deep_view()),
    {
        let n = self.entries.len();
        let mut i: usize = 0;
        while i < n
            invariant
                n == self.entries.len(),
                i <= n,
                forall|j: int| 0 <= j < i ==> (#[trigger] self@[j]).0 != tag.deep_view(),
            decreases n - i,
        {
            if same_tag(&self.entries[i].0, tag) {
                assert(self@[i as int].0 == tag.deep_view());
                return true;
            }
            i += 1;
        }
        false
    }

    /// Adds a value for a language that has none yet. Where the language has
    /// one, nothing changes and the answer is `false`.
    pub fn insert(&mut self, tag: Option<LanguageTag>, value: String) -> (added: bool)
        ensures
            added == !has_tag(old(self)@, tag.deep_view()),
            added ==> final(self)@ == old(self)@.push((tag.deep_view(), value@)),
            !added ==> final(self)@ == old(self)@,
            is_localized(final(self)@),
    {
        proof {
            use_type_invariant(&*self);
        }
        let raw = match &tag {
            Some(tag) => Some(String::from_str(tag.as_str())),
            None => None,
        };
        let taken = match &raw {
            Some(text) => self.contains(Some(text.as_str())),
            None => self.contains(None),
        };
        if taken {
            return false;
        }
        let ghost before = self.entries.deep_view();
        let mut entries = copy_entries(&self.entries);
        entries.push((raw, value));
        proof {
            let after = entries.deep_view();
            assert(after =~= before.push((tag.deep_view(), value@)));
            assert forall|i: int, j: int| 0 <= i < j < after.len() implies (#[trigger] after[i]).0
                != (#[trigger] after[j]).0 by {
                if j == before.len() {
                } else {
                }
            }
        }
        self.entries = entries;
        true
    }

    /// The number of values; never zero.
    pub fn len(&self) -> (n: usize)
        ensures
            n == self@.len(),
            n > 0,
            is_localized(self@),
    {
        proof {
            use_type_invariant(self);
        }
        self.entries.len()
    }

    /// The tag of the value at position `i`.
    pub fn tag_at(&self, i: usize) -> (tag: Option<&str>)
        requires
            i < self@.len(),
        ensures
            tag.deep_view() == self@[i as int].0,
    {
        match &self.entries[i].0 {
            Some(tag) => Some(tag.as_str()),
            None => None,
        }
    }

    /// The value at position `i`.
    pub fn value_at(&self, i: usize) -> (value: &str)
        requires
            i < self@.len(),
        ensures
            value@ == self@[i as int].1,
    {
        self.entries[i].1.as_str()
    }

    /// The value for a language, where there is one.
    pub fn get(&self, tag: Option<&str>) -> (value: Option<&str>)
        ensures
            value.deep_view() == value_for(self@, tag.deep_view()),
    {
        let n = self.entries.len();
        let mut i: usize = 0;
        proof {
            assert(self@.skip(0) =~= self@);
        }
        while i < n
            invariant
                n == self.entries.len(),
                i <= n,
                value_for(
                    self@,
                    tag.deep_view()) == value_for(self@.skip(i as int),
                    tag.deep_view(),
                ),
            decreases n - i,
        {
            let here = same_tag(&self.entries[i].0, tag);
            proof {
                let rest = self@.skip(i as int);
                assert(rest.drop_first() =~= self@.skip(i + 1));
            }
            if here {
                return Some(self.entries[i].1.as_str());
            }
            i += 1;
        }
        None
    }
}

impl Clone for LocalizedClaim {
    fn clone(&self) -> (copy: LocalizedClaim)
        ensures
            copy@ == self@,
    {
        proof {
            use_type_invariant(self);
        }
        let entries = copy_entries(&self.entries);
        LocalizedClaim { entries }
    }
}

/// Whether every value of a claim is a URL that the URL parser accepts.
pub open spec fn holds_urls(claim: Localized) -> bool {
    forall|i: int| 0 <= i < claim.len() ==> url_parses((#[trigger] claim[i]).1)
}

/// A claim whose values are URLs, one per language.
#[derive(Debug, PartialEq, Eq)]
pub struct LocalizedUrls {
    claim: LocalizedClaim,
}

impl View for LocalizedUrls {
    type V = Localized;

    closed spec fn view(&self) -> Localized {
        self.claim@
    }
}

impl DeepView for LocalizedUrls {
    type V = Localized;

    open spec fn deep_view(&self) -> Localized {
        self@
    }
}

impl Clone for LocalizedUrls {
    fn clone(&self) -> (copy: LocalizedUrls)
        ensures
            copy@ == self@,
    {
        proof {
            use_type_invariant(self);
        }
        LocalizedUrls { claim: self.claim.clone() }
    }
}

impl LocalizedUrls {
    #[verifier::type_invariant]
    spec fn well_formed(&self) -> bool {
        is_localized(self.claim@) && holds_urls(self.claim@)
    }

    /// A claim with one URL.
    pub fn new(tag: Option<LanguageTag>, url: &EndpointUrl) -> (urls: LocalizedUrls)
        ensures
            urls@ == seq![(tag.deep_view(), url@)],
    {
        LocalizedUrls { claim: LocalizedClaim::new(tag, String::from_str(url.as_str())) }
    }

    /// A claim whose values are known to be URLs.
    pub fn from_claim(claim: LocalizedClaim) -> (urls: LocalizedUrls)
        requires
            holds_urls(claim@),
        ensures
            urls@ == claim@,
    {
        let _ = claim.len();
        LocalizedUrls { claim }
    }

    /// Takes a claim for one of URLs where every value of it is a URL that
    /// the URL parser accepts.
    pub fn checked(claim: LocalizedClaim) -> (r: Option<LocalizedUrls>)
        ensures
            r is Some <==> holds_urls(claim@),
            r matches Some(urls) ==> urls@ == claim@,
    {
        let n = claim.len();
        let mut i: usize = 0;
        while i < n
            invariant
                n == claim@.len(),
                i <= n,
                forall|j: int| 0 <= j < i ==> url_parses((#[trigger] claim@[j]).1),
            decreases n - i,
        {
            match EndpointUrl::new(String::from_str(claim.value_at(i))) {
                Ok(_) => {},
                Err(_) => {
                    return None;
                },
            }
            i += 1;
        }
        Some(LocalizedUrls::from_claim(claim))
    }

    /// Adds a URL for a language that has none yet. Where the language has
    /// one, nothing changes and the answer is `false`.
    pub fn insert(&mut self, tag: Option<LanguageTag>, url: &EndpointUrl) -> (added: bool)
        ensures
            added == !has_tag(old(self)@, tag.deep_view()),
            added ==> final(self)@ == old(self)@.push((tag.deep_view(), url@)),
            !added ==> final(self)@ == old(self)@,
    {
        proof {
            use_type_invariant(&*self);
        }
        let mut claim = self.claim.clone();
        let added = claim.insert(tag, String::from_str(url.as_str()));
        self.claim = claim;
        added
    }

    /// The claim with its URLs as texts.
    pub fn claim(&self) -> (claim: &LocalizedClaim)
        ensures
            claim@ == self@,
            is_localized(self@),
            holds_urls(self@),
    {
        proof {
            use_type_invariant(self);
        }
        &self.claim
    }
}

} // verus!
