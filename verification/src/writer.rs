//! Writers that put typed members into a JSON object, and the proof that a
//! reader gets back what the matching writer wrote.

use crate::json::{has_real, lemma_array_view, Json, JsonFault, JsonValue};
use crate::language::{
    is_localized, language_tag_key, lemma_split_tagged_key, tagged_key, Localized,
    LocalizedClaim,
};
use crate::reader::{
    as_response_type_sets, as_response_types, as_texts, as_url, as_urls, gather, localized,
    named, optional_flag, optional_response_type_sets, optional_text, optional_texts,
    optional_unsigned, optional_url, optional_urls, tagged_entries, Entry,
};
use crate::text::join;
use crate::types::{
    is_response_types, lemma_response_types_round_trip, url_parses, EndpointUrl, ResponseTypes,
};
use vstd::prelude::*;
use vstd::string::StringExecFns;

verus! {

/// The members of an object as they are written: each key is the name,
/// followed by `#` and the language tag where there is one.
pub open spec fn wire_members(entries: Seq<Entry>) -> Seq<(Seq<char>, Json)> {
    Seq::new(
        entries.len(),
        |i: int| (tagged_key(entries[i].name, entries[i].tag), entries[i].value),
    )
}

/// The members that stand for a value that may be absent: one member
/// without a language tag, or none.
pub open spec fn written<T>(name: Seq<char>, value: Option<T>, write: spec_fn(T) -> Json) -> Seq<
    Entry,
> {
    match value {
        Some(value) => seq![Entry { name, tag: None, value: write(value) }],
        None => Seq::empty(),
    }
}

/// The array that stands for a list of texts.
pub open spec fn texts_json(texts: Seq<Seq<char>>) -> Json {
    Json::Array(Seq::new(texts.len(), |i: int| Json::Text(texts[i])))
}

/// The array that stands for a list of sets of response types, each one text.
pub open spec fn sets_json(sets: Seq<Seq<Seq<char>>>) -> Json {
    Json::Array(Seq::new(sets.len(), |i: int| Json::Text(join(sets[i], ' '))))
}

/// The member that stands for a text that may be absent.
pub open spec fn written_text(name: Seq<char>, value: Option<Seq<char>>) -> Seq<Entry> {
    written(name, value, |text: Seq<char>| Json::Text(text))
}

/// The member that stands for a list of texts that may be absent.
pub open spec fn written_texts(name: Seq<char>, value: Option<Seq<Seq<char>>>) -> Seq<Entry> {
    written(name, value, |texts: Seq<Seq<char>>| texts_json(texts))
}

/// The member that stands for a list of sets of response types that may be absent.
pub open spec fn written_sets(name: Seq<char>, value: Option<Seq<Seq<Seq<char>>>>) -> Seq<Entry> {
    written(name, value, |sets: Seq<Seq<Seq<char>>>| sets_json(sets))
}

/// The member that stands for a truth value that may be absent.
pub open spec fn written_flag(name: Seq<char>, value: Option<bool>) -> Seq<Entry> {
    written(name, value, |flag: bool| Json::Bool(flag))
}

/// The member that stands for a number that may be absent.
pub open spec fn written_unsigned(name: Seq<char>, value: Option<u64>) -> Seq<Entry> {
    written(name, value, |n: u64| Json::Unsigned(n))
}

/// The members that stand for a claim that comes once per language.
pub open spec fn written_localized(name: Seq<char>, claim: Option<Localized>) -> Seq<Entry> {
    match claim {
        Some(claim) => Seq::new(
            claim.len(),
            |i: int| Entry { name, tag: claim[i].0, value: Json::Text(claim[i].1) },
        ),
        None => Seq::empty(),
    }
}

/// Adds one member to an object that is being written.
pub fn write_member(out: &mut Vec<(String, JsonValue)>, key: String, value: JsonValue)
    ensures
        final(out).deep_view() == old(out).deep_view().push((key@, value@)),
{
    out.push((key, value));
}

/// A JSON array of texts.
pub fn texts_value(texts: &Vec<String>) -> (value: JsonValue)
    ensures
        value@ == texts_json(texts.deep_view()),
{
    let n = texts.len();
    let mut items: Vec<JsonValue> = Vec::new();
    let mut i: usize = 0;
    while i < n
        invariant
            n == texts.len(),
            i <= n,
            items.len() == i,
            forall|j: int| 0 <= j < i ==> (#[trigger] items[j])@ == Json::Text(texts[j]@),
        decreases n - i,
    {
        items.push(JsonValue::Text(texts[i].clone()));
        i += 1;
    }
    let value = JsonValue::Array(items);
    proof {
        lemma_array_view(value);
        assert(items.deep_view() =~= texts_json(texts.deep_view())->Array_0);
    }
    value
}

/// A JSON array of URLs.
pub fn urls_value(urls: &Vec<EndpointUrl>) -> (value: JsonValue)
    ensures
        value@ == texts_json(urls.deep_view()),
{
    let n = urls.len();
    let mut items: Vec<JsonValue> = Vec::new();
    let mut i: usize = 0;
    while i < n
        invariant
            n == urls.len(),
            i <= n,
            items.len() == i,
            forall|j: int| 0 <= j < i ==> (#[trigger] items[j])@ == Json::Text(urls[j]@),
        decreases n - i,
    {
        items.push(JsonValue::Text(String::from_str(urls[i].as_str())));
        i += 1;
    }
    let value = JsonValue::Array(items);
    proof {
        lemma_array_view(value);
        assert(items.deep_view() =~= texts_json(urls.deep_view())->Array_0);
    }
    value
}

/// A JSON array of sets of response types, each as one text.
pub fn sets_value(sets: &Vec<ResponseTypes>) -> (value: JsonValue)
    ensures
        value@ == sets_json(sets.deep_view()),
{
    let n = sets.len();
    let mut items: Vec<JsonValue> = Vec::new();
    let mut i: usize = 0;
    while i < n
        invariant
            n == sets.len(),
            i <= n,
            items.len() == i,
            forall|j: int|
                0 <= j < i ==> (#[trigger] items[j])@ == Json::Text(join(sets[j]@, ' ')),
        decreases n - i,
    {
        items.push(JsonValue::Text(sets[i].to_text()));
        i += 1;
    }
    let value = JsonValue::Array(items);
    proof {
        lemma_array_view(value);
        assert(items.deep_view() =~= sets_json(sets.deep_view())->Array_0);
    }
    value
}

/// Writes a text that may be absent.
pub fn write_text(out: &mut Vec<(String, JsonValue)>, name: &str, value: Option<&str>)
    ensures
        final(out).deep_view() == old(out).deep_view() + wire_members(
            written_text(name@, value.deep_view()),
        ),
{
    match value {
        Some(text) => {
            write_member(out, String::from_str(name), JsonValue::Text(String::from_str(text)));
        },
        None => {},
    }
}

/// Writes a list of texts that may be absent.
pub fn write_texts(out: &mut Vec<(String, JsonValue)>, name: &str, value: Option<&Vec<String>>)
    ensures
        final(out).deep_view() == old(out).deep_view() + wire_members(
            written_texts(name@, value.deep_view()),
        ),
{
    match value {
        Some(texts) => {
            write_member(out, String::from_str(name), texts_value(texts));
        },
        None => {},
    }
}

/// Writes a list of URLs that may be absent.
pub fn write_urls(out: &mut Vec<(String, JsonValue)>, name: &str, value: Option<&Vec<EndpointUrl>>)
    ensures
        final(out).deep_view() == old(out).deep_view() + wire_members(
            written_texts(name@, value.deep_view()),
        ),
{
    match value {
        Some(urls) => {
            write_member(out, String::from_str(name), urls_value(urls));
        },
        None => {},
    }
}

/// Writes a list of sets of response types that may be absent.
pub fn write_sets(
    out: &mut Vec<(String, JsonValue)>,
    name: &str,
    value: Option<&Vec<ResponseTypes>>,
)
    ensures
        final(out).deep_view() == old(out).deep_view() + wire_members(
            written_sets(name@, value.deep_view()),
        ),
{
    match value {
        Some(sets) => {
            write_member(out, String::from_str(name), sets_value(sets));
        },
        None => {},
    }
}

/// Writes a truth value that may be absent.
pub fn write_flag(out: &mut Vec<(String, JsonValue)>, name: &str, value: Option<bool>)
    ensures
        final(out).deep_view() == old(out).deep_view() + wire_members(written_flag(name@, value)),
{
    match value {
        Some(flag) => {
            write_member(out, String::from_str(name), JsonValue::Bool(flag));
        },
        None => {},
    }
}

/// Writes a number that may be absent.
pub fn write_unsigned(out: &mut Vec<(String, JsonValue)>, name: &str, value: Option<u64>)
    ensures
        final(out).deep_view() == old(out).deep_view() + wire_members(
            written_unsigned(name@, value),
        ),
{
    match value {
        Some(n) => {
            write_member(out, String::from_str(name), JsonValue::Unsigned(n));
        },
        None => {},
    }
}

/// Writes a claim that comes once per language: one member for each.
pub fn write_localized(
    out: &mut Vec<(String, JsonValue)>,
    name: &str,
    claim: Option<&LocalizedClaim>,
)
    ensures
        final(out).deep_view() == old(out).deep_view() + wire_members(
            written_localized(name@, claim.deep_view()),
        ),
{
    let ghost before = out.deep_view();
    match claim {
        Some(claim) => {
            let n = claim.len();
            let ghost all = wire_members(written_localized(name@, Some(claim@)));
            let mut i: usize = 0;
            while i < n
                invariant
                    n == claim@.len(),
                    i <= n,
                    all == wire_members(written_localized(name@, Some(claim@))),
                    out.deep_view() == before + all.take(i as int),
                decreases n - i,
            {
                let key = language_tag_key(name, claim.tag_at(i));
                let value = JsonValue::Text(String::from_str(claim.value_at(i)));
                write_member(out, key, value);
                i += 1;
            }
        },
        None => {
        },
    }
}

/// The members of a name in two lists put together are those of the first
/// list followed by those of the second.
pub proof fn lemma_named_concat(a: Seq<Entry>, b: Seq<Entry>, name: Seq<char>)
    ensures
        named(a + b, name) == named(a, name) + named(b, name),
    decreases b.len(),
{
    if b.len() == 0 {
    } else {
        lemma_named_concat(a, b.drop_last(), name);
        assert((a + b).drop_last() =~= a + b.drop_last());
        if b.last().name == name {
        }
    }
}

/// Members that all carry one name are all found under that name, and none
/// of them under another.
pub proof fn lemma_named_uniform(piece: Seq<Entry>, name: Seq<char>, other: Seq<char>)
    requires
        forall|k: int| 0 <= k < piece.len() ==> (#[trigger] piece[k]).name == name,
    ensures
        named(piece, other) == if other == name {
            piece
        } else {
            Seq::<Entry>::empty()
        },
    decreases piece.len(),
{
    if piece.len() > 0 {
        lemma_named_uniform(piece.drop_last(), name, other);
        if other == name {
        }
    }
}

/// A list of texts that was written is read back.
pub proof fn lemma_texts_round_trip(texts: Seq<Seq<char>>)
    ensures
        as_texts(texts_json(texts)) == Some(texts),
{
}

/// A list of URLs that was written is read back.
pub proof fn lemma_urls_round_trip(urls: Seq<Seq<char>>)
    requires
        forall|i: int| 0 <= i < urls.len() ==> url_parses(#[trigger] urls[i]),
    ensures
        as_urls(texts_json(urls)) == Some(urls),
{
    let items = texts_json(urls)->Array_0;
    assert forall|i: int| 0 <= i < items.len() implies as_url(#[trigger] items[i]) is Some by {
    }
}

/// A list of sets of response types that was written is read back.
pub proof fn lemma_sets_round_trip(sets: Seq<Seq<Seq<char>>>)
    requires
        forall|i: int| 0 <= i < sets.len() ==> is_response_types(#[trigger] sets[i]),
    ensures
        as_response_type_sets(sets_json(sets)) == Some(sets),
{
    let items = sets_json(sets)->Array_0;
    assert forall|i: int| 0 <= i < items.len() implies as_response_types(#[trigger] items[i])
        == Some(sets[i]) by {
        lemma_response_types_round_trip(sets[i]);
    }
}

/// The values of a claim that were written for the first `upto` languages
/// are gathered again.
proof fn lemma_gather_written(name: Seq<char>, claim: Localized, urls: bool, upto: int)
    requires
        is_localized(claim),
        urls ==> forall|i: int| 0 <= i < claim.len() ==> url_parses((#[trigger] claim[i]).1),
        0 <= upto <= claim.len(),
    ensures
        gather(written_localized(name, Some(claim)).take(upto), name, urls) == Ok::<
            Localized,
            JsonFault,
        >(claim.take(upto)),
    decreases upto,
{
    let piece = written_localized(name, Some(claim));
    if upto == 0 {
        assert(claim.take(0) =~= Seq::<(Option<Seq<char>>, Seq<char>)>::empty());
    } else {
        lemma_gather_written(name, claim, urls, upto - 1);
        assert(piece.take(upto).drop_last() =~= piece.take(upto - 1));
        let before = claim.take(upto - 1);
        let entry = piece.take(upto).last();
        assert(!crate::language::has_tag(before, entry.tag)) by {
            if crate::language::has_tag(before, entry.tag) {
                let i =
                    choose|i: int| 0 <= i < before.len() && (#[trigger] before[i]).0 == entry.tag;
            }
        }
        if urls {
        }
        assert(before.push((entry.tag, claim[upto - 1].1)) =~= claim.take(upto));
    }
}

/// A claim that was written once per language is read back.
pub proof fn lemma_read_written_localized(
    entries: Seq<Entry>,
    name: Seq<char>,
    claim: Option<Localized>,
    urls: bool,
)
    requires
        named(entries, name) == written_localized(name, claim),
        claim matches Some(c) ==> is_localized(c) && (urls ==> forall|i: int|
            0 <= i < c.len() ==> url_parses((#[trigger] c[i]).1)),
    ensures
        localized(entries, name, urls) == Ok::<Option<Localized>, JsonFault>(claim),
{
    match claim {
        Some(c) => {
            lemma_gather_written(name, c, urls, c.len() as int);
            let piece = written_localized(name, claim);
            assert(piece.take(c.len() as int) =~= piece);
            assert(c.take(c.len() as int) =~= c);
        },
        None => {},
    }
}

/// Whether the members can be told apart again once written: no name holds
/// a `#`, and no language tag is empty.
pub open spec fn splits_back(entries: Seq<Entry>) -> bool {
    forall|k: int|
        0 <= k < entries.len() ==> !(#[trigger] entries[k]).name.contains('#') && (
        entries[k].tag matches Some(tag) ==> tag.len() > 0)
}

/// Members that are written and split again are the members themselves.
pub proof fn lemma_tagged_wire(entries: Seq<Entry>)
    requires
        splits_back(entries),
    ensures
        tagged_entries(wire_members(entries)) == entries,
{
    assert forall|k: int| 0 <= k < entries.len() implies tagged_entries(wire_members(entries))[k]
        == entries[k] by {
        lemma_split_tagged_key(entries[k].name, entries[k].tag);
    }
}

/// Members without language tags are written under their names.
pub proof fn lemma_plain_wire(entries: Seq<Entry>)
    requires
        forall|k: int| 0 <= k < entries.len() ==> (#[trigger] entries[k]).tag is None,
    ensures
        crate::reader::plain_entries(wire_members(entries)) == entries,
{
}

/// A text that was written is read back.
pub proof fn lemma_read_written_text(entries: Seq<Entry>, name: Seq<char>, value: Option<Seq<char>>)
    requires
        named(entries, name) == written_text(name, value),
    ensures
        optional_text(entries, name) == Ok::<Option<Seq<char>>, JsonFault>(value),
{
}

/// A URL that was written is read back.
pub proof fn lemma_read_written_url(entries: Seq<Entry>, name: Seq<char>, value: Option<Seq<char>>)
    requires
        named(entries, name) == written_text(name, value),
        value matches Some(url) ==> url_parses(url),
    ensures
        optional_url(entries, name) == Ok::<Option<Seq<char>>, JsonFault>(value),
{
}

/// A list of texts that was written is read back.
pub proof fn lemma_read_written_texts(
    entries: Seq<Entry>,
    name: Seq<char>,
    value: Option<Seq<Seq<char>>>,
)
    requires
        named(entries, name) == written_texts(name, value),
    ensures
        optional_texts(entries, name) == Ok::<Option<Seq<Seq<char>>>, JsonFault>(value),
{
    if let Some(texts) = value {
        lemma_texts_round_trip(texts);
    }
}

/// A list of URLs that was written is read back.
pub proof fn lemma_read_written_urls(
    entries: Seq<Entry>,
    name: Seq<char>,
    value: Option<Seq<Seq<char>>>,
)
    requires
        named(entries, name) == written_texts(name, value),
        value matches Some(urls) ==> forall|i: int|
            0 <= i < urls.len() ==> url_parses(#[trigger] urls[i]),
    ensures
        optional_urls(entries, name) == Ok::<Option<Seq<Seq<char>>>, JsonFault>(value),
{
    if let Some(urls) = value {
        lemma_urls_round_trip(urls);
    }
}

/// A list of sets of response types that was written is read back.
pub proof fn lemma_read_written_sets(
    entries: Seq<Entry>,
    name: Seq<char>,
    value: Option<Seq<Seq<Seq<char>>>>,
)
    requires
        named(entries, name) == written_sets(name, value),
        value matches Some(sets) ==> forall|i: int|
            0 <= i < sets.len() ==> is_response_types(#[trigger] sets[i]),
    ensures
        optional_response_type_sets(entries, name) == Ok::<
            Option<Seq<Seq<Seq<char>>>>,
            JsonFault,
        >(value),
{
    if let Some(sets) = value {
        lemma_sets_round_trip(sets);
    }
}

/// A truth value that was written is read back.
pub proof fn lemma_read_written_flag(entries: Seq<Entry>, name: Seq<char>, value: Option<bool>)
    requires
        named(entries, name) == written_flag(name, value),
    ensures
        optional_flag(entries, name) == Ok::<Option<bool>, JsonFault>(value),
{
}

/// A number that was written is read back.
pub proof fn lemma_read_written_unsigned(entries: Seq<Entry>, name: Seq<char>, value: Option<u64>)
    requires
        named(entries, name) == written_unsigned(name, value),
    ensures
        optional_unsigned(entries, name) == Ok::<Option<u64>, JsonFault>(value),
{
}

/// The members of two lists put together are written one list after the
/// other.
pub proof fn lemma_wire_concat(a: Seq<Entry>, b: Seq<Entry>)
    ensures
        wire_members(a + b) == wire_members(a) + wire_members(b),
{
}

/// Writing the next list of an object extends what was written of it.
pub proof fn lemma_written_next(
    pieces: Seq<Seq<Entry>>,
    upto: int,
    before: Seq<(Seq<char>, Json)>,
    after: Seq<(Seq<char>, Json)>,
)
    requires
        0 <= upto < pieces.len(),
        before == wire_members(flatten(pieces.take(upto))),
        after == before + wire_members(pieces[upto]),
    ensures
        after == wire_members(flatten(pieces.take(upto + 1))),
{
    lemma_flatten_step(pieces, upto);
    lemma_wire_concat(flatten(pieces.take(upto)), pieces[upto]);
}

/// The lists one after another.
pub open spec fn flatten(pieces: Seq<Seq<Entry>>) -> Seq<Entry>
    decreases pieces.len(),
{
    if pieces.len() == 0 {
        Seq::empty()
    } else {
        flatten(pieces.drop_last()) + pieces.last()
    }
}

/// Whether every member of `piece` carries `name`.
pub open spec fn uniform(piece: Seq<Entry>, name: Seq<char>) -> bool {
    forall|k: int| 0 <= k < piece.len() ==> (#[trigger] piece[k]).name == name
}

/// Whether the layout of an object is sound: one list of members for each
/// name, and no name twice.
pub open spec fn laid_out(names: Seq<Seq<char>>, pieces: Seq<Seq<Entry>>) -> bool {
    &&& names.len() == pieces.len()
    &&& forall|i: int, j: int| 0 <= i < j < names.len() ==> names[i] != names[j]
    &&& forall|i: int| 0 <= i < pieces.len() ==> uniform(#[trigger] pieces[i], names[i])
}

/// One more list adds its members at the end.
pub proof fn lemma_flatten_step(pieces: Seq<Seq<Entry>>, upto: int)
    requires
        0 <= upto < pieces.len(),
    ensures
        flatten(pieces.take(upto + 1)) == flatten(pieces.take(upto)) + pieces[upto],
{
    assert(pieces.take(upto + 1).drop_last() =~= pieces.take(upto));
}

/// In an object that is laid out soundly, the members found under a name are
/// the list that was written for it.
pub proof fn lemma_named_flatten(names: Seq<Seq<char>>, pieces: Seq<Seq<Entry>>, at: int)
    requires
        laid_out(names, pieces),
        0 <= at < names.len(),
    ensures
        named(flatten(pieces), names[at]) == pieces[at],
{
    lemma_named_upto(names, pieces, at, pieces.len() as int);
    assert(pieces.take(pieces.len() as int) =~= pieces);
}

proof fn lemma_named_upto(names: Seq<Seq<char>>, pieces: Seq<Seq<Entry>>, at: int, upto: int)
    requires
        laid_out(names, pieces),
        0 <= at < names.len(),
        0 <= upto <= pieces.len(),
    ensures
        named(flatten(pieces.take(upto)), names[at]) == if at < upto {
            pieces[at]
        } else {
            Seq::<Entry>::empty()
        },
    decreases upto,
{
    if upto > 0 {
        lemma_named_upto(names, pieces, at, upto - 1);
        lemma_flatten_step(pieces, upto - 1);
        lemma_named_concat(flatten(pieces.take(upto - 1)), pieces[upto - 1], names[at]);
        lemma_named_uniform(pieces[upto - 1], names[upto - 1], names[at]);
        let found = named(flatten(pieces.take(upto - 1)), names[at]);
        if at == upto - 1 {
        } else {
        }
    }
}

/// Lists that split back one by one split back when put together.
pub proof fn lemma_flatten_splits_back(pieces: Seq<Seq<Entry>>)
    requires
        forall|i: int| 0 <= i < pieces.len() ==> splits_back(#[trigger] pieces[i]),
    ensures
        splits_back(flatten(pieces)),
    decreases pieces.len(),
{
    if pieces.len() > 0 {
        lemma_flatten_splits_back(pieces.drop_last());
    }
}

/// Lists without language tags have none when put together.
pub proof fn lemma_flatten_untagged(pieces: Seq<Seq<Entry>>)
    requires
        forall|i: int, k: int|
            0 <= i < pieces.len() && 0 <= k < pieces[i].len() ==> (#[trigger] pieces[i][k]).tag
                is None,
    ensures
        forall|k: int| 0 <= k < flatten(pieces).len() ==> (#[trigger] flatten(pieces)[k]).tag
            is None,
    decreases pieces.len(),
{
    if pieces.len() > 0 {
        lemma_flatten_untagged(pieces.drop_last());
        let last = pieces.last();
        assert forall|k: int| 0 <= k < last.len() implies (#[trigger] last[k]).tag is None by {
        }
    }
}

/// Whether every member holds a value that can be written as JSON text for
/// certain: one without a number kept as text.
pub open spec fn writable(entries: Seq<Entry>) -> bool {
    forall|k: int| 0 <= k < entries.len() ==> !has_real((#[trigger] entries[k]).value)
}

/// An object of members that can be written can be written.
pub proof fn lemma_writable_object(entries: Seq<Entry>)
    requires
        writable(entries),
    ensures
        !has_real(Json::Object(wire_members(entries))),
{
    let members = wire_members(entries);
    assert forall|i: int| 0 <= i < members.len() implies !has_real((#[trigger] members[i]).1) by {
    }
}

/// Lists of members that can be written can be written when put together.
pub proof fn lemma_flatten_writable(pieces: Seq<Seq<Entry>>)
    requires
        forall|i: int| 0 <= i < pieces.len() ==> writable(#[trigger] pieces[i]),
    ensures
        writable(flatten(pieces)),
    decreases pieces.len(),
{
    if pieces.len() > 0 {
        lemma_flatten_writable(pieces.drop_last());
    }
}

/// A list of texts can be written.
pub proof fn lemma_texts_writable(texts: Seq<Seq<char>>)
    ensures
        !has_real(texts_json(texts)),
{
    let items = texts_json(texts)->Array_0;
    assert forall|i: int| 0 <= i < items.len() implies !has_real(#[trigger] items[i]) by {}
}

/// A list of sets of response types can be written.
pub proof fn lemma_sets_writable(sets: Seq<Seq<Seq<char>>>)
    ensures
        !has_real(sets_json(sets)),
{
    let items = sets_json(sets)->Array_0;
    assert forall|i: int| 0 <= i < items.len() implies !has_real(#[trigger] items[i]) by {}
}

} // verus!
