//! Character-level helpers shared by the protocol modules.

use vstd::prelude::*;
use vstd::string::StringExecFns;

verus! {

/// Whether two string slices hold the same characters.
pub fn str_eq(a: &str, b: &str) -> (same: bool)
    ensures
        same == (a@ == b@),
{
    a.to_owned() == b.to_owned()
}

/// The characters of a text, one after the other.
pub fn chars_of(s: &str) -> (chars: Vec<char>)
    ensures
        chars@ == s@,
{
    let mut chars: Vec<char> = Vec::new();
    for c in it: s.chars()
        invariant
            it.seq() == s@,
            chars@ == s@.take(it.index() as int),
    {
        chars.push(c);
    }
    chars
}

/// `std::str::from_utf8`: the text that the bytes stand for exactly where
/// they are UTF-8, else its error in words.
#[verifier::external_body]
pub(crate) fn utf8_text(bytes: &[u8]) -> (r: Result<String, String>)
    ensures
        r is Ok <==> vstd::utf8::valid_utf8(bytes@),
        r matches Ok(text) ==> text@ == vstd::utf8::decode_utf8(bytes@),
{
    match std::str::from_utf8(bytes) {
        Ok(text) => Ok(text.to_string()),
        Err(error) => Err(error.to_string()),
    }
}

/// `String::push`: the text with one more character at its end.
#[verifier::external_body]
fn push_char(text: &mut String, c: char)
    ensures
        final(text)@ == old(text)@.push(c),
{
    text.push(c)
}

/// The text of the characters from position `from` up to position `to`.
pub fn text_between(chars: &Vec<char>, from: usize, to: usize) -> (text: String)
    requires
        from <= to <= chars.len(),
    ensures
        text@ == chars@.subrange(from as int, to as int),
{
    let mut text = String::new();
    let mut i: usize = from;
    while i < to
        invariant
            from <= i <= to <= chars.len(),
            text@ == chars@.subrange(from as int, i as int),
        decreases to - i,
    {
        push_char(&mut text, chars[i]);
        i += 1;
    }
    text
}

/// The text in an optional string.
pub fn optional_str(value: &Option<String>) -> (text: Option<&str>)
    ensures
        text.deep_view() == value.deep_view(),
{
    match value {
        Some(text) => Some(text.as_str()),
        None => None,
    }
}

/// A copy of an optional string.
pub fn copy_optional(value: &Option<String>) -> (copy: Option<String>)
    ensures
        copy.deep_view() == value.deep_view(),
{
    match value {
        Some(text) => Some(text.clone()),
        None => None,
    }
}

/// An upper-case ASCII letter is mapped to its lower-case form; any other
/// character is left as it is.
pub open spec fn ascii_lower(c: char) -> char {
    if 'A' <= c && c <= 'Z' {
        ((c as u32) + 32) as char
    } else {
        c
    }
}

/// The text with every ASCII letter in lower case.
pub open spec fn lowercase(s: Seq<char>) -> Seq<char> {
    Seq::new(s.len(), |i: int| ascii_lower(s[i]))
}

/// Maps an upper-case ASCII letter to its lower-case form.
pub fn ascii_lower_char(c: char) -> (lower: char)
    ensures
        lower == ascii_lower(c),
{
    if 'A' <= c && c <= 'Z' {
        let code: u32 = c as u32;
        let shifted: u8 = (code + 32) as u8;
        shifted as char
    } else {
        c
    }
}

/// Equality of two texts up to the case of ASCII letters.
pub fn eq_ignore_ascii_case(a: &str, b: &str) -> (same: bool)
    ensures
        same == (lowercase(a@) == lowercase(b@)),
{
    let x = chars_of(a);
    let y = chars_of(b);
    assert(x@.subrange(0, x.len() as int) =~= a@);
    same_letters(&x, 0, x.len(), &y)
}

/// Whether the characters of `x` from `from` up to `to` are those of `y`, up
/// to the case of ASCII letters.
pub fn same_letters(x: &Vec<char>, from: usize, to: usize, y: &Vec<char>) -> (same: bool)
    requires
        from <= to <= x.len(),
    ensures
        same == (lowercase(x@.subrange(from as int, to as int)) == lowercase(y@)),
{
    let ghost part = x@.subrange(from as int, to as int);
    let n = y.len();
    if to - from != n {
        assert(lowercase(part).len() != lowercase(y@).len());
        return false;
    }
    let mut i: usize = 0;
    while i < n
        invariant
            from <= to <= x.len(),
            n == y.len(),
            n == to - from,
            part == x@.subrange(from as int, to as int),
            i <= n,
            forall|j: int| 0 <= j < i ==> ascii_lower(part[j]) == ascii_lower(y@[j]),
        decreases n - i,
    {
        if ascii_lower_char(x[from + i]) != ascii_lower_char(y[i]) {
            assert(lowercase(part)[i as int] != lowercase(y@)[i as int]);
            return false;
        }
        i += 1;
    }
    assert(lowercase(part) =~= lowercase(y@));
    true
}

/// The position of the first `c` in `s` at or after `from`, or the length of
/// `s` where there is none.
pub open spec fn find_from(s: Seq<char>, c: char, from: int) -> int
    decreases s.len() - from,
{
    if from < 0 || from >= s.len() {
        s.len() as int
    } else if s[from] == c {
        from
    } else {
        find_from(s, c, from + 1)
    }
}

/// The position of the first `c` in `s`, or the length of `s` where `s`
/// holds no `c`.
pub open spec fn index_of(s: Seq<char>, c: char) -> int {
    find_from(s, c, 0)
}

/// `find_from` returns the least position at or after `from` that holds `c`.
pub proof fn lemma_find_from(s: Seq<char>, c: char, from: int)
    requires
        0 <= from <= s.len(),
    ensures
        from <= find_from(s, c, from) <= s.len(),
        find_from(s, c, from) < s.len() ==> s[find_from(s, c, from)] == c,
        forall|j: int| from <= j < find_from(s, c, from) ==> s[j] != c,
    decreases s.len() - from,
{
    if from < s.len() && s[from] != c {
        lemma_find_from(s, c, from + 1);
    }
}

/// A position that holds `c` with no `c` before it is the one `index_of`
/// names; a text without `c` gives its own length.
pub proof fn lemma_index_of_unique(s: Seq<char>, c: char, at: int)
    requires
        0 <= at <= s.len(),
        at < s.len() ==> s[at] == c,
        forall|j: int| 0 <= j < at ==> s[j] != c,
    ensures
        index_of(s, c) == at,
{
    lemma_find_from(s, c, 0);
}

/// Finds the first `c` in `s`.
pub fn find_char(s: &str, c: char) -> (at: usize)
    ensures
        at == index_of(s@, c),
        at <= s@.len(),
{
    let chars = chars_of(s);
    let n = chars.len();
    let mut i: usize = 0;
    while i < n
        invariant
            n == chars.len(),
            chars@ == s@,
            i <= n,
            forall|j: int| 0 <= j < i ==> s@[j] != c,
        decreases n - i,
    {
        if chars[i] == c {
            proof {
                lemma_index_of_unique(s@, c, i as int);
            }
            return i;
        }
        i += 1;
    }
    proof {
        lemma_index_of_unique(s@, c, n as int);
    }
    n
}

/// The pieces of `s` between occurrences of `sep`. A text without `sep` is
/// one piece, the empty text included.
pub open spec fn split(s: Seq<char>, sep: char) -> Seq<Seq<char>>
    decreases s.len(),
{
    let at = index_of(s, sep);
    if 0 <= at < s.len() {
        seq![s.take(at)] + split(s.skip(at + 1), sep)
    } else {
        seq![s]
    }
}

/// The pieces put together again with `sep` between them.
pub open spec fn join(parts: Seq<Seq<char>>, sep: char) -> Seq<char>
    decreases parts.len(),
{
    if parts.len() == 0 {
        Seq::empty()
    } else if parts.len() == 1 {
        parts[0]
    } else {
        parts[0] + seq![sep] + join(parts.drop_first(), sep)
    }
}

/// Splitting undoes joining, for one or more pieces none of which holds the
/// separator.
pub proof fn lemma_split_join(parts: Seq<Seq<char>>, sep: char)
    requires
        parts.len() >= 1,
        forall|i: int| 0 <= i < parts.len() ==> !(#[trigger] parts[i]).contains(sep),
    ensures
        split(join(parts, sep), sep) == parts,
    decreases parts.len(),
{
    let first = parts[0];
    if parts.len() == 1 {
        lemma_find_from(first, sep, 0);
        let at = index_of(first, sep);
        if at < first.len() {
        }
    } else {
        let rest = parts.drop_first();
        let joined = join(parts, sep);
        let tail = join(rest, sep);
        assert forall|j: int| 0 <= j < first.len() implies joined[j] != sep by {
            if first[j] == sep {
            }
        }
        lemma_index_of_unique(joined, sep, first.len() as int);
        assert(joined.take(first.len() as int) =~= first);
        assert(joined.skip(first.len() as int + 1) =~= tail);
        assert forall|i: int| 0 <= i < rest.len() implies !(#[trigger] rest[i]).contains(sep) by {
        }
        lemma_split_join(rest, sep);
    }
}

/// Cuts `s` at every `sep`.
pub fn split_text(s: &str, sep: char) -> (parts: Vec<String>)
    ensures
        parts.deep_view() == split(s@, sep),
{
    let chars = chars_of(s);
    let n = chars.len();
    let mut parts: Vec<String> = Vec::new();
    let mut start: usize = 0;
    let mut i: usize = 0;
    proof {
        assert(s@.skip(0) =~= s@);
    }
    while i < n
        invariant
            n == chars.len(),
            chars@ == s@,
            start <= i <= n,
            forall|j: int| start <= j < i ==> s@[j] != sep,
            split(s@, sep) == parts.deep_view() + split(s@.skip(start as int), sep),
        decreases n - i,
    {
        if chars[i] == sep {
            let piece = text_between(&chars, start, i);
            proof {
                let rest = s@.skip(start as int);
                lemma_index_of_unique(rest, sep, i - start);
                assert(rest.take(i - start) =~= s@.subrange(start as int, i as int));
                assert(rest.skip(i - start + 1) =~= s@.skip(i + 1));
            }
            parts.push(piece);
            start = i + 1;
        }
        i += 1;
    }
    let piece = text_between(&chars, start, n);
    proof {
        let rest = s@.skip(start as int);
        lemma_index_of_unique(rest, sep, rest.len() as int);
    }
    parts.push(piece);
    parts
}

/// Joining one more piece adds the separator and the piece at the end.
pub proof fn lemma_join_push(parts: Seq<Seq<char>>, last: Seq<char>, sep: char)
    requires
        parts.len() >= 1,
    ensures
        join(parts.push(last), sep) == join(parts, sep) + seq![sep] + last,
    decreases parts.len(),
{
    let all = parts.push(last);
    assert(all.drop_first() =~= parts.drop_first().push(last));
    if parts.len() == 1 {
        assert(join(all.drop_first(), sep) == last);
    } else {
        lemma_join_push(parts.drop_first(), last, sep);
    }
}

/// Puts the pieces together with one space between them.
pub fn join_spaced(parts: &Vec<String>) -> (joined: String)
    ensures
        joined@ == join(parts.deep_view(), ' '),
{
    let n = parts.len();
    if n == 0 {
        return String::new();
    }
    let mut out = parts[0].clone();
    let mut i: usize = 1;
    proof {
        reveal_strlit(" ");
    }
    while i < n
        invariant
            n == parts.len(),
            1 <= i <= n,
            " "@ == seq![' '],
            out@ == join(parts.deep_view().take(i as int), ' '),
        decreases n - i,
    {
        proof {
            lemma_join_push(parts.deep_view().take(i as int), parts[i as int]@, ' ');
            assert(parts.deep_view().take(i + 1) =~= parts.deep_view().take(i as int).push(
                parts[i as int]@,
            ));
        }
        out.append(" ");
        out.append(parts[i].as_str());
        i += 1;
    }
    proof {
        assert(parts.deep_view().take(n as int) =~= parts.deep_view());
    }
    out
}

/// Whether `c` is a space or a horizontal tab.
pub open spec fn is_blank(c: char) -> bool {
    c == ' ' || c == '\t'
}

/// The number of blanks at the start of `s`, counted from `from`.
pub open spec fn blanks_from(s: Seq<char>, from: int) -> int
    decreases s.len() - from,
{
    if 0 <= from < s.len() && is_blank(s[from]) {
        blanks_from(s, from + 1)
    } else {
        from
    }
}

/// The end of `s` once the blanks before position `to` are dropped, never
/// going below `floor`.
pub open spec fn blanks_until(s: Seq<char>, floor: int, to: int) -> int
    decreases to,
{
    if floor < to <= s.len() && 0 <= floor && is_blank(s[to - 1]) {
        blanks_until(s, floor, to - 1)
    } else {
        to
    }
}

/// `s` without the blanks at its two ends.
pub open spec fn trim(s: Seq<char>) -> Seq<char> {
    let start = blanks_from(s, 0);
    let end = blanks_until(s, start, s.len() as int);
    s.subrange(start, end)
}

/// The part of `s` before position `end`, trimmed and compared with
/// `expected` without regard to the case of ASCII letters.
pub fn trimmed_prefix_matches(s: &str, end: usize, expected: &str) -> (same: bool)
    requires
        end <= s@.len(),
    ensures
        same == (lowercase(trim(s@.take(end as int))) == lowercase(expected@)),
{
    let chars = chars_of(s);
    let ghost head = s@.take(end as int);
    let mut start: usize = 0;
    while start < end && (chars[start] == ' ' || chars[start] == '\t')
        invariant
            start <= end <= s@.len(),
            chars@ == s@,
            head == s@.take(end as int),
            blanks_from(head, 0) == blanks_from(head, start as int),
        decreases end - start,
    {
        start += 1;
    }
    let mut stop: usize = end;
    while stop > start && (chars[stop - 1] == ' ' || chars[stop - 1] == '\t')
        invariant
            start <= stop <= end <= s@.len(),
            chars@ == s@,
            head == s@.take(end as int),
            blanks_until(head, start as int, end as int) == blanks_until(
                head,
                start as int,
                stop as int,
            ),
        decreases stop,
    {
        stop -= 1;
    }
    proof {
        assert(chars@.subrange(start as int, stop as int) =~= trim(head));
    }
    let wanted = chars_of(expected);
    same_letters(&chars, start, stop, &wanted)
}

} // verus!
