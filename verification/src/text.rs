//! Text rules shared by the vault and the workspace: white space, ASCII case
//! folding, trimming and substring search, each with its mathematical meaning
//! over sequences of characters.

use vstd::prelude::*;

verus! {

/// White space in the sense of Unicode's `White_Space` property.
pub open spec fn is_space(c: char) -> bool {
    ||| c == ' '
    ||| ('\u{9}' <= c && c <= '\u{d}')
    ||| c == '\u{85}'
    ||| c == '\u{a0}'
    ||| c == '\u{1680}'
    ||| ('\u{2000}' <= c && c <= '\u{200a}')
    ||| c == '\u{2028}'
    ||| c == '\u{2029}'
    ||| c == '\u{202f}'
    ||| c == '\u{205f}'
    ||| c == '\u{3000}'
}

/// `c` with an ASCII capital letter replaced by its small letter.
pub open spec fn lower_char(c: char) -> char {
    if 'A' <= c && c <= 'Z' {
        ((c as u8) + 32) as char
    } else {
        c
    }
}

/// `s` with every ASCII capital letter replaced by its small letter.
pub open spec fn lowered(s: Seq<char>) -> Seq<char> {
    Seq::new(s.len(), |i: int| lower_char(s[i]))
}

/// `s` without its leading white space.
pub open spec fn trim_start(s: Seq<char>) -> Seq<char>
    decreases s.len(),
{
    if s.len() > 0 && is_space(s[0]) {
        trim_start(s.drop_first())
    } else {
        s
    }
}

/// `s` without its trailing white space.
pub open spec fn trim_end(s: Seq<char>) -> Seq<char>
    decreases s.len(),
{
    if s.len() > 0 && is_space(s.last()) {
        trim_end(s.drop_last())
    } else {
        s
    }
}

/// `s` without its leading and trailing white space.
pub open spec fn trimmed(s: Seq<char>) -> Seq<char> {
    trim_end(trim_start(s))
}

/// `needle` stands in `hay` at position `at`.
pub open spec fn occurs_at(hay: Seq<char>, needle: Seq<char>, at: int) -> bool {
    &&& 0 <= at
    &&& at + needle.len() <= hay.len()
    &&& hay.subrange(at, at + needle.len()) == needle
}

/// `needle` stands somewhere in `hay`.
pub open spec fn contains(hay: Seq<char>, needle: Seq<char>) -> bool {
    exists|at: int| occurs_at(hay, needle, at)
}

/// The view of an optional string.
pub open spec fn text_of(value: Option<String>) -> Option<Seq<char>> {
    match value {
        Some(text) => Some(text@),
        None => None,
    }
}

/// `String::push` appends a character: the string then holds what it held
/// before, followed by `c`.
pub assume_specification[ String::push ](s: &mut String, c: char)
    ensures
        final(s)@ == old(s)@.push(c),
;

/// Leading white space ends at `from`: everything before it is white space,
/// and what stands at it is not.
pub open spec fn leading_space_ends(s: Seq<char>, from: int) -> bool {
    &&& 0 <= from <= s.len()
    &&& forall|i: int| 0 <= i < from ==> is_space(#[trigger] s[i])
    &&& (from < s.len() ==> !is_space(s[from]))
}

/// Trailing white space starts at `to`: everything from it on is white space,
/// and what stands before it is not.
pub open spec fn trailing_space_starts(s: Seq<char>, to: int) -> bool {
    &&& 0 <= to <= s.len()
    &&& forall|i: int| to <= i < s.len() ==> is_space(#[trigger] s[i])
    &&& (0 < to ==> !is_space(s[to - 1]))
}

/// Where leading white space ends, `trim_start` cuts.
pub proof fn lemma_trim_start_cuts(s: Seq<char>, from: int)
    requires
        leading_space_ends(s, from),
    ensures
        trim_start(s) == s.subrange(from, s.len() as int),
    decreases from,
{
    if from == 0 {
        assert(s.subrange(0, s.len() as int) =~= s);
    } else {
        let rest = s.drop_first();
        assert(is_space(s[0]));
        assert forall|i: int| 0 <= i < from - 1 implies is_space(#[trigger] rest[i]) by {
            assert(rest[i] == s[i + 1]);
        }
        lemma_trim_start_cuts(rest, from - 1);
        assert(rest.subrange(from - 1, rest.len() as int) =~= s.subrange(from, s.len() as int));
    }
}

/// Where trailing white space starts, `trim_end` cuts.
pub proof fn lemma_trim_end_cuts(s: Seq<char>, to: int)
    requires
        trailing_space_starts(s, to),
    ensures
        trim_end(s) == s.subrange(0, to),
    decreases s.len() - to,
{
    if to == s.len() {
        assert(s.subrange(0, to) =~= s);
    } else {
        let rest = s.drop_last();
        assert(is_space(s.last()));
        assert forall|i: int| to <= i < rest.len() implies is_space(#[trigger] rest[i]) by {
            assert(rest[i] == s[i]);
        }
        lemma_trim_end_cuts(rest, to);
        assert(rest.subrange(0, to) =~= s.subrange(0, to));
    }
}

/// The two cuts together give `trimmed`.
pub proof fn lemma_trimmed_cuts(s: Seq<char>, from: int, to: int)
    requires
        leading_space_ends(s, from),
        from <= to <= s.len(),
        forall|i: int| to <= i < s.len() ==> is_space(#[trigger] s[i]),
        from < to ==> !is_space(s[to - 1]),
    ensures
        trimmed(s) == s.subrange(from, to),
{
    lemma_trim_start_cuts(s, from);
    let tail = s.subrange(from, s.len() as int);
    assert forall|i: int| to - from <= i < tail.len() implies is_space(#[trigger] tail[i]) by {
        assert(tail[i] == s[from + i]);
    }
    if from < to {
        assert(tail[to - from - 1] == s[to - 1]);
    }
    lemma_trim_end_cuts(tail, to - from);
    assert(tail.subrange(0, to - from) =~= s.subrange(from, to));
}

/// Every string has a place where its leading white space ends.
pub proof fn lemma_leading_space_end(s: Seq<char>) -> (from: int)
    ensures
        leading_space_ends(s, from),
    decreases s.len(),
{
    if s.len() > 0 && is_space(s[0]) {
        let rest = s.drop_first();
        let inner = lemma_leading_space_end(rest);
        assert forall|i: int| 0 <= i < inner + 1 implies is_space(#[trigger] s[i]) by {
            if i > 0 {
                assert(s[i] == rest[i - 1]);
            }
        }
        if inner + 1 < s.len() {
            assert(s[inner + 1] == rest[inner]);
        }
        inner + 1
    } else {
        0
    }
}

/// Every string has a place where its trailing white space starts.
pub proof fn lemma_trailing_space_start(s: Seq<char>) -> (to: int)
    ensures
        trailing_space_starts(s, to),
    decreases s.len(),
{
    if s.len() > 0 && is_space(s.last()) {
        let rest = s.drop_last();
        let inner = lemma_trailing_space_start(rest);
        assert forall|i: int| inner <= i < s.len() implies is_space(#[trigger] s[i]) by {
            if i < rest.len() {
                assert(s[i] == rest[i]);
            }
        }
        if 0 < inner {
            assert(s[inner - 1] == rest[inner - 1]);
        }
        inner
    } else {
        s.len() as int
    }
}

/// `trimmed(s)` is the stretch of `s` from `from` to `to`, with white space
/// alone outside it and none at its two ends.
pub open spec fn trimmed_between(s: Seq<char>, from: int, to: int) -> bool {
    &&& 0 <= from <= to <= s.len()
    &&& trimmed(s) == s.subrange(from, to)
    &&& forall|i: int| 0 <= i < from ==> is_space(#[trigger] s[i])
    &&& forall|i: int| to <= i < s.len() ==> is_space(#[trigger] s[i])
    &&& (from < to ==> !is_space(s[from]) && !is_space(s[to - 1]))
}

/// Every string has the two places between which `trimmed` keeps it.
pub proof fn lemma_trimmed_shape(s: Seq<char>) -> (cut: (int, int))
    ensures
        trimmed_between(s, cut.0, cut.1),
{
    let from = lemma_leading_space_end(s);
    let start = lemma_trailing_space_start(s);
    let to = if from < s.len() {
        start
    } else {
        from
    };
    if from < s.len() {
        assert(!is_space(s[from]));
        if start <= from {
            assert(is_space(s[from]));
        }
    }
    lemma_trimmed_cuts(s, from, to);
    (from, to)
}

/// What is left after trimming neither starts nor ends in white space.
pub proof fn trimmed_has_no_outer_space(s: Seq<char>)
    ensures
        trimmed(s).len() > 0 ==> !is_space(trimmed(s)[0]) && !is_space(trimmed(s).last()),
{
    let (from, to) = lemma_trimmed_shape(s);
    if from < to {
        assert(trimmed(s)[0] == s[from]);
        assert(trimmed(s).last() == s[to - 1]);
    }
}

/// A string that neither starts nor ends in white space is its own trimmed
/// form.
pub proof fn trimmed_keeps_what_has_no_outer_space(s: Seq<char>)
    requires
        s.len() > 0 ==> !is_space(s[0]) && !is_space(s.last()),
    ensures
        trimmed(s) == s,
{
    lemma_trimmed_cuts(s, 0, s.len() as int);
    assert(s.subrange(0, s.len() as int) =~= s);
}

/// Trimming twice is trimming once.
pub proof fn trimmed_is_idempotent(s: Seq<char>)
    ensures
        trimmed(trimmed(s)) == trimmed(s),
{
    trimmed_has_no_outer_space(s);
    trimmed_keeps_what_has_no_outer_space(trimmed(s));
}

/// Trimming leaves nothing exactly of the strings that are white space
/// throughout.
pub proof fn trimmed_is_empty_iff_all_space(s: Seq<char>)
    ensures
        trimmed(s).len() == 0 <==> (forall|i: int| 0 <= i < s.len() ==> is_space(#[trigger] s[i])),
{
    let (from, to) = lemma_trimmed_shape(s);
    if from < to {
        assert(!is_space(s[from]));
    }
}

/// Trimming removes white space only: a character of `s` that is none stands
/// in `trimmed(s)` too.
pub proof fn trimmed_keeps_non_space(s: Seq<char>, at: int)
    requires
        0 <= at < s.len(),
        !is_space(s[at]),
    ensures
        exists|kept: int| 0 <= kept < trimmed(s).len() && #[trigger] trimmed(s)[kept] == s[at],
{
    let (from, to) = lemma_trimmed_shape(s);
    assert(from <= at < to);
    assert(trimmed(s)[at - from] == s[at]);
}

/// Whether `c` is white space.
pub fn is_space_char(c: char) -> (b: bool)
    ensures
        b == is_space(c),
{
    c == ' ' || ('\u{9}' <= c && c <= '\u{d}') || c == '\u{85}' || c == '\u{a0}' || c
        == '\u{1680}' || ('\u{2000}' <= c && c <= '\u{200a}') || c == '\u{2028}' || c
        == '\u{2029}' || c == '\u{202f}' || c == '\u{205f}' || c == '\u{3000}'
}

/// `c` in ASCII lower case.
pub fn to_lower_char(c: char) -> (r: char)
    ensures
        r == lower_char(c),
{
    if 'A' <= c && c <= 'Z' {
        let code: u8 = c as u8;
        (code + 32) as char
    } else {
        c
    }
}

/// The characters of `s`, in order.
pub fn chars_of(s: &str) -> (out: Vec<char>)
    ensures
        out@ == s@,
{
    let mut out: Vec<char> = Vec::new();
    for c in it: s.chars()
        invariant
            out@ == it.seq().take(it.index() as int),
            it.seq() == s@,
    {
        out.push(c);
    }
    out
}

/// The string made of `chars[from..to]`.
pub fn string_of(chars: &Vec<char>, from: usize, to: usize) -> (out: String)
    requires
        from <= to <= chars.len(),
    ensures
        out@ == chars@.subrange(from as int, to as int),
{
    let mut out = String::new();
    let mut i: usize = from;
    while i < to
        invariant
            from <= i <= to <= chars.len(),
            out@ == chars@.subrange(from as int, i as int),
        decreases to - i,
    {
        out.push(chars[i]);
        assert(chars@.subrange(from as int, i as int).push(chars@[i as int])
            =~= chars@.subrange(from as int, i + 1));
        i += 1;
    }
    out
}

/// `s` without its leading and trailing white space.
pub fn trim(s: &str) -> (out: String)
    ensures
        out@ == trimmed(s@),
{
    let chars = chars_of(s);
    let mut from: usize = 0;
    while from < chars.len() && is_space_char(chars[from])
        invariant
            from <= chars.len(),
            forall|i: int| 0 <= i < from ==> is_space(#[trigger] chars@[i]),
        decreases chars.len() - from,
    {
        from += 1;
    }
    let mut to: usize = chars.len();
    while to > from && is_space_char(chars[to - 1])
        invariant
            from <= to <= chars.len(),
            forall|i: int| to <= i < chars.len() ==> is_space(#[trigger] chars@[i]),
        decreases to - from,
    {
        to -= 1;
    }
    proof {
        lemma_trimmed_cuts(chars@, from as int, to as int);
    }
    string_of(&chars, from, to)
}

/// `s` in ASCII lower case.
pub fn to_lower(s: &str) -> (out: String)
    ensures
        out@ == lowered(s@),
{
    let mut out = String::new();
    for c in it: s.chars()
        invariant
            it.seq() == s@,
            out@ == lowered(s@.take(it.index() as int)),
    {
        proof {
            let before = s@.take(it.index() as int);
            let after = s@.take(it.index() + 1);
            assert(lowered(before).push(lower_char(c)) =~= lowered(after));
        }
        out.push(to_lower_char(c));
    }
    proof {
        assert(s@.take(s@.len() as int) =~= s@);
    }
    out
}

/// Whether `needle` stands in `hay` at `at`.
fn matches_at(hay: &Vec<char>, needle: &Vec<char>, at: usize) -> (b: bool)
    requires
        at + needle.len() <= hay.len(),
    ensures
        b == occurs_at(hay@, needle@, at as int),
{
    let ghost window = hay@.subrange(at as int, at + needle.len());
    let mut j: usize = 0;
    while j < needle.len()
        invariant
            j <= needle.len(),
            at + needle.len() <= hay.len(),
            window == hay@.subrange(at as int, at + needle.len()),
            forall|k: int| 0 <= k < j ==> window[k] == needle@[k],
        decreases needle.len() - j,
    {
        if hay[at + j] != needle[j] {
            assert(window[j as int] != needle@[j as int]);
            return false;
        }
        j += 1;
    }
    assert(window =~= needle@);
    true
}

/// Whether `needle` stands somewhere in `hay`.
pub fn find(hay: &str, needle: &str) -> (b: bool)
    ensures
        b == contains(hay@, needle@),
{
    let text = chars_of(hay);
    let word = chars_of(needle);
    if word.len() > text.len() {
        return false;
    }
    let last: usize = text.len() - word.len();
    let mut at: usize = 0;
    while at < last
        invariant
            at <= last,
            last + word.len() == text.len(),
            text@ == hay@,
            word@ == needle@,
            forall|k: int| 0 <= k < at ==> !occurs_at(hay@, needle@, k),
        decreases last - at,
    {
        if matches_at(&text, &word, at) {
            return true;
        }
        at += 1;
    }
    matches_at(&text, &word, last)
}

} // verus!
