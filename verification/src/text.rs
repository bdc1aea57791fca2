//! Character-level operations on strings.
//!
//! Text is edited and inspected by character position, never by byte offset.

use vstd::prelude::*;
use vstd::string::*;

verus! {

/// Whether a character is white space: one of the 25 characters that have
/// the Unicode property `White_Space`. They are the controls from tab to
/// carriage return, the space, the next line control, the no-break space,
/// the ogham space mark, the spaces of fixed width from U+2000 to U+200A,
/// the line and the paragraph separator, the narrow no-break space, the
/// medium mathematical space and the ideographic space.
pub open spec fn unicode_whitespace(c: char) -> bool {
    ||| '\u{9}' <= c <= '\u{d}'
    ||| c == ' '
    ||| c == '\u{85}'
    ||| c == '\u{a0}'
    ||| c == '\u{1680}'
    ||| '\u{2000}' <= c <= '\u{200a}'
    ||| c == '\u{2028}'
    ||| c == '\u{2029}'
    ||| c == '\u{202f}'
    ||| c == '\u{205f}'
    ||| c == '\u{3000}'
}

/// Whether a character is white space.
pub fn is_space(c: char) -> (b: bool)
    ensures
        b == unicode_whitespace(c),
{
    ('\u{9}' <= c && c <= '\u{d}') || c == ' ' || c == '\u{85}' || c == '\u{a0}' || c == '\u{1680}' || (
    '\u{2000}' <= c && c <= '\u{200a}') || c == '\u{2028}' || c == '\u{2029}' || c == '\u{202f}'
        || c == '\u{205f}' || c == '\u{3000}'
}

/// `String::push`: appends one character to the end of the string.
#[verifier::external_body]
pub(crate) fn push(s: &mut String, c: char)
    ensures
        final(s)@ == old(s)@.push(c),
{
    s.push(c)
}

/// The text with the character `c` inserted before position `index`.
pub open spec fn spec_insert_at(s: Seq<char>, index: int, c: char) -> Seq<char>
    recommends
        0 <= index <= s.len(),
{
    s.subrange(0, index).push(c) + s.subrange(index, s.len() as int)
}

/// The text without the character at position `index`.
pub open spec fn spec_remove_at(s: Seq<char>, index: int) -> Seq<char>
    recommends
        0 <= index < s.len(),
{
    s.subrange(0, index) + s.subrange(index + 1, s.len() as int)
}

/// Concatenates two strings.
pub fn chain(a: &str, b: &str) -> (r: String)
    ensures
        r@ == a@ + b@,
{
    let mut r = String::from_str(a);
    r.append(b);
    r
}

/// Inserts `c` before the character at position `index`.
pub fn insert_at(s: &str, index: usize, c: char) -> (r: String)
    requires
        index <= s@.len(),
    ensures
        r@ == spec_insert_at(s@, index as int, c),
{
    let n = s.unicode_len();
    let mut r = String::from_str(s.substring_char(0, index));
    push(&mut r, c);
    r.append(s.substring_char(index, n));
    r
}

/// Removes the character at position `index`.
pub fn remove_at(s: &str, index: usize) -> (r: String)
    requires
        index < s@.len(),
    ensures
        r@ == spec_remove_at(s@, index as int),
{
    let n = s.unicode_len();
    let mut r = String::from_str(s.substring_char(0, index));
    r.append(s.substring_char(index + 1, n));
    r
}

/// The text without the white space at its end.
pub open spec fn spec_trim_end(s: Seq<char>) -> Seq<char>
    decreases s.len(),
{
    if s.len() > 0 && unicode_whitespace(s.last()) {
        spec_trim_end(s.drop_last())
    } else {
        s
    }
}

/// The text without the white space at its start.
pub open spec fn spec_trim_start(s: Seq<char>) -> Seq<char>
    decreases s.len(),
{
    if s.len() > 0 && unicode_whitespace(s.first()) {
        spec_trim_start(s.drop_first())
    } else {
        s
    }
}

/// The text without the white space at its start and at its end.
pub open spec fn spec_trim(s: Seq<char>) -> Seq<char> {
    spec_trim_end(spec_trim_start(s))
}

/// The text without the characters `c` at its end.
pub open spec fn spec_trim_end_char(s: Seq<char>, c: char) -> Seq<char>
    decreases s.len(),
{
    if s.len() > 0 && s.last() == c {
        spec_trim_end_char(s.drop_last(), c)
    } else {
        s
    }
}

/// The text with every `from` replaced by `to`.
pub open spec fn spec_replace_char(s: Seq<char>, from: char, to: char) -> Seq<char> {
    s.map_values(
        |c: char|
            if c == from {
                to
            } else {
                c
            },
    )
}

/// The number of characters that remain when the white space at the end of
/// the first `end` characters is left out.
fn trimmed_end(s: &str, end: usize) -> (r: usize)
    requires
        end <= s@.len(),
    ensures
        r <= end,
        s@.subrange(0, r as int) == spec_trim_end(s@.subrange(0, end as int)),
{
    let mut r = end;
    while r > 0 && is_space(s.get_char(r - 1))
        invariant
            r <= end <= s@.len(),
            spec_trim_end(s@.subrange(0, r as int)) == spec_trim_end(s@.subrange(0, end as int)),
        decreases r,
    {
        assert(s@.subrange(0, r as int).drop_last() == s@.subrange(0, r - 1));
        r -= 1;
    }
    r
}

/// The number of characters of white space at the start of the text.
fn trimmed_start(s: &str) -> (r: usize)
    ensures
        r <= s@.len(),
        s@.subrange(r as int, s@.len() as int) == spec_trim_start(s@),
{
    let n = s.unicode_len();
    let mut r: usize = 0;
    assert(s@.subrange(0, n as int) == s@);
    while r < n && is_space(s.get_char(r))
        invariant
            r <= n == s@.len(),
            spec_trim_start(s@.subrange(r as int, n as int)) == spec_trim_start(s@),
        decreases n - r,
    {
        assert(s@.subrange(r as int, n as int).drop_first() == s@.subrange(r + 1, n as int));
        r += 1;
    }
    r
}

/// Removes the white space at the end of the text.
pub fn trim_end(s: &str) -> (r: &str)
    ensures
        r@ == spec_trim_end(s@),
{
    let n = s.unicode_len();
    assert(s@.subrange(0, n as int) == s@);
    let end = trimmed_end(s, n);
    s.substring_char(0, end)
}

/// Removes the white space at the start of the text.
pub fn trim_start(s: &str) -> (r: &str)
    ensures
        r@ == spec_trim_start(s@),
{
    let n = s.unicode_len();
    let start = trimmed_start(s);
    s.substring_char(start, n)
}

/// Removes the white space at the start and at the end of the text.
pub fn trim(s: &str) -> (r: &str)
    ensures
        r@ == spec_trim(s@),
{
    let n = s.unicode_len();
    let start = trimmed_start(s);
    let rest = s.substring_char(start, n);
    trim_end(rest)
}

/// Removes every `c` at the end of the text.
pub fn trim_end_char(s: &str, c: char) -> (r: &str)
    ensures
        r@ == spec_trim_end_char(s@, c),
{
    let n = s.unicode_len();
    let mut end = n;
    assert(s@.subrange(0, n as int) == s@);
    while end > 0 && s.get_char(end - 1) == c
        invariant
            end <= n == s@.len(),
            spec_trim_end_char(s@.subrange(0, end as int), c) == spec_trim_end_char(s@, c),
        decreases end,
    {
        assert(s@.subrange(0, end as int).drop_last() == s@.subrange(0, end - 1));
        end -= 1;
    }
    s.substring_char(0, end)
}

/// Replaces every `from` by `to`.
pub fn replace_char(s: &str, from: char, to: char) -> (r: String)
    ensures
        r@ == spec_replace_char(s@, from, to),
{
    let n = s.unicode_len();
    let mut r = String::new();
    let mut i: usize = 0;
    while i < n
        invariant
            i <= n == s@.len(),
            r@ == spec_replace_char(s@.subrange(0, i as int), from, to),
        decreases n - i,
    {
        let c = s.get_char(i);
        push(
            &mut r,
            if c == from {
                to
            } else {
                c
            },
        );
        assert(r@ =~= spec_replace_char(s@.subrange(0, i + 1), from, to));
        i += 1;
    }
    assert(s@.subrange(0, n as int) == s@);
    r
}

/// The pieces of the text between the occurrences of `sep`, in order: one
/// more than there are occurrences. A piece is empty where two occurrences
/// are adjacent or one is at an end of the text.
pub open spec fn spec_split(s: Seq<char>, sep: char) -> Seq<Seq<char>>
    decreases s.len(),
{
    if s.len() == 0 {
        seq![Seq::empty()]
    } else {
        let before = spec_split(s.drop_last(), sep);
        if s.last() == sep {
            before.push(Seq::empty())
        } else {
            before.drop_last().push(before.last().push(s.last()))
        }
    }
}

/// Splits the text at every `sep`.
pub fn split(s: &str, sep: char) -> (r: Vec<String>)
    ensures
        r.deep_view() == spec_split(s@, sep),
        r.len() >= 1,
{
    let n = s.unicode_len();
    let mut pieces: Vec<String> = Vec::new();
    let mut current = String::new();
    let mut i: usize = 0;
    assert(pieces.deep_view().push(current@) =~= spec_split(s@.subrange(0, 0), sep));
    while i < n
        invariant
            i <= n == s@.len(),
            pieces.deep_view().push(current@) == spec_split(s@.subrange(0, i as int), sep),
        decreases n - i,
    {
        let c = s.get_char(i);
        let ghost before = spec_split(s@.subrange(0, i as int), sep);
        let ghost old_pieces = pieces.deep_view();
        let ghost old_current = current@;
        assert(s@.subrange(0, i + 1).drop_last() == s@.subrange(0, i as int));
        assert(before.drop_last() =~= old_pieces);
        assert(before.last() == old_current);
        if c == sep {
            pieces.push(current);
            current = String::new();
            assert(pieces.deep_view() =~= old_pieces.push(old_current));
        } else {
            push(&mut current, c);
        }
        i += 1;
    }
    assert(s@.subrange(0, n as int) == s@);
    let ghost heads = pieces.deep_view();
    pieces.push(current);
    assert(pieces.deep_view() =~= heads.push(current@));
    pieces
}

/// The text with every occurrence of `from` replaced by `to`: the
/// occurrences are found from the start of the text, and none overlaps
/// another. An empty `from` occurs nowhere.
pub open spec fn spec_replace(s: Seq<char>, from: Seq<char>, to: Seq<char>) -> Seq<char>
    decreases s.len(),
{
    if from.len() == 0 || s.len() < from.len() {
        s
    } else if s.take(from.len() as int) == from {
        to + spec_replace(s.skip(from.len() as int), from, to)
    } else {
        seq![s.first()] + spec_replace(s.drop_first(), from, to)
    }
}

/// Whether `pattern` stands in the text at position `at`.
fn stands_at(s: &str, at: usize, pattern: &str) -> (r: bool)
    requires
        at + pattern@.len() <= s@.len(),
    ensures
        r == (s@.subrange(at as int, at + pattern@.len()) == pattern@),
{
    let n = s.unicode_len();
    let m = pattern.unicode_len();
    let mut j: usize = 0;
    while j < m
        invariant
            j <= m == pattern@.len(),
            at + m <= s@.len() == n,
            forall|k: int| 0 <= k < j ==> s@[at + k] == pattern@[k],
        decreases m - j,
    {
        if s.get_char(at + j) != pattern.get_char(j) {
            assert(s@.subrange(at as int, at + m)[j as int] != pattern@[j as int]);
            return false;
        }
        j += 1;
    }
    assert(s@.subrange(at as int, at + m) =~= pattern@);
    true
}

/// Replaces every occurrence of `from` by `to`.
pub fn replace(s: &str, from: &str, to: &str) -> (r: String)
    ensures
        r@ == spec_replace(s@, from@, to@),
{
    let n = s.unicode_len();
    let m = from.unicode_len();
    if m == 0 {
        return String::from_str(s);
    }
    let mut out = String::new();
    let mut i: usize = 0;
    assert(s@.skip(0) == s@);
    while i < n && n - i >= m
        invariant
            i <= n == s@.len(),
            0 < m == from@.len(),
            out@ + spec_replace(s@.skip(i as int), from@, to@) == spec_replace(s@, from@, to@),
        decreases n - i,
    {
        let ghost rest = s@.skip(i as int);
        assert(rest.take(m as int) == s@.subrange(i as int, i + m));
        if stands_at(s, i, from) {
            assert(rest.skip(m as int) == s@.skip(i + m));
            let ghost before = out@;
            out.append(to);
            assert(out@ + spec_replace(s@.skip(i + m), from@, to@) =~= before + spec_replace(
                rest,
                from@,
                to@,
            )) by {
                assert(spec_replace(rest, from@, to@) == to@ + spec_replace(
                    rest.skip(m as int),
                    from@,
                    to@,
                ));
            }
            i += m;
        } else {
            assert(rest.drop_first() == s@.skip(i + 1));
            let ghost before = out@;
            push(&mut out, s.get_char(i));
            assert(out@ + spec_replace(s@.skip(i + 1), from@, to@) =~= before + spec_replace(
                rest,
                from@,
                to@,
            )) by {
                assert(spec_replace(rest, from@, to@) == seq![rest.first()] + spec_replace(
                    rest.drop_first(),
                    from@,
                    to@,
                ));
            }
            i += 1;
        }
    }
    assert(spec_replace(s@.skip(i as int), from@, to@) == s@.skip(i as int));
    assert(s@.skip(i as int) == s@.subrange(i as int, n as int));
    out.append(s.substring_char(i, n));
    out
}

/// Whether the text holds the character `c`.
pub fn contains_char(s: &str, c: char) -> (r: bool)
    ensures
        r == s@.contains(c),
{
    let n = s.unicode_len();
    let mut i: usize = 0;
    while i < n
        invariant
            i <= n == s@.len(),
            forall|j: int| 0 <= j < i ==> s@[j] != c,
        decreases n - i,
    {
        if s.get_char(i) == c {
            return true;
        }
        i += 1;
    }
    false
}

/// Whether two texts are the same.
pub fn same_text(a: &str, b: &str) -> (r: bool)
    ensures
        r == (a@ == b@),
{
    let x = String::from_str(a);
    let y = String::from_str(b);
    x == y
}

/// An independent copy of an optional string.
pub fn clone_option(value: &Option<String>) -> (r: Option<String>)
    ensures
        r == *value,
{
    match value {
        Some(text) => Some(text.clone()),
        None => None,
    }
}

/// An independent copy of a list of strings.
pub fn clone_strings(values: &Vec<String>) -> (r: Vec<String>)
    ensures
        r@ == values@,
{
    let mut r: Vec<String> = Vec::new();
    let mut i: usize = 0;
    while i < values.len()
        invariant
            i <= values.len(),
            r@ == values@.subrange(0, i as int),
        decreases values.len() - i,
    {
        r.push(values[i].clone());
        assert(r@ == values@.subrange(0, i + 1));
        i += 1;
    }
    assert(r@ == values@);
    r
}

} // verus!
