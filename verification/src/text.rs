//! Text operations on strings, stated over sequences of characters.

use vstd::prelude::*;

verus! {

/// Unicode `White_Space`.
pub open spec fn white_space(c: char) -> bool {
    ||| '\u{9}' <= c <= '\u{d}'
    ||| c == '\u{20}'
    ||| c == '\u{85}'
    ||| c == '\u{a0}'
    ||| c == '\u{1680}'
    ||| '\u{2000}' <= c <= '\u{200a}'
    ||| c == '\u{2028}'
    ||| c == '\u{2029}'
    ||| c == '\u{202f}'
    ||| c == '\u{205f}'
    ||| c == '\u{3000}'
}

/// Whether a character is white space.
pub fn is_white_space(c: char) -> (yes: bool)
    ensures
        yes == white_space(c),
{
    ('\u{9}' <= c && c <= '\u{d}') || c == '\u{20}' || c == '\u{85}' || c == '\u{a0}'
        || c == '\u{1680}' || ('\u{2000}' <= c && c <= '\u{200a}') || c == '\u{2028}'
        || c == '\u{2029}' || c == '\u{202f}' || c == '\u{205f}' || c == '\u{3000}'
}

/// A text without its leading white space.
pub open spec fn without_leading(s: Seq<char>) -> Seq<char>
    decreases s.len(),
{
    if s.len() > 0 && white_space(s[0]) {
        without_leading(s.skip(1))
    } else {
        s
    }
}

/// A text without its trailing white space.
pub open spec fn without_trailing(s: Seq<char>) -> Seq<char>
    decreases s.len(),
{
    if s.len() > 0 && white_space(s.last()) {
        without_trailing(s.drop_last())
    } else {
        s
    }
}

/// A text without its leading and trailing white space.
pub open spec fn trimmed(s: Seq<char>) -> Seq<char> {
    without_trailing(without_leading(s))
}

/// The position of the first `c`, or the length where there is none.
pub open spec fn first_pos(s: Seq<char>, c: char) -> int
    decreases s.len(),
{
    if s.len() == 0 || s[0] == c {
        0
    } else {
        1 + first_pos(s.skip(1), c)
    }
}

/// The position of the last `c`, or -1 where there is none.
pub open spec fn last_pos(s: Seq<char>, c: char) -> int
    decreases s.len(),
{
    if s.len() == 0 || s.last() == c {
        s.len() - 1
    } else {
        last_pos(s.drop_last(), c)
    }
}

/// What stands before the first `c`: the whole text where there is none.
pub open spec fn first_segment(s: Seq<char>, c: char) -> Seq<char> {
    s.take(first_pos(s, c))
}

/// What stands behind the last `c`: the whole text where there is none.
pub open spec fn last_segment(s: Seq<char>, c: char) -> Seq<char> {
    s.skip(last_pos(s, c) + 1)
}

/// The last segment but one: empty where there is no `c`.
pub open spec fn segment_before_last(s: Seq<char>, c: char) -> Seq<char> {
    if last_pos(s, c) >= 0 {
        last_segment(s.take(last_pos(s, c)), c)
    } else {
        Seq::empty()
    }
}

/// The segments of a text between the occurrences of `c`.
pub open spec fn segments(s: Seq<char>, c: char) -> Seq<Seq<char>>
    decreases s.len(),
{
    if s.contains(c) {
        proof {
            lemma_first_pos(s, c);
        }
        seq![first_segment(s, c)] + segments(s.skip(first_pos(s, c) + 1), c)
    } else {
        seq![s]
    }
}

/// A text in which an escaped dot, `\.`, is read as a dot.
pub open spec fn unescaped(s: Seq<char>) -> Seq<char>
    decreases s.len(),
{
    if s.len() == 0 {
        s
    } else if s.len() > 1 && s[0] == '\\' && s[1] == '.' {
        seq!['.'] + unescaped(s.skip(2))
    } else {
        seq![s[0]] + unescaped(s.skip(1))
    }
}

/// How often `c` stands in a text.
pub open spec fn count_char(s: Seq<char>, c: char) -> nat
    decreases s.len(),
{
    if s.len() == 0 {
        0
    } else {
        count_char(s.drop_last(), c) + if s.last() == c { 1nat } else { 0nat }
    }
}

pub proof fn lemma_first_pos(s: Seq<char>, c: char)
    ensures
        0 <= first_pos(s, c) <= s.len(),
        first_pos(s, c) < s.len() <==> s.contains(c),
        first_pos(s, c) < s.len() ==> s[first_pos(s, c)] == c,
        forall|i: int| 0 <= i < first_pos(s, c) ==> s[i] != c,
    decreases s.len(),
{
    if s.len() == 0 || s[0] == c {
    } else {
        let t = s.skip(1);
        lemma_first_pos(t, c);
        assert forall|i: int| 0 <= i < first_pos(s, c) implies s[i] != c by {
            if i > 0 {
                assert(s[i] == t[i - 1]);
            }
        }
        if s.contains(c) {
            let i = choose|i: int| 0 <= i < s.len() && s[i] == c;
            assert(t[i - 1] == c);
        }
        if t.contains(c) {
            assert(s[first_pos(s, c)] == t[first_pos(t, c)]);
        }
    }
}

pub proof fn lemma_last_pos(s: Seq<char>, c: char)
    ensures
        -1 <= last_pos(s, c) < s.len(),
        last_pos(s, c) >= 0 <==> s.contains(c),
        last_pos(s, c) >= 0 ==> s[last_pos(s, c)] == c,
        forall|i: int| last_pos(s, c) < i < s.len() ==> s[i] != c,
    decreases s.len(),
{
    if s.len() == 0 || s.last() == c {
    } else {
        let t = s.drop_last();
        lemma_last_pos(t, c);
        assert forall|i: int| last_pos(s, c) < i < s.len() implies s[i] != c by {
            if i < s.len() - 1 {
                assert(s[i] == t[i]);
            }
        }
        if s.contains(c) {
            let i = choose|i: int| 0 <= i < s.len() && s[i] == c;
            assert(t[i] == c);
        }
        if t.contains(c) {
            assert(s[last_pos(s, c)] == t[last_pos(t, c)]);
        }
    }
}

/// The position that the properties of `last_pos` fix is `last_pos`.
pub proof fn lemma_last_pos_unique(s: Seq<char>, c: char, p: int)
    requires
        -1 <= p < s.len(),
        p >= 0 ==> s[p] == c,
        forall|i: int| p < i < s.len() ==> s[i] != c,
    ensures
        last_pos(s, c) == p,
{
    lemma_last_pos(s, c);
    if p >= 0 {
        assert(s.contains(c));
    }
}

/// The last segment holds no separator.
pub proof fn lemma_last_segment(s: Seq<char>, c: char)
    ensures
        !last_segment(s, c).contains(c),
{
    lemma_last_pos(s, c);
    let t = last_segment(s, c);
    if t.contains(c) {
        let i = choose|i: int| 0 <= i < t.len() && t[i] == c;
        assert(s[last_pos(s, c) + 1 + i] == c);
    }
}

/// To read escaped dots as dots brings no other character into a text.
pub proof fn lemma_unescaped(s: Seq<char>, c: char)
    requires
        !s.contains(c),
        c != '.',
    ensures
        !unescaped(s).contains(c),
    decreases s.len(),
{
    if s.len() > 0 {
        let n: int = if s.len() > 1 && s[0] == '\\' && s[1] == '.' {
            2
        } else {
            1
        };
        let rest = s.skip(n);
        if rest.contains(c) {
            let i = choose|i: int| 0 <= i < rest.len() && rest[i] == c;
            assert(s[i + n] == c);
        }
        lemma_unescaped(rest, c);
        let t = unescaped(s);
        if t.contains(c) {
            let i = choose|i: int| 0 <= i < t.len() && t[i] == c;
            if i == 0 {
                assert(s[0] == c);
            } else {
                assert(unescaped(rest)[i - 1] == c);
            }
        }
    }
}

/// `String::push` puts one character behind a string.
pub assume_specification[ String::push ](s: &mut String, c: char)
    ensures
        final(s)@ == old(s)@.push(c),
;

/// What `str::to_lowercase` makes of a text.
pub uninterp spec fn lowercase(text: Seq<char>) -> Seq<char>;

/// Calls `str::to_lowercase`, which maps a text to its Unicode lower case.
#[verifier::external_body]
pub(crate) fn to_lowercase(text: &str) -> (lower: String)
    ensures
        lower@ == lowercase(text@),
{
    text.to_lowercase()
}

/// Whether two texts are the same.
pub fn same(a: &str, b: &str) -> (yes: bool)
    ensures
        yes == (a@ == b@),
{
    a.to_owned() == b.to_owned()
}

/// Whether `c` stands in a text.
pub fn has_char(s: &str, c: char) -> (yes: bool)
    ensures
        yes == s@.contains(c),
{
    for x in iter: s.chars()
        invariant
            iter.seq() == s@,
            forall|i: int| 0 <= i < iter.index() ==> s@[i] != c,
    {
        if x == c {
            assert(s@[iter.index() as int] == c);
            return true;
        }
    }
    false
}

/// The position of the first `c`, or the number of characters where there is none.
fn first_position(s: &str, c: char) -> (p: usize)
    ensures
        p == first_pos(s@, c),
{
    let n: usize = s.unicode_len();
    let mut p: usize = 0;
    assert(s@.skip(0) == s@);
    for x in iter: s.chars()
        invariant
            iter.seq() == s@,
            n == s@.len(),
            p == iter.index(),
            first_pos(s@, c) == p + first_pos(s@.skip(p as int), c),
    {
        if x == c {
            return p;
        }
        assert(s@.skip(p as int).skip(1) == s@.skip(p + 1));
        p += 1;
    }
    p
}

/// The position of the last `c`, counted from 1, or 0 where there is none.
fn behind_last_position(s: &str, c: char) -> (p: usize)
    ensures
        p == last_pos(s@, c) + 1,
{
    let n: usize = s.unicode_len();
    let mut p: usize = 0;
    let mut i: usize = 0;
    for x in iter: s.chars()
        invariant
            iter.seq() == s@,
            n == s@.len(),
            i == iter.index(),
            p == last_pos(s@.take(i as int), c) + 1,
    {
        assert(s@.take(i + 1).drop_last() == s@.take(i as int));
        i += 1;
        if x == c {
            p = i;
        }
    }
    assert(s@.take(n as int) == s@);
    p
}

/// What stands before the first `c`.
pub fn before_first(s: &str, c: char) -> (head: &str)
    ensures
        head@ == first_segment(s@, c),
{
    proof {
        lemma_first_pos(s@, c);
    }
    s.substring_char(0, first_position(s, c))
}

/// What stands behind the last `c`.
pub fn behind_last(s: &str, c: char) -> (tail: &str)
    ensures
        tail@ == last_segment(s@, c),
{
    proof {
        lemma_last_pos(s@, c);
    }
    let n: usize = s.unicode_len();
    s.substring_char(behind_last_position(s, c), n)
}

/// The last segment but one.
pub fn before_last_segment(s: &str, c: char) -> (segment: &str)
    ensures
        segment@ == segment_before_last(s@, c),
{
    proof {
        lemma_last_pos(s@, c);
    }
    let p: usize = behind_last_position(s, c);
    if p == 0 {
        s.substring_char(0, 0)
    } else {
        behind_last(s.substring_char(0, p - 1), c)
    }
}

/// The text without leading and trailing white space.
pub fn trim(s: &str) -> (core: &str)
    ensures
        core@ == trimmed(s@),
{
    let n: usize = s.unicode_len();
    let mut i: usize = 0;
    assert(s@.skip(0) == s@);
    while i < n && is_white_space(s.get_char(i))
        invariant
            n == s@.len(),
            i <= n,
            without_leading(s@) == without_leading(s@.skip(i as int)),
        decreases n - i,
    {
        assert(s@.skip(i as int).skip(1) == s@.skip(i + 1));
        i += 1;
    }
    let mut j: usize = n;
    assert(without_leading(s@) == s@.subrange(i as int, n as int));
    while j > i && is_white_space(s.get_char(j - 1))
        invariant
            n == s@.len(),
            i <= j <= n,
            trimmed(s@) == without_trailing(s@.subrange(i as int, j as int)),
        decreases j,
    {
        assert(s@.subrange(i as int, j as int).drop_last() == s@.subrange(i as int, j - 1));
        j -= 1;
    }
    s.substring_char(i, j)
}

/// The segments of a text between the occurrences of `c`.
pub fn split(s: &str, c: char) -> (parts: Vec<String>)
    ensures
        parts.deep_view() == segments(s@, c),
{
    let n: usize = s.unicode_len();
    let mut parts: Vec<String> = Vec::new();
    let mut start: usize = 0;
    assert(s@.skip(0) == s@);
    assert(parts.deep_view() + segments(s@, c) == segments(s@, c));
    loop
        invariant
            n == s@.len(),
            start <= n,
            segments(s@, c) == parts.deep_view() + segments(s@.skip(start as int), c),
        decreases n - start,
    {
        let tail = s.substring_char(start, n);
        let ghost before = parts.deep_view();
        assert(tail@ == s@.skip(start as int));
        let p: usize = first_position(tail, c);
        proof {
            lemma_first_pos(tail@, c);
        }
        if p == n - start {
            parts.push(tail.to_owned());
            assert(parts.deep_view() == before + seq![tail@]);
            return parts;
        }
        parts.push(tail.substring_char(0, p).to_owned());
        assert(parts.deep_view() == before + seq![first_segment(tail@, c)]);
        assert(tail@.skip(p + 1) == s@.skip(start + p + 1));
        start = start + p + 1;
    }
}

/// The text in which an escaped dot is read as a dot.
pub fn unescape(s: &str) -> (plain: String)
    ensures
        plain@ == unescaped(s@),
{
    let mut plain = String::new();
    let mut slash = false;
    assert(plain@ + unescaped(pending_slash(slash) + s@.skip(0)) == unescaped(s@)) by {
        assert(pending_slash(slash) + s@.skip(0) == s@);
    }
    for c in iter: s.chars()
        invariant
            iter.seq() == s@,
            plain@ + unescaped(pending_slash(slash) + s@.skip(iter.index() as int)) == unescaped(
                s@,
            ),
    {
        let ghost i = iter.index() as int;
        let ghost left = pending_slash(slash) + s@.skip(i);
        let ghost before = plain@;
        let ghost rest = s@.skip(i + 1);
        assert(s@.skip(i) == seq![c] + rest);
        if slash && c == '.' {
            assert(left.skip(2) == rest);
            plain.push('.');
            slash = false;
            assert(pending_slash(slash) + rest == rest);
            assert(plain@ + unescaped(rest) == before + (seq!['.'] + unescaped(rest)));
        } else if c == '\\' {
            if slash {
                assert(left.skip(1) == seq!['\\'] + rest);
                plain.push('\\');
                assert(plain@ + unescaped(seq!['\\'] + rest) == before + (seq!['\\'] + unescaped(
                    seq!['\\'] + rest,
                )));
            }
            slash = true;
        } else {
            let ghost tail = seq![c] + rest;
            assert(tail.skip(1) == rest);
            if slash {
                assert(left.skip(1) == tail);
                plain.push('\\');
            }
            plain.push(c);
            assert(unescaped(tail) == seq![c] + unescaped(rest));
            assert(plain@ + unescaped(rest) == before + unescaped(left));
            slash = false;
            assert(pending_slash(slash) + rest == rest);
        }
    }
    let ghost end = pending_slash(slash) + s@.skip(s@.len() as int);
    assert(end == pending_slash(slash));
    if slash {
        assert(unescaped(end) == seq!['\\']) by {
            reveal_with_fuel(unescaped, 2);
            assert(end.skip(1) == Seq::<char>::empty());
        }
        plain.push('\\');
    }
    assert(plain@ == unescaped(s@));
    plain
}

/// The backslash that was read and not yet written, if any.
spec fn pending_slash(slash: bool) -> Seq<char> {
    if slash {
        seq!['\\']
    } else {
        Seq::empty()
    }
}

/// Whether a text begins with `prefix`.
pub fn starts_with(s: &str, prefix: &str) -> (yes: bool)
    ensures
        yes == prefix@.is_prefix_of(s@),
{
    let n: usize = prefix.unicode_len();
    s.unicode_len() >= n && same(s.substring_char(0, n), prefix)
}

/// Whether a text ends with `suffix`.
pub fn ends_with(s: &str, suffix: &str) -> (yes: bool)
    ensures
        yes == suffix@.is_suffix_of(s@),
{
    let n: usize = suffix.unicode_len();
    let len: usize = s.unicode_len();
    len >= n && same(s.substring_char(len - n, len), suffix)
}

/// How often `c` stands in a text.
pub fn occurrences(s: &str, c: char) -> (count: usize)
    ensures
        count == count_char(s@, c),
{
    let n: usize = s.unicode_len();
    let mut count: usize = 0;
    for x in iter: s.chars()
        invariant
            iter.seq() == s@,
            n == s@.len(),
            count <= iter.index(),
            count == count_char(s@.take(iter.index() as int), c),
    {
        assert(s@.take(iter.index() + 1).drop_last() == s@.take(iter.index() as int));
        if x == c {
            count += 1;
        }
    }
    assert(s@.take(n as int) == s@);
    count
}

/// Whether a text stands in a list.
pub fn lists(list: &Vec<String>, x: &str) -> (yes: bool)
    ensures
        yes == list.deep_view().contains(x@),
{
    let mut i: usize = 0;
    while i < list.len()
        invariant
            i <= list@.len(),
            forall|j: int| 0 <= j < i ==> list.deep_view()[j] != x@,
        decreases list@.len() - i,
    {
        if same(&list[i], x) {
            assert(list.deep_view()[i as int] == x@);
            return true;
        }
        i += 1;
    }
    false
}

} // verus!
