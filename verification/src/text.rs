//! Character-level operations on text: white space, trimming, splitting on a
//! separator and comparing ranges. Text is modelled as `Seq<char>`.

use vstd::prelude::*;
use vstd::std_specs::iter::IteratorSpec;
use vstd::string::{StrSliceExecFns, StringExecFns};

verus! {

/// Whether a character has the Unicode property `White_Space`.
pub open spec fn is_space(c: char) -> bool {
    let n = c as u32;
    ||| 0x09 <= n <= 0x0D
    ||| n == 0x20
    ||| n == 0x85
    ||| n == 0xA0
    ||| n == 0x1680
    ||| 0x2000 <= n <= 0x200A
    ||| n == 0x2028
    ||| n == 0x2029
    ||| n == 0x202F
    ||| n == 0x205F
    ||| n == 0x3000
}

/// Tells whether a character is white space.
pub fn is_whitespace(c: char) -> (r: bool)
    ensures
        r == is_space(c),
{
    let n: u32 = c as u32;
    (0x09 <= n && n <= 0x0D) || n == 0x20 || n == 0x85 || n == 0xA0 || n == 0x1680 || (0x2000 <= n
        && n <= 0x200A) || n == 0x2028 || n == 0x2029 || n == 0x202F || n == 0x205F || n == 0x3000
}

/// The text without its leading white space.
pub open spec fn trim_start(s: Seq<char>) -> Seq<char>
    decreases s.len(),
{
    if s.len() > 0 && is_space(s.first()) {
        trim_start(s.drop_first())
    } else {
        s
    }
}

/// The text without its trailing white space.
pub open spec fn trim_end(s: Seq<char>) -> Seq<char>
    decreases s.len(),
{
    if s.len() > 0 && is_space(s.last()) {
        trim_end(s.drop_last())
    } else {
        s
    }
}

/// The text without leading and trailing white space.
pub open spec fn trimmed(s: Seq<char>) -> Seq<char> {
    trim_end(trim_start(s))
}

/// The segments of a text between occurrences of a separator, in order. A text
/// with `n` separators has `n + 1` segments, some of which may be empty.
pub open spec fn split(s: Seq<char>, sep: char) -> Seq<Seq<char>>
    decreases s.len(),
{
    if s.len() == 0 {
        seq![Seq::empty()]
    } else {
        let before = split(s.drop_last(), sep);
        if s.last() == sep {
            before.push(Seq::empty())
        } else {
            before.drop_last().push(before.last().push(s.last()))
        }
    }
}

/// The index of the first part equal to `token`, or the number of parts if
/// there is none.
pub open spec fn position(parts: Seq<Seq<char>>, token: Seq<char>) -> int
    decreases parts.len(),
{
    if parts.len() == 0 {
        0
    } else if parts.first() == token {
        0
    } else {
        1 + position(parts.drop_first(), token)
    }
}

/// The pieces that a list of bounds cuts out of a text.
pub open spec fn cut(s: Seq<char>, bounds: Seq<(usize, usize)>) -> Seq<Seq<char>> {
    Seq::new(bounds.len(), |i: int| s.subrange(bounds[i].0 as int, bounds[i].1 as int))
}

/// Whether every pair of a list of bounds is a range of a text of length `len`.
pub open spec fn within(bounds: Seq<(usize, usize)>, len: nat) -> bool {
    forall|i: int| 0 <= i < bounds.len() ==> (#[trigger] bounds[i]).0 <= bounds[i].1 <= len
}

/// Whether a list of bounds covers a text of length `len` from its start to
/// its end, leaving out one character between each range and the next.
pub open spec fn covers(bounds: Seq<(usize, usize)>, len: nat) -> bool {
    &&& bounds.len() > 0
    &&& bounds.first().0 == 0
    &&& bounds.last().1 == len
    &&& forall|i: int| 0 <= i < bounds.len() - 1 ==> (#[trigger] bounds[i]).1 + 1 == bounds[i + 1].0
}

/// Skipping the first `a` characters trims the start, where these are all
/// white space and the next one is not.
pub proof fn lemma_trim_start(s: Seq<char>, a: int)
    requires
        0 <= a <= s.len(),
        forall|i: int| 0 <= i < a ==> is_space(s[i]),
        a < s.len() ==> !is_space(s[a]),
    ensures
        trim_start(s) == s.skip(a),
    decreases a,
{
    if a == 0 {
        assert(s.skip(0) =~= s);
    } else {
        assert(is_space(s[0]));
        let rest = s.drop_first();
        assert forall|i: int| 0 <= i < a - 1 implies is_space(rest[i]) by {
            assert(rest[i] == s[i + 1]);
        }
        lemma_trim_start(rest, a - 1);
        assert(rest.skip(a - 1) =~= s.skip(a));
    }
}

/// Keeping the first `b` characters trims the end, where the others are all
/// white space and the last one kept is not.
pub proof fn lemma_trim_end(s: Seq<char>, b: int)
    requires
        0 <= b <= s.len(),
        forall|i: int| b <= i < s.len() ==> is_space(s[i]),
        0 < b ==> !is_space(s[b - 1]),
    ensures
        trim_end(s) == s.take(b),
    decreases s.len() - b,
{
    if b == s.len() {
        assert(s.take(b) =~= s);
    } else {
        assert(is_space(s[s.len() - 1]));
        let rest = s.drop_last();
        lemma_trim_end(rest, b);
        assert(rest.take(b) =~= s.take(b));
    }
}

/// `position` is the least index of a part equal to the token.
pub proof fn lemma_position(parts: Seq<Seq<char>>, token: Seq<char>, i: int)
    requires
        0 <= i <= parts.len(),
        forall|j: int| 0 <= j < i ==> parts[j] != token,
        i < parts.len() ==> parts[i] == token,
    ensures
        position(parts, token) == i,
    decreases i,
{
    if i > 0 {
        assert(parts[0] != token);
        let rest = parts.drop_first();
        assert forall|j: int| 0 <= j < i - 1 implies rest[j] != token by {
            assert(rest[j] == parts[j + 1]);
        }
        lemma_position(rest, token, i - 1);
    }
}

/// What `position` returns is in range, points at the token if it is an
/// index, and no earlier part is the token.
pub proof fn lemma_position_is_first(parts: Seq<Seq<char>>, token: Seq<char>)
    ensures
        0 <= position(parts, token) <= parts.len(),
        position(parts, token) < parts.len() ==> parts[position(parts, token)] == token,
        forall|j: int| 0 <= j < position(parts, token) ==> parts[j] != token,
    decreases parts.len(),
{
    if parts.len() > 0 && parts.first() != token {
        let rest = parts.drop_first();
        lemma_position_is_first(rest, token);
        assert forall|j: int| 0 <= j < position(parts, token) implies parts[j] != token by {
            if j > 0 {
                assert(parts[j] == rest[j - 1]);
            }
        }
    }
}

/// A text has at least one segment.
pub proof fn lemma_split_len(s: Seq<char>, sep: char)
    ensures
        split(s, sep).len() >= 1,
    decreases s.len(),
{
    if s.len() > 0 {
        lemma_split_len(s.drop_last(), sep);
    }
}

/// The text that a list of parts makes when the separator is put between
/// each part and the next.
pub open spec fn joined(parts: Seq<Seq<char>>, sep: char) -> Seq<char>
    decreases parts.len(),
{
    if parts.len() == 0 {
        Seq::empty()
    } else if parts.len() == 1 {
        parts[0]
    } else {
        joined(parts.drop_last(), sep).push(sep) + parts.last()
    }
}

/// The segments of a text are free of the separator, and put together with
/// the separator between them they make the text again.
pub proof fn law_split_joins(s: Seq<char>, sep: char)
    ensures
        joined(split(s, sep), sep) == s,
        forall|i: int, j: int|
            0 <= i < split(s, sep).len() && 0 <= j < split(s, sep)[i].len() ==> split(
                s,
                sep,
            )[i][j] != sep,
    decreases s.len(),
{
    if s.len() == 0 {
        assert(joined(split(s, sep), sep) =~= s);
    } else {
        let shorter = s.drop_last();
        let c = s.last();
        let before = split(shorter, sep);
        let parts = split(s, sep);
        law_split_joins(shorter, sep);
        lemma_split_len(shorter, sep);
        if c == sep {
            assert(parts.drop_last() =~= before);
            assert(joined(parts, sep) =~= shorter.push(sep));
        } else if before.len() == 1 {
            assert(joined(parts, sep) =~= shorter.push(c));
        } else {
            assert(parts.drop_last() =~= before.drop_last());
            assert(joined(parts, sep) =~= joined(before, sep).push(c));
        }
        assert(shorter.push(c) =~= s);
        assert forall|i: int, j: int|
            0 <= i < parts.len() && 0 <= j < parts[i].len() implies parts[i][j] != sep by {
            if i < before.len() - 1 {
                assert(parts[i] == before[i]);
            } else if i == before.len() - 1 && c != sep && j < before[i].len() {
                assert(parts[i][j] == before[i][j]);
            }
        }
    }
}

/// Characters other than the separator, put behind a text, go to its last
/// segment.
pub proof fn lemma_split_append(s: Seq<char>, tail: Seq<char>, sep: char)
    requires
        forall|i: int| 0 <= i < tail.len() ==> tail[i] != sep,
    ensures
        split(s + tail, sep) == split(s, sep).drop_last().push(split(s, sep).last() + tail),
    decreases tail.len(),
{
    let parts = split(s, sep);
    lemma_split_len(s, sep);
    if tail.len() == 0 {
        assert(s + tail =~= s);
        assert(parts.last() + tail =~= parts.last());
        assert(parts.drop_last().push(parts.last()) =~= parts);
    } else {
        let shorter = tail.drop_last();
        lemma_split_append(s, shorter, sep);
        assert((s + tail).drop_last() =~= s + shorter);
        let before = split(s + shorter, sep);
        assert(before.drop_last() =~= parts.drop_last());
        assert((parts.last() + shorter).push(tail.last()) =~= parts.last() + tail);
    }
}

/// A text without the separator is its own single segment.
pub proof fn lemma_split_plain(s: Seq<char>, sep: char)
    requires
        forall|i: int| 0 <= i < s.len() ==> s[i] != sep,
    ensures
        split(s, sep) == seq![s],
{
    let empty = Seq::<char>::empty();
    lemma_split_append(empty, s, sep);
    assert(empty + s =~= s);
    assert(split(empty, sep).drop_last().push(split(empty, sep).last() + s) =~= seq![s]);
}

/// Characters other than the separator, put before a text, go to its first
/// segment.
pub proof fn lemma_split_prepend(head: Seq<char>, s: Seq<char>, sep: char)
    requires
        forall|i: int| 0 <= i < head.len() ==> head[i] != sep,
    ensures
        split(head + s, sep) == split(s, sep).update(0, head + split(s, sep)[0]),
    decreases s.len(),
{
    lemma_split_len(s, sep);
    if s.len() == 0 {
        lemma_split_plain(head, sep);
        assert(head + s =~= head);
        assert(head + Seq::<char>::empty() =~= head);
        assert(split(s, sep).update(0, head + split(s, sep)[0]) =~= seq![head]);
    } else {
        let shorter = s.drop_last();
        let c = s.last();
        lemma_split_prepend(head, shorter, sep);
        lemma_split_len(shorter, sep);
        assert((head + s).drop_last() =~= head + shorter);
        assert((head + s).last() == c);
        let before = split(shorter, sep);
        let grown = split(head + shorter, sep);
        assert(grown == before.update(0, head + before[0]));
        if c == sep {
            assert(grown.push(Seq::empty()) =~= before.push(Seq::empty()).update(
                0,
                head + before[0],
            ));
        } else if before.len() == 1 {
            assert((head + before[0]).push(c) =~= head + before[0].push(c));
            assert(grown.drop_last().push(grown.last().push(c)) =~= before.drop_last().push(
                before.last().push(c),
            ).update(0, head + before[0].push(c)));
        } else {
            assert(grown.drop_last().push(grown.last().push(c)) =~= before.drop_last().push(
                before.last().push(c),
            ).update(0, head + before[0]));
        }
    }
}

/// Trimming the start skips a number of characters, all of them white space.
pub proof fn lemma_trim_start_skips(s: Seq<char>) -> (a: int)
    ensures
        0 <= a <= s.len(),
        trim_start(s) == s.skip(a),
        forall|i: int| 0 <= i < a ==> is_space(s[i]),
    decreases s.len(),
{
    if s.len() > 0 && is_space(s.first()) {
        let rest = s.drop_first();
        let a = lemma_trim_start_skips(rest);
        assert(rest.skip(a) =~= s.skip(a + 1));
        assert forall|i: int| 0 <= i < a + 1 implies is_space(s[i]) by {
            if i > 0 {
                assert(s[i] == rest[i - 1]);
            }
        }
        a + 1
    } else {
        assert(s.skip(0) =~= s);
        0
    }
}

/// Trimming the end keeps a number of characters and drops the others, all
/// of them white space.
pub proof fn lemma_trim_end_takes(s: Seq<char>) -> (b: int)
    ensures
        0 <= b <= s.len(),
        trim_end(s) == s.take(b),
        forall|i: int| b <= i < s.len() ==> is_space(s[i]),
    decreases s.len(),
{
    if s.len() > 0 && is_space(s.last()) {
        let rest = s.drop_last();
        let b = lemma_trim_end_takes(rest);
        assert(rest.take(b) =~= s.take(b));
        assert forall|i: int| b <= i < s.len() implies is_space(s[i]) by {
            if i < rest.len() {
                assert(s[i] == rest[i]);
            }
        }
        b
    } else {
        assert(s.take(s.len() as int) =~= s);
        s.len() as int
    }
}

/// A text is its trimmed text between two runs of white space.
pub proof fn lemma_trimmed_within(s: Seq<char>) -> (r: (Seq<char>, Seq<char>))
    ensures
        s == r.0 + trimmed(s) + r.1,
        forall|i: int| 0 <= i < r.0.len() ==> is_space(r.0[i]),
        forall|i: int| 0 <= i < r.1.len() ==> is_space(r.1[i]),
{
    let a = lemma_trim_start_skips(s);
    let rest = s.skip(a);
    let b = lemma_trim_end_takes(rest);
    let head = s.take(a);
    let tail = rest.skip(b);
    assert(s =~= head + rest.take(b) + tail);
    assert forall|i: int| 0 <= i < tail.len() implies is_space(tail[i]) by {
        assert(tail[i] == rest[b + i]);
    }
    (head, tail)
}

/// Where a text stands between characters other than the separator, its
/// segments are still there: the first with what stands before it, the last
/// with what stands behind it, the others as they are.
pub proof fn lemma_split_around(head: Seq<char>, s: Seq<char>, tail: Seq<char>, sep: char)
    requires
        forall|i: int| 0 <= i < head.len() ==> head[i] != sep,
        forall|i: int| 0 <= i < tail.len() ==> tail[i] != sep,
    ensures
        ({
            let inner = split(s, sep);
            let outer = split(head + s + tail, sep);
            let n = inner.len();
            &&& n >= 1
            &&& outer.len() == n
            &&& forall|i: int| 0 < i < n - 1 ==> outer[i] == inner[i]
            &&& n >= 2 ==> outer[0] == head + inner[0] && outer[n - 1] == inner[n - 1] + tail
            &&& n == 1 ==> outer[0] == head + inner[0] + tail
        }),
{
    lemma_split_len(s, sep);
    lemma_split_prepend(head, s, sep);
    lemma_split_append(head + s, tail, sep);
}

/// The first segment of a text that begins with another character than the
/// separator begins with that character.
pub proof fn lemma_split_first(s: Seq<char>, sep: char)
    requires
        s.len() > 0,
        s[0] != sep,
    ensures
        split(s, sep)[0].len() > 0,
        split(s, sep)[0][0] == s[0],
{
    let head = seq![s[0]];
    let rest = s.drop_first();
    lemma_split_len(rest, sep);
    lemma_split_prepend(head, rest, sep);
    assert(head + rest =~= s);
}

/// The characters of a string, in a vector.
pub fn chars_of(s: &str) -> (r: Vec<char>)
    ensures
        r@ == s@,
{
    let mut out: Vec<char> = Vec::new();
    for c in it: s.chars()
        invariant
            it.seq() == s@,
            out@ == it.seq().take(it.index()),
    {
        out.push(c);
    }
    out
}

/// The range of a text that is left when leading and trailing white space
/// is taken away.
pub fn trim_bounds(chars: &Vec<char>) -> (r: (usize, usize))
    ensures
        r.0 <= r.1 <= chars.len(),
        chars@.subrange(r.0 as int, r.1 as int) == trimmed(chars@),
        forall|i: int| 0 <= i < r.0 ==> is_space(chars@[i]),
        r.0 < chars.len() ==> !is_space(chars@[r.0 as int]),
{
    let n = chars.len();
    let mut a: usize = 0;
    while a < n && is_whitespace(chars[a])
        invariant
            a <= n == chars.len(),
            forall|i: int| 0 <= i < a ==> is_space(chars@[i]),
        decreases n - a,
    {
        a += 1;
    }
    let mut b: usize = n;
    while b > a && is_whitespace(chars[b - 1])
        invariant
            a <= b <= n == chars.len(),
            forall|i: int| b <= i < n ==> is_space(chars@[i]),
        decreases b,
    {
        b -= 1;
    }
    proof {
        let s = chars@;
        lemma_trim_start(s, a as int);
        let rest = s.skip(a as int);
        assert forall|i: int| b - a <= i < rest.len() implies is_space(rest[i]) by {
            assert(rest[i] == s[i + a]);
        }
        lemma_trim_end(rest, b - a);
        assert(rest.take(b - a) =~= s.subrange(a as int, b as int));
    }
    (a, b)
}

/// A string slice without its leading and trailing white space.
pub fn trim(s: &str) -> (r: &str)
    ensures
        r@ == trimmed(s@),
{
    let chars = chars_of(s);
    let (a, b) = trim_bounds(&chars);
    s.substring_char(a, b)
}

/// Cuts a text at every occurrence of a separator. The result gives each
/// segment by where it starts and where it ends.
pub fn split_bounds(chars: &Vec<char>, sep: char) -> (r: Vec<(usize, usize)>)
    ensures
        within(r@, chars@.len()),
        covers(r@, chars@.len()),
        cut(chars@, r@) == split(chars@, sep),
{
    let n = chars.len();
    let mut done: Vec<(usize, usize)> = Vec::new();
    let mut start: usize = 0;
    let mut i: usize = 0;
    proof {
        assert(chars@.take(0) =~= Seq::<char>::empty());
        assert(cut(chars@, done@).push(chars@.subrange(0, 0)) =~= seq![Seq::<char>::empty()]);
    }
    while i < n
        invariant
            start <= i <= n == chars.len(),
            within(done@, chars@.len()),
            done@.len() == 0 ==> start == 0,
            done@.len() > 0 ==> done@.first().0 == 0 && done@.last().1 + 1 == start,
            forall|k: int| 0 <= k < done@.len() - 1 ==> (#[trigger] done@[k]).1 + 1 == done@[k + 1].0,
            cut(chars@, done@).push(chars@.subrange(start as int, i as int)) == split(
                chars@.take(i as int),
                sep,
            ),
        decreases n - i,
    {
        let ghost s = chars@;
        let ghost before = split(s.take(i as int), sep);
        let ghost pieces = cut(s, done@);
        proof {
            assert(s.take(i + 1).drop_last() =~= s.take(i as int));
            assert(s.take(i + 1).last() == s[i as int]);
            assert(before.drop_last() =~= pieces);
            assert(before.last() == s.subrange(start as int, i as int));
        }
        if chars[i] == sep {
            done.push((start, i));
            start = i + 1;
            proof {
                assert(cut(s, done@) =~= before);
                assert(s.subrange(i + 1, i + 1) =~= Seq::<char>::empty());
            }
        } else {
            proof {
                assert(s.subrange(start as int, i as int).push(s[i as int]) =~= s.subrange(
                    start as int,
                    i + 1,
                ));
            }
        }
        i += 1;
    }
    let ghost pieces = cut(chars@, done@);
    done.push((start, n));
    proof {
        assert(chars@.take(n as int) =~= chars@);
        assert(cut(chars@, done@) =~= pieces.push(chars@.subrange(start as int, n as int)));
    }
    done
}

/// Tells whether a range of a text spells out a word.
pub fn range_is(chars: &Vec<char>, from: usize, to: usize, word: &Vec<char>) -> (r: bool)
    requires
        from <= to <= chars.len(),
    ensures
        r == (chars@.subrange(from as int, to as int) == word@),
{
    if to - from != word.len() {
        return false;
    }
    let mut i: usize = 0;
    while i < word.len()
        invariant
            from <= to <= chars.len(),
            to - from == word.len(),
            i <= word.len(),
            forall|j: int| 0 <= j < i ==> chars@[from + j] == word@[j],
        decreases word.len() - i,
    {
        if chars[from + i] != word[i] {
            proof {
                assert(chars@.subrange(from as int, to as int)[i as int] != word@[i as int]);
            }
            return false;
        }
        i += 1;
    }
    proof {
        assert(chars@.subrange(from as int, to as int) =~= word@);
    }
    true
}

/// Tells whether a text begins with a word.
pub fn starts_with(chars: &Vec<char>, word: &Vec<char>) -> (r: bool)
    ensures
        r == word@.is_prefix_of(chars@),
{
    if word.len() > chars.len() {
        return false;
    }
    range_is(chars, 0, word.len(), word)
}

/// The index of the first segment that spells out a word, or the number of
/// segments if none does.
pub fn first_segment(chars: &Vec<char>, bounds: &Vec<(usize, usize)>, word: &Vec<char>) -> (r:
    usize)
    requires
        within(bounds@, chars@.len()),
    ensures
        r == position(cut(chars@, bounds@), word@),
{
    let mut i: usize = 0;
    while i < bounds.len()
        invariant
            i <= bounds.len(),
            within(bounds@, chars@.len()),
            forall|j: int| 0 <= j < i ==> cut(chars@, bounds@)[j] != word@,
        decreases bounds.len() - i,
    {
        let (from, to) = bounds[i];
        if range_is(chars, from, to, word) {
            proof {
                lemma_position(cut(chars@, bounds@), word@, i as int);
            }
            return i;
        }
        i += 1;
    }
    proof {
        lemma_position(cut(chars@, bounds@), word@, i as int);
    }
    i
}

/// The text with every occurrence of a character replaced by a text.
pub open spec fn replaced(s: Seq<char>, from: char, to: Seq<char>) -> Seq<char>
    decreases s.len(),
{
    if s.len() == 0 {
        Seq::empty()
    } else if s.last() == from {
        replaced(s.drop_last(), from, to) + to
    } else {
        replaced(s.drop_last(), from, to).push(s.last())
    }
}

/// Replacing goes through a text piece by piece, and leaves a piece without
/// the character as it is.
pub proof fn lemma_replaced_plain(s: Seq<char>, tail: Seq<char>, from: char, to: Seq<char>)
    requires
        forall|i: int| 0 <= i < tail.len() ==> tail[i] != from,
    ensures
        replaced(s + tail, from, to) == replaced(s, from, to) + tail,
    decreases tail.len(),
{
    if tail.len() == 0 {
        assert(s + tail =~= s);
        assert(replaced(s, from, to) + tail =~= replaced(s, from, to));
    } else {
        let shorter = tail.drop_last();
        lemma_replaced_plain(s, shorter, from, to);
        assert((s + tail).drop_last() =~= s + shorter);
        assert((replaced(s, from, to) + shorter).push(tail.last()) =~= replaced(s, from, to)
            + tail);
    }
}

/// Tells whether two strings hold the same text.
pub fn same_text(a: &str, b: &str) -> (r: bool)
    ensures
        r == (a@ == b@),
{
    let left = chars_of(a);
    let right = chars_of(b);
    let r = range_is(&left, 0, left.len(), &right);
    proof {
        assert(left@.subrange(0, left@.len() as int) =~= left@);
    }
    r
}

/// A copy of a string in which every occurrence of a character is replaced
/// by a text.
pub fn replace_char(s: &str, from: char, to: &str) -> (r: String)
    ensures
        r@ == replaced(s@, from, to@),
{
    let chars = chars_of(s);
    let n = chars.len();
    let mut out = String::new();
    let mut start: usize = 0;
    let mut i: usize = 0;
    proof {
        assert(s@.take(0) =~= Seq::<char>::empty());
    }
    while i < n
        invariant
            start <= i <= n == chars.len(),
            chars@ == s@,
            out@ == replaced(s@.take(start as int), from, to@),
            forall|j: int| start <= j < i ==> s@[j] != from,
        decreases n - i,
    {
        if chars[i] == from {
            let ghost piece = s@.subrange(start as int, i as int);
            proof {
                lemma_replaced_plain(s@.take(start as int), piece, from, to@);
                assert(s@.take(start as int) + piece =~= s@.take(i as int));
                assert(s@.take(i + 1).drop_last() =~= s@.take(i as int));
            }
            out.append(s.substring_char(start, i));
            out.append(to);
            start = i + 1;
        }
        i += 1;
    }
    proof {
        let piece = s@.subrange(start as int, n as int);
        lemma_replaced_plain(s@.take(start as int), piece, from, to@);
        assert(s@.take(start as int) + piece =~= s@);
    }
    out.append(s.substring_char(start, n));
    out
}

} // verus!
