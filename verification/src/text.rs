//! Character-level helpers on strings.

use vstd::prelude::*;

verus! {

/// The characters of `s`, in order.
pub fn to_chars(s: &str) -> (r: Vec<char>)
    ensures
        r@ == s@,
{
    let mut out: Vec<char> = Vec::new();
    for c in it: s.chars()
        invariant
            it.seq() == s@,
            out@ == s@.subrange(0, it.index() as int),
    {
        out.push(c);
        assert(out@ =~= s@.subrange(0, it.index() + 1));
    }
    assert(out@ =~= s@);
    out
}

/// Whether two character slices hold the same text.
pub fn chars_eq(a: &[char], b: &[char]) -> (r: bool)
    ensures
        r == (a@ == b@),
{
    if a.len() != b.len() {
        return false;
    }
    let mut i: usize = 0;
    while i < a.len()
        invariant
            a@.len() == b@.len(),
            i <= a@.len(),
            a@.subrange(0, i as int) == b@.subrange(0, i as int),
        decreases a@.len() - i,
    {
        if a[i] != b[i] {
            assert(a@[i as int] != b@[i as int]);
            return false;
        }
        i = i + 1;
        assert(a@.subrange(0, i as int) =~= a@.subrange(0, i - 1).push(a@[i - 1]));
        assert(b@.subrange(0, i as int) =~= b@.subrange(0, i - 1).push(b@[i - 1]));
    }
    assert(a@.subrange(0, i as int) =~= a@);
    assert(b@.subrange(0, i as int) =~= b@);
    true
}

/// Whether two strings hold the same text.
pub fn same_text(a: &str, b: &str) -> (r: bool)
    ensures
        r == (a@ == b@),
{
    let x = to_chars(a);
    let y = to_chars(b);
    chars_eq(x.as_slice(), y.as_slice())
}

/// The text of `s` from character `from` up to, not including, character `to`.
pub(crate) fn slice_text(s: &str, from: usize, to: usize) -> (r: String)
    requires
        from <= to <= s@.len(),
    ensures
        r@ == s@.subrange(from as int, to as int),
{
    s.substring_char(from, to).to_owned()
}

/// `a` followed by `b`.
pub fn join_text(a: &str, b: &str) -> (r: String)
    ensures
        r@ == a@ + b@,
{
    let mut out = a.to_owned();
    out.append(b);
    out
}

/// `a`, `b` and `c` in a row.
pub fn join_text3(a: &str, b: &str, c: &str) -> (r: String)
    ensures
        r@ == a@ + b@ + c@,
{
    let mut out = a.to_owned();
    out.append(b);
    out.append(c);
    out
}

/// White space: the characters that Unicode gives the property White_Space.
pub open spec fn is_space(c: char) -> bool {
    ('\u{9}' <= c && c <= '\u{d}') || c == ' ' || c == '\u{85}' || c == '\u{a0}' || c
        == '\u{1680}' || ('\u{2000}' <= c && c <= '\u{200a}') || c == '\u{2028}' || c
        == '\u{2029}' || c == '\u{202f}' || c == '\u{205f}' || c == '\u{3000}'
}

/// Whether `c` is white space.
pub fn is_space_char(c: char) -> (r: bool)
    ensures
        r == is_space(c),
{
    ('\u{9}' <= c && c <= '\u{d}') || c == ' ' || c == '\u{85}' || c == '\u{a0}' || c
        == '\u{1680}' || ('\u{2000}' <= c && c <= '\u{200a}') || c == '\u{2028}' || c
        == '\u{2029}' || c == '\u{202f}' || c == '\u{205f}' || c == '\u{3000}'
}

/// `s` without the white space it starts with.
pub open spec fn trim_start_of(s: Seq<char>) -> Seq<char>
    decreases s.len(),
{
    if s.len() > 0 && is_space(s[0]) {
        trim_start_of(s.drop_first())
    } else {
        s
    }
}

/// `s` without the white space it ends with.
pub open spec fn trim_end_of(s: Seq<char>) -> Seq<char>
    decreases s.len(),
{
    if s.len() > 0 && is_space(s.last()) {
        trim_end_of(s.drop_last())
    } else {
        s
    }
}

/// `s` without the white space at either end.
pub open spec fn trim_of(s: Seq<char>) -> Seq<char> {
    trim_end_of(trim_start_of(s))
}

/// `s` without the white space at either end.
pub fn trim(s: &str) -> (r: String)
    ensures
        r@ == trim_of(s@),
{
    let cs = to_chars(s);
    let n = cs.len();
    let mut a: usize = 0;
    assert(cs@.subrange(0, n as int) =~= cs@);
    while a < n && is_space_char(cs[a])
        invariant
            n == cs@.len(),
            a <= n,
            trim_start_of(cs@) == trim_start_of(cs@.subrange(a as int, n as int)),
        decreases n - a,
    {
        assert(cs@.subrange(a as int, n as int).drop_first() =~= cs@.subrange(a + 1, n as int));
        a = a + 1;
    }
    let mut b: usize = n;
    while b > a && is_space_char(cs[b - 1])
        invariant
            n == cs@.len(),
            a <= b <= n,
            trim_start_of(cs@) == cs@.subrange(a as int, n as int),
            trim_end_of(cs@.subrange(a as int, n as int)) == trim_end_of(
                cs@.subrange(a as int, b as int),
            ),
        decreases b,
    {
        assert(cs@.subrange(a as int, b as int).drop_last() =~= cs@.subrange(a as int, b - 1));
        b = b - 1;
    }
    slice_text(s, a, b)
}

/// The strings of `parts` in a row, with `sep` between each two.
pub open spec fn joined(parts: Seq<Seq<char>>, sep: Seq<char>) -> Seq<char>
    decreases parts.len(),
{
    if parts.len() == 0 {
        Seq::empty()
    } else if parts.len() == 1 {
        parts[0]
    } else {
        joined(parts.drop_last(), sep) + sep + parts.last()
    }
}

/// The strings of `parts` in a row, with `sep` between each two.
pub fn join_all(parts: &Vec<String>, sep: &str) -> (r: String)
    ensures
        r@ == joined(parts.deep_view(), sep@),
{
    let mut out = String::new();
    let mut i: usize = 0;
    assert(parts.deep_view().subrange(0, 0) =~= Seq::<Seq<char>>::empty());
    while i < parts.len()
        invariant
            i <= parts@.len(),
            out@ == joined(parts.deep_view().subrange(0, i as int), sep@),
        decreases parts@.len() - i,
    {
        let ghost head = parts.deep_view().subrange(0, i as int);
        let ghost next = parts.deep_view().subrange(0, i + 1);
        assert(next.drop_last() =~= head);
        assert(next.last() == parts@[i as int]@);
        if i > 0 {
            out.append(sep);
        }
        out.append(parts[i].as_str());
        assert(out@ =~= joined(next, sep@));
        i = i + 1;
    }
    assert(parts.deep_view().subrange(0, i as int) =~= parts.deep_view());
    out
}

/// Whether `s` begins with `prefix`.
pub open spec fn has_prefix(s: Seq<char>, prefix: Seq<char>) -> bool {
    prefix.len() <= s.len() && s.subrange(0, prefix.len() as int) == prefix
}

/// Whether `s` ends with `suffix`.
pub open spec fn has_suffix(s: Seq<char>, suffix: Seq<char>) -> bool {
    suffix.len() <= s.len() && s.subrange(s.len() - suffix.len(), s.len() as int) == suffix
}

/// Whether `part` stands in `s` at position `i`.
pub open spec fn occurs_at(s: Seq<char>, part: Seq<char>, i: int) -> bool {
    0 <= i && i + part.len() <= s.len() && s.subrange(i, i + part.len()) == part
}

/// Whether `part` stands somewhere in `s`.
pub open spec fn has_part(s: Seq<char>, part: Seq<char>) -> bool {
    exists|i: int| occurs_at(s, part, i)
}

/// Whether the characters `part` stand in `s` at position `at`.
pub(crate) fn chars_occur_at(s: &[char], part: &[char], at: usize) -> (r: bool)
    requires
        at <= s@.len(),
    ensures
        r == occurs_at(s@, part@, at as int),
{
    if part.len() > s.len() - at {
        return false;
    }
    let mut k: usize = 0;
    while k < part.len()
        invariant
            at + part@.len() <= s@.len() <= usize::MAX,
            k <= part@.len(),
            s@.subrange(at as int, at + k) == part@.subrange(0, k as int),
        decreases part@.len() - k,
    {
        if s[at + k] != part[k] {
            assert(s@.subrange(at as int, at + part@.len())[k as int] != part@[k as int]);
            return false;
        }
        k = k + 1;
        assert(s@.subrange(at as int, at + k) =~= s@.subrange(at as int, at + k - 1).push(
            s@[at + k - 1],
        ));
        assert(part@.subrange(0, k as int) =~= part@.subrange(0, k - 1).push(part@[k - 1]));
    }
    assert(part@.subrange(0, k as int) =~= part@);
    true
}

/// Whether `s` begins with `prefix`.
pub fn starts_with(s: &str, prefix: &str) -> (r: bool)
    ensures
        r == has_prefix(s@, prefix@),
{
    let a = to_chars(s);
    let b = to_chars(prefix);
    chars_occur_at(a.as_slice(), b.as_slice(), 0)
}

/// Whether `s` ends with `suffix`.
pub fn ends_with(s: &str, suffix: &str) -> (r: bool)
    ensures
        r == has_suffix(s@, suffix@),
{
    let a = to_chars(s);
    let b = to_chars(suffix);
    if b.len() > a.len() {
        return false;
    }
    chars_occur_at(a.as_slice(), b.as_slice(), a.len() - b.len())
}

/// Whether the characters `part` stand somewhere in `s`.
pub fn chars_contain(s: &[char], part: &[char]) -> (r: bool)
    ensures
        r == has_part(s@, part@),
{
    if part.len() > s.len() {
        assert forall|i: int| !occurs_at(s@, part@, i) by {}
        return false;
    }
    let last = s.len() - part.len();
    let mut i: usize = 0;
    while i < last
        invariant
            last + part@.len() == s@.len(),
            i <= last,
            forall|j: int| 0 <= j < i ==> !occurs_at(s@, part@, j),
        decreases last - i,
    {
        if chars_occur_at(s, part, i) {
            return true;
        }
        i = i + 1;
    }
    if chars_occur_at(s, part, last) {
        return true;
    }
    assert forall|j: int| !occurs_at(s@, part@, j) by {}
    false
}

/// Whether `part` stands somewhere in `s`.
pub fn contains(s: &str, part: &str) -> (r: bool)
    ensures
        r == has_part(s@, part@),
{
    let a = to_chars(s);
    let b = to_chars(part);
    chars_contain(a.as_slice(), b.as_slice())
}

/// Position of the first line feed of `s`, or the length of `s` where it has
/// none.
pub open spec fn line_end(s: Seq<char>) -> int
    decreases s.len(),
{
    if s.len() == 0 || s[0] == '\n' {
        0
    } else {
        1 + line_end(s.drop_first())
    }
}

/// `line` without the carriage return it ends with, if any.
pub open spec fn without_cr(line: Seq<char>) -> Seq<char> {
    if line.len() > 0 && line.last() == '\r' {
        line.drop_last()
    } else {
        line
    }
}

/// The lines of `s`. A line ends with a line feed, or a carriage return and a
/// line feed, which are left out; the last line may go without. A carriage
/// return that no line feed follows stays in its line.
pub open spec fn lines_of(s: Seq<char>) -> Seq<Seq<char>>
    decreases s.len(),
{
    if s.len() == 0 {
        Seq::empty()
    } else if 0 <= line_end(s) < s.len() {
        seq![without_cr(s.subrange(0, line_end(s)))] + lines_of(
            s.subrange(line_end(s) + 1, s.len() as int),
        )
    } else {
        seq![s]
    }
}

/// A position is `line_end` once no line feed stands before it and one
/// stands at it, or the text ends there.
pub proof fn lemma_line_end_is(s: Seq<char>, k: int)
    requires
        0 <= k <= s.len(),
        k < s.len() ==> s[k] == '\n',
        forall|j: int| 0 <= j < k ==> s[j] != '\n',
    ensures
        line_end(s) == k,
    decreases s.len(),
{
    if s.len() > 0 && s[0] != '\n' {
        let rest = s.drop_first();
        assert forall|j: int| 0 <= j < k - 1 implies rest[j] != '\n' by {
            assert(rest[j] == s[j + 1]);
        }
        lemma_line_end_is(rest, k - 1);
    }
}

/// The lines of `s`.
pub fn lines(s: &str) -> (r: Vec<String>)
    ensures
        r.deep_view() == lines_of(s@),
{
    let cs = to_chars(s);
    let n = cs.len();
    let mut out: Vec<String> = Vec::new();
    let mut pos: usize = 0;
    assert(cs@.subrange(0, n as int) =~= cs@);
    assert(out.deep_view() =~= Seq::<Seq<char>>::empty());
    while pos < n
        invariant
            n == cs@.len(),
            cs@ == s@,
            pos <= n,
            lines_of(s@) == out.deep_view() + lines_of(cs@.subrange(pos as int, n as int)),
        decreases n - pos,
    {
        let ghost rest = cs@.subrange(pos as int, n as int);
        let ghost before = out.deep_view();
        let mut end: usize = pos;
        while end < n && cs[end] != '\n'
            invariant
                n == cs@.len(),
                pos <= end <= n,
                forall|j: int| pos <= j < end ==> cs@[j] != '\n',
            decreases n - end,
        {
            end = end + 1;
        }
        proof {
            assert forall|j: int| 0 <= j < end - pos implies rest[j] != '\n' by {
                assert(rest[j] == cs@[pos + j]);
            }
            if end < n {
                assert(rest[end - pos] == cs@[end as int]);
            }
            lemma_line_end_is(rest, end - pos);
        }
        if end >= n {
            let line = slice_text(s, pos, n);
            out.push(line);
            proof {
                assert(rest =~= s@.subrange(pos as int, n as int));
                assert(out.deep_view() =~= before.push(rest));
                assert(lines_of(cs@.subrange(n as int, n as int)) =~= Seq::<Seq<char>>::empty());
                assert(lines_of(rest) =~= seq![rest]);
                assert(lines_of(s@) =~= out.deep_view() + lines_of(
                    cs@.subrange(n as int, n as int),
                ));
            }
            pos = n;
        } else {
            let stop = if end > pos && cs[end - 1] == '\r' {
                end - 1
            } else {
                end
            };
            let line = slice_text(s, pos, stop);
            out.push(line);
            proof {
                let raw = rest.subrange(0, end - pos);
                assert(raw =~= s@.subrange(pos as int, end as int));
                if end > pos {
                    assert(raw.last() == cs@[end - 1]);
                }
                assert(without_cr(raw) =~= s@.subrange(pos as int, stop as int));
                assert(rest.subrange(end - pos + 1, rest.len() as int) =~= cs@.subrange(
                    end + 1,
                    n as int,
                ));
                assert(out.deep_view() =~= before.push(without_cr(raw)));
                assert(lines_of(s@) =~= out.deep_view() + lines_of(cs@.subrange(end + 1, n as int)));
            }
            pos = end + 1;
        }
    }
    assert(lines_of(cs@.subrange(n as int, n as int)) =~= Seq::<Seq<char>>::empty());
    assert(lines_of(s@) =~= out.deep_view());
    out
}

/// Length of the run of characters other than white space that `s` starts
/// with.
pub open spec fn word_end(s: Seq<char>) -> int
    decreases s.len(),
{
    if s.len() == 0 || is_space(s[0]) {
        0
    } else {
        1 + word_end(s.drop_first())
    }
}

/// The words of `s`: its runs of characters other than white space, as long
/// as they reach.
pub open spec fn words_of(s: Seq<char>) -> Seq<Seq<char>>
    decreases s.len(),
{
    if s.len() == 0 {
        Seq::empty()
    } else if is_space(s[0]) {
        words_of(s.drop_first())
    } else {
        seq![s.subrange(0, word_end(s))] + if 0 < word_end(s) < s.len() {
            words_of(s.subrange(word_end(s), s.len() as int))
        } else {
            Seq::empty()
        }
    }
}

/// A position is `word_end` once no white space stands before it and some
/// stands at it, or the text ends there.
pub proof fn lemma_word_end_is(s: Seq<char>, k: int)
    requires
        0 <= k <= s.len(),
        k < s.len() ==> is_space(s[k]),
        forall|j: int| 0 <= j < k ==> !is_space(s[j]),
    ensures
        word_end(s) == k,
    decreases s.len(),
{
    if s.len() > 0 && !is_space(s[0]) {
        let rest = s.drop_first();
        assert forall|j: int| 0 <= j < k - 1 implies !is_space(rest[j]) by {
            assert(rest[j] == s[j + 1]);
        }
        lemma_word_end_is(rest, k - 1);
    }
}

/// The words of `s`.
pub fn words(s: &str) -> (r: Vec<String>)
    ensures
        r.deep_view() == words_of(s@),
{
    let cs = to_chars(s);
    let n = cs.len();
    let mut out: Vec<String> = Vec::new();
    let mut pos: usize = 0;
    assert(cs@.subrange(0, n as int) =~= cs@);
    assert(out.deep_view() =~= Seq::<Seq<char>>::empty());
    while pos < n
        invariant
            n == cs@.len(),
            cs@ == s@,
            pos <= n,
            words_of(s@) == out.deep_view() + words_of(cs@.subrange(pos as int, n as int)),
        decreases n - pos,
    {
        let ghost rest = cs@.subrange(pos as int, n as int);
        let ghost before = out.deep_view();
        if is_space_char(cs[pos]) {
            proof {
                assert(rest[0] == cs@[pos as int]);
                assert(rest.drop_first() =~= cs@.subrange(pos + 1, n as int));
            }
            pos = pos + 1;
        } else {
            let mut end: usize = pos;
            while end < n && !is_space_char(cs[end])
                invariant
                    n == cs@.len(),
                    pos <= end <= n,
                    forall|j: int| pos <= j < end ==> !is_space(cs@[j]),
                decreases n - end,
            {
                end = end + 1;
            }
            let word = slice_text(s, pos, end);
            out.push(word);
            proof {
                assert(rest[0] == cs@[pos as int]);
                assert forall|j: int| 0 <= j < end - pos implies !is_space(rest[j]) by {
                    assert(rest[j] == cs@[pos + j]);
                }
                if end < n {
                    assert(rest[end - pos] == cs@[end as int]);
                }
                lemma_word_end_is(rest, end - pos);
                assert(rest.subrange(0, end - pos) =~= s@.subrange(pos as int, end as int));
                assert(out.deep_view() =~= before.push(rest.subrange(0, end - pos)));
                assert(rest.subrange(end - pos, rest.len() as int) =~= cs@.subrange(
                    end as int,
                    n as int,
                ));
                if end >= n {
                    assert(words_of(cs@.subrange(n as int, n as int)) =~= Seq::<
                        Seq<char>,
                    >::empty());
                }
                assert(words_of(s@) =~= out.deep_view() + words_of(
                    cs@.subrange(end as int, n as int),
                ));
            }
            pos = end;
        }
    }
    assert(words_of(cs@.subrange(n as int, n as int)) =~= Seq::<Seq<char>>::empty());
    assert(words_of(s@) =~= out.deep_view());
    out
}

/// Position of the first `sep` of `s`, or the length of `s` where it has
/// none.
pub open spec fn field_end(s: Seq<char>, sep: char) -> int
    decreases s.len(),
{
    if s.len() == 0 || s[0] == sep {
        0
    } else {
        1 + field_end(s.drop_first(), sep)
    }
}

/// The fields of `s`: what stands between its separators `sep`. A text
/// without a separator is one field, also where it is empty.
pub open spec fn fields_of(s: Seq<char>, sep: char) -> Seq<Seq<char>>
    decreases s.len(),
{
    if 0 <= field_end(s, sep) < s.len() {
        seq![s.subrange(0, field_end(s, sep))] + fields_of(
            s.subrange(field_end(s, sep) + 1, s.len() as int),
            sep,
        )
    } else {
        seq![s]
    }
}

/// A position is `field_end` once no separator stands before it and one
/// stands at it, or the text ends there.
pub proof fn lemma_field_end_is(s: Seq<char>, sep: char, k: int)
    requires
        0 <= k <= s.len(),
        k < s.len() ==> s[k] == sep,
        forall|j: int| 0 <= j < k ==> s[j] != sep,
    ensures
        field_end(s, sep) == k,
    decreases s.len(),
{
    if s.len() > 0 && s[0] != sep {
        let rest = s.drop_first();
        assert forall|j: int| 0 <= j < k - 1 implies rest[j] != sep by {
            assert(rest[j] == s[j + 1]);
        }
        lemma_field_end_is(rest, sep, k - 1);
    }
}

/// The fields of `s` between its separators `sep`.
pub fn split_fields(s: &str, sep: char) -> (r: Vec<String>)
    ensures
        r.deep_view() == fields_of(s@, sep),
        r@.len() >= 1,
{
    let cs = to_chars(s);
    let n = cs.len();
    let mut out: Vec<String> = Vec::new();
    let mut pos: usize = 0;
    assert(cs@.subrange(0, n as int) =~= cs@);
    assert(out.deep_view() =~= Seq::<Seq<char>>::empty());
    loop
        invariant_except_break
            n == cs@.len(),
            cs@ == s@,
            pos <= n,
            fields_of(s@, sep) == out.deep_view() + fields_of(
                cs@.subrange(pos as int, n as int),
                sep,
            ),
        ensures
            out.deep_view() == fields_of(s@, sep),
            out@.len() >= 1,
        decreases n - pos,
    {
        let ghost rest = cs@.subrange(pos as int, n as int);
        let ghost before = out.deep_view();
        let mut end: usize = pos;
        while end < n && cs[end] != sep
            invariant
                n == cs@.len(),
                pos <= end <= n,
                forall|j: int| pos <= j < end ==> cs@[j] != sep,
            decreases n - end,
        {
            end = end + 1;
        }
        proof {
            assert forall|j: int| 0 <= j < end - pos implies rest[j] != sep by {
                assert(rest[j] == cs@[pos + j]);
            }
            if end < n {
                assert(rest[end - pos] == cs@[end as int]);
            }
            lemma_field_end_is(rest, sep, end - pos);
        }
        let field = slice_text(s, pos, end);
        out.push(field);
        if end >= n {
            proof {
                assert(rest =~= s@.subrange(pos as int, n as int));
                assert(out.deep_view() =~= before.push(rest));
                assert(fields_of(s@, sep) =~= out.deep_view());
            }
            break ;
        }
        proof {
            assert(rest.subrange(0, end - pos) =~= s@.subrange(pos as int, end as int));
            assert(rest.subrange(end - pos + 1, rest.len() as int) =~= cs@.subrange(
                end + 1,
                n as int,
            ));
            assert(out.deep_view() =~= before.push(rest.subrange(0, end - pos)));
            assert(fields_of(s@, sep) =~= out.deep_view() + fields_of(
                cs@.subrange(end + 1, n as int),
                sep,
            ));
        }
        pos = end + 1;
    }
    out
}

/// `s` with every occurrence of `from` replaced by `to`, the occurrences
/// being taken from the left and not overlapping. An empty `from` occurs
/// before every character and at the end.
pub open spec fn replaced(s: Seq<char>, from: Seq<char>, to: Seq<char>) -> Seq<char>
    decreases s.len(),
{
    if from.len() == 0 {
        if s.len() == 0 {
            to
        } else {
            to + seq![s[0]] + replaced(s.drop_first(), from, to)
        }
    } else if has_prefix(s, from) {
        to + replaced(s.subrange(from.len() as int, s.len() as int), from, to)
    } else if s.len() == 0 {
        Seq::empty()
    } else {
        seq![s[0]] + replaced(s.drop_first(), from, to)
    }
}

/// `s` with every occurrence of `from` replaced by `to`.
pub fn replace_all(s: &str, from: &str, to: &str) -> (r: String)
    ensures
        r@ == replaced(s@, from@, to@),
{
    let cs = to_chars(s);
    let pat = to_chars(from);
    let n = cs.len();
    let m = pat.len();
    let mut out = String::new();
    let mut pos: usize = 0;
    assert(cs@.subrange(0, n as int) =~= cs@);
    while pos < n
        invariant
            n == cs@.len(),
            m == pat@.len(),
            cs@ == s@,
            pat@ == from@,
            pos <= n,
            replaced(s@, from@, to@) == out@ + replaced(
                cs@.subrange(pos as int, n as int),
                from@,
                to@,
            ),
        decreases n - pos,
    {
        let ghost rest = cs@.subrange(pos as int, n as int);
        let ghost before = out@;
        if m == 0 {
            out.append(to);
            let one = slice_text(s, pos, pos + 1);
            out.append(one.as_str());
            proof {
                assert(one@ =~= seq![rest[0]]);
                assert(rest.drop_first() =~= cs@.subrange(pos + 1, n as int));
                assert(out@ =~= before + (to@ + seq![rest[0]]));
            }
            pos = pos + 1;
        } else if chars_occur_at(cs.as_slice(), pat.as_slice(), pos) {
            out.append(to);
            proof {
                assert(rest.subrange(0, m as int) =~= cs@.subrange(pos as int, pos + m));
                assert(has_prefix(rest, from@));
                assert(rest.subrange(m as int, rest.len() as int) =~= cs@.subrange(
                    pos + m,
                    n as int,
                ));
            }
            pos = pos + m;
        } else {
            let one = slice_text(s, pos, pos + 1);
            out.append(one.as_str());
            proof {
                if m <= rest.len() {
                    assert(rest.subrange(0, m as int) =~= cs@.subrange(pos as int, pos + m));
                }
                assert(!has_prefix(rest, from@));
                assert(one@ =~= seq![rest[0]]);
                assert(rest.drop_first() =~= cs@.subrange(pos + 1, n as int));
            }
            pos = pos + 1;
        }
    }
    if m == 0 {
        out.append(to);
    }
    out
}

/// The decimal digit for a number below ten.
pub open spec fn digit_of(d: nat) -> char {
    if d == 0 {
        '0'
    } else if d == 1 {
        '1'
    } else if d == 2 {
        '2'
    } else if d == 3 {
        '3'
    } else if d == 4 {
        '4'
    } else if d == 5 {
        '5'
    } else if d == 6 {
        '6'
    } else if d == 7 {
        '7'
    } else if d == 8 {
        '8'
    } else {
        '9'
    }
}

/// The decimal numeral of `n`, without leading zeros.
pub open spec fn numeral(n: nat) -> Seq<char>
    decreases n,
{
    if n < 10 {
        seq![digit_of(n)]
    } else {
        numeral(n / 10).push(digit_of(n % 10))
    }
}

/// The decimal digit for a number below ten, as text.
fn digit_text(d: u64) -> (r: &'static str)
    requires
        d < 10,
    ensures
        r@ == seq![digit_of(d as nat)],
{
    proof {
        reveal_strlit("0");
        reveal_strlit("1");
        reveal_strlit("2");
        reveal_strlit("3");
        reveal_strlit("4");
        reveal_strlit("5");
        reveal_strlit("6");
        reveal_strlit("7");
        reveal_strlit("8");
        reveal_strlit("9");
    }
    let r = if d == 0 {
        "0"
    } else if d == 1 {
        "1"
    } else if d == 2 {
        "2"
    } else if d == 3 {
        "3"
    } else if d == 4 {
        "4"
    } else if d == 5 {
        "5"
    } else if d == 6 {
        "6"
    } else if d == 7 {
        "7"
    } else if d == 8 {
        "8"
    } else {
        "9"
    };
    assert(r@ =~= seq![digit_of(d as nat)]);
    r
}

/// The decimal numeral of `n`.
pub fn decimal(n: u64) -> (r: String)
    ensures
        r@ == numeral(n as nat),
    decreases n,
{
    if n < 10 {
        digit_text(n).to_owned()
    } else {
        let mut out = decimal(n / 10);
        out.append(digit_text(n % 10));
        assert(out@ =~= numeral((n / 10) as nat).push(digit_of((n % 10) as nat)));
        out
    }
}

} // verus!
