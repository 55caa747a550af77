//! The naming convention of built web assets that carry a content hash in
//! their file name, such as `app.3f2a9c.js` or `3f2a9c.js`.

use vstd::prelude::*;
use crate::text::{to_chars, chars_eq, slice_text, join_text3};

verus! {

/// A hexadecimal digit, in either case.
pub open spec fn is_hex(c: char) -> bool {
    ('0' <= c && c <= '9') || ('a' <= c && c <= 'f') || ('A' <= c && c <= 'F')
}

/// A character that may stand inside a hash infix: a hexadecimal digit or a dot.
pub open spec fn is_hash_char(c: char) -> bool {
    is_hex(c) || c == '.'
}

/// Whether a hash infix opens at position `i` of `name`: a dot followed by at
/// least one hash character.
pub open spec fn infix_at(name: Seq<char>, i: int) -> bool {
    0 <= i && i + 1 < name.len() && name[i] == '.' && is_hash_char(name[i + 1])
}

/// The first position at or behind `i` where a hash infix opens, or -1.
pub open spec fn first_infix_from(name: Seq<char>, i: int) -> int
    decreases name.len() - i,
{
    if i < 0 || i + 1 >= name.len() {
        -1
    } else if infix_at(name, i) {
        i
    } else {
        first_infix_from(name, i + 1)
    }
}

/// Whether `name` holds a hash infix.
pub open spec fn has_infix(name: Seq<char>) -> bool {
    first_infix_from(name, 0) >= 0
}

/// The end of the run of hash characters that begins at position `j`.
pub open spec fn hash_run_end(name: Seq<char>, j: int) -> int
    decreases name.len() - j,
{
    if 0 <= j < name.len() && is_hash_char(name[j]) {
        hash_run_end(name, j + 1)
    } else {
        j
    }
}

/// `name` with its first hash infix, taken as long as it reaches, replaced by
/// a single dot; `name` itself where it has no infix.
pub open spec fn strip_infix(name: Seq<char>) -> Seq<char> {
    let i = first_infix_from(name, 0);
    if i < 0 {
        name
    } else {
        name.subrange(0, i) + seq!['.'] + name.subrange(
            hash_run_end(name, i + 1),
            name.len() as int,
        )
    }
}

/// Two names are equal but for their hash: both hold a hash infix, and what is
/// left of them without it is the same.
pub open spec fn equal_ignoring_hash(a: Seq<char>, b: Seq<char>) -> bool {
    has_infix(a) && has_infix(b) && strip_infix(a) == strip_infix(b)
}

/// Every character is a hexadecimal digit.
pub open spec fn all_hex(s: Seq<char>) -> bool {
    forall|i: int| 0 <= i < s.len() ==> is_hex(#[trigger] s[i])
}

/// Whether `name` is a hash and nothing else before its extension `ext`: one
/// or more hexadecimal digits, then, where `ext` is not empty, a dot and `ext`.
pub open spec fn is_hash_stem(name: Seq<char>, ext: Seq<char>) -> bool {
    if ext.len() == 0 {
        name.len() > 0 && all_hex(name)
    } else {
        &&& name.len() > ext.len() + 1
        &&& name.subrange(name.len() - ext.len(), name.len() as int) == ext
        &&& name[name.len() - ext.len() - 1] == '.'
        &&& all_hex(name.subrange(0, name.len() - ext.len() - 1))
    }
}

/// Both names are a hash before one and the same extension.
pub open spec fn both_hash_stems(
    a: Seq<char>,
    b: Seq<char>,
    ext_a: Seq<char>,
    ext_b: Seq<char>,
) -> bool {
    is_hash_stem(a, ext_a) && is_hash_stem(b, ext_b) && ext_a == ext_b
}

/// Whether two names follow the hash naming convention: each is a bare hash
/// before the same extension, or they are equal but for a hash infix.
pub open spec fn hash_named(a: Seq<char>, b: Seq<char>, ext_a: Seq<char>, ext_b: Seq<char>) -> bool {
    both_hash_stems(a, b, ext_a, ext_b) || equal_ignoring_hash(a, b)
}

pub proof fn lemma_first_infix(name: Seq<char>, i: int)
    requires
        0 <= i,
    ensures
        first_infix_from(name, i) == -1 || (i <= first_infix_from(name, i) && infix_at(
            name,
            first_infix_from(name, i),
        )),
        forall|j: int| i <= j && (j < first_infix_from(name, i) || first_infix_from(name, i) == -1)
            ==> !infix_at(name, j),
    decreases name.len() - i,
{
    if i + 1 < name.len() && !infix_at(name, i) {
        lemma_first_infix(name, i + 1);
    }
}

pub proof fn lemma_hash_run_end(name: Seq<char>, j: int)
    requires
        0 <= j <= name.len(),
    ensures
        j <= hash_run_end(name, j) <= name.len(),
        forall|k: int| j <= k < hash_run_end(name, j) ==> is_hash_char(name[k]),
        hash_run_end(name, j) < name.len() ==> !is_hash_char(name[hash_run_end(name, j)]),
    decreases name.len() - j,
{
    if j < name.len() && is_hash_char(name[j]) {
        lemma_hash_run_end(name, j + 1);
    }
}

pub fn is_hex_char(c: char) -> (r: bool)
    ensures
        r == is_hex(c),
{
    ('0' <= c && c <= '9') || ('a' <= c && c <= 'f') || ('A' <= c && c <= 'F')
}

pub fn is_hash_character(c: char) -> (r: bool)
    ensures
        r == is_hash_char(c),
{
    is_hex_char(c) || c == '.'
}

/// The first position of `s` where a hash infix opens.
pub fn find_infix(s: &[char]) -> (r: Option<usize>)
    ensures
        match r {
            Some(i) => i == first_infix_from(s@, 0) && i + 1 < s@.len(),
            None => first_infix_from(s@, 0) == -1,
        },
{
    let n = s.len();
    let mut i: usize = 0;
    while i < n && i + 1 < n
        invariant
            n == s@.len(),
            i <= n,
            first_infix_from(s@, 0) == first_infix_from(s@, i as int),
        decreases n - i,
    {
        if s[i] == '.' && is_hash_character(s[i + 1]) {
            return Some(i);
        }
        i = i + 1;
    }
    None
}

/// The end of the run of hash characters of `s` that begins at `from`.
pub(crate) fn find_run_end(s: &[char], from: usize) -> (r: usize)
    requires
        from <= s@.len(),
    ensures
        r == hash_run_end(s@, from as int),
        from <= r <= s@.len(),
{
    let n = s.len();
    let mut j: usize = from;
    while j < n && is_hash_character(s[j])
        invariant
            n == s@.len(),
            from <= j <= n,
            hash_run_end(s@, from as int) == hash_run_end(s@, j as int),
        decreases n - j,
    {
        j = j + 1;
    }
    j
}

/// `name` with its first hash infix replaced by a single dot.
pub fn strip_hash_infix(name: &str) -> (r: String)
    ensures
        r@ == strip_infix(name@),
{
    let cs = to_chars(name);
    let n = cs.len();
    match find_infix(cs.as_slice()) {
        None => name.to_owned(),
        Some(i) => {
            let e = find_run_end(cs.as_slice(), i + 1);
            let head = slice_text(name, 0, i);
            let tail = slice_text(name, e, n);
            proof {
                reveal_strlit(".");
                assert("."@ =~= seq!['.']);
            }
            join_text3(head.as_str(), ".", tail.as_str())
        },
    }
}

/// Whether every character of `s[..len]` is a hexadecimal digit.
pub(crate) fn all_hex_chars(s: &[char], len: usize) -> (r: bool)
    requires
        len <= s@.len(),
    ensures
        r == all_hex(s@.subrange(0, len as int)),
{
    let mut i: usize = 0;
    while i < len
        invariant
            len <= s@.len(),
            i <= len,
            forall|k: int| 0 <= k < i ==> is_hex(s@[k]),
        decreases len - i,
    {
        if !is_hex_char(s[i]) {
            assert(s@.subrange(0, len as int)[i as int] == s@[i as int]);
            return false;
        }
        i = i + 1;
    }
    assert forall|k: int| 0 <= k < len implies is_hex(#[trigger] s@.subrange(0, len as int)[k]) by {
        assert(s@.subrange(0, len as int)[k] == s@[k]);
    }
    true
}

/// Whether `name` is a hash and nothing else before its extension `ext`.
pub fn is_hash_stem_name(name: &str, ext: &str) -> (r: bool)
    ensures
        r == is_hash_stem(name@, ext@),
{
    let n = to_chars(name);
    let e = to_chars(ext);
    if e.len() == 0 {
        let r = n.len() > 0 && all_hex_chars(n.as_slice(), n.len());
        assert(n@.subrange(0, n@.len() as int) =~= n@);
        return r;
    }
    if n.len() <= e.len() || n.len() - e.len() < 2 {
        return false;
    }
    let cut = n.len() - e.len();
    let tail = slice_text(name, cut, n.len());
    let tail_chars = to_chars(tail.as_str());
    chars_eq(tail_chars.as_slice(), e.as_slice()) && n[cut - 1] == '.' && all_hex_chars(
        n.as_slice(),
        cut - 1,
    )
}

} // verus!
