//! Remote paths as text. A remote path is a string whose directories are
//! separated by `/`; nothing here touches a file system.

use vstd::prelude::*;
use crate::text::{to_chars, slice_text, join_text, join_text3};

verus! {

/// Position just behind the last `/` of `path`, or 0 where it has none.
pub open spec fn name_start(path: Seq<char>) -> int
    decreases path.len(),
{
    if path.len() == 0 {
        0
    } else if path.last() == '/' {
        path.len() as int
    } else {
        name_start(path.drop_last())
    }
}

/// The base name: what follows the last `/`.
pub open spec fn file_name_of(path: Seq<char>) -> Seq<char> {
    path.subrange(name_start(path), path.len() as int)
}

/// The directory part: what precedes the last `/`; empty where there is
/// none, and `/` itself where the last `/` opens the path.
pub open spec fn parent_of(path: Seq<char>) -> Seq<char> {
    if name_start(path) == 0 {
        Seq::empty()
    } else if name_start(path) == 1 {
        path.subrange(0, 1)
    } else {
        path.subrange(0, name_start(path) - 1)
    }
}

/// `path` without the `/` characters it ends with.
pub open spec fn trim_trailing_slashes(path: Seq<char>) -> Seq<char>
    decreases path.len(),
{
    if path.len() > 0 && path.last() == '/' {
        trim_trailing_slashes(path.drop_last())
    } else {
        path
    }
}

/// The name of a directory: its base name, whether or not the path ends in `/`.
pub open spec fn dir_name_of(path: Seq<char>) -> Seq<char> {
    file_name_of(trim_trailing_slashes(path))
}

/// The directory above a directory, whether or not the path ends in `/`.
pub open spec fn dir_parent_of(path: Seq<char>) -> Seq<char> {
    parent_of(trim_trailing_slashes(path))
}

/// Position of the last `.` of `name`, or -1 where it has none.
pub open spec fn last_dot(name: Seq<char>) -> int
    decreases name.len(),
{
    if name.len() == 0 {
        -1
    } else if name.last() == '.' {
        name.len() - 1
    } else {
        last_dot(name.drop_last())
    }
}

/// The extension of a base name: what follows its last `.`, unless that dot
/// opens the name; empty where there is none.
pub open spec fn extension_of_name(name: Seq<char>) -> Seq<char> {
    if last_dot(name) <= 0 {
        Seq::empty()
    } else {
        name.subrange(last_dot(name) + 1, name.len() as int)
    }
}

/// The extension of the base name of `path`.
pub open spec fn extension_of(path: Seq<char>) -> Seq<char> {
    extension_of_name(file_name_of(path))
}

/// `path` without the extension of its base name and the dot before it.
pub open spec fn without_extension_of(path: Seq<char>) -> Seq<char> {
    if last_dot(file_name_of(path)) > 0 {
        path.subrange(0, name_start(path) + last_dot(file_name_of(path)))
    } else {
        path
    }
}

/// Whether `path` lies at or below the directory `root`.
pub open spec fn is_under(path: Seq<char>, root: Seq<char>) -> bool {
    &&& root.len() <= path.len()
    &&& path.subrange(0, root.len() as int) == root
    &&& (root.len() == path.len() || (root.len() > 0 && root.last() == '/')
        || path[root.len() as int] == '/')
}

/// `s` without the `/` characters it starts with.
pub open spec fn trim_leading_slashes(s: Seq<char>) -> Seq<char>
    decreases s.len(),
{
    if s.len() > 0 && s[0] == '/' {
        trim_leading_slashes(s.drop_first())
    } else {
        s
    }
}

/// The path of a file relative to the root of its tree, without a leading
/// `/`; empty where the file does not lie under the root.
pub open spec fn relative_of(path: Seq<char>, root: Seq<char>) -> Seq<char> {
    if is_under(path, root) {
        trim_leading_slashes(path.subrange(root.len() as int, path.len() as int))
    } else {
        Seq::empty()
    }
}

/// `rel` placed under the directory `dir`. An absolute `rel` stands alone.
pub open spec fn join_of(dir: Seq<char>, rel: Seq<char>) -> Seq<char> {
    if rel.len() > 0 && rel[0] == '/' {
        rel
    } else if dir.len() == 0 || dir.last() == '/' {
        dir + rel
    } else {
        dir + seq!['/'] + rel
    }
}

/// A position is `name_start` once a `/` stands before it and none after it.
pub proof fn lemma_name_start_is(path: Seq<char>, k: int)
    requires
        0 <= k <= path.len(),
        k > 0 ==> path[k - 1] == '/',
        forall|j: int| k <= j < path.len() ==> path[j] != '/',
    ensures
        name_start(path) == k,
    decreases path.len(),
{
    if path.len() > 0 {
        if path.last() == '/' {
        } else {
            lemma_name_start_is(path.drop_last(), k);
        }
    }
}

/// A position is `last_dot` once a `.` stands at it and none after it.
pub proof fn lemma_last_dot_is(name: Seq<char>, k: int)
    requires
        -1 <= k < name.len(),
        k >= 0 ==> name[k] == '.',
        forall|j: int| k < j < name.len() ==> name[j] != '.',
    ensures
        last_dot(name) == k,
    decreases name.len(),
{
    if name.len() > 0 {
        if name.last() == '.' {
        } else {
            lemma_last_dot_is(name.drop_last(), k);
        }
    }
}

/// Position just behind the last `/` among the characters `s`.
pub fn find_name_start(s: &[char]) -> (k: usize)
    ensures
        k == name_start(s@),
        k <= s@.len(),
{
    let mut i: usize = s.len();
    while i > 0
        invariant
            i <= s@.len(),
            forall|j: int| i <= j < s@.len() ==> s@[j] != '/',
        decreases i,
    {
        if s[i - 1] == '/' {
            proof {
                lemma_name_start_is(s@, i as int);
            }
            return i;
        }
        i = i - 1;
    }
    proof {
        lemma_name_start_is(s@, 0);
    }
    0
}

/// Position of the last `.` among `s[from..]`, counted from `from`; `None`
/// where there is none.
pub(crate) fn find_last_dot(s: &[char], from: usize) -> (k: Option<usize>)
    requires
        from <= s@.len(),
    ensures
        match k {
            Some(d) => d == last_dot(s@.subrange(from as int, s@.len() as int)) && from + d
                < s@.len(),
            None => last_dot(s@.subrange(from as int, s@.len() as int)) == -1,
        },
{
    let ghost name = s@.subrange(from as int, s@.len() as int);
    let mut i: usize = s.len();
    while i > from
        invariant
            from <= i <= s@.len(),
            name == s@.subrange(from as int, s@.len() as int),
            forall|j: int| i - from <= j < name.len() ==> name[j] != '.',
        decreases i,
    {
        if s[i - 1] == '.' {
            proof {
                assert(name[i - 1 - from] == s@[i - 1]);
                lemma_last_dot_is(name, i - 1 - from);
            }
            return Some(i - 1 - from);
        }
        i = i - 1;
        assert(name[i - from] == s@[i as int]);
    }
    proof {
        lemma_last_dot_is(name, -1);
    }
    None
}

/// The base name of `path`.
pub fn file_name(path: &str) -> (r: String)
    ensures
        r@ == file_name_of(path@),
{
    let cs = to_chars(path);
    let k = find_name_start(cs.as_slice());
    slice_text(path, k, cs.len())
}

/// The directory part of `path`.
pub fn parent_dir(path: &str) -> (r: String)
    ensures
        r@ == parent_of(path@),
{
    let cs = to_chars(path);
    let k = find_name_start(cs.as_slice());
    if k == 0 {
        let r = String::new();
        assert(r@ =~= parent_of(path@));
        r
    } else if k == 1 {
        slice_text(path, 0, 1)
    } else {
        slice_text(path, 0, k - 1)
    }
}

/// `path` without the `/` characters it ends with.
pub fn trim_end_slashes(path: &str) -> (r: String)
    ensures
        r@ == trim_trailing_slashes(path@),
{
    let p = to_chars(path);
    let mut k: usize = p.len();
    assert(p@.subrange(0, k as int) =~= p@);
    while k > 0 && p[k - 1] == '/'
        invariant
            p@ == path@,
            k <= p@.len(),
            trim_trailing_slashes(p@) == trim_trailing_slashes(p@.subrange(0, k as int)),
        decreases k,
    {
        assert(p@.subrange(0, k as int).drop_last() =~= p@.subrange(0, k - 1));
        k = k - 1;
    }
    slice_text(path, 0, k)
}

/// The name of the directory `path`.
pub fn dir_name(path: &str) -> (r: String)
    ensures
        r@ == dir_name_of(path@),
{
    let trimmed = trim_end_slashes(path);
    file_name(trimmed.as_str())
}

/// The directory above the directory `path`.
pub fn dir_parent(path: &str) -> (r: String)
    ensures
        r@ == dir_parent_of(path@),
{
    let trimmed = trim_end_slashes(path);
    parent_dir(trimmed.as_str())
}

/// The extension of the base name of `path`.
pub fn extension(path: &str) -> (r: String)
    ensures
        r@ == extension_of(path@),
{
    let cs = to_chars(path);
    let n = cs.len();
    let k = find_name_start(cs.as_slice());
    let ghost name = file_name_of(path@);
    match find_last_dot(cs.as_slice(), k) {
        Some(d) => {
            if d == 0 {
                let r = String::new();
                assert(r@ =~= extension_of(path@));
                r
            } else {
                let r = slice_text(path, k + d + 1, n);
                assert(r@ =~= name.subrange(d + 1, name.len() as int));
                r
            }
        },
        None => {
            let r = String::new();
            assert(r@ =~= extension_of(path@));
            r
        },
    }
}

/// Whether the characters `s` begin with the characters `prefix`.
pub fn starts_with_chars(s: &[char], prefix: &[char]) -> (r: bool)
    ensures
        r == (prefix@.len() <= s@.len() && s@.subrange(0, prefix@.len() as int) == prefix@),
{
    if prefix.len() > s.len() {
        return false;
    }
    let mut i: usize = 0;
    while i < prefix.len()
        invariant
            prefix@.len() <= s@.len(),
            i <= prefix@.len(),
            s@.subrange(0, i as int) == prefix@.subrange(0, i as int),
        decreases prefix@.len() - i,
    {
        if s[i] != prefix[i] {
            assert(s@.subrange(0, prefix@.len() as int)[i as int] != prefix@[i as int]);
            return false;
        }
        i = i + 1;
        assert(s@.subrange(0, i as int) =~= s@.subrange(0, i - 1).push(s@[i - 1]));
        assert(prefix@.subrange(0, i as int) =~= prefix@.subrange(0, i - 1).push(prefix@[i - 1]));
    }
    assert(prefix@.subrange(0, i as int) =~= prefix@);
    true
}

/// Whether the path `path` lies at or below the directory `root`, both given
/// by their characters.
pub fn lies_under(path: &[char], root: &[char]) -> (r: bool)
    ensures
        r == is_under(path@, root@),
{
    if !starts_with_chars(path, root) {
        return false;
    }
    root.len() == path.len() || (root.len() > 0 && root[root.len() - 1] == '/')
        || path[root.len()] == '/'
}

/// The path of `path` relative to `root`.
pub fn relative_path(path: &str, root: &str) -> (r: String)
    ensures
        r@ == relative_of(path@, root@),
{
    let p = to_chars(path);
    let t = to_chars(root);
    if !lies_under(p.as_slice(), t.as_slice()) {
        return String::new();
    }
    let n = p.len();
    let mut k: usize = t.len();
    while k < n && p[k] == '/'
        invariant
            n == p@.len(),
            p@ == path@,
            t@.len() <= k <= n,
            trim_leading_slashes(p@.subrange(t@.len() as int, n as int)) == trim_leading_slashes(
                p@.subrange(k as int, n as int),
            ),
        decreases n - k,
    {
        assert(p@.subrange(k as int, n as int).drop_first() =~= p@.subrange(k + 1, n as int));
        k = k + 1;
    }
    slice_text(path, k, n)
}

/// `rel` placed under the directory `dir`.
pub fn join_path(dir: &str, rel: &str) -> (r: String)
    ensures
        r@ == join_of(dir@, rel@),
{
    let d = to_chars(dir);
    let l = to_chars(rel);
    if l.len() > 0 && l[0] == '/' {
        rel.to_owned()
    } else if d.len() == 0 || d[d.len() - 1] == '/' {
        join_text(dir, rel)
    } else {
        proof {
            reveal_strlit("/");
            assert("/"@ =~= seq!['/']);
        }
        join_text3(dir, "/", rel)
    }
}

/// `path` without the extension of its base name and the dot before it.
pub fn without_extension(path: &str) -> (r: String)
    ensures
        r@ == without_extension_of(path@),
{
    let cs = to_chars(path);
    let start = find_name_start(cs.as_slice());
    match find_last_dot(cs.as_slice(), start) {
        Some(d) => {
            if d > 0 {
                slice_text(path, 0, start + d)
            } else {
                path.to_owned()
            }
        },
        None => path.to_owned(),
    }
}

} // verus!
