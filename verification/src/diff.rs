//! The mathematical model of the comparison between the freshly unpacked
//! tree (the temp tree) and the deployed tree (the live tree).

use vstd::prelude::*;
use crate::paths::{relative_of, parent_of, file_name_of, extension_of};
use crate::hashname::equal_ignoring_hash;
use crate::digest::same_content;

verus! {

/// A file of a remote tree: its full path and the digest recorded for it.
pub struct FileRec {
    pub path: Seq<char>,
    pub hash: Seq<char>,
}

/// One file to add or to replace.
pub struct Difference {
    /// Full path of the new file in the temp tree.
    pub temp_path: Seq<char>,
    /// Full path of the live file it replaces; empty for a file that is new.
    pub old_path: Seq<char>,
    /// Path of the new file relative to the root of the temp tree.
    pub relative_path: Seq<char>,
}

/// What the comparison reads of the path of a file in a tree.
pub struct Record {
    /// Full path of the file.
    pub path: Seq<char>,
    /// Its path relative to the root of its tree.
    pub relative_path: Seq<char>,
    /// Its base name.
    pub file_name: Seq<char>,
    /// The extension of its base name.
    pub extension: Seq<char>,
}

/// The record of the file `path` in the tree at `root`.
pub open spec fn record_of(path: Seq<char>, root: Seq<char>) -> Record {
    Record {
        path: path,
        relative_path: relative_of(path, root),
        file_name: file_name_of(path),
        extension: extension_of(path),
    }
}

/// Whether a live file and a temp file stand for the same asset: both have
/// the same relative path, or they lie in the same directory and their base
/// names are equal but for a hash.
pub open spec fn same_asset(live: Record, temp: Record) -> bool {
    live.relative_path == temp.relative_path || (parent_of(live.relative_path) == parent_of(
        temp.relative_path,
    ) && equal_ignoring_hash(live.file_name, temp.file_name))
}

/// Whether the live file `live` is a candidate match for the temp file
/// `temp`.
pub open spec fn is_candidate(
    live: Seq<char>,
    temp: Seq<char>,
    live_root: Seq<char>,
    temp_root: Seq<char>,
) -> bool {
    same_asset(record_of(live, live_root), record_of(temp, temp_root))
}

/// Index of the first live file at or behind `from` that is a candidate match
/// for `temp`, or -1.
pub open spec fn first_candidate_from(
    files: Seq<FileRec>,
    from: int,
    temp: Seq<char>,
    live_root: Seq<char>,
    temp_root: Seq<char>,
) -> int
    decreases files.len() - from,
{
    if from < 0 || from >= files.len() {
        -1
    } else if is_candidate(files[from].path, temp, live_root, temp_root) {
        from
    } else {
        first_candidate_from(files, from + 1, temp, live_root, temp_root)
    }
}

/// Index of the first live file at or behind `from` that has the relative
/// path of `temp`, or -1.
pub open spec fn first_same_path_from(
    files: Seq<FileRec>,
    from: int,
    temp: Seq<char>,
    live_root: Seq<char>,
    temp_root: Seq<char>,
) -> int
    decreases files.len() - from,
{
    if from < 0 || from >= files.len() {
        -1
    } else if relative_of(files[from].path, live_root) == relative_of(temp, temp_root) {
        from
    } else {
        first_same_path_from(files, from + 1, temp, live_root, temp_root)
    }
}

/// Index of the live file that is taken for `temp`, or -1: the first live
/// file with the relative path of `temp` where there is one, else the first
/// that is a candidate match for it by its name.
pub open spec fn first_candidate(
    files: Seq<FileRec>,
    temp: Seq<char>,
    live_root: Seq<char>,
    temp_root: Seq<char>,
) -> int {
    if first_same_path_from(files, 0, temp, live_root, temp_root) >= 0 {
        first_same_path_from(files, 0, temp, live_root, temp_root)
    } else {
        first_candidate_from(files, 0, temp, live_root, temp_root)
    }
}

/// What the comparison says of one temp file: a pure addition where no live
/// file is taken for it, nothing where the live file taken has the same content,
/// else a replacement of the matched file.
pub open spec fn difference_for(
    files: Seq<FileRec>,
    temp: FileRec,
    live_root: Seq<char>,
    temp_root: Seq<char>,
) -> Option<Difference> {
    let i = first_candidate(files, temp.path, live_root, temp_root);
    if i < 0 {
        Some(
            Difference {
                temp_path: temp.path,
                old_path: Seq::empty(),
                relative_path: relative_of(temp.path, temp_root),
            },
        )
    } else if same_content(files[i].hash, temp.hash) {
        None
    } else {
        Some(
            Difference {
                temp_path: temp.path,
                old_path: files[i].path,
                relative_path: relative_of(temp.path, temp_root),
            },
        )
    }
}

/// The files to add or replace, in the order of the temp files.
pub open spec fn differences(
    files: Seq<FileRec>,
    temps: Seq<FileRec>,
    live_root: Seq<char>,
    temp_root: Seq<char>,
) -> Seq<Difference>
    decreases temps.len(),
{
    if temps.len() == 0 {
        Seq::empty()
    } else {
        let head = differences(files, temps.drop_last(), live_root, temp_root);
        match difference_for(files, temps.last(), live_root, temp_root) {
            Some(d) => head.push(d),
            None => head,
        }
    }
}

/// Whether one of `files`, files of the tree at `root`, has the relative
/// path `relative`.
pub open spec fn holds_path(files: Seq<FileRec>, root: Seq<char>, relative: Seq<char>) -> bool {
    exists|k: int| 0 <= k < files.len() && relative_of(#[trigger] files[k].path, root) == relative
}

/// A live file is stale when no temp file has its relative path.
pub open spec fn is_stale(
    live: Seq<char>,
    temps: Seq<FileRec>,
    live_root: Seq<char>,
    temp_root: Seq<char>,
) -> bool {
    forall|j: int|
        0 <= j < temps.len() ==> relative_of(#[trigger] temps[j].path, temp_root) != relative_of(
            live,
            live_root,
        )
}

/// The paths of the stale live files, in the order of the live files.
pub open spec fn stale_files(
    files: Seq<FileRec>,
    temps: Seq<FileRec>,
    live_root: Seq<char>,
    temp_root: Seq<char>,
) -> Seq<Seq<char>>
    decreases files.len(),
{
    if files.len() == 0 {
        Seq::empty()
    } else {
        let head = stale_files(files.drop_last(), temps, live_root, temp_root);
        if is_stale(files.last().path, temps, live_root, temp_root) {
            head.push(files.last().path)
        } else {
            head
        }
    }
}

pub proof fn lemma_first_same_path_from(
    files: Seq<FileRec>,
    from: int,
    temp: Seq<char>,
    live_root: Seq<char>,
    temp_root: Seq<char>,
)
    requires
        0 <= from,
    ensures
        ({
            let i = first_same_path_from(files, from, temp, live_root, temp_root);
            &&& (i == -1 || (from <= i < files.len() && relative_of(files[i].path, live_root)
                == relative_of(temp, temp_root)))
            &&& forall|j: int|
                from <= j < files.len() && (j < i || i == -1) ==> relative_of(
                    #[trigger] files[j].path,
                    live_root,
                ) != relative_of(temp, temp_root)
        }),
    decreases files.len() - from,
{
    if from < files.len() && relative_of(files[from].path, live_root) != relative_of(
        temp,
        temp_root,
    ) {
        lemma_first_same_path_from(files, from + 1, temp, live_root, temp_root);
    }
}

/// Taking one more temp file into the comparison appends what is said of it.
pub proof fn lemma_differences_step(
    files: Seq<FileRec>,
    temps: Seq<FileRec>,
    n: int,
    live_root: Seq<char>,
    temp_root: Seq<char>,
)
    requires
        0 <= n < temps.len(),
    ensures
        differences(files, temps.subrange(0, n + 1), live_root, temp_root) == (match difference_for(
            files,
            temps[n],
            live_root,
            temp_root,
        ) {
            Some(d) => differences(files, temps.subrange(0, n), live_root, temp_root).push(d),
            None => differences(files, temps.subrange(0, n), live_root, temp_root),
        }),
{
    let s = temps.subrange(0, n + 1);
    assert(s.drop_last() =~= temps.subrange(0, n));
    assert(s.last() == temps[n]);
}

/// Taking one more live file into the search for stale files appends it where
/// it is stale.
pub proof fn lemma_stale_step(
    files: Seq<FileRec>,
    temps: Seq<FileRec>,
    n: int,
    live_root: Seq<char>,
    temp_root: Seq<char>,
)
    requires
        0 <= n < files.len(),
    ensures
        stale_files(files.subrange(0, n + 1), temps, live_root, temp_root) == (if is_stale(
            files[n].path,
            temps,
            live_root,
            temp_root,
        ) {
            stale_files(files.subrange(0, n), temps, live_root, temp_root).push(files[n].path)
        } else {
            stale_files(files.subrange(0, n), temps, live_root, temp_root)
        }),
{
    let s = files.subrange(0, n + 1);
    assert(s.drop_last() =~= files.subrange(0, n));
    assert(s.last() == files[n]);
}

} // verus!
