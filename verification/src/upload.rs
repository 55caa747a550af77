//! Publishing an artifact: matching the temp tree against the live tree and
//! turning the outcome into remote shell commands.

use vstd::prelude::*;
use crate::config::{Upload, SftpUploadResult};
use crate::text::{same_text, join_text, to_chars, chars_eq};
use crate::paths::{relative_path, parent_dir, file_name, join_path, extension};
use crate::paths::{relative_of, parent_of, file_name_of};
use crate::hashname::{strip_hash_infix, is_hash_stem_name, find_infix};
use crate::hashname::{equal_ignoring_hash, both_hash_stems, hash_named, has_infix, strip_infix};
use crate::digest::digests_match;
use crate::diff::{FileRec, Difference, is_candidate, first_candidate, first_candidate_from};
use crate::diff::first_same_path_from;
use crate::diff::{Record, record_of, same_asset};
use crate::diff::{differences, is_stale, stale_files};
use crate::diff::{lemma_differences_step, lemma_stale_step};
use crate::plan::{remove_command, copy_command, move_command, difference_commands};
use crate::plan::{increment_commands, remove_commands, lemma_increment_commands_step};
use crate::plan::{PublishMode, publish_mode, publish_plan};

verus! {

/// The rules of a publish run.
pub struct SftpUpload;

/// A file of a remote tree as the run has seen it.
#[derive(Debug, Default, Clone)]
pub struct RemoteFile {
    /// Full path on the host.
    pub path: String,
    /// Digest of the content, or empty where the file was not read.
    pub hash: String,
}

impl View for RemoteFile {
    type V = FileRec;

    open spec fn view(&self) -> FileRec {
        FileRec { path: self.path@, hash: self.hash@ }
    }
}

impl DeepView for RemoteFile {
    type V = FileRec;

    open spec fn deep_view(&self) -> FileRec {
        self@
    }
}

/// A file of a tree, with what the comparison reads of its path.
#[derive(Debug, Default, Clone)]
pub struct FileRecord {
    /// Full path of the file.
    pub path: String,
    /// Its path relative to the root of its tree.
    pub relative_path: String,
    /// Its base name.
    pub file_name: String,
    /// The extension of its base name.
    pub extension: String,
}

impl View for FileRecord {
    type V = Record;

    open spec fn view(&self) -> Record {
        Record {
            path: self.path@,
            relative_path: self.relative_path@,
            file_name: self.file_name@,
            extension: self.extension@,
        }
    }
}

/// A remote directory as the run has seen it.
#[derive(Debug, Default, Clone)]
pub struct RemoteTree {
    /// Whether the directory exists on the host.
    pub exists: bool,
    /// Every file below it, directories left out.
    pub files: Vec<RemoteFile>,
}

/// One file to add or to replace.
#[derive(Debug, Default, Clone)]
pub struct SftpUploadDifferent {
    /// Full path of the new file in the temp tree.
    pub temp_path: String,
    /// Full path of the live file it replaces; empty for a file that is new.
    pub old_path: String,
    /// Path of the new file relative to the root of the temp tree.
    pub relative_path: String,
}

impl View for SftpUploadDifferent {
    type V = Difference;

    open spec fn view(&self) -> Difference {
        Difference {
            temp_path: self.temp_path@,
            old_path: self.old_path@,
            relative_path: self.relative_path@,
        }
    }
}

impl DeepView for SftpUploadDifferent {
    type V = Difference;

    open spec fn deep_view(&self) -> Difference {
        self@
    }
}

/// Why no plan could be made.
#[derive(Debug, Clone, Copy, PartialEq, Eq, Structural)]
pub enum PublishError {
    /// The temp directory does not exist on the host.
    TempDirMissing,
    /// The temp directory holds no file.
    TempDirEmpty,
}

/// What the search for a match reads of one path, worked out once.
struct MatchKey {
    relative_path: Vec<char>,
    parent: Vec<char>,
    has_infix: bool,
    stripped_name: Vec<char>,
}

impl MatchKey {
    /// Whether this is the key of the file `path` of the tree at `root`.
    spec fn is_key_of(&self, path: Seq<char>, root: Seq<char>) -> bool {
        &&& self.relative_path@ == relative_of(path, root)
        &&& self.parent@ == parent_of(relative_of(path, root))
        &&& self.has_infix == has_infix(file_name_of(path))
        &&& self.stripped_name@ == strip_infix(file_name_of(path))
    }

    /// Whether these are the keys of the files `files` of the tree at `root`,
    /// one for one.
    spec fn are_keys_of(keys: Seq<MatchKey>, files: Seq<FileRec>, root: Seq<char>) -> bool {
        &&& keys.len() == files.len()
        &&& forall|i: int|
            0 <= i < keys.len() ==> (#[trigger] keys[i]).is_key_of(files[i].path, root)
    }

    fn new(path: &str, root: &str) -> (r: MatchKey)
        ensures
            r.is_key_of(path@, root@),
    {
        let rel = relative_path(path, root);
        let parent = parent_dir(rel.as_str());
        let name = file_name(path);
        let name_chars = to_chars(name.as_str());
        let stripped = strip_hash_infix(name.as_str());
        MatchKey {
            relative_path: to_chars(rel.as_str()),
            parent: to_chars(parent.as_str()),
            has_infix: find_infix(name_chars.as_slice()).is_some(),
            stripped_name: to_chars(stripped.as_str()),
        }
    }

    fn all(files: &Vec<RemoteFile>, root: &str) -> (r: Vec<MatchKey>)
        ensures
            Self::are_keys_of(r@, files.deep_view(), root@),
    {
        let mut keys: Vec<MatchKey> = Vec::new();
        let mut i: usize = 0;
        while i < files.len()
            invariant
                i <= files@.len(),
                keys@.len() == i,
                forall|k: int|
                    0 <= k < i ==> (#[trigger] keys@[k]).is_key_of(
                        files.deep_view()[k].path,
                        root@,
                    ),
            decreases files@.len() - i,
        {
            assert(files.deep_view()[i as int] == files@[i as int]@);
            keys.push(Self::new(files[i].path.as_str(), root));
            i = i + 1;
        }
        keys
    }

    /// Whether the live file of this key is a candidate match for the temp
    /// file of the key `temp`.
    fn matches(
        &self,
        temp: &MatchKey,
        Ghost(live_path): Ghost<Seq<char>>,
        Ghost(live_root): Ghost<Seq<char>>,
        Ghost(temp_path): Ghost<Seq<char>>,
        Ghost(temp_root): Ghost<Seq<char>>,
    ) -> (r: bool)
        requires
            self.is_key_of(live_path, live_root),
            temp.is_key_of(temp_path, temp_root),
        ensures
            r == is_candidate(live_path, temp_path, live_root, temp_root),
    {
        if chars_eq(self.relative_path.as_slice(), temp.relative_path.as_slice()) {
            return true;
        }
        if !chars_eq(self.parent.as_slice(), temp.parent.as_slice()) {
            return false;
        }
        self.has_infix && temp.has_infix && chars_eq(
            self.stripped_name.as_slice(),
            temp.stripped_name.as_slice(),
        )
    }

    /// The live file of `keys` that is taken for the temp file of the key
    /// `temp`: the first with its relative path, else the first that is a
    /// candidate match for it.
    fn find(
        keys: &Vec<MatchKey>,
        temp: &MatchKey,
        Ghost(files): Ghost<Seq<FileRec>>,
        Ghost(live_root): Ghost<Seq<char>>,
        Ghost(temp_path): Ghost<Seq<char>>,
        Ghost(temp_root): Ghost<Seq<char>>,
    ) -> (r: Option<usize>)
        requires
            Self::are_keys_of(keys@, files, live_root),
            temp.is_key_of(temp_path, temp_root),
        ensures
            match r {
                Some(i) => i == first_candidate(files, temp_path, live_root, temp_root) && i
                    < files.len(),
                None => first_candidate(files, temp_path, live_root, temp_root) == -1,
            },
    {
        let mut i: usize = 0;
        while i < keys.len()
            invariant
                i <= keys@.len(),
                Self::are_keys_of(keys@, files, live_root),
                temp.is_key_of(temp_path, temp_root),
                first_same_path_from(files, 0, temp_path, live_root, temp_root)
                    == first_same_path_from(files, i as int, temp_path, live_root, temp_root),
            decreases keys@.len() - i,
        {
            if chars_eq(keys[i].relative_path.as_slice(), temp.relative_path.as_slice()) {
                return Some(i);
            }
            i = i + 1;
        }
        let mut k: usize = 0;
        while k < keys.len()
            invariant
                k <= keys@.len(),
                Self::are_keys_of(keys@, files, live_root),
                temp.is_key_of(temp_path, temp_root),
                first_same_path_from(files, 0, temp_path, live_root, temp_root) == -1,
                first_candidate_from(files, 0, temp_path, live_root, temp_root)
                    == first_candidate_from(files, k as int, temp_path, live_root, temp_root),
            decreases keys@.len() - k,
        {
            if keys[k].matches(
                temp,
                Ghost(files[k as int].path),
                Ghost(live_root),
                Ghost(temp_path),
                Ghost(temp_root),
            ) {
                return Some(k);
            }
            k = k + 1;
        }
        None
    }
}

impl SftpUpload {
    /// Whether two base names are equal but for a hash infix.
    pub fn judge_filename_hash(file1_name: &str, file2_name: &str) -> (r: bool)
        ensures
            r == equal_ignoring_hash(file1_name@, file2_name@),
    {
        let a = to_chars(file1_name);
        let b = to_chars(file2_name);
        if find_infix(a.as_slice()).is_none() {
            return false;
        }
        if find_infix(b.as_slice()).is_none() {
            return false;
        }
        let x = strip_hash_infix(file1_name);
        let y = strip_hash_infix(file2_name);
        same_text(x.as_str(), y.as_str())
    }

    /// Whether both names are a bare hash before one and the same extension.
    pub fn math_filename_start_with_hash(
        file1_name: &str,
        file2_name: &str,
        file1_extension: &str,
        file2_extension: &str,
    ) -> (r: bool)
        ensures
            r == both_hash_stems(file1_name@, file2_name@, file1_extension@, file2_extension@),
    {
        is_hash_stem_name(file1_name, file1_extension) && is_hash_stem_name(
            file2_name,
            file2_extension,
        ) && same_text(file1_extension, file2_extension)
    }

    /// Whether two names follow the hash naming convention.
    pub fn math_filename_hash(
        file1_name: &str,
        file2_name: &str,
        file1_extension: &str,
        file2_extension: &str,
    ) -> (r: bool)
        ensures
            r == hash_named(file1_name@, file2_name@, file1_extension@, file2_extension@),
    {
        if Self::math_filename_start_with_hash(
            file1_name,
            file2_name,
            file1_extension,
            file2_extension,
        ) {
            return true;
        }
        Self::judge_filename_hash(file1_name, file2_name)
    }

    /// The record of the file `path` in the tree at `root`.
    pub fn file_record(path: &str, root: &str) -> (r: FileRecord)
        ensures
            r@ == record_of(path@, root@),
    {
        FileRecord {
            path: path.to_owned(),
            relative_path: relative_path(path, root),
            file_name: file_name(path),
            extension: extension(path),
        }
    }

    /// Whether a live file and a temp file stand for the same asset.
    pub fn same_asset(live: &FileRecord, temp: &FileRecord) -> (r: bool)
        ensures
            r == same_asset(live@, temp@),
    {
        if same_text(live.relative_path.as_str(), temp.relative_path.as_str()) {
            return true;
        }
        let dir = parent_dir(live.relative_path.as_str());
        let temp_dir = parent_dir(temp.relative_path.as_str());
        if !same_text(dir.as_str(), temp_dir.as_str()) {
            return false;
        }
        Self::judge_filename_hash(live.file_name.as_str(), temp.file_name.as_str())
    }

    /// Whether the live file `file` is a candidate match for the temp file
    /// `temp_file`.
    pub fn compare_two_file_same(
        file: &str,
        temp_file: &str,
        file_dir: &str,
        temp_file_dir: &str,
    ) -> (r: bool)
        ensures
            r == is_candidate(file@, temp_file@, file_dir@, temp_file_dir@),
    {
        let live = Self::file_record(file, file_dir);
        let temp = Self::file_record(temp_file, temp_file_dir);
        Self::same_asset(&live, &temp)
    }

    /// Whether two recorded digests show the same content.
    pub fn compare_two_file_hash(file_hash: &str, temp_file_hash: &str) -> (r: bool)
        ensures
            r == crate::digest::same_content(file_hash@, temp_file_hash@),
    {
        digests_match(file_hash, temp_file_hash)
    }

    /// The live file that is taken for `temp_file`: the first with its
    /// relative path, else the first that is a candidate match for it.
    pub fn find_compare_file(
        files: &Vec<RemoteFile>,
        temp_file: &str,
        file_dir: &str,
        temp_file_dir: &str,
    ) -> (r: Option<usize>)
        ensures
            match r {
                Some(i) => i == first_candidate(
                    files.deep_view(),
                    temp_file@,
                    file_dir@,
                    temp_file_dir@,
                ) && i < files@.len(),
                None => first_candidate(files.deep_view(), temp_file@, file_dir@, temp_file_dir@)
                    == -1,
            },
    {
        let keys = MatchKey::all(files, file_dir);
        let temp_key = MatchKey::new(temp_file, temp_file_dir);
        MatchKey::find(
            &keys,
            &temp_key,
            Ghost(files.deep_view()),
            Ghost(file_dir@),
            Ghost(temp_file@),
            Ghost(temp_file_dir@),
        )
    }

    /// For each temp file, the live file that is taken for it.
    pub fn find_compare_files(
        files: &Vec<RemoteFile>,
        temp_files: &Vec<RemoteFile>,
        file_dir: &str,
        temp_file_dir: &str,
    ) -> (r: Vec<Option<usize>>)
        ensures
            r@.len() == temp_files@.len(),
            forall|k: int|
                0 <= k < r@.len() ==> match #[trigger] r@[k] {
                    Some(i) => i == first_candidate(
                        files.deep_view(),
                        temp_files.deep_view()[k].path,
                        file_dir@,
                        temp_file_dir@,
                    ) && i < files@.len(),
                    None => first_candidate(
                        files.deep_view(),
                        temp_files.deep_view()[k].path,
                        file_dir@,
                        temp_file_dir@,
                    ) == -1,
                },
    {
        let keys = MatchKey::all(files, file_dir);
        let mut out: Vec<Option<usize>> = Vec::new();
        let mut k: usize = 0;
        while k < temp_files.len()
            invariant
                k <= temp_files@.len(),
                out@.len() == k,
                MatchKey::are_keys_of(keys@, files.deep_view(), file_dir@),
                forall|j: int|
                    0 <= j < k ==> match #[trigger] out@[j] {
                        Some(i) => i == first_candidate(
                            files.deep_view(),
                            temp_files.deep_view()[j].path,
                            file_dir@,
                            temp_file_dir@,
                        ) && i < files@.len(),
                        None => first_candidate(
                            files.deep_view(),
                            temp_files.deep_view()[j].path,
                            file_dir@,
                            temp_file_dir@,
                        ) == -1,
                    },
            decreases temp_files@.len() - k,
        {
            let temp = &temp_files[k];
            assert(temp_files.deep_view()[k as int] == temp@);
            let temp_key = MatchKey::new(temp.path.as_str(), temp_file_dir);
            let found = MatchKey::find(
                &keys,
                &temp_key,
                Ghost(files.deep_view()),
                Ghost(file_dir@),
                Ghost(temp.path@),
                Ghost(temp_file_dir@),
            );
            out.push(found);
            k = k + 1;
        }
        out
    }

    /// The files to add or replace: every temp file that no live file is
    /// taken for, and every temp file whose content differs from that of the
    /// live file taken for it.
    pub fn get_compare_file(
        files: &Vec<RemoteFile>,
        temp_files: &Vec<RemoteFile>,
        file_dir: &str,
        temp_file_dir: &str,
    ) -> (r: Vec<SftpUploadDifferent>)
        ensures
            r.deep_view() == differences(
                files.deep_view(),
                temp_files.deep_view(),
                file_dir@,
                temp_file_dir@,
            ),
    {
        let keys = MatchKey::all(files, file_dir);
        let mut out: Vec<SftpUploadDifferent> = Vec::new();
        let mut i: usize = 0;
        assert(temp_files.deep_view().subrange(0, 0) =~= Seq::<FileRec>::empty());
        assert(out.deep_view() =~= Seq::<Difference>::empty());
        while i < temp_files.len()
            invariant
                i <= temp_files@.len(),
                MatchKey::are_keys_of(keys@, files.deep_view(), file_dir@),
                out.deep_view() == differences(
                    files.deep_view(),
                    temp_files.deep_view().subrange(0, i as int),
                    file_dir@,
                    temp_file_dir@,
                ),
            decreases temp_files@.len() - i,
        {
            let temp = &temp_files[i];
            let ghost before = out.deep_view();
            proof {
                lemma_differences_step(
                    files.deep_view(),
                    temp_files.deep_view(),
                    i as int,
                    file_dir@,
                    temp_file_dir@,
                );
                assert(temp_files.deep_view()[i as int] == temp@);
            }
            let temp_key = MatchKey::new(temp.path.as_str(), temp_file_dir);
            let found = MatchKey::find(
                &keys,
                &temp_key,
                Ghost(files.deep_view()),
                Ghost(file_dir@),
                Ghost(temp.path@),
                Ghost(temp_file_dir@),
            );
            match found {
                None => {
                    let d = SftpUploadDifferent {
                        temp_path: temp.path.clone(),
                        old_path: String::new(),
                        relative_path: relative_path(temp.path.as_str(), temp_file_dir),
                    };
                    out.push(d);
                    assert(out.deep_view() =~= before.push(d@));
                },
                Some(j) => {
                    assert(files.deep_view()[j as int] == files@[j as int]@);
                    if !Self::compare_two_file_hash(files[j].hash.as_str(), temp.hash.as_str()) {
                        let d = SftpUploadDifferent {
                            temp_path: temp.path.clone(),
                            old_path: files[j].path.clone(),
                            relative_path: relative_path(temp.path.as_str(), temp_file_dir),
                        };
                        out.push(d);
                        assert(out.deep_view() =~= before.push(d@));
                    }
                },
            }
            i = i + 1;
        }
        assert(temp_files.deep_view().subrange(0, i as int) =~= temp_files.deep_view());
        out
    }

    /// Whether no temp file has the relative path of the live file `file`.
    pub fn is_no_used_file(
        file: &str,
        temp_files: &Vec<RemoteFile>,
        file_dir: &str,
        temp_file_dir: &str,
    ) -> (r: bool)
        ensures
            r == is_stale(file@, temp_files.deep_view(), file_dir@, temp_file_dir@),
    {
        let taken = Self::relative_paths(temp_files, temp_file_dir);
        Self::is_free(file, file_dir, &taken, Ghost(temp_files.deep_view()), Ghost(temp_file_dir@))
    }

    /// The relative paths of the files `files` of the tree at `root`.
    fn relative_paths(files: &Vec<RemoteFile>, root: &str) -> (r: Vec<Vec<char>>)
        ensures
            r@.len() == files@.len(),
            forall|k: int|
                0 <= k < r@.len() ==> (#[trigger] r@[k])@ == relative_of(
                    files.deep_view()[k].path,
                    root@,
                ),
    {
        let mut out: Vec<Vec<char>> = Vec::new();
        let mut k: usize = 0;
        while k < files.len()
            invariant
                k <= files@.len(),
                out@.len() == k,
                forall|j: int|
                    0 <= j < k ==> (#[trigger] out@[j])@ == relative_of(
                        files.deep_view()[j].path,
                        root@,
                    ),
            decreases files@.len() - k,
        {
            assert(files.deep_view()[k as int] == files@[k as int]@);
            let rel = relative_path(files[k].path.as_str(), root);
            out.push(to_chars(rel.as_str()));
            k = k + 1;
        }
        out
    }

    /// Whether none of the relative paths `taken`, those of the temp files,
    /// is the relative path of the live file `file`.
    fn is_free(
        file: &str,
        file_dir: &str,
        taken: &Vec<Vec<char>>,
        Ghost(temps): Ghost<Seq<FileRec>>,
        Ghost(temp_root): Ghost<Seq<char>>,
    ) -> (r: bool)
        requires
            taken@.len() == temps.len(),
            forall|k: int|
                0 <= k < taken@.len() ==> (#[trigger] taken@[k])@ == relative_of(
                    temps[k].path,
                    temp_root,
                ),
        ensures
            r == is_stale(file@, temps, file_dir@, temp_root),
    {
        let rel = relative_path(file, file_dir);
        let own = to_chars(rel.as_str());
        let mut j: usize = 0;
        while j < taken.len()
            invariant
                j <= taken@.len(),
                taken@.len() == temps.len(),
                own@ == relative_of(file@, file_dir@),
                forall|k: int|
                    0 <= k < taken@.len() ==> (#[trigger] taken@[k])@ == relative_of(
                        temps[k].path,
                        temp_root,
                    ),
                forall|k: int|
                    0 <= k < j ==> relative_of(#[trigger] temps[k].path, temp_root) != own@,
            decreases taken@.len() - j,
        {
            if chars_eq(own.as_slice(), taken[j].as_slice()) {
                assert(relative_of(temps[j as int].path, temp_root) == own@);
                return false;
            }
            j = j + 1;
        }
        true
    }

    /// The stale live files: those whose relative path no temp file has.
    pub fn get_no_used_files(
        files: &Vec<RemoteFile>,
        temp_files: &Vec<RemoteFile>,
        file_dir: &str,
        temp_file_dir: &str,
    ) -> (r: Vec<String>)
        ensures
            r.deep_view() == stale_files(
                files.deep_view(),
                temp_files.deep_view(),
                file_dir@,
                temp_file_dir@,
            ),
    {
        let taken = Self::relative_paths(temp_files, temp_file_dir);
        let mut out: Vec<String> = Vec::new();
        let mut i: usize = 0;
        assert(files.deep_view().subrange(0, 0) =~= Seq::<FileRec>::empty());
        assert(out.deep_view() =~= Seq::<Seq<char>>::empty());
        while i < files.len()
            invariant
                i <= files@.len(),
                taken@.len() == temp_files@.len(),
                forall|k: int|
                    0 <= k < taken@.len() ==> (#[trigger] taken@[k])@ == relative_of(
                        temp_files.deep_view()[k].path,
                        temp_file_dir@,
                    ),
                out.deep_view() == stale_files(
                    files.deep_view().subrange(0, i as int),
                    temp_files.deep_view(),
                    file_dir@,
                    temp_file_dir@,
                ),
            decreases files@.len() - i,
        {
            let ghost before = out.deep_view();
            proof {
                lemma_stale_step(
                    files.deep_view(),
                    temp_files.deep_view(),
                    i as int,
                    file_dir@,
                    temp_file_dir@,
                );
                assert(files.deep_view()[i as int] == files@[i as int]@);
            }
            if Self::is_free(
                files[i].path.as_str(),
                file_dir,
                &taken,
                Ghost(temp_files.deep_view()),
                Ghost(temp_file_dir@),
            ) {
                let path = files[i].path.clone();
                out.push(path);
                assert(out.deep_view() =~= before.push(files@[i as int].path@));
            }
            i = i + 1;
        }
        assert(files.deep_view().subrange(0, i as int) =~= files.deep_view());
        out
    }

    /// One removal command for each stale live file.
    pub fn remove_no_used_files_in_dir(
        files: &Vec<RemoteFile>,
        temp_files: &Vec<RemoteFile>,
        file_dir: &str,
        temp_file_dir: &str,
    ) -> (r: Vec<String>)
        ensures
            r.deep_view() == remove_commands(
                stale_files(files.deep_view(), temp_files.deep_view(), file_dir@, temp_file_dir@),
            ),
    {
        let stale = Self::get_no_used_files(files, temp_files, file_dir, temp_file_dir);
        let mut out: Vec<String> = Vec::new();
        let mut i: usize = 0;
        while i < stale.len()
            invariant
                i <= stale@.len(),
                out@.len() == i,
                forall|k: int| 0 <= k < i ==> (#[trigger] out@[k])@ == remove_command(stale@[k]@),
            decreases stale@.len() - i,
        {
            out.push(join_text("rm -rf ", stale[i].as_str()));
            i = i + 1;
        }
        assert(out.deep_view() =~= remove_commands(stale.deep_view()));
        out
    }

    /// The commands that add and replace files, difference by difference.
    pub fn get_increment_files_commands(
        differences: &Vec<SftpUploadDifferent>,
        file_dir: &str,
    ) -> (r: Vec<String>)
        ensures
            r.deep_view() == increment_commands(differences.deep_view(), file_dir@),
    {
        let mut out: Vec<String> = Vec::new();
        let mut i: usize = 0;
        assert(differences.deep_view().subrange(0, 0) =~= Seq::<Difference>::empty());
        assert(out.deep_view() =~= Seq::<Seq<char>>::empty());
        while i < differences.len()
            invariant
                i <= differences@.len(),
                out.deep_view() == increment_commands(
                    differences.deep_view().subrange(0, i as int),
                    file_dir@,
                ),
            decreases differences@.len() - i,
        {
            let d = &differences[i];
            let ghost before = out.deep_view();
            proof {
                lemma_increment_commands_step(differences.deep_view(), i as int, file_dir@);
                assert(differences.deep_view()[i as int] == d@);
            }
            if !d.relative_path.as_str().is_empty() {
                let dest = join_path(file_dir, d.relative_path.as_str());
                let copy = Self::copy_command_text(d.temp_path.as_str(), dest.as_str());
                if d.old_path.as_str().is_empty() {
                    out.push(copy);
                    assert(out.deep_view() =~= before + difference_commands(d@, file_dir@));
                } else {
                    out.push(join_text("rm -rf ", d.old_path.as_str()));
                    out.push(copy);
                    assert(out.deep_view() =~= before + difference_commands(d@, file_dir@));
                }
            } else {
                assert(out.deep_view() =~= before + difference_commands(d@, file_dir@));
            }
            i = i + 1;
        }
        assert(differences.deep_view().subrange(0, i as int) =~= differences.deep_view());
        out
    }

    /// The shell command that copies `from` to `to`.
    pub fn copy_command_text(from: &str, to: &str) -> (r: String)
        ensures
            r@ == copy_command(from@, to@),
    {
        let mut out = join_text("cp ", from);
        out.append(" ");
        out.append(to);
        out
    }

    /// The shell command that moves `from` to `to`.
    pub fn move_command_text(from: &str, to: &str) -> (r: String)
        ensures
            r@ == move_command(from@, to@),
    {
        let mut out = join_text("mv ", from);
        out.append(" ");
        out.append(to);
        out
    }

    /// Which way to publish: a full publish where the live directory is
    /// absent, where no incremental run is asked for, or where the live tree
    /// holds no file; an incremental one otherwise.
    pub fn choose_publish_mode(target_exists: bool, need_increment: bool, live_count: usize) -> (r:
        PublishMode)
        ensures
            r == publish_mode(target_exists, need_increment, live_count as nat),
    {
        if !target_exists {
            PublishMode::Full
        } else if !need_increment {
            PublishMode::Full
        } else if live_count == 0 {
            PublishMode::Full
        } else {
            PublishMode::Increment
        }
    }

    /// Appends a copy of each of `extra` to `commands`.
    pub fn append_commands(commands: &mut Vec<String>, extra: &Vec<String>)
        ensures
            final(commands).deep_view() == old(commands).deep_view() + extra.deep_view(),
    {
        let ghost before = commands.deep_view();
        let mut i: usize = 0;
        assert(commands.deep_view() =~= before + extra.deep_view().subrange(0, 0));
        while i < extra.len()
            invariant
                i <= extra@.len(),
                commands.deep_view() == before + extra.deep_view().subrange(0, i as int),
            decreases extra@.len() - i,
        {
            let ghost so_far = commands.deep_view();
            commands.push(extra[i].clone());
            assert(commands.deep_view() =~= so_far.push(extra@[i as int]@));
            assert(extra.deep_view().subrange(0, i + 1) =~= extra.deep_view().subrange(
                0,
                i as int,
            ).push(extra@[i as int]@));
            i = i + 1;
        }
        assert(extra.deep_view().subrange(0, i as int) =~= extra.deep_view());
    }

    /// The publish plan. `temp` is the freshly unpacked tree at
    /// `temp_file_dir`, `live` the deployed tree at `file_dir`. A temp tree
    /// that is absent or holds no file gives an error; any other gives the
    /// plan that the decision table selects, with the commands of
    /// `upload.cmds` at its end.
    pub fn touch_publish_commands(
        upload: &Upload,
        file_dir: &str,
        temp_file_dir: &str,
        temp: &RemoteTree,
        live: &RemoteTree,
    ) -> (r: Result<SftpUploadResult, PublishError>)
        ensures
            !temp.exists ==> r == Err::<SftpUploadResult, PublishError>(
                PublishError::TempDirMissing,
            ),
            temp.exists && temp.files@.len() == 0 ==> r == Err::<SftpUploadResult, PublishError>(
                PublishError::TempDirEmpty,
            ),
            temp.exists && temp.files@.len() > 0 ==> r is Ok && r->Ok_0@ == publish_plan(
                live.exists,
                upload.need_increment,
                live.files.deep_view(),
                temp.files.deep_view(),
                file_dir@,
                temp_file_dir@,
                upload.server_dir@,
                upload.cmds.deep_view(),
            ),
    {
        if !temp.exists {
            return Err(PublishError::TempDirMissing);
        }
        if temp.files.len() == 0 {
            return Err(PublishError::TempDirEmpty);
        }
        match Self::choose_publish_mode(live.exists, upload.need_increment, live.files.len()) {
            PublishMode::Full => {
                let mut commands: Vec<String> = Vec::new();
                commands.push(join_text("rm -rf ", file_dir));
                commands.push(Self::move_command_text(temp_file_dir, upload.server_dir.as_str()));
                assert(commands.deep_view() =~= seq![
                    remove_command(file_dir@),
                    move_command(temp_file_dir@, upload.server_dir@),
                ]);
                Self::append_commands(&mut commands, &upload.cmds);
                let result = SftpUploadResult {
                    file_count: temp.files.len() as u64,
                    exec_commands: commands,
                    delete_file_count: 0,
                    need_increment: false,
                };
                Ok(result)
            },
            PublishMode::Increment => {
                let found = Self::get_compare_file(
                    &live.files,
                    &temp.files,
                    file_dir,
                    temp_file_dir,
                );
                let removals = Self::remove_no_used_files_in_dir(
                    &live.files,
                    &temp.files,
                    file_dir,
                    temp_file_dir,
                );
                let mut commands = Self::get_increment_files_commands(&found, file_dir);
                Self::append_commands(&mut commands, &removals);
                Self::append_commands(&mut commands, &upload.cmds);
                let result = SftpUploadResult {
                    file_count: found.len() as u64,
                    exec_commands: commands,
                    delete_file_count: removals.len() as u64,
                    need_increment: true,
                };
                Ok(result)
            },
        }
    }
}

} // verus!
