//! What is written to local files, and what is recorded of them.

use vstd::prelude::*;
use crate::text::{join_text3, to_chars};
use crate::paths::{file_name, file_name_of, join_path, join_of, parent_dir, parent_of};
use crate::paths::{relative_path, relative_of, is_under, lies_under};
use crate::digest::{content_digest, recorded_hash};

verus! {

/// The rules for local files.
pub struct FileHandler;

/// The content of a file after `pre_str` was added to it as a new line: the
/// old content, a carriage return and a line feed, and `pre_str`; `pre_str`
/// alone where the file did not exist.
pub open spec fn with_line_added(existing: Option<Seq<char>>, pre_str: Seq<char>) -> Seq<char> {
    match existing {
        Some(content) => content + "\r\n"@ + pre_str,
        None => pre_str,
    }
}

impl FileHandler {
    /// The content to write to a file so that it ends with the new line
    /// `pre_str`. `existing` is what the file holds now, `None` where it does
    /// not exist.
    pub fn write_file_string_pre_line(existing: Option<&str>, pre_str: &str) -> (r: String)
        ensures
            r@ == with_line_added(
                match existing {
                    Some(content) => Some(content@),
                    None => None,
                },
                pre_str@,
            ),
    {
        match existing {
            Some(content) => join_text3(content, "\r\n", pre_str),
            None => pre_str.to_owned(),
        }
    }

    /// The digest recorded for a local file: that of its content, or the
    /// empty string where the file does not exist (`None`).
    pub fn get_file_hash(content: Option<&[u8]>) -> (r: String)
        ensures
            r@ == recorded_hash(
                match content {
                    Some(data) => Some(data@),
                    None => None,
                },
            ),
            content is Some ==> r@.len() == 64,
    {
        match content {
            Some(data) => content_digest(data),
            None => String::new(),
        }
    }

    /// Where each of the files `paths` lands when it is moved into
    /// `target_dir`: under its own base name.
    pub fn move_files(paths: &Vec<String>, target_dir: &str) -> (r: Vec<String>)
        ensures
            r@.len() == paths@.len(),
            forall|i: int|
                0 <= i < paths@.len() ==> (#[trigger] r@[i])@ == join_of(
                    target_dir@,
                    file_name_of(paths@[i]@),
                ),
    {
        let mut out: Vec<String> = Vec::new();
        let mut i: usize = 0;
        while i < paths.len()
            invariant
                i <= paths@.len(),
                out@.len() == i,
                forall|k: int|
                    0 <= k < i ==> (#[trigger] out@[k])@ == join_of(
                        target_dir@,
                        file_name_of(paths@[k]@),
                    ),
            decreases paths@.len() - i,
        {
            let name = file_name(paths[i].as_str());
            out.push(join_path(target_dir, name.as_str()));
            i = i + 1;
        }
        out
    }
}

/// Small rules shared by the tools.
pub struct Utils;

/// The pattern that a date is written after where none is asked for.
pub open spec fn default_date_format() -> Seq<char> {
    "%Y-%m-%d %H:%M:%S"@
}

/// Whether a path names an archive: it ends in `.zip`.
pub open spec fn is_zip_path(path: Seq<char>) -> bool {
    path.len() >= 4 && path.subrange(path.len() - 4, path.len() as int) == ".zip"@
}

/// The path under which a directory is stored in an archive: its path
/// relative to the directory of the archive, or the path of the archive
/// where it does not lie there.
pub open spec fn zip_root(dir: Seq<char>, output_file: Seq<char>) -> Seq<char> {
    if is_under(dir, parent_of(output_file)) {
        relative_of(dir, parent_of(output_file))
    } else {
        output_file
    }
}

/// The parts `parts` placed under `root`, one under the other.
pub open spec fn path_of(root: Seq<char>, parts: Seq<Seq<char>>) -> Seq<char>
    decreases parts.len(),
{
    if parts.len() == 0 {
        root
    } else {
        join_of(path_of(root, parts.drop_last()), parts.last())
    }
}

impl Utils {
    /// The pattern that a date is written after: the one asked for, or year,
    /// month, day and time of day.
    pub fn get_date(format: Option<&str>) -> (r: String)
        ensures
            r@ == (match format {
                Some(f) => f@,
                None => default_date_format(),
            }),
    {
        match format {
            Some(f) => f.to_owned(),
            None => "%Y-%m-%d %H:%M:%S".to_owned(),
        }
    }

    /// Whether `output_file` names an archive. Nothing else is packed into.
    pub fn generate_zip(output_file: &str) -> (r: bool)
        ensures
            r == is_zip_path(output_file@),
    {
        let cs = to_chars(output_file);
        let n = cs.len();
        if n < 4 {
            return false;
        }
        proof {
            reveal_strlit(".zip");
            assert(".zip"@ =~= seq!['.', 'z', 'i', 'p']);
        }
        let r = cs[n - 4] == '.' && cs[n - 3] == 'z' && cs[n - 2] == 'i' && cs[n - 1] == 'p';
        proof {
            let tail = cs@.subrange(n - 4, n as int);
            assert(tail[0] == cs@[n - 4]);
            assert(tail[1] == cs@[n - 3]);
            assert(tail[2] == cs@[n - 2]);
            assert(tail[3] == cs@[n - 1]);
            if r {
                assert(tail =~= seq!['.', 'z', 'i', 'p']);
            }
        }
        r
    }

    /// The path under which the directory `dir` is stored in the archive
    /// `output_file`.
    pub fn add_directory_to_zip(dir: &str, output_file: &str) -> (r: String)
        ensures
            r@ == zip_root(dir@, output_file@),
    {
        let above = parent_dir(output_file);
        let d = to_chars(dir);
        let a = to_chars(above.as_str());
        if lies_under(d.as_slice(), a.as_slice()) {
            relative_path(dir, above.as_str())
        } else {
            output_file.to_owned()
        }
    }

    /// The parts `str_arr` placed under `root_dir`, one under the other.
    pub fn get_path(root_dir: &str, str_arr: &Vec<String>) -> (r: String)
        ensures
            r@ == path_of(root_dir@, str_arr.deep_view()),
    {
        let mut out = root_dir.to_owned();
        let mut i: usize = 0;
        assert(str_arr.deep_view().subrange(0, 0) =~= Seq::<Seq<char>>::empty());
        while i < str_arr.len()
            invariant
                i <= str_arr@.len(),
                out@ == path_of(root_dir@, str_arr.deep_view().subrange(0, i as int)),
            decreases str_arr@.len() - i,
        {
            let ghost head = str_arr.deep_view().subrange(0, i as int);
            let ghost next = str_arr.deep_view().subrange(0, i + 1);
            assert(next.drop_last() =~= head);
            assert(next.last() == str_arr@[i as int]@);
            out = join_path(out.as_str(), str_arr[i].as_str());
            i = i + 1;
        }
        assert(str_arr.deep_view().subrange(0, i as int) =~= str_arr.deep_view());
        out
    }
}

} // verus!
