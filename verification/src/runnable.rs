//! Keeping a program on the host up to date: whether to send it again, which
//! process runs it, and the commands that look for that process and stop it.

use vstd::prelude::*;
use crate::config::{Server, ValidateCopy};
use crate::text::{trim, trim_of, same_text, contains, has_part, lines, lines_of, words, words_of};
use crate::text::join_text;
use crate::text::join_text3;
use crate::paths::{file_name, file_name_of};

verus! {

/// The rules for a program that runs on the host.
pub struct SftpRunnableHandler;

/// Why a program was not sent.
#[derive(Debug, Clone, Copy, PartialEq, Eq, Structural)]
pub enum RunError {
    /// The host, the port, the user or the password is missing.
    ServerIncomplete,
    /// The digest, the local path or the remote directory is missing.
    CopyIncomplete,
    /// The local file does not exist.
    FileMissing,
    /// The local path is no file.
    NotAFile,
    /// The local path has no base name.
    NoFileName,
}

/// What to do with a program on the host.
#[derive(Debug, Clone, Copy, PartialEq, Eq, Structural)]
pub struct CopyPlan {
    /// Stop the process that runs the old program first.
    pub kill: bool,
    /// Send the program.
    pub upload: bool,
}

/// The outcome of the checks before a program is sent: its base name, or the
/// first check that failed.
pub open spec fn checked_program(
    server: Server,
    copy: ValidateCopy,
    file_exists: bool,
    is_file: bool,
) -> Result<Seq<char>, RunError> {
    if server.incomplete() {
        Err(RunError::ServerIncomplete)
    } else if copy.incomplete() {
        Err(RunError::CopyIncomplete)
    } else if !file_exists {
        Err(RunError::FileMissing)
    } else if !is_file {
        Err(RunError::NotAFile)
    } else if file_name_of(copy.file_path@).len() == 0 {
        Err(RunError::NoFileName)
    } else {
        Ok(file_name_of(copy.file_path@))
    }
}

/// Whether the host holds the program already: its digest could be got and
/// equals the local one, white space at either end set aside.
pub open spec fn is_up_to_date(remote_hash: Option<Seq<char>>, hash: Seq<char>) -> bool {
    match remote_hash {
        Some(remote) => trim_of(remote) == trim_of(hash),
        None => false,
    }
}

/// The plan for a program: send it unless the host holds it already, and
/// stop the process `pid` before that where there is one.
pub open spec fn copy_plan(remote_hash: Option<Seq<char>>, hash: Seq<char>, pid: Seq<char>) -> CopyPlan {
    CopyPlan {
        kill: !is_up_to_date(remote_hash, hash) && pid.len() > 0,
        upload: !is_up_to_date(remote_hash, hash),
    }
}

/// Whether a line of the process list names the program and is not the
/// search itself.
pub open spec fn is_process_line(line: Seq<char>, file_name: Seq<char>) -> bool {
    has_part(line, file_name) && !has_part(line, "grep"@)
}

/// The first line of the process list that names the program.
pub open spec fn first_process_line(lines: Seq<Seq<char>>, file_name: Seq<char>) -> Option<
    Seq<char>,
>
    decreases lines.len(),
{
    if lines.len() == 0 {
        None
    } else if is_process_line(lines[0], file_name) {
        Some(lines[0])
    } else {
        first_process_line(lines.drop_first(), file_name)
    }
}

/// The process id of the program in the process list `output`: the second
/// word of the first line that names it; empty where no line does or that
/// line has one word only.
pub open spec fn pid_of(output: Seq<char>, file_name: Seq<char>) -> Seq<char> {
    match first_process_line(lines_of(output), file_name) {
        Some(line) => if words_of(line).len() >= 2 {
            words_of(line)[1]
        } else {
            Seq::empty()
        },
        None => Seq::empty(),
    }
}

/// The command that lists the processes that run the program.
pub open spec fn search_command(file_name: Seq<char>) -> Seq<char> {
    "ps aux | grep "@ + file_name + " | grep -v grep"@
}

/// The command that stops the process `pid`.
pub open spec fn kill_command(pid: Seq<char>) -> Seq<char> {
    "kill "@ + pid
}

impl SftpRunnableHandler {
    /// Checks the settings and the local file before a program is sent, and
    /// gives its base name. `file_exists` and `is_file` say what the local
    /// path leads to.
    pub fn exec(server: &Server, copy: &ValidateCopy, file_exists: bool, is_file: bool) -> (r:
        Result<String, RunError>)
        ensures
            match r {
                Ok(name) => checked_program(*server, *copy, file_exists, is_file) == Ok::<
                    Seq<char>,
                    RunError,
                >(name@),
                Err(e) => checked_program(*server, *copy, file_exists, is_file) == Err::<
                    Seq<char>,
                    RunError,
                >(e),
            },
    {
        if server.is_empty() {
            return Err(RunError::ServerIncomplete);
        }
        if copy.is_empty() {
            return Err(RunError::CopyIncomplete);
        }
        if !file_exists {
            return Err(RunError::FileMissing);
        }
        if !is_file {
            return Err(RunError::NotAFile);
        }
        let name = file_name(copy.file_path.as_str());
        if name.as_str().is_empty() {
            return Err(RunError::NoFileName);
        }
        Ok(name)
    }

    /// Whether to send the program and whether to stop its process first.
    /// `remote_hash` is the digest of the program on the host, `None` where
    /// it could not be got; `pid` the process that runs it, empty where none
    /// does.
    pub fn validate_copy_file(remote_hash: Option<&str>, copy: &ValidateCopy, pid: &str) -> (r:
        CopyPlan)
        ensures
            r == copy_plan(
                match remote_hash {
                    Some(h) => Some(h@),
                    None => None,
                },
                copy.hash@,
                pid@,
            ),
    {
        let same = match remote_hash {
            Some(remote) => {
                let a = trim(remote);
                let b = trim(copy.hash.as_str());
                same_text(a.as_str(), b.as_str())
            },
            None => false,
        };
        CopyPlan { kill: !same && !pid.is_empty(), upload: !same }
    }

    /// The command that lists the processes that run the program.
    pub fn judge_command(file_name_text: &str) -> (r: String)
        ensures
            r@ == search_command(file_name_text@),
    {
        join_text3("ps aux | grep ", file_name_text, " | grep -v grep")
    }

    /// The process id of the program, read from the process list `output`.
    pub fn judge_program_running(output: &str, file_name_text: &str) -> (r: String)
        ensures
            r@ == pid_of(output@, file_name_text@),
    {
        let all = lines(output);
        let mut i: usize = 0;
        assert(all.deep_view().subrange(0, all@.len() as int) =~= all.deep_view());
        while i < all.len()
            invariant
                i <= all@.len(),
                all.deep_view() == lines_of(output@),
                first_process_line(all.deep_view(), file_name_text@) == first_process_line(
                    all.deep_view().subrange(i as int, all@.len() as int),
                    file_name_text@,
                ),
            decreases all@.len() - i,
        {
            let ghost rest = all.deep_view().subrange(i as int, all@.len() as int);
            assert(rest[0] == all@[i as int]@);
            assert(rest.drop_first() =~= all.deep_view().subrange(i + 1, all@.len() as int));
            let line = all[i].as_str();
            if contains(line, file_name_text) && !contains(line, "grep") {
                let parts = words(line);
                assert(is_process_line(rest[0], file_name_text@));
                assert(first_process_line(rest, file_name_text@) == Some(rest[0]));
                assert(parts.deep_view().len() == parts@.len());
                if parts.len() >= 2 {
                    assert(parts.deep_view()[1] == parts@[1]@);
                    return parts[1].clone();
                } else {
                    return String::new();
                }
            }
            i = i + 1;
        }
        String::new()
    }

    /// The command that stops the process `pid`.
    pub fn kill_pid(pid: &str) -> (r: String)
        ensures
            r@ == kill_command(pid@),
    {
        join_text("kill ", pid)
    }

    /// Seconds to wait between two reads of the output of a running program:
    /// the number asked for, or one.
    pub fn exec_program(secs: Option<u64>) -> (r: u64)
        ensures
            r == (match secs {
                Some(s) => s,
                None => 1,
            }),
    {
        match secs {
            Some(s) => s,
            None => 1,
        }
    }
}

} // verus!
