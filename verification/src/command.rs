//! Reading what a local shell command gave back.

use vstd::prelude::*;
use crate::text::{lines, lines_of, replace_all, replaced, join_text};

verus! {

/// The rules for the output of a local command.
pub struct CommandHandler;

/// What a finished process left behind.
#[derive(Debug, Default, Clone)]
pub struct ProcessOutput {
    /// Whether the process ended with success.
    pub success: bool,
    /// What it wrote to its output stream.
    pub stdout: String,
    /// What it wrote to its error stream.
    pub stderr: String,
}

/// The text that a command gave: its output where it ran and succeeded,
/// nothing otherwise.
pub open spec fn command_result(output: Option<ProcessOutput>) -> Seq<char> {
    match output {
        Some(o) => if o.success {
            o.stdout@
        } else {
            Seq::empty()
        },
        None => Seq::empty(),
    }
}

/// The lines that a command gave: those of its output where it succeeded,
/// those of its error stream where it failed, none where it did not run.
pub open spec fn command_lines(output: Option<ProcessOutput>) -> (bool, Seq<Seq<char>>) {
    match output {
        Some(o) => if o.success {
            (true, lines_of(o.stdout@))
        } else {
            (false, lines_of(o.stderr@))
        },
        None => (false, Seq::empty()),
    }
}

/// A command of several lines as one line: the lines joined by `&&`, so that
/// each runs only where the one before it succeeded.
pub open spec fn one_line(command: Seq<char>) -> Seq<char> {
    replaced(command, "\n"@, " && "@)
}

/// The progress line that goes out before a command runs; `None` for an
/// empty command, which is not run.
pub open spec fn command_notice(command: Seq<char>) -> Option<Seq<char>> {
    if command.len() == 0 {
        None
    } else {
        Some("exec command: "@ + one_line(command))
    }
}

impl CommandHandler {
    /// A command of several lines as one line; `None` for an empty command,
    /// which is not run.
    pub fn get_command_lines(command: &str) -> (r: Option<String>)
        ensures
            command@.len() == 0 ==> r is None,
            command@.len() > 0 ==> r is Some && r->Some_0@ == one_line(command@),
    {
        if command.is_empty() {
            None
        } else {
            Some(replace_all(command, "\n", " && "))
        }
    }

    /// The text that a command gave. `None` stands for a command that did
    /// not run.
    pub fn exec_command_result(output: Option<&ProcessOutput>) -> (r: String)
        ensures
            r@ == command_result(
                match output {
                    Some(o) => Some(*o),
                    None => None,
                },
            ),
    {
        match output {
            Some(o) => {
                if o.success {
                    o.stdout.clone()
                } else {
                    String::new()
                }
            },
            None => String::new(),
        }
    }

    /// Whether a command succeeded, and the lines that it gave. `None` stands
    /// for a command that did not run.
    pub fn exec_command(output: Option<&ProcessOutput>) -> (r: (bool, Vec<String>))
        ensures
            (r.0, r.1.deep_view()) == command_lines(
                match output {
                    Some(o) => Some(*o),
                    None => None,
                },
            ),
    {
        match output {
            Some(o) => {
                if o.success {
                    (true, lines(o.stdout.as_str()))
                } else {
                    (false, lines(o.stderr.as_str()))
                }
            },
            None => {
                let none: Vec<String> = Vec::new();
                assert(none.deep_view() =~= Seq::<Seq<char>>::empty());
                (false, none)
            },
        }
    }
}

/// The rules for a local command whose output is handed on line by line.
pub struct CommandFuncHandler;

impl CommandFuncHandler {
    /// The progress line that goes out before a command runs; `None` for an
    /// empty command, which is not run.
    pub fn exec_command(command: &str) -> (r: Option<String>)
        ensures
            r.deep_view() == command_notice(command@),
    {
        if command.is_empty() {
            None
        } else {
            let line = replace_all(command, "\n", " && ");
            Some(join_text("exec command: ", line.as_str()))
        }
    }
}

} // verus!
