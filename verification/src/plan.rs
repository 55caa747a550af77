//! The mathematical model of the publish plan: which way to publish, and the
//! remote shell commands that do it, in order.

use vstd::prelude::*;
use crate::paths::join_of;
use crate::diff::{FileRec, Difference, differences, stale_files};
use crate::config::PublishPlan;

verus! {

/// The shell command that removes `path`.
pub open spec fn remove_command(path: Seq<char>) -> Seq<char> {
    "rm -rf "@ + path
}

/// The shell command that copies `from` to `to`.
pub open spec fn copy_command(from: Seq<char>, to: Seq<char>) -> Seq<char> {
    "cp "@ + from + " "@ + to
}

/// The shell command that moves `from` to `to`.
pub open spec fn move_command(from: Seq<char>, to: Seq<char>) -> Seq<char> {
    "mv "@ + from + " "@ + to
}

/// The commands for one difference: remove the live file it replaces, if
/// any, then copy the new file to its place under the live root. A difference
/// without a relative path has no place and gives no command.
pub open spec fn difference_commands(d: Difference, live_root: Seq<char>) -> Seq<Seq<char>> {
    if d.relative_path.len() == 0 {
        Seq::empty()
    } else if d.old_path.len() == 0 {
        seq![copy_command(d.temp_path, join_of(live_root, d.relative_path))]
    } else {
        seq![
            remove_command(d.old_path),
            copy_command(d.temp_path, join_of(live_root, d.relative_path)),
        ]
    }
}

/// The commands that add and replace files, difference by difference.
pub open spec fn increment_commands(ds: Seq<Difference>, live_root: Seq<char>) -> Seq<Seq<char>>
    decreases ds.len(),
{
    if ds.len() == 0 {
        Seq::empty()
    } else {
        increment_commands(ds.drop_last(), live_root) + difference_commands(ds.last(), live_root)
    }
}

/// One removal command for each path, in order.
pub open spec fn remove_commands(paths: Seq<Seq<char>>) -> Seq<Seq<char>> {
    Seq::new(paths.len(), |i: int| remove_command(paths[i]))
}

/// The two ways to publish.
#[derive(Debug, Clone, Copy, PartialEq, Eq, Structural)]
pub enum PublishMode {
    /// Discard the live tree and put the temp tree in its place.
    Full,
    /// Replace the changed files and remove the stale ones.
    Increment,
}

/// The decision table, first matching rule first: no live directory, no
/// request for an incremental run, or an empty live tree give a full publish.
pub open spec fn publish_mode(
    target_exists: bool,
    need_increment: bool,
    live_count: nat,
) -> PublishMode {
    if !target_exists {
        PublishMode::Full
    } else if !need_increment {
        PublishMode::Full
    } else if live_count == 0 {
        PublishMode::Full
    } else {
        PublishMode::Increment
    }
}

/// The plan of a full publish: remove the live directory, move the temp
/// directory under the server directory, then the caller's commands.
pub open spec fn full_plan(
    live_root: Seq<char>,
    temp_root: Seq<char>,
    server_dir: Seq<char>,
    temp_count: nat,
    extra: Seq<Seq<char>>,
) -> PublishPlan {
    PublishPlan {
        file_count: temp_count,
        exec_commands: seq![remove_command(live_root), move_command(temp_root, server_dir)]
            + extra,
        delete_file_count: 0,
        need_increment: false,
    }
}

/// The plan of an incremental publish: the commands that add and replace,
/// then the removals of stale files, then the caller's commands.
pub open spec fn increment_plan(
    files: Seq<FileRec>,
    temps: Seq<FileRec>,
    live_root: Seq<char>,
    temp_root: Seq<char>,
    extra: Seq<Seq<char>>,
) -> PublishPlan {
    let ds = differences(files, temps, live_root, temp_root);
    let stale = stale_files(files, temps, live_root, temp_root);
    PublishPlan {
        file_count: ds.len(),
        exec_commands: increment_commands(ds, live_root) + remove_commands(stale) + extra,
        delete_file_count: stale.len(),
        need_increment: true,
    }
}

/// The plan for a temp tree that holds files.
pub open spec fn publish_plan(
    target_exists: bool,
    need_increment: bool,
    files: Seq<FileRec>,
    temps: Seq<FileRec>,
    live_root: Seq<char>,
    temp_root: Seq<char>,
    server_dir: Seq<char>,
    extra: Seq<Seq<char>>,
) -> PublishPlan {
    match publish_mode(target_exists, need_increment, files.len()) {
        PublishMode::Full => full_plan(live_root, temp_root, server_dir, temps.len(), extra),
        PublishMode::Increment => increment_plan(files, temps, live_root, temp_root, extra),
    }
}

/// Taking one more difference appends its commands.
pub proof fn lemma_increment_commands_step(ds: Seq<Difference>, n: int, live_root: Seq<char>)
    requires
        0 <= n < ds.len(),
    ensures
        increment_commands(ds.subrange(0, n + 1), live_root) == increment_commands(
            ds.subrange(0, n),
            live_root,
        ) + difference_commands(ds[n], live_root),
{
    let s = ds.subrange(0, n + 1);
    assert(s.drop_last() =~= ds.subrange(0, n));
    assert(s.last() == ds[n]);
}

} // verus!
