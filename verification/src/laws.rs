//! What holds of every publish plan.

use vstd::prelude::*;
use crate::paths::relative_of;
use crate::digest::same_content;
use crate::diff::{FileRec, Difference, first_same_path_from, lemma_first_same_path_from};
use crate::diff::holds_path;
use crate::diff::{difference_for, differences, stale_files, is_stale};
use crate::plan::{increment_commands, remove_commands, full_plan, increment_plan, publish_plan};
use crate::hashname::{is_hex, is_hash_stem, both_hash_stems, equal_ignoring_hash};
use crate::hashname::{first_infix_from, strip_infix};
use crate::hashname::{lemma_first_infix, lemma_hash_run_end};

verus! {

/// Where the live directory is absent, the plan is the full publish,
/// whether or not an incremental run was asked for.
pub proof fn absent_target_gives_full_publish(
    need_increment: bool,
    files: Seq<FileRec>,
    temps: Seq<FileRec>,
    live_root: Seq<char>,
    temp_root: Seq<char>,
    server_dir: Seq<char>,
    extra: Seq<Seq<char>>,
)
    requires
        temps.len() > 0,
    ensures
        publish_plan(false, need_increment, files, temps, live_root, temp_root, server_dir, extra)
            == full_plan(live_root, temp_root, server_dir, temps.len(), extra),
{
}

/// Where an incremental run is asked for and the live tree holds no file,
/// the plan is the full publish, and it records that the run is not
/// incremental.
pub proof fn empty_live_tree_gives_full_publish(
    target_exists: bool,
    files: Seq<FileRec>,
    temps: Seq<FileRec>,
    live_root: Seq<char>,
    temp_root: Seq<char>,
    server_dir: Seq<char>,
    extra: Seq<Seq<char>>,
)
    requires
        files.len() == 0,
    ensures
        publish_plan(target_exists, true, files, temps, live_root, temp_root, server_dir, extra)
            == full_plan(live_root, temp_root, server_dir, temps.len(), extra),
        !publish_plan(
            target_exists,
            true,
            files,
            temps,
            live_root,
            temp_root,
            server_dir,
            extra,
        ).need_increment,
{
}

/// In an incremental plan every command that adds or replaces a file stands
/// before every command that removes a stale file, and the caller's commands
/// stand last, in the order given.
pub proof fn commands_are_ordered(
    files: Seq<FileRec>,
    temps: Seq<FileRec>,
    live_root: Seq<char>,
    temp_root: Seq<char>,
    extra: Seq<Seq<char>>,
)
    ensures
        ({
            let plan = increment_plan(files, temps, live_root, temp_root, extra);
            let adds = increment_commands(
                differences(files, temps, live_root, temp_root),
                live_root,
            );
            let removals = remove_commands(stale_files(files, temps, live_root, temp_root));
            &&& plan.exec_commands.len() == adds.len() + removals.len() + extra.len()
            &&& forall|i: int| 0 <= i < adds.len() ==> plan.exec_commands[i] == adds[i]
            &&& forall|i: int|
                0 <= i < removals.len() ==> plan.exec_commands[adds.len() + i] == removals[i]
            &&& forall|i: int|
                0 <= i < extra.len() ==> plan.exec_commands[adds.len() + removals.len() + i]
                    == extra[i]
        }),
{
}

/// No difference is found where the live file taken for each temp file has
/// its content.
pub proof fn lemma_no_difference(
    files: Seq<FileRec>,
    temps: Seq<FileRec>,
    live_root: Seq<char>,
    temp_root: Seq<char>,
)
    requires
        forall|j: int|
            0 <= j < temps.len() ==> difference_for(files, #[trigger] temps[j], live_root, temp_root)
                is None,
    ensures
        differences(files, temps, live_root, temp_root) == Seq::<Difference>::empty(),
    decreases temps.len(),
{
    if temps.len() > 0 {
        let rest = temps.drop_last();
        assert forall|j: int| 0 <= j < rest.len() implies difference_for(
            files,
            #[trigger] rest[j],
            live_root,
            temp_root,
        ) is None by {
            assert(rest[j] == temps[j]);
        }
        lemma_no_difference(files, rest, live_root, temp_root);
        assert(temps.last() == temps[temps.len() - 1]);
    }
}

/// No file is stale where every live file has a temp file at its relative
/// path.
pub proof fn lemma_no_stale(
    files: Seq<FileRec>,
    temps: Seq<FileRec>,
    live_root: Seq<char>,
    temp_root: Seq<char>,
)
    requires
        forall|i: int|
            0 <= i < files.len() ==> !is_stale(
                (#[trigger] files[i]).path,
                temps,
                live_root,
                temp_root,
            ),
    ensures
        stale_files(files, temps, live_root, temp_root) == Seq::<Seq<char>>::empty(),
    decreases files.len(),
{
    if files.len() > 0 {
        let rest = files.drop_last();
        assert forall|i: int| 0 <= i < rest.len() implies !is_stale(
            (#[trigger] rest[i]).path,
            temps,
            live_root,
            temp_root,
        ) by {
            assert(rest[i] == files[i]);
        }
        lemma_no_stale(rest, temps, live_root, temp_root);
        assert(files.last() == files[files.len() - 1]);
    }
}

/// A second run right after a first finds nothing to do. Once the live tree
/// holds a file at the relative path of every temp file and no other, and
/// each temp file has the content of the live files at its relative path,
/// there is nothing to add or replace and nothing to remove.
pub proof fn second_run_finds_nothing(
    files: Seq<FileRec>,
    temps: Seq<FileRec>,
    live_root: Seq<char>,
    temp_root: Seq<char>,
)
    requires
        forall|i: int|
            0 <= i < files.len() ==> holds_path(
                temps,
                temp_root,
                relative_of((#[trigger] files[i]).path, live_root),
            ),
        forall|j: int|
            0 <= j < temps.len() ==> holds_path(
                files,
                live_root,
                relative_of((#[trigger] temps[j]).path, temp_root),
            ),
        forall|i: int, j: int|
            0 <= i < files.len() && 0 <= j < temps.len() && relative_of(
                (#[trigger] files[i]).path,
                live_root,
            ) == relative_of((#[trigger] temps[j]).path, temp_root) ==> same_content(
                files[i].hash,
                temps[j].hash,
            ),
    ensures
        differences(files, temps, live_root, temp_root) == Seq::<Difference>::empty(),
        stale_files(files, temps, live_root, temp_root) == Seq::<Seq<char>>::empty(),
{
    assert forall|j: int| 0 <= j < temps.len() implies difference_for(
        files,
        #[trigger] temps[j],
        live_root,
        temp_root,
    ) is None by {
        let relative = relative_of(temps[j].path, temp_root);
        assert(holds_path(files, live_root, relative));
        let i = choose|i: int|
            0 <= i < files.len() && relative_of(#[trigger] files[i].path, live_root) == relative;
        lemma_first_same_path_from(files, 0, temps[j].path, live_root, temp_root);
        let taken = first_same_path_from(files, 0, temps[j].path, live_root, temp_root);
        assert(relative_of(files[i].path, live_root) == relative);
        assert(taken >= 0);
        assert(same_content(files[taken].hash, temps[j].hash));
    }
    lemma_no_difference(files, temps, live_root, temp_root);
    assert forall|i: int| 0 <= i < files.len() implies !is_stale(
        (#[trigger] files[i]).path,
        temps,
        live_root,
        temp_root,
    ) by {
        let relative = relative_of(files[i].path, live_root);
        assert(holds_path(temps, temp_root, relative));
        let j = choose|j: int|
            0 <= j < temps.len() && relative_of(#[trigger] temps[j].path, temp_root) == relative;
        assert(relative_of(temps[j].path, temp_root) == relative);
    }
    lemma_no_stale(files, temps, live_root, temp_root);
}

/// Comparing a tree with itself finds nothing: where the live files and the
/// temp files are the same files under the same root, each of them read,
/// and files at the same relative path have the same digest, there is
/// nothing to add or replace and nothing to remove.
pub proof fn same_tree_finds_nothing(files: Seq<FileRec>, root: Seq<char>)
    requires
        forall|i: int| 0 <= i < files.len() ==> (#[trigger] files[i]).hash.len() > 0,
        forall|i: int, j: int|
            0 <= i < files.len() && 0 <= j < files.len() && relative_of(
                (#[trigger] files[i]).path,
                root,
            ) == relative_of((#[trigger] files[j]).path, root) ==> files[i].hash == files[j].hash,
    ensures
        differences(files, files, root, root) == Seq::<Difference>::empty(),
        stale_files(files, files, root, root) == Seq::<Seq<char>>::empty(),
{
    assert forall|i: int| 0 <= i < files.len() implies holds_path(
        files,
        root,
        relative_of((#[trigger] files[i]).path, root),
    ) by {
        assert(relative_of(files[i].path, root) == relative_of(files[i].path, root));
    }
    second_run_finds_nothing(files, files, root, root);
}

/// The plan of such a second run holds the caller's commands and nothing
/// else.
pub proof fn second_run_plan_is_empty(
    files: Seq<FileRec>,
    temps: Seq<FileRec>,
    live_root: Seq<char>,
    temp_root: Seq<char>,
    extra: Seq<Seq<char>>,
)
    requires
        differences(files, temps, live_root, temp_root) == Seq::<Difference>::empty(),
        stale_files(files, temps, live_root, temp_root) == Seq::<Seq<char>>::empty(),
    ensures
        increment_plan(files, temps, live_root, temp_root, extra).file_count == 0,
        increment_plan(files, temps, live_root, temp_root, extra).delete_file_count == 0,
        increment_plan(files, temps, live_root, temp_root, extra).exec_commands == extra,
{
    let plan = increment_plan(files, temps, live_root, temp_root, extra);
    assert(plan.exec_commands =~= extra);
}

/// Each temp file stands in one difference at most: the differences follow
/// the temp files in their order, each being what the comparison says of a
/// temp file of its own. The result names that temp file for each
/// difference.
pub proof fn differences_follow_temp_files(
    files: Seq<FileRec>,
    temps: Seq<FileRec>,
    live_root: Seq<char>,
    temp_root: Seq<char>,
) -> (at: Seq<int>)
    ensures
        at.len() == differences(files, temps, live_root, temp_root).len(),
        at.len() <= temps.len(),
        forall|k: int|
            0 <= k < at.len() ==> 0 <= #[trigger] at[k] < temps.len() && difference_for(
                files,
                temps[at[k]],
                live_root,
                temp_root,
            ) == Some(differences(files, temps, live_root, temp_root)[k]) && differences(
                files,
                temps,
                live_root,
                temp_root,
            )[k].temp_path == temps[at[k]].path,
        forall|k: int, l: int| 0 <= k < l < at.len() ==> at[k] < at[l],
    decreases temps.len(),
{
    if temps.len() == 0 {
        Seq::empty()
    } else {
        let rest = temps.drop_last();
        let head = differences_follow_temp_files(files, rest, live_root, temp_root);
        assert forall|k: int| 0 <= k < head.len() implies temps[head[k]] == rest[head[k]] by {}
        match difference_for(files, temps.last(), live_root, temp_root) {
            Some(d) => head.push(temps.len() - 1),
            None => head,
        }
    }
}

/// A hexadecimal digit is no dot.
proof fn lemma_hex_is_no_dot(c: char)
    requires
        is_hex(c),
    ensures
        c != '.',
{
}

/// What is left of a bare hash name once its infix is replaced: the hash is
/// still there, with a dot behind it.
proof fn lemma_stripped_hash_stem(name: Seq<char>, ext: Seq<char>)
    requires
        is_hash_stem(name, ext),
        ext.len() > 0,
    ensures
        ({
            let stem = name.len() - ext.len() - 1;
            let left = strip_infix(name);
            &&& left.len() > stem
            &&& left.subrange(0, stem) == name.subrange(0, stem)
            &&& left[stem] == '.'
        }),
{
    let stem = name.len() - ext.len() - 1;
    let hash = name.subrange(0, stem);
    let i = first_infix_from(name, 0);
    lemma_first_infix(name, 0);
    if i >= 0 {
        if i < stem {
            assert(hash[i] == name[i]);
            lemma_hex_is_no_dot(hash[i]);
        }
        lemma_hash_run_end(name, i + 1);
        let left = strip_infix(name);
        assert(left.subrange(0, stem) =~= name.subrange(0, stem));
        if i > stem {
            assert(left[stem] == name[stem]);
        }
    } else {
        assert(strip_infix(name).subrange(0, stem) =~= name.subrange(0, stem));
    }
}

/// Two different names that are each a bare hash before the same extension
/// are never equal but for their hash: the name test does not take one for
/// the other, and what tells them apart or not is their content.
pub proof fn hash_stems_differ(a: Seq<char>, b: Seq<char>, ext_a: Seq<char>, ext_b: Seq<char>)
    requires
        both_hash_stems(a, b, ext_a, ext_b),
        a != b,
    ensures
        !equal_ignoring_hash(a, b),
{
    if ext_a.len() == 0 {
        lemma_first_infix(a, 0);
        let i = first_infix_from(a, 0);
        if i >= 0 {
            lemma_hex_is_no_dot(a[i]);
        }
    } else if equal_ignoring_hash(a, b) {
        let sa = a.len() - ext_a.len() - 1;
        let sb = b.len() - ext_b.len() - 1;
        let left = strip_infix(a);
        lemma_stripped_hash_stem(a, ext_a);
        lemma_stripped_hash_stem(b, ext_b);
        if sa < sb {
            assert(left.subrange(0, sb)[sa] == b.subrange(0, sb)[sa]);
            lemma_hex_is_no_dot(b.subrange(0, sb)[sa]);
        } else if sb < sa {
            assert(left.subrange(0, sa)[sb] == a.subrange(0, sa)[sb]);
            lemma_hex_is_no_dot(a.subrange(0, sa)[sb]);
        } else {
            assert(a.subrange(0, sa) == b.subrange(0, sb));
            assert(a =~= a.subrange(0, sa) + seq!['.'] + a.subrange(
                a.len() - ext_a.len(),
                a.len() as int,
            ));
            assert(b =~= b.subrange(0, sb) + seq!['.'] + b.subrange(
                b.len() - ext_b.len(),
                b.len() as int,
            ));
        }
    }
}

} // verus!
