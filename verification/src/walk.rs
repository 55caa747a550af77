//! Listing the files of a remote tree. The caller reads one directory at a
//! time and hands over what it holds; the walk says which directory to read
//! next and gathers the files, in the order in which a descent into each
//! directory as it is met would find them.

use vstd::prelude::*;

verus! {

/// What a directory holds: a path and whether it is a directory itself.
#[derive(Debug, Default, Clone)]
pub struct RemoteEntry {
    pub path: String,
    pub is_dir: bool,
}

/// The mathematical value of a [`RemoteEntry`].
pub struct Entry {
    pub path: Seq<char>,
    pub is_dir: bool,
}

impl View for RemoteEntry {
    type V = Entry;

    open spec fn view(&self) -> Entry {
        Entry { path: self.path@, is_dir: self.is_dir }
    }
}

impl DeepView for RemoteEntry {
    type V = Entry;

    open spec fn deep_view(&self) -> Entry {
        self@
    }
}

/// A walk over a remote tree.
pub struct TreeWalk {
    /// What is still to be looked at, last first.
    stack: Vec<RemoteEntry>,
    /// The files found so far.
    files: Vec<String>,
}

/// The mathematical value of a [`TreeWalk`].
pub struct Walk {
    /// What is still to be looked at, in the order in which it is looked at.
    pub pending: Seq<Entry>,
    /// The files found so far.
    pub files: Seq<Seq<char>>,
}

/// Number of entries at the head of `pending` that are files.
pub open spec fn leading_files(pending: Seq<Entry>) -> int
    decreases pending.len(),
{
    if pending.len() == 0 || pending[0].is_dir {
        0
    } else {
        1 + leading_files(pending.drop_first())
    }
}

/// The paths of `entries`.
pub open spec fn paths_of(entries: Seq<Entry>) -> Seq<Seq<char>> {
    Seq::new(entries.len(), |i: int| entries[i].path)
}

/// The walk after its leading files were gathered and the directory behind
/// them, if any, was taken off to be read.
pub open spec fn advanced(walk: Walk) -> Walk {
    let k = leading_files(walk.pending);
    Walk {
        pending: if k < walk.pending.len() {
            walk.pending.subrange(k + 1, walk.pending.len() as int)
        } else {
            Seq::empty()
        },
        files: walk.files + paths_of(walk.pending.subrange(0, k)),
    }
}

/// The directory to read next: the first directory among what is pending.
pub open spec fn next_directory(walk: Walk) -> Option<Seq<char>> {
    let k = leading_files(walk.pending);
    if 0 <= k < walk.pending.len() {
        Some(walk.pending[k].path)
    } else {
        None
    }
}

pub proof fn lemma_leading_files(pending: Seq<Entry>)
    ensures
        0 <= leading_files(pending) <= pending.len(),
        forall|j: int| 0 <= j < leading_files(pending) ==> !pending[j].is_dir,
        leading_files(pending) < pending.len() ==> pending[leading_files(pending)].is_dir,
    decreases pending.len(),
{
    if pending.len() > 0 && !pending[0].is_dir {
        let rest = pending.drop_first();
        lemma_leading_files(rest);
        assert forall|j: int| 0 <= j < leading_files(pending) implies !pending[j].is_dir by {
            if j > 0 {
                assert(rest[j - 1] == pending[j]);
            }
        }
    }
}

impl View for TreeWalk {
    type V = Walk;

    closed spec fn view(&self) -> Walk {
        Walk { pending: self.stack.deep_view().reverse(), files: self.files.deep_view() }
    }
}

impl TreeWalk {
    /// A walk that begins at the directory `root`.
    pub fn new(root: &str) -> (r: TreeWalk)
        ensures
            r@ == (Walk {
                pending: seq![Entry { path: root@, is_dir: true }],
                files: Seq::<Seq<char>>::empty(),
            }),
    {
        let mut stack: Vec<RemoteEntry> = Vec::new();
        stack.push(RemoteEntry { path: root.to_owned(), is_dir: true });
        let files: Vec<String> = Vec::new();
        let walk = TreeWalk { stack, files };
        proof {
            assert(walk.stack.deep_view() =~= seq![Entry { path: root@, is_dir: true }]);
            assert(walk.stack.deep_view().reverse() =~= seq![Entry { path: root@, is_dir: true }]);
            assert(walk.files.deep_view() =~= Seq::<Seq<char>>::empty());
        }
        walk
    }

    /// Gathers the files that are pending ahead of any directory and gives
    /// the next directory to read; `None` once the walk is over.
    pub fn read_files(&mut self) -> (r: Option<String>)
        ensures
            final(self)@ == advanced(old(self)@),
            r.deep_view() == next_directory(old(self)@),
    {
        let ghost start = self@;
        proof {
            lemma_leading_files(start.pending);
            assert(start.pending.subrange(0, 0) =~= Seq::<Entry>::empty());
            assert(paths_of(Seq::<Entry>::empty()) =~= Seq::<Seq<char>>::empty());
            assert(self.files.deep_view() =~= start.files + paths_of(
                start.pending.subrange(0, 0),
            ));
        }
        let ghost mut taken: int = 0;
        let mut next: Option<String> = None;
        loop
            invariant_except_break
                0 <= taken <= leading_files(start.pending),
                self.stack@.len() + taken == start.pending.len(),
                self.stack.deep_view().reverse() == start.pending.subrange(
                    taken,
                    start.pending.len() as int,
                ),
                self.files.deep_view() == start.files + paths_of(start.pending.subrange(0, taken)),
                0 <= leading_files(start.pending) <= start.pending.len(),
                forall|j: int| 0 <= j < leading_files(start.pending) ==> !start.pending[j].is_dir,
                leading_files(start.pending) < start.pending.len() ==> start.pending[leading_files(
                    start.pending,
                )].is_dir,
            ensures
                self@ == advanced(start),
                next.deep_view() == next_directory(start),
            decreases self.stack@.len(),
        {
            let ghost before = self.stack.deep_view();
            let ghost found = self.files.deep_view();
            match self.stack.pop() {
                None => {
                    proof {
                        assert(self.stack.deep_view() =~= Seq::<Entry>::empty());
                        assert(self.stack.deep_view().reverse() =~= Seq::<Entry>::empty());
                        assert(taken == start.pending.len());
                    }
                    next = None;
                    break ;
                },
                Some(entry) => {
                    proof {
                        assert(before.len() == self.stack@.len() + 1);
                        assert(self.stack.deep_view() =~= before.drop_last());
                        assert(before.last() == entry@);
                        assert(before.reverse()[0] == entry@);
                        assert(start.pending[taken] == entry@);
                        assert(self.stack.deep_view().reverse() =~= start.pending.subrange(
                            taken + 1,
                            start.pending.len() as int,
                        )) by {
                            assert(before.reverse().drop_first() =~= before.drop_last().reverse());
                            assert(start.pending.subrange(
                                taken,
                                start.pending.len() as int,
                            ).drop_first() =~= start.pending.subrange(
                                taken + 1,
                                start.pending.len() as int,
                            ));
                        }
                    }
                    if entry.is_dir {
                        proof {
                            assert(taken == leading_files(start.pending));
                        }
                        next = Some(entry.path);
                        break ;
                    }
                    self.files.push(entry.path);
                    proof {
                        assert(taken < leading_files(start.pending));
                        assert(self.files.deep_view() =~= found.push(entry@.path));
                        assert(paths_of(start.pending.subrange(0, taken + 1)) =~= paths_of(
                            start.pending.subrange(0, taken),
                        ).push(entry@.path));
                        taken = taken + 1;
                    }
                },
            }
        }
        next
    }

    /// Takes in what the directory that was read holds. A directory that
    /// could not be read counts as one that holds nothing.
    pub fn entries_read(&mut self, entries: Vec<RemoteEntry>)
        ensures
            final(self)@ == (Walk {
                pending: entries.deep_view() + old(self)@.pending,
                files: old(self)@.files,
            }),
    {
        let ghost start = self.stack.deep_view();
        let mut entries = entries;
        let ghost all = entries.deep_view();
        assert(all.subrange(all.len() as int, all.len() as int) =~= Seq::<Entry>::empty());
        assert(self.stack.deep_view() =~= start + Seq::<Entry>::empty().reverse());
        loop
            invariant_except_break
                entries@.len() <= all.len(),
                entries.deep_view() == all.subrange(0, entries@.len() as int),
                self.stack.deep_view() == start + all.subrange(
                    entries@.len() as int,
                    all.len() as int,
                ).reverse(),
                self.files == old(self).files,
            ensures
                self.stack.deep_view() == start + all.reverse(),
                self.files == old(self).files,
            decreases entries@.len(),
        {
            let ghost left = entries.deep_view();
            let ghost pushed = self.stack.deep_view();
            match entries.pop() {
                None => {
                    proof {
                        assert(all.subrange(0, all.len() as int) =~= all);
                    }
                    break ;
                },
                Some(entry) => {
                    self.stack.push(entry);
                    proof {
                        let n = entries@.len() as int;
                        assert(left.len() == n + 1);
                        assert(entries.deep_view() =~= left.drop_last());
                        assert(left.last() == entry@);
                        assert(all[n] == entry@);
                        assert(entries.deep_view() =~= all.subrange(0, n));
                        assert(self.stack.deep_view() =~= pushed.push(entry@));
                        assert(all.subrange(n, all.len() as int).reverse() =~= all.subrange(
                            n + 1,
                            all.len() as int,
                        ).reverse().push(entry@));
                    }
                },
            }
        }
        proof {
            assert((start + all.reverse()).reverse() =~= all + start.reverse());
        }
    }

    /// The files found so far, in the order in which they were met.
    pub fn files(&self) -> (r: &Vec<String>)
        ensures
            r.deep_view() == self@.files,
    {
        &self.files
    }
}

/// What the directory `dir` of the tree `tree` holds. A directory that the
/// tree does not know holds nothing.
pub open spec fn listing(tree: Map<Seq<char>, Seq<Entry>>, dir: Seq<char>) -> Seq<Entry> {
    if tree.dom().contains(dir) {
        tree[dir]
    } else {
        Seq::empty()
    }
}

/// Whether no directory among `entries` lies more than `depth` directories
/// deep in the tree.
pub open spec fn fits(tree: Map<Seq<char>, Seq<Entry>>, entries: Seq<Entry>, depth: nat) -> bool
    decreases depth, entries.len(),
{
    if entries.len() == 0 {
        true
    } else {
        (entries[0].is_dir ==> depth > 0 && fits(
            tree,
            listing(tree, entries[0].path),
            (depth - 1) as nat,
        )) && fits(tree, entries.drop_first(), depth)
    }
}

/// The files that a descent finds: each file among `entries` as it is met,
/// and in place of each directory the files that a descent finds in it.
pub open spec fn descent(tree: Map<Seq<char>, Seq<Entry>>, entries: Seq<Entry>, depth: nat) -> Seq<
    Seq<char>,
>
    decreases depth, entries.len(),
{
    if entries.len() == 0 {
        Seq::empty()
    } else {
        (if !entries[0].is_dir {
            seq![entries[0].path]
        } else if depth == 0 {
            Seq::empty()
        } else {
            descent(tree, listing(tree, entries[0].path), (depth - 1) as nat)
        }) + descent(tree, entries.drop_first(), depth)
    }
}

/// One round of a walk over the tree `tree`: the walk advances, and what the
/// directory that came up holds is taken in.
pub open spec fn round(tree: Map<Seq<char>, Seq<Entry>>, walk: Walk) -> Walk {
    match next_directory(walk) {
        Some(dir) => Walk {
            pending: listing(tree, dir) + advanced(walk).pending,
            files: advanced(walk).files,
        },
        None => advanced(walk),
    }
}

/// The walk after `n` rounds.
pub open spec fn rounds(tree: Map<Seq<char>, Seq<Entry>>, walk: Walk, n: nat) -> Walk
    decreases n,
{
    if n == 0 {
        walk
    } else {
        rounds(tree, round(tree, walk), (n - 1) as nat)
    }
}

/// The walk with the files that it is about to gather gathered.
spec fn settled(walk: Walk) -> Walk {
    let k = leading_files(walk.pending);
    Walk {
        pending: walk.pending.subrange(k, walk.pending.len() as int),
        files: walk.files + paths_of(walk.pending.subrange(0, k)),
    }
}

proof fn lemma_leading_files_is(pending: Seq<Entry>, k: int)
    requires
        0 <= k <= pending.len(),
        forall|j: int| 0 <= j < k ==> !pending[j].is_dir,
        k < pending.len() ==> pending[k].is_dir,
    ensures
        leading_files(pending) == k,
    decreases pending.len(),
{
    if pending.len() > 0 && !pending[0].is_dir {
        let rest = pending.drop_first();
        assert forall|j: int| 0 <= j < k - 1 implies !rest[j].is_dir by {
            assert(rest[j] == pending[j + 1]);
        }
        lemma_leading_files_is(rest, k - 1);
    }
}

/// A round does not tell a walk from the same walk settled.
proof fn lemma_round_of_settled(tree: Map<Seq<char>, Seq<Entry>>, walk: Walk)
    ensures
        round(tree, settled(walk)) == round(tree, walk),
{
    let k = leading_files(walk.pending);
    lemma_leading_files(walk.pending);
    let s = settled(walk);
    lemma_leading_files_is(s.pending, 0);
    assert(s.pending.subrange(0, 0) =~= Seq::<Entry>::empty());
    assert(paths_of(Seq::<Entry>::empty()) =~= Seq::<Seq<char>>::empty());
    assert(s.files + paths_of(s.pending.subrange(0, 0)) =~= s.files);
    if k < walk.pending.len() {
        assert(s.pending[0] == walk.pending[k]);
        assert(s.pending.subrange(1, s.pending.len() as int) =~= walk.pending.subrange(
            k + 1,
            walk.pending.len() as int,
        ));
    } else {
        assert(s.pending =~= Seq::<Entry>::empty());
    }
}

proof fn lemma_rounds_of_settled(
    tree: Map<Seq<char>, Seq<Entry>>,
    a: Walk,
    b: Walk,
    n: nat,
)
    requires
        settled(a) == settled(b),
        n > 0,
    ensures
        rounds(tree, a, n) == rounds(tree, b, n),
{
    lemma_round_of_settled(tree, a);
    lemma_round_of_settled(tree, b);
}

proof fn lemma_rounds_add(tree: Map<Seq<char>, Seq<Entry>>, walk: Walk, a: nat, b: nat)
    ensures
        rounds(tree, walk, a + b) == rounds(tree, rounds(tree, walk, a), b),
    decreases a,
{
    if a > 0 {
        lemma_rounds_add(tree, round(tree, walk), (a - 1) as nat, b);
    }
}

/// A walk with a file at its head settles like the walk that has gathered
/// that file.
proof fn lemma_settle_file(first: Entry, rest: Seq<Entry>, files: Seq<Seq<char>>)
    requires
        !first.is_dir,
    ensures
        settled(Walk { pending: seq![first] + rest, files: files }) == settled(
            Walk { pending: rest, files: files.push(first.path) },
        ),
{
    let whole = seq![first] + rest;
    let k = leading_files(rest);
    lemma_leading_files(rest);
    assert(whole.drop_first() =~= rest);
    assert(leading_files(whole) == k + 1);
    assert(whole.subrange(k + 1, whole.len() as int) =~= rest.subrange(k, rest.len() as int));
    assert(paths_of(whole.subrange(0, k + 1)) =~= seq![first.path] + paths_of(
        rest.subrange(0, k),
    ));
    assert(files + paths_of(whole.subrange(0, k + 1)) =~= files.push(first.path) + paths_of(
        rest.subrange(0, k),
    ));
}

/// Rounds enough take a walk through `entries` and leave what stands behind
/// them: the walk then settles like the one that has what a descent finds
/// in `entries`, and `behind` still before it. The result is the number of
/// rounds.
proof fn lemma_walk_through(
    tree: Map<Seq<char>, Seq<Entry>>,
    entries: Seq<Entry>,
    depth: nat,
    behind: Seq<Entry>,
    files: Seq<Seq<char>>,
) -> (n: nat)
    requires
        fits(tree, entries, depth),
    ensures
        settled(rounds(tree, Walk { pending: entries + behind, files: files }, n)) == settled(
            Walk { pending: behind, files: files + descent(tree, entries, depth) },
        ),
    decreases depth, entries.len(),
{
    let start = Walk { pending: entries + behind, files: files };
    if entries.len() == 0 {
        assert(entries + behind =~= behind);
        assert(files + descent(tree, entries, depth) =~= files);
        0
    } else {
        let first = entries[0];
        let tail = entries.drop_first();
        assert(entries + behind =~= seq![first] + (tail + behind));
        if !first.is_dir {
            let next = Walk { pending: tail + behind, files: files.push(first.path) };
            lemma_settle_file(first, tail + behind, files);
            let n = lemma_walk_through(tree, tail, depth, behind, files.push(first.path));
            assert(files.push(first.path) + descent(tree, tail, depth) =~= files + descent(
                tree,
                entries,
                depth,
            ));
            if n > 0 {
                lemma_rounds_of_settled(tree, start, next, n);
            }
            n
        } else {
            let inside = listing(tree, first.path);
            lemma_leading_files_is(start.pending, 0);
            assert(start.pending.subrange(0, 0) =~= Seq::<Entry>::empty());
            assert(paths_of(Seq::<Entry>::empty()) =~= Seq::<Seq<char>>::empty());
            assert(start.pending.subrange(1, start.pending.len() as int) =~= tail + behind);
            let after = Walk { pending: inside + (tail + behind), files: files };
            assert(round(tree, start).pending =~= after.pending);
            assert(round(tree, start).files =~= after.files);
            let n1 = lemma_walk_through(tree, inside, (depth - 1) as nat, tail + behind, files);
            let found = files + descent(tree, inside, (depth - 1) as nat);
            let middle = Walk { pending: tail + behind, files: found };
            let n2 = lemma_walk_through(tree, tail, depth, behind, found);
            assert(found + descent(tree, tail, depth) =~= files + descent(tree, entries, depth));
            lemma_rounds_add(tree, after, n1, n2);
            if n2 > 0 {
                lemma_rounds_of_settled(tree, rounds(tree, after, n1), middle, n2);
            }
            assert(rounds(tree, start, n1 + n2 + 1) == rounds(tree, after, n1 + n2));
            n1 + n2 + 1
        }
    }
}

/// A walk finds what a descent finds. Over a tree in which no directory
/// under `root` lies more than `depth` directories deep, a walk that begins
/// at `root` is over after a number of rounds, the result, and has then
/// gathered the files of the tree in the order in which a descent into each
/// directory as it is met finds them.
pub proof fn walk_finds_what_descent_finds(
    tree: Map<Seq<char>, Seq<Entry>>,
    root: Seq<char>,
    depth: nat,
) -> (n: nat)
    requires
        fits(tree, seq![Entry { path: root, is_dir: true }], depth),
    ensures
        rounds(
            tree,
            Walk {
                pending: seq![Entry { path: root, is_dir: true }],
                files: Seq::<Seq<char>>::empty(),
            },
            n,
        ) == (Walk {
            pending: Seq::<Entry>::empty(),
            files: descent(tree, seq![Entry { path: root, is_dir: true }], depth),
        }),
        next_directory(
            Walk {
                pending: Seq::<Entry>::empty(),
                files: descent(tree, seq![Entry { path: root, is_dir: true }], depth),
            },
        ) is None,
{
    let entries = seq![Entry { path: root, is_dir: true }];
    let none = Seq::<Entry>::empty();
    let nothing = Seq::<Seq<char>>::empty();
    let start = Walk { pending: entries, files: nothing };
    let m = lemma_walk_through(tree, entries, depth, none, nothing);
    assert(entries + none =~= entries);
    assert(nothing + descent(tree, entries, depth) =~= descent(tree, entries, depth));
    let end = Walk { pending: none, files: descent(tree, entries, depth) };
    let reached = rounds(tree, start, m);
    assert(none.subrange(0, 0) =~= none);
    assert(paths_of(none) =~= nothing);
    assert(settled(end).pending =~= end.pending);
    assert(settled(end).files =~= end.files);
    lemma_round_of_settled(tree, reached);
    lemma_round_of_settled(tree, end);
    assert(round(tree, end).pending =~= end.pending);
    assert(round(tree, end).files =~= end.files);
    lemma_rounds_add(tree, start, m, 1);
    assert(rounds(tree, reached, 1) == round(tree, reached)) by {
        reveal_with_fuel(rounds, 2);
    }
    m + 1
}

} // verus!
