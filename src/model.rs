//! A model of the filesystem as a map from paths to nodes, and of what each
//! primitive request does to it. The model covers the single-process,
//! sequential case: nothing else changes the filesystem while a plan runs.
use vstd::prelude::*;
use crate::fs::{parent_path, ObjectType, FSResult};
use crate::plan::Action;

verus! {

/// What a path holds: a file with its text, or a directory.
pub ghost enum Node {
    File(Seq<char>),
    Directory,
}

/// The filesystem: each present path with what it holds.
pub type FsState = Map<Seq<char>, Node>;

/// What a probe of `p` finds: nothing, or the kind of the object there.
pub open spec fn found_at(fs: FsState, p: Seq<char>) -> Option<ObjectType> {
    if !fs.contains_key(p) {
        None
    } else {
        match fs[p] {
            Node::File(_) => Some(ObjectType::File),
            Node::Directory => Some(ObjectType::Directory),
        }
    }
}

/// A file is at `p`.
pub open spec fn file_at(fs: FsState, p: Seq<char>) -> bool {
    fs.contains_key(p) && fs[p] is File
}

/// The empty path stands for the current directory, which is always there.
pub open spec fn dir_at(fs: FsState, p: Seq<char>) -> bool {
    p.len() == 0 || (fs.contains_key(p) && fs[p] is Directory)
}

/// The directory that would hold `p` is there.
pub open spec fn parent_ready(fs: FsState, p: Seq<char>) -> bool {
    match parent_path(p) {
        Some(q) => dir_at(fs, q),
        None => true,
    }
}

/// `p` and its ancestors, following parents at most `fuel` times.
pub open spec fn lineage(p: Seq<char>, fuel: nat) -> Set<Seq<char>>
    decreases fuel,
{
    if fuel == 0 || p.len() == 0 {
        Set::empty()
    } else {
        match parent_path(p) {
            Some(q) => lineage(q, (fuel - 1) as nat).insert(p),
            None => set![p],
        }
    }
}

/// `p` and all of its non-empty ancestors.
pub open spec fn ancestry(p: Seq<char>) -> Set<Seq<char>> {
    lineage(p, p.len())
}

/// A path other than `d` that lies below `d`.
pub open spec fn below(k: Seq<char>, d: Seq<char>) -> bool {
    k != d && ancestry(k).contains(d)
}

/// What performing `a` on `fs` leaves, or `None` where the request fails.
#[verifier::opaque]
pub open spec fn perform(fs: FsState, a: Action) -> Option<FsState> {
    match a {
        Action::WriteFile { path, content, append } => {
            if !parent_ready(fs, path) || dir_at(fs, path) {
                None
            } else if append && file_at(fs, path) {
                Some(fs.insert(path, Node::File(fs[path]->File_0 + content)))
            } else {
                Some(fs.insert(path, Node::File(content)))
            }
        },
        Action::CreateDir { path } => {
            if !parent_ready(fs, path) || fs.contains_key(path) || path.len() == 0 {
                None
            } else {
                Some(fs.insert(path, Node::Directory))
            }
        },
        Action::CreateDirAll { path } => {
            if exists|d: Seq<char>| ancestry(path).contains(d) && file_at(fs, d) {
                None
            } else {
                Some(Map::new(
                    |k: Seq<char>| fs.contains_key(k) || ancestry(path).contains(k),
                    |k: Seq<char>| if fs.contains_key(k) { fs[k] } else { Node::Directory },
                ))
            }
        },
        Action::RemoveFile { path } => {
            if file_at(fs, path) {
                Some(fs.remove(path))
            } else {
                None
            }
        },
        Action::RemoveDir { path } => {
            if path.len() > 0 && dir_at(fs, path) && !(exists|k: Seq<char>| fs.contains_key(k) && below(k, path)) {
                Some(fs.remove(path))
            } else {
                None
            }
        },
        Action::RemoveDirAll { path } => {
            if path.len() > 0 && dir_at(fs, path) {
                Some(fs.restrict(fs.dom().filter(|k: Seq<char>| k != path && !below(k, path))))
            } else {
                None
            }
        },
        // The model renames only what has nothing below it; a tree is moved
        // by copying it and removing it at its old place.
        Action::Rename { from, to } => {
            if fs.contains_key(from) && parent_ready(fs, to) && !dir_at(fs, to) && !ancestry(to).contains(from)
                && !(exists|k: Seq<char>| fs.contains_key(k) && below(k, from)) {
                Some(fs.remove(from).insert(to, fs[from]))
            } else {
                None
            }
        },
        Action::Copy { from, to } => {
            if file_at(fs, from) && parent_ready(fs, to) && !dir_at(fs, to) {
                Some(fs.insert(to, fs[from]))
            } else {
                None
            }
        },
    }
}

/// What performing `steps` in order leaves, or `None` where one of them fails.
pub open spec fn run(fs: FsState, steps: Seq<Action>) -> Option<FsState>
    decreases steps.len(),
{
    if steps.len() == 0 {
        Some(fs)
    } else {
        match perform(fs, steps[0]) {
            Some(next) => run(next, steps.drop_first()),
            None => None,
        }
    }
}

} // verus!

verus! {

/// What a move or a copy leaves and ends with: `attempt` is tried first where
/// there is one and `attempt_accepted` holds (the system may refuse a rename,
/// as it does across volumes); where it was not tried or failed, `fallback` is
/// carried out. `None` where the operation fails.
pub open spec fn relocate(
    fs: FsState,
    attempt: Option<Action>,
    fallback: (Seq<Action>, FSResult<()>),
    attempt_accepted: bool,
) -> Option<(FsState, FSResult<()>)> {
    match attempt {
        Some(a) => if attempt_accepted && perform(fs, a) is Some {
            Some((perform(fs, a)->Some_0, Ok(())))
        } else {
            outcome(fs, fallback)
        },
        None => outcome(fs, fallback),
    }
}

/// What carrying out the plan `p` (its actions and final outcome) leaves and
/// ends with, or `None` where one of its requests fails.
pub open spec fn outcome(fs: FsState, p: (Seq<Action>, FSResult<()>)) -> Option<(FsState, FSResult<()>)> {
    match run(fs, p.0) {
        Some(after) => Some((after, p.1)),
        None => None,
    }
}

/// A path with at least one character lies among its own ancestors.
pub proof fn lemma_in_own_ancestry(p: Seq<char>)
    requires
        p.len() > 0,
    ensures
        ancestry(p).contains(p),
{
    reveal_with_fuel(lineage, 2);
}

/// Running one action is performing it.
pub proof fn lemma_run_one(fs: FsState, a: Action)
    ensures
        run(fs, seq![a]) == perform(fs, a),
{
    reveal_with_fuel(run, 2);
    assert(seq![a].drop_first() =~= Seq::<Action>::empty());
}

/// Running two actions is performing them in turn.
pub proof fn lemma_run_two(fs: FsState, a: Action, b: Action)
    ensures
        run(fs, seq![a, b]) == match perform(fs, a) {
            Some(next) => perform(next, b),
            None => None,
        },
{
    reveal_with_fuel(run, 3);
    assert(seq![a, b].drop_first() =~= seq![b]);
    assert(seq![b].drop_first() =~= Seq::<Action>::empty());
}

/// Running `xs` and then `ys` is running `xs + ys`.
pub proof fn lemma_run_append(fs: FsState, xs: Seq<Action>, ys: Seq<Action>)
    ensures
        run(fs, xs + ys) == match run(fs, xs) {
            Some(next) => run(next, ys),
            None => None,
        },
    decreases xs.len(),
{
    if xs.len() == 0 {
        assert(xs + ys =~= ys);
    } else {
        assert((xs + ys).drop_first() =~= xs.drop_first() + ys);
        match perform(fs, xs[0]) {
            Some(next) => lemma_run_append(next, xs.drop_first(), ys),
            None => {},
        }
    }
}

/// Creating a directory whose place is free and whose parent is there.
pub proof fn lemma_create_dir(fs: FsState, p: Seq<char>)
    requires
        p.len() > 0,
        !fs.contains_key(p),
        parent_ready(fs, p),
    ensures
        perform(fs, Action::CreateDir { path: p }) == Some(fs.insert(p, Node::Directory)),
{
    reveal(perform);
}

/// Copying a file to a place that is not a directory and whose parent is there.
pub proof fn lemma_copy(fs: FsState, from: Seq<char>, to: Seq<char>)
    requires
        file_at(fs, from),
        parent_ready(fs, to),
        !dir_at(fs, to),
    ensures
        perform(fs, Action::Copy { from, to }) == Some(fs.insert(to, fs[from])),
{
    reveal(perform);
}

/// Removing a directory with everything below it.
pub proof fn lemma_remove_dir_all(fs: FsState, p: Seq<char>)
    requires
        p.len() > 0,
        dir_at(fs, p),
    ensures
        perform(fs, Action::RemoveDirAll { path: p })
            == Some(fs.restrict(fs.dom().filter(|k: Seq<char>| k != p && !below(k, p)))),
{
    reveal(perform);
}

/// Renaming a directory to a free place whose parent is there, where nothing
/// lies below it, or the request failing.
pub proof fn lemma_rename(fs: FsState, from: Seq<char>, to: Seq<char>)
    requires
        fs.contains_key(from),
    ensures
        perform(fs, Action::Rename { from, to }) is Some ==> perform(fs, Action::Rename { from, to })
            == Some(fs.remove(from).insert(to, fs[from])),
        perform(fs, Action::Rename { from, to }) is Some ==> !(exists|k: Seq<char>| fs.contains_key(k) && below(k, from)),
{
    reveal(perform);
}

} // verus!
