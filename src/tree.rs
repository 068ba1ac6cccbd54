//! Laws of copying and moving a directory with its tree, given a listing of
//! the tree.
use vstd::prelude::*;
use crate::fs::{
    entry_copies, entry_copy, join, parent_path, tree_copy, Directory,
    FSResult, Object, ObjectType,
};
use crate::model::{
    ancestry, below, dir_at, file_at, found_at, lemma_copy, lemma_create_dir, lemma_remove_dir_all,
    lemma_rename, lemma_run_append, lemma_run_one, outcome, parent_ready, perform, relocate, run,
    FsState, Node,
};
use crate::plan::Action;

verus! {

/// What copying entry `e` of the tree at `from` leaves at its new place: a
/// directory, or the content of the file copied.
pub open spec fn copied_node(fs: FsState, from: Seq<char>, e: (Seq<char>, ObjectType)) -> Node {
    if e.1 == ObjectType::Directory {
        Node::Directory
    } else {
        fs[join(from, e.0)]
    }
}

/// `entries` lists the tree at `from` in `fs`, parents before children, and
/// none of their places below `to` is taken.
#[verifier::opaque]
pub open spec fn tree_listed(fs: FsState, from: Seq<char>, to: Seq<char>, entries: Seq<(Seq<char>, ObjectType)>) -> bool {
    &&& forall|i: int| 0 <= i < entries.len() ==> found_at(fs, join(from, entries[i].0)) == Some(entries[i].1)
    &&& forall|i: int| 0 <= i < entries.len() ==> !fs.contains_key(join(to, entries[i].0))
    &&& forall|i: int, j: int| 0 <= i < entries.len() && 0 <= j < entries.len() && i != j ==> entries[i].0 != entries[j].0
    &&& forall|i: int| 0 <= i < entries.len() ==> {
        ||| parent_path(join(to, entries[i].0)) == Some(to)
        ||| exists|j: int| 0 <= j < i && entries[j].1 == ObjectType::Directory
            && parent_path(join(to, entries[i].0)) == Some(join(to, entries[j].0))
    }
}

/// `start` once the first `n` of `entries` have been copied to `to`.
pub open spec fn with_copies(
    start: FsState,
    fs: FsState,
    from: Seq<char>,
    to: Seq<char>,
    entries: Seq<(Seq<char>, ObjectType)>,
    n: nat,
) -> FsState
    decreases n,
{
    if n == 0 {
        start
    } else {
        with_copies(start, fs, from, to, entries, (n - 1) as nat).insert(
            join(to, entries[n - 1].0),
            copied_node(fs, from, entries[n - 1]),
        )
    }
}

proof fn lemma_join(base: Seq<char>, a: Seq<char>, b: Seq<char>)
    ensures
        join(base, a) != base,
        join(base, a).len() > 0,
        join(base, a) == join(base, b) ==> a == b,
{
    reveal(join);
    reveal_strlit("/");
    if join(base, a) == join(base, b) {
        assert(a =~= join(base, a).subrange(base.len() + 1int, join(base, a).len() as int));
        assert(b =~= join(base, b).subrange(base.len() + 1int, join(base, b).len() as int));
    }
}

/// What holds of `w`, the state once the first `n` of `entries` have been
/// copied from the tree at `from` to `to`.
#[verifier::opaque]
pub open spec fn copies_hold(
    fs: FsState,
    from: Seq<char>,
    to: Seq<char>,
    entries: Seq<(Seq<char>, ObjectType)>,
    n: nat,
    w: FsState,
) -> bool {
    &&& w.contains_key(to) && w[to] == Node::Directory
    &&& forall|k: Seq<char>| #[trigger] fs.contains_key(k) ==> w.contains_key(k) && w[k] == fs[k]
    &&& forall|j: int| 0 <= j < n ==> w.contains_key(#[trigger] join(to, entries[j].0))
        && w[join(to, entries[j].0)] == copied_node(fs, from, entries[j])
    &&& forall|k: Seq<char>| w.contains_key(k) ==> fs.contains_key(k) || k == to
        || exists|j: int| 0 <= j < n && k == #[trigger] join(to, entries[j].0)
}

#[verifier::rlimit(100)]
proof fn lemma_copy_step(
    fs: FsState,
    from: Seq<char>,
    to: Seq<char>,
    entries: Seq<(Seq<char>, ObjectType)>,
    m: nat,
    prev: FsState,
)
    requires
        m < entries.len(),
        !fs.contains_key(to),
        tree_listed(fs, from, to, entries),
        copies_hold(fs, from, to, entries, m, prev),
    ensures
        ({
            let e = entries[m as int];
            let w = prev.insert(join(to, e.0), copied_node(fs, from, e));
            &&& perform(prev, entry_copy(from, to, e)) == Some(w)
            &&& copies_hold(fs, from, to, entries, m + 1, w)
        }),
{
    reveal(tree_listed);
    reveal(copies_hold);
    let e = entries[m as int];
    let p = join(to, e.0);
    let w = prev.insert(p, copied_node(fs, from, e));
    lemma_join(to, e.0, e.0);
    assert forall|j: int| 0 <= j < m implies join(to, entries[j].0) != p by {
        lemma_join(to, entries[j].0, e.0);
    }
    assert(!fs.contains_key(p));
    assert(!prev.contains_key(p));
    assert(parent_ready(prev, p)) by {
        if parent_path(p) != Some(to) {
            let j = choose|j: int| 0 <= j < m && entries[j].1 == ObjectType::Directory
                && parent_path(p) == Some(join(to, entries[j].0));
            assert(prev[join(to, entries[j].0)] == Node::Directory);
        }
    }
    if e.1 != ObjectType::Directory {
        assert(found_at(fs, join(from, e.0)) == Some(e.1));
        assert(file_at(prev, join(from, e.0)));
        lemma_copy(prev, join(from, e.0), p);
    } else {
        lemma_create_dir(prev, p);
    }
    assert forall|j: int| 0 <= j < m + 1 implies w.contains_key(#[trigger] join(to, entries[j].0))
        && w[join(to, entries[j].0)] == copied_node(fs, from, entries[j]) by {
        if j < m {
            lemma_join(to, entries[j].0, e.0);
        }
    }
    assert forall|k: Seq<char>| w.contains_key(k) implies fs.contains_key(k) || k == to
        || exists|j: int| 0 <= j < m + 1 && k == #[trigger] join(to, entries[j].0) by {
        if k == p {
            assert(k == join(to, entries[m as int].0));
        } else if !fs.contains_key(k) && k != to {
            let j = choose|j: int| 0 <= j < m && k == #[trigger] join(to, entries[j].0);
            assert(0 <= j < m + 1 && k == join(to, entries[j].0));
        }
    }
    assert forall|k: Seq<char>| #[trigger] fs.contains_key(k) implies w.contains_key(k) && w[k] == fs[k] by {
        assert(k != p);
        assert(prev.contains_key(k) && prev[k] == fs[k]);
    }
    assert(w.contains_key(to) && w[to] == Node::Directory);
    assert(perform(prev, entry_copy(from, to, e)) == Some(w));
    assert(copies_hold(fs, from, to, entries, m + 1, w));
}

proof fn lemma_with_copies(
    fs: FsState,
    from: Seq<char>,
    to: Seq<char>,
    entries: Seq<(Seq<char>, ObjectType)>,
    n: nat,
)
    requires
        n <= entries.len(),
        !fs.contains_key(to),
        tree_listed(fs, from, to, entries),
    ensures
        copies_hold(fs, from, to, entries, n, with_copies(fs.insert(to, Node::Directory), fs, from, to, entries, n)),
        run(fs.insert(to, Node::Directory), entry_copies(from, to, entries.take(n as int)))
            == Some(with_copies(fs.insert(to, Node::Directory), fs, from, to, entries, n)),
    decreases n,
{
    let start = fs.insert(to, Node::Directory);
    if n == 0 {
        assert(entry_copies(from, to, entries.take(0)) =~= Seq::<Action>::empty());
        reveal(copies_hold);
    } else {
        let m = (n - 1) as nat;
        lemma_with_copies(fs, from, to, entries, m);
        let prev = with_copies(start, fs, from, to, entries, m);
        let a = entry_copy(from, to, entries[m as int]);
        lemma_copy_step(fs, from, to, entries, m, prev);
        assert(entry_copies(from, to, entries.take(n as int)) =~= entry_copies(from, to, entries.take(m as int)) + seq![a]);
        lemma_run_append(start, entry_copies(from, to, entries.take(m as int)), seq![a]);
        lemma_run_one(prev, a);
    }
}

/// Copying a directory to a free place whose directory is there, given a
/// listing of its tree, succeeds: afterwards a directory stands at the target,
/// each listed entry stands below it with the same content, and everything
/// that was there before is unchanged, the source tree included.
pub proof fn copy_duplicates_directory(
    fs: FsState,
    dir: Directory,
    target: Seq<char>,
    entries: Seq<(Seq<char>, ObjectType)>,
)
    requires
        fs.contains_key(dir.location()),
        target.len() > 0,
        !fs.contains_key(target),
        parent_ready(fs, target),
        tree_listed(fs, dir.location(), target, entries),
    ensures
        ({
            let d = dir.location();
            let r = outcome(fs, Directory::duplication(d, target, entries, (Seq::empty(), FSResult::<()>::Ok(()))));
            &&& r matches Some((after, res))
            &&& res == FSResult::<()>::Ok(())
            &&& found_at(after, target) == Some(ObjectType::Directory)
            &&& forall|i: int| 0 <= i < entries.len() ==> after.contains_key(join(target, entries[i].0))
                && after[join(target, entries[i].0)] == copied_node(fs, d, entries[i])
            &&& forall|k: Seq<char>| fs.contains_key(k) ==> after.contains_key(k) && after[k] == fs[k]
        }),
{
    let d = dir.location();
    let make = Action::CreateDir { path: target };
    let copies = entry_copies(d, target, entries);
    lemma_with_copies(fs, d, target, entries, entries.len());
    assert(entries.take(entries.len() as int) =~= entries);
    let w = with_copies(fs.insert(target, Node::Directory), fs, d, target, entries, entries.len());
    assert(copies_hold(fs, d, target, entries, entries.len(), w));
    reveal(copies_hold);
    assert(tree_copy(d, target, entries) + Seq::<Action>::empty() =~= seq![make] + copies);
    lemma_run_append(fs, seq![make], copies);
    lemma_run_one(fs, make);
    lemma_create_dir(fs, target);
    assert(run(fs, seq![make]) == Some(fs.insert(target, Node::Directory)));
    assert(run(fs.insert(target, Node::Directory), copies) == Some(w));
    assert(run(fs, tree_copy(d, target, entries) + Seq::<Action>::empty()) == Some(w));
    assert(w[target] == Node::Directory);
    assert(found_at(w, target) == Some(ObjectType::Directory));
    assert(forall|i: int| 0 <= i < entries.len() ==> w.contains_key(join(target, entries[i].0))
        && w[join(target, entries[i].0)] == copied_node(fs, d, entries[i]));
    assert forall|k: Seq<char>| #[trigger] fs.contains_key(k) implies w.contains_key(k) && w[k] == fs[k] by {
        assert(fs.contains_key(k));
    }
    assert(outcome(fs, Directory::duplication(d, target, entries, (Seq::empty(), FSResult::<()>::Ok(()))))
        == Some((w, FSResult::<()>::Ok(()))));
}

/// Moving a directory to a free place whose directory is there, given a
/// listing of its tree, succeeds whether the rename is accepted or the copy of
/// the tree and its removal stand in for it: afterwards a directory stands at
/// the target, and nothing is at or below the old path. Where the rename was
/// refused, each listed entry stands below the target with its content.
#[verifier::rlimit(100)]
pub proof fn move_relocates_directory(
    fs: FsState,
    dir: Directory,
    target: Seq<char>,
    entries: Seq<(Seq<char>, ObjectType)>,
    rename_accepted: bool,
)
    requires
        dir.location().len() > 0,
        fs.contains_key(dir.location()) && fs[dir.location()] is Directory,
        target.len() > 0,
        !fs.contains_key(target),
        parent_ready(fs, target),
        !below(target, dir.location()),
        !ancestry(target).contains(dir.location()),
        tree_listed(fs, dir.location(), target, entries),
        forall|i: int| 0 <= i < entries.len() ==> !below(join(target, entries[i].0), dir.location()),
    ensures
        ({
            let d = dir.location();
            let r = relocate(
                fs,
                Some(Action::Rename { from: d, to: target }),
                Directory::duplication(d, target, entries, (seq![Directory::recursive_removal(d)], FSResult::<()>::Ok(()))),
                rename_accepted,
            );
            &&& r matches Some((after, res))
            &&& res == FSResult::<()>::Ok(())
            &&& found_at(after, target) == Some(ObjectType::Directory)
            &&& !after.contains_key(d)
            &&& forall|k: Seq<char>| after.contains_key(k) ==> !below(k, d)
            &&& !rename_accepted ==> forall|i: int| 0 <= i < entries.len() ==> after.contains_key(join(target, entries[i].0))
                && after[join(target, entries[i].0)] == copied_node(fs, d, entries[i])
        }),
{
    let d = dir.location();
    let make = Action::CreateDir { path: target };
    let copies = entry_copies(d, target, entries);
    let remove = Directory::recursive_removal(d);
    lemma_with_copies(fs, d, target, entries, entries.len());
    assert(entries.take(entries.len() as int) =~= entries);
    let w = with_copies(fs.insert(target, Node::Directory), fs, d, target, entries, entries.len());
    reveal(copies_hold);
    reveal(tree_listed);
    assert(tree_copy(d, target, entries) + seq![remove] =~= seq![make] + (copies + seq![remove]));
    lemma_run_append(fs, seq![make], copies + seq![remove]);
    lemma_run_one(fs, make);
    lemma_run_append(fs.insert(target, Node::Directory), copies, seq![remove]);
    lemma_run_one(w, remove);
    lemma_create_dir(fs, target);
    lemma_rename(fs, d, target);
    assert(dir_at(w, d));
    lemma_remove_dir_all(w, d);
    let cleared = w.restrict(w.dom().filter(|k: Seq<char>| k != d && !below(k, d)));
    assert(cleared.contains_key(target));
    assert forall|i: int| 0 <= i < entries.len() implies cleared.contains_key(join(target, entries[i].0)) by {
        lemma_join(target, entries[i].0, entries[i].0);
        if join(target, entries[i].0) == d {
            assert(fs.contains_key(join(target, entries[i].0)));
        }
    }
}

} // verus!
