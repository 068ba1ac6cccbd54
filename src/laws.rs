//! Laws of the filesystem objects: what the plans of their operations do when
//! carried out on the model of the filesystem.
use vstd::prelude::*;
use crate::fs::{
    absence, existence, fresh_write, parent_or_root, parent_path, presence, reading, Directory, File,
    FSError, FSResult, Object, ObjectType,
};
use crate::model::{
    ancestry, below, dir_at, file_at, found_at, lemma_in_own_ancestry, lemma_run_one, lemma_run_two,
    outcome, parent_ready, perform, relocate, FsState, Node,
};
use crate::plan::Action;

verus! {

/// Where nothing is at a path, neither a file nor a directory there exists.
pub proof fn absent_path_exists_nowhere(fs: FsState, file: File, dir: Directory)
    requires
        !fs.contains_key(file.location()),
        !fs.contains_key(dir.location()),
    ensures
        existence(File::kind(), found_at(fs, file.location())) == FSResult::<bool>::Ok(false),
        existence(Directory::kind(), found_at(fs, dir.location())) == FSResult::<bool>::Ok(false),
{
}

/// Creating an absent file whose directory is there succeeds, and afterwards
/// the file exists and is empty.
pub proof fn created_file_exists_and_is_empty(fs: FsState, file: File)
    requires
        !fs.contains_key(file.location()),
        file.location().len() > 0,
        parent_ready(fs, file.location()),
    ensures
        ({
            let p = file.location();
            let r = outcome(fs, presence(File::kind(), found_at(fs, p), File::creation(p)));
            &&& r matches Some((after, res))
            &&& res == FSResult::<()>::Ok(())
            &&& existence(File::kind(), found_at(after, p)) == FSResult::<bool>::Ok(true)
            &&& after[p] == Node::File(Seq::empty())
        }),
{
    reveal(perform);
    lemma_run_one(fs, File::creation(file.location()));
}

/// Creating an object that already exists with its own kind does nothing and
/// succeeds; where the path holds another kind, it fails with a type mismatch
/// naming that kind and does nothing either.
pub proof fn create_on_existing_is_a_no_op(fs: FsState, file: File, dir: Directory)
    requires
        fs.contains_key(file.location()),
        fs.contains_key(dir.location()),
    ensures
        ({
            let p = file.location();
            let r = outcome(fs, presence(File::kind(), found_at(fs, p), File::creation(p)));
            r == Some((fs, if file_at(fs, p) {
                FSResult::<()>::Ok(())
            } else {
                FSResult::<()>::Err(FSError::TypeMismatch(ObjectType::Directory))
            }))
        }),
        ({
            let p = dir.location();
            let r = outcome(fs, presence(Directory::kind(), found_at(fs, p), Directory::creation(p)));
            r == Some((fs, if file_at(fs, p) {
                FSResult::<()>::Err(FSError::TypeMismatch(ObjectType::File))
            } else {
                FSResult::<()>::Ok(())
            }))
        }),
{
    reveal(perform);
}

/// Writing a new file fails with `AlreadyExists` where the file is there and
/// changes nothing; where the path is free and its directory is there, it
/// leaves a file that holds exactly the content written, and reading that file
/// gives the content back.
pub proof fn write_new_round_trip(fs: FsState, file: File, content: Seq<char>, text: String)
    requires
        file.location().len() > 0,
    ensures
        ({
            let p = file.location();
            let r = outcome(fs, fresh_write(p, found_at(fs, p), content));
            &&& file_at(fs, p) ==> r == Some((fs, FSResult::<()>::Err(FSError::AlreadyExists)))
            &&& (!fs.contains_key(p) && parent_ready(fs, p)) ==> {
                &&& r matches Some((after, res))
                &&& res == FSResult::<()>::Ok(())
                &&& existence(File::kind(), found_at(after, p)) == FSResult::<bool>::Ok(true)
                &&& after[p] == Node::File(content)
                &&& text@ == content ==> (reading(found_at(after, p), Ok(text)) matches Ok(read) && read@ == content)
            }
        }),
{
    reveal(perform);
    let p = file.location();
    lemma_run_one(fs, Action::WriteFile { path: p, content, append: false });
}

/// Deleting an absent object succeeds and changes nothing. Deleting a present
/// file, or a present directory with nothing below it, succeeds and leaves
/// nothing at its path.
pub proof fn delete_leaves_nothing(fs: FsState, file: File, dir: Directory)
    ensures
        ({
            let p = file.location();
            let r = outcome(fs, absence(File::kind(), found_at(fs, p), File::removal(p)));
            &&& !fs.contains_key(p) ==> r == Some((fs, FSResult::<()>::Ok(())))
            &&& file_at(fs, p) ==> {
                &&& r matches Some((after, res))
                &&& res == FSResult::<()>::Ok(())
                &&& existence(File::kind(), found_at(after, p)) == FSResult::<bool>::Ok(false)
            }
        }),
        ({
            let p = dir.location();
            let r = outcome(fs, absence(Directory::kind(), found_at(fs, p), Directory::removal(p)));
            &&& !fs.contains_key(p) ==> r == Some((fs, FSResult::<()>::Ok(())))
            &&& (fs.contains_key(p) && fs[p] is Directory && p.len() > 0
                && !(exists|k: Seq<char>| fs.contains_key(k) && below(k, p))) ==> {
                &&& r matches Some((after, res))
                &&& res == FSResult::<()>::Ok(())
                &&& existence(Directory::kind(), found_at(after, p)) == FSResult::<bool>::Ok(false)
            }
        }),
{
    reveal(perform);
    lemma_run_one(fs, File::removal(file.location()));
    lemma_run_one(fs, Directory::removal(dir.location()));
}

/// Moving a file to a free place whose directory is there succeeds, whether the
/// rename is accepted or the copy and delete stand in for it: afterwards the
/// file exists at the target with its content, and nothing is at its old path.
pub proof fn move_relocates_file(fs: FsState, file: File, target: Seq<char>, rename_accepted: bool)
    requires
        file_at(fs, file.location()),
        file.location() != target,
        parent_ready(fs, target),
        !dir_at(fs, target),
        !ancestry(target).contains(file.location()),
    ensures
        ({
            let p = file.location();
            let r = relocate(
                fs,
                Some(Action::Rename { from: p, to: target }),
                File::duplication(p, target, Seq::empty(), (seq![File::recursive_removal(p)], FSResult::<()>::Ok(()))),
                rename_accepted,
            );
            &&& r matches Some((after, res))
            &&& res == FSResult::<()>::Ok(())
            &&& existence(File::kind(), found_at(after, target)) == FSResult::<bool>::Ok(true)
            &&& existence(File::kind(), found_at(after, p)) == FSResult::<bool>::Ok(false)
            &&& after[target] == fs[p]
        }),
{
    reveal(perform);
    let p = file.location();
    let copy = Action::Copy { from: p, to: target };
    lemma_run_two(fs, copy, File::removal(p));
    assert(seq![copy] + seq![File::removal(p)] =~= seq![copy, File::removal(p)]);
}

/// Copying a file to a free place whose directory is there succeeds and leaves
/// the file at both places with the same content.
pub proof fn copy_duplicates_file(fs: FsState, file: File, target: Seq<char>)
    requires
        file_at(fs, file.location()),
        file.location() != target,
        parent_ready(fs, target),
        !dir_at(fs, target),
    ensures
        ({
            let p = file.location();
            let r = outcome(fs, File::duplication(p, target, Seq::empty(), (Seq::empty(), FSResult::<()>::Ok(()))));
            &&& r matches Some((after, res))
            &&& res == FSResult::<()>::Ok(())
            &&& existence(File::kind(), found_at(after, p)) == FSResult::<bool>::Ok(true)
            &&& existence(File::kind(), found_at(after, target)) == FSResult::<bool>::Ok(true)
            &&& after[target] == after[p]
            &&& after[p] == fs[p]
        }),
{
    reveal(perform);
    let p = file.location();
    let copy = Action::Copy { from: p, to: target };
    lemma_run_one(fs, copy);
    assert(seq![copy] + Seq::<Action>::empty() =~= seq![copy]);
}

/// Creating an absent file recursively succeeds where no ancestor of its
/// directory is a file: it leaves every ancestor a directory, the file there,
/// empty, and every entry that was there before as it was. Deleting it recursively afterwards leaves nothing at its path;
/// its ancestors stay.
pub proof fn recursive_create_then_delete(fs: FsState, file: File)
    requires
        file.location().len() > 0,
        !fs.contains_key(file.location()),
        !ancestry(parent_or_root(file.location())).contains(file.location()),
        forall|d: Seq<char>| ancestry(parent_or_root(file.location())).contains(d) ==> !file_at(fs, d),
    ensures
        ({
            let p = file.location();
            let r = outcome(fs, File::recursive_creation(p, found_at(fs, p)));
            &&& r matches Some((after, res))
            &&& res == FSResult::<()>::Ok(())
            &&& after[p] == Node::File(Seq::empty())
            &&& forall|d: Seq<char>| ancestry(parent_or_root(p)).contains(d) ==> dir_at(after, d)
            &&& forall|k: Seq<char>| #[trigger] fs.contains_key(k) ==> after.contains_key(k) && after[k] == fs[k]
            &&& outcome(after, absence(File::kind(), found_at(after, p), File::recursive_removal(p)))
                matches Some((cleared, done))
            &&& done == FSResult::<()>::Ok(())
            &&& existence(File::kind(), found_at(cleared, p)) == FSResult::<bool>::Ok(false)
            &&& forall|d: Seq<char>| ancestry(parent_or_root(p)).contains(d) ==> dir_at(cleared, d)
        }),
{
    reveal(perform);
    let p = file.location();
    let q = parent_or_root(p);
    let make = Action::CreateDirAll { path: q };
    let write = File::creation(p);
    assert(seq![make] + seq![write] =~= seq![make, write]);
    lemma_run_two(fs, make, write);
    assert(!(exists|d: Seq<char>| ancestry(q).contains(d) && file_at(fs, d)));
    let mid = perform(fs, make)->Some_0;
    if q.len() > 0 {
        lemma_in_own_ancestry(q);
        assert(!file_at(fs, q));
    }
    assert(dir_at(mid, q));
    match parent_path(p) {
        Some(q1) => assert(q1 == q),
        None => {},
    }
    assert(parent_ready(mid, p));
    let after = perform(mid, write)->Some_0;
    let cleared = after.remove(p);
    assert forall|d: Seq<char>| ancestry(q).contains(d) implies dir_at(after, d) by {
        assert(!file_at(fs, d));
    }
    assert forall|k: Seq<char>| #[trigger] fs.contains_key(k) implies after.contains_key(k) && after[k] == fs[k] by {
        assert(k != p);
        assert(mid.contains_key(k) && mid[k] == fs[k]);
    }
    assert forall|d: Seq<char>| ancestry(q).contains(d) implies dir_at(cleared, d) by {
        assert(dir_at(after, d));
        assert(d != p);
    }
    lemma_run_one(after, File::recursive_removal(p));
}

/// Creating an absent directory recursively succeeds where none of its
/// ancestors is a file: it leaves the directory and every ancestor a directory
/// and all else as it was. Where nothing lay below the path before, and none
/// of its ancestors lies below it, nothing lies below the new directory. Deleting it recursively afterwards leaves nothing at
/// or below its path; its ancestors stay.
pub proof fn recursive_directory_create_then_delete(fs: FsState, dir: Directory)
    requires
        dir.location().len() > 0,
        !fs.contains_key(dir.location()),
        forall|d: Seq<char>| ancestry(dir.location()).contains(d) ==> !file_at(fs, d),
    ensures
        ({
            let p = dir.location();
            let r = outcome(fs, Directory::recursive_creation(p, found_at(fs, p)));
            &&& r matches Some((after, res))
            &&& res == FSResult::<()>::Ok(())
            &&& existence(Directory::kind(), found_at(after, p)) == FSResult::<bool>::Ok(true)
            &&& forall|d: Seq<char>| ancestry(p).contains(d) ==> dir_at(after, d)
            &&& forall|k: Seq<char>| fs.contains_key(k) ==> after.contains_key(k) && after[k] == fs[k]
            &&& ((forall|k: Seq<char>| fs.contains_key(k) ==> !below(k, p))
                && (forall|d: Seq<char>| ancestry(p).contains(d) ==> !below(d, p)))
                ==> (forall|k: Seq<char>| after.contains_key(k) ==> !below(k, p))
            &&& outcome(after, absence(Directory::kind(), found_at(after, p), Directory::recursive_removal(p)))
                matches Some((cleared, done))
            &&& done == FSResult::<()>::Ok(())
            &&& existence(Directory::kind(), found_at(cleared, p)) == FSResult::<bool>::Ok(false)
            &&& forall|k: Seq<char>| cleared.contains_key(k) ==> !below(k, p)
        }),
{
    reveal(perform);
    let p = dir.location();
    let make = Action::CreateDirAll { path: p };
    lemma_run_one(fs, make);
    lemma_in_own_ancestry(p);
    assert(!(exists|d: Seq<char>| ancestry(p).contains(d) && file_at(fs, d)));
    let after = perform(fs, make)->Some_0;
    assert forall|d: Seq<char>| ancestry(p).contains(d) implies dir_at(after, d) by {
        assert(!file_at(fs, d));
    }
    assert(after[p] == Node::Directory);
    let remove = Directory::recursive_removal(p);
    lemma_run_one(after, remove);
}

} // verus!
