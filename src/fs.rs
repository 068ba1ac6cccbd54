//! Filesystem objects (files and directories) and the decisions behind each of
//! their operations.
//!
//! An operation never touches the filesystem itself. It is handed what a probe of
//! the object's path found, and answers with a [`Plan`]: the primitive requests to
//! perform in order, and the outcome when all of them succeed. The first request
//! that fails ends the plan, and its failure is reported through
//! [`FSError::from_io`]. The spec-level model in [`crate::model`] gives each request
//! its meaning, which is what the laws of this library are stated over.
//!
//! No locking is done: a probe followed by the plan's requests races against
//! other processes that change the same path. Only the single-process,
//! sequential case is in scope.
use vstd::prelude::*;
use crate::plan::{actions, Action, Plan, Relocation, Request};
use vstd::string::StringExecFns;

verus! {

/// What kind of object a path on the filesystem denotes.
#[derive(Debug, Clone, Copy, PartialEq, Eq, Hash, Structural)]
pub enum ObjectType {
    File,
    Directory,
    SymbolicLink,
    Unknown,
}

/// The human-readable name of a kind.
pub open spec fn object_type_name(t: ObjectType) -> Seq<char> {
    match t {
        ObjectType::File => "file"@,
        ObjectType::Directory => "directory"@,
        ObjectType::SymbolicLink => "symbolic link"@,
        ObjectType::Unknown => "unknown object"@,
    }
}

/// The classification of a path from what a look at it found.
pub open spec fn classification(present: bool, is_file: bool, is_dir: bool, is_symlink: bool) -> ObjectType {
    if present && is_file {
        ObjectType::File
    } else if present && is_dir {
        ObjectType::Directory
    } else if present && is_symlink {
        ObjectType::SymbolicLink
    } else {
        ObjectType::Unknown
    }
}

impl ObjectType {
    /// A short human-readable name of the kind.
    pub fn name(&self) -> (r: &'static str)
        ensures
            r@ == object_type_name(*self),
    {
        match self {
            ObjectType::File => "file",
            ObjectType::Directory => "directory",
            ObjectType::SymbolicLink => "symbolic link",
            ObjectType::Unknown => "unknown object",
        }
    }

    /// Classifies a path: a regular file, a directory or a symbolic link when it
    /// exists as one, and `Unknown` otherwise.
    pub fn classify(present: bool, is_file: bool, is_dir: bool, is_symlink: bool) -> (r: ObjectType)
        ensures
            r == classification(present, is_file, is_dir, is_symlink),
    {
        if present && is_file {
            ObjectType::File
        } else if present && is_dir {
            ObjectType::Directory
        } else if present && is_symlink {
            ObjectType::SymbolicLink
        } else {
            ObjectType::Unknown
        }
    }
}

/// The kind of a failure reported by the operating system for a primitive
/// request. `Other` carries the description of any kind not listed.
#[derive(Debug, Clone, PartialEq, Eq, Hash)]
pub enum IoErrorKind {
    AlreadyExists,
    NotFound,
    PermissionDenied,
    IsADirectory,
    Other(String),
}

/// Describes possible errors when dealing with the filesystem.
#[derive(Debug, Clone, PartialEq, Eq, Hash)]
pub enum FSError {
    /// The requested object does not exist.
    NonExistent,
    /// The requested object already exists.
    AlreadyExists,
    /// The path denotes an object of another kind, the one carried.
    TypeMismatch(ObjectType),
    /// The caller lacks the permissions for the operation.
    PermissionDenied,
    /// A completely unexpected error occurred; the text describes it.
    Unknown(String),
}

/// The path that holds `p`, as `std::path::Path::parent` gives it.
pub uninterp spec fn parent_path(p: Seq<char>) -> Option<Seq<char>>;

/// Relies on `std::path::Path::parent`: the path without its final component,
/// `None` for a root or the empty path.
#[verifier::external_body]
fn parent_of(path: &str) -> (r: Option<String>)
    ensures
        match r {
            Some(q) => parent_path(path@) == Some(q@),
            None => parent_path(path@) is None,
        },
        path@.len() == 0 ==> r is None,
{
    std::path::Path::new(path).parent().map(|q| q.to_string_lossy().into_owned())
}

/// A result whose error is an [`FSError`].
pub type FSResult<T> = Result<T, FSError>;

impl FSError {
    /// The error that a failure of kind `kind` maps to.
    pub open spec fn from_io_spec(kind: IoErrorKind) -> FSError {
        match kind {
            IoErrorKind::AlreadyExists => FSError::AlreadyExists,
            IoErrorKind::NotFound => FSError::NonExistent,
            IoErrorKind::PermissionDenied => FSError::PermissionDenied,
            IoErrorKind::IsADirectory => FSError::TypeMismatch(ObjectType::Directory),
            IoErrorKind::Other(description) => FSError::Unknown(description),
        }
    }

    /// Maps a failure of the operating system into the error taxonomy. The map is
    /// total: every kind of failure has exactly one error.
    pub fn from_io(kind: IoErrorKind) -> (r: FSError)
        ensures
            r == FSError::from_io_spec(kind),
    {
        match kind {
            IoErrorKind::AlreadyExists => FSError::AlreadyExists,
            IoErrorKind::NotFound => FSError::NonExistent,
            IoErrorKind::PermissionDenied => FSError::PermissionDenied,
            IoErrorKind::IsADirectory => FSError::TypeMismatch(ObjectType::Directory),
            IoErrorKind::Other(description) => FSError::Unknown(description),
        }
    }
}

} // verus!

verus! {

/// What `exists_on_fs` answers for an object of kind `kind` from what a probe found.
pub open spec fn existence(kind: ObjectType, found: Option<ObjectType>) -> FSResult<bool> {
    match found {
        None => Ok(false),
        Some(k) => if k == kind {
            Ok(true)
        } else {
            Err(FSError::TypeMismatch(k))
        },
    }
}

/// The plan that makes an object of kind `kind` present by `create`, where a
/// probe found `found`.
pub open spec fn presence(kind: ObjectType, found: Option<ObjectType>, create: Action) -> (Seq<Action>, FSResult<()>) {
    match found {
        None => (seq![create], Ok(())),
        Some(k) => if k == kind {
            (Seq::empty(), Ok(()))
        } else {
            (Seq::empty(), Err(FSError::TypeMismatch(k)))
        },
    }
}

/// The plan that makes an object of kind `kind` absent by `remove`, where a
/// probe found `found`.
pub open spec fn absence(kind: ObjectType, found: Option<ObjectType>, remove: Action) -> (Seq<Action>, FSResult<()>) {
    match found {
        None => (Seq::empty(), Ok(())),
        Some(k) => if k == kind {
            (seq![remove], Ok(()))
        } else {
            (Seq::empty(), Err(FSError::TypeMismatch(k)))
        },
    }
}

/// A copy of `from` to `to`, followed by the plan `rest`.
pub open spec fn copy_then(from: Seq<char>, to: Seq<char>, rest: (Seq<Action>, FSResult<()>)) -> (Seq<Action>, FSResult<()>) {
    (seq![Action::Copy { from, to }] + rest.0, rest.1)
}

/// The directory that `create_on_fs_recursive` makes sure of for a file at `p`.
pub open spec fn parent_or_root(p: Seq<char>) -> Seq<char> {
    match parent_path(p) {
        Some(q) => q,
        None => "/"@,
    }
}

fn check_existence(kind: ObjectType, found: Option<ObjectType>) -> (r: FSResult<bool>)
    ensures
        r == existence(kind, found),
{
    match found {
        None => Ok(false),
        Some(k) => if k == kind {
            Ok(true)
        } else {
            Err(FSError::TypeMismatch(k))
        },
    }
}

fn plan_presence(kind: ObjectType, found: Option<ObjectType>, create: Request) -> (r: Plan)
    ensures
        r@ == presence(kind, found, create@),
{
    match found {
        None => Plan::single(create),
        Some(k) => if k == kind {
            Plan::finished(Ok(()))
        } else {
            Plan::finished(Err(FSError::TypeMismatch(k)))
        },
    }
}

fn plan_absence(kind: ObjectType, found: Option<ObjectType>, remove: Request) -> (r: Plan)
    ensures
        r@ == absence(kind, found, remove@),
{
    match found {
        None => Plan::finished(Ok(())),
        Some(k) => if k == kind {
            Plan::single(remove)
        } else {
            Plan::finished(Err(FSError::TypeMismatch(k)))
        },
    }
}

/// The operations that every filesystem object offers. Each takes what a probe
/// of the object's path found (`None` where nothing is there) and decides.
pub trait Object: Sized {
    /// The kind of object this type describes.
    spec fn kind() -> ObjectType;

    /// The path this object refers to.
    spec fn location(&self) -> Seq<char>;

    /// The request that creates the object at `p` alone.
    spec fn creation(p: Seq<char>) -> Action;

    /// The plan of `create_on_fs_recursive` at `p`, where a probe found `found`.
    spec fn recursive_creation(p: Seq<char>, found: Option<ObjectType>) -> (Seq<Action>, FSResult<()>);

    /// The request that removes the object at `p`.
    spec fn removal(p: Seq<char>) -> Action;

    /// The request of `delete_from_fs_recursive` at `p`.
    spec fn recursive_removal(p: Seq<char>) -> Action;

    /// The kind of object this type describes.
    fn object_type() -> (r: ObjectType)
        ensures
            r == Self::kind(),
    ;

    /// An object at `path`; nothing is done on the filesystem.
    fn new(path: &str) -> (r: Self)
        ensures
            r.location() == path@,
    ;

    /// The path this object refers to.
    fn path(&self) -> (r: &str)
        ensures
            r@ == self.location(),
    ;

    /// Whether the object exists: `false` where nothing is at its path, `true`
    /// where an object of its own kind is, and a type mismatch naming the kind
    /// found otherwise.
    fn exists_on_fs(&self, found: Option<ObjectType>) -> (r: FSResult<bool>)
        ensures
            r == existence(Self::kind(), found),
    ;

    /// Creates the object; where it already exists, nothing is done.
    fn create_on_fs(&self, found: Option<ObjectType>) -> (r: Plan)
        ensures
            r@ == presence(Self::kind(), found, Self::creation(self.location())),
    ;

    /// Creates the object together with every missing ancestor directory.
    fn create_on_fs_recursive(&self, found: Option<ObjectType>) -> (r: Plan)
        ensures
            r@ == Self::recursive_creation(self.location(), found),
    ;

    /// Deletes the object; where it is already absent, nothing is done.
    fn delete_from_fs(&self, found: Option<ObjectType>) -> (r: Plan)
        ensures
            r@ == absence(Self::kind(), found, Self::removal(self.location())),
    ;

    /// Deletes the object with everything below it. Ancestor directories are
    /// left in place, empty or not.
    fn delete_from_fs_recursive(&self, found: Option<ObjectType>) -> (r: Plan)
        ensures
            r@ == absence(Self::kind(), found, Self::recursive_removal(self.location())),
    ;

    /// Whether the object exists and holds nothing, from what a probe found
    /// and its size as a look at it gave: a file's length in bytes, or the
    /// number of entries a directory's listing showed (`None` where the look
    /// failed).
    fn exists_and_is_empty(&self, found: Option<ObjectType>, size: Option<u64>) -> (r: FSResult<bool>)
        ensures
            r == emptiness(Self::kind(), found, size),
    ;

    /// The requests that put a copy of the object at `from` in place at `to`,
    /// given the listing `tree` of what lies below it, followed by the plan `rest`.
    spec fn duplication(
        from: Seq<char>,
        to: Seq<char>,
        tree: Seq<(Seq<char>, ObjectType)>,
        rest: (Seq<Action>, FSResult<()>),
    ) -> (Seq<Action>, FSResult<()>);

    /// Moves the object to `target`: a rename is tried first, and where it
    /// fails, a copy to `target` followed by deleting the object at its old
    /// path. `tree` is what a listing of what lies below the object found:
    /// paths relative to it, parents before children (nothing, for a file).
    /// Where no object of this kind was found, nothing is done and the move
    /// fails.
    fn move_to(self, target: &str, found: Option<ObjectType>, tree: Vec<(String, ObjectType)>) -> (r: Relocation<Self>)
        ensures
            found == Some(Self::kind()) ==> (r.attempt matches Some(a)
                && a@ == (Action::Rename { from: self.location(), to: target@ })),
            found == Some(Self::kind()) ==> r.fallback@ == Self::duplication(
                self.location(),
                target@,
                listing(tree@),
                (seq![Self::recursive_removal(self.location())], Ok(())),
            ),
            found != Some(Self::kind()) ==> r.attempt is None
                && r.fallback@ == (Seq::<Action>::empty(), FSResult::<()>::Err(missing(found))),
            r.result.location() == target@,
    ;

    /// Copies the object to `target`, leaving it in place. `tree` is as for
    /// `move_to`. Where no object of this kind was found, nothing is done and
    /// the copy fails.
    fn copy_to(&self, target: &str, found: Option<ObjectType>, tree: Vec<(String, ObjectType)>) -> (r: Relocation<Self>)
        ensures
            r.attempt is None,
            found == Some(Self::kind()) ==> r.fallback@ == Self::duplication(
                self.location(),
                target@,
                listing(tree@),
                (Seq::empty(), Ok(())),
            ),
            found != Some(Self::kind()) ==> r.fallback@ == (Seq::<Action>::empty(), FSResult::<()>::Err(missing(found))),
            r.result.location() == target@,
    ;
}

/// What `exists_and_is_empty` answers for an object of kind `kind`.
pub open spec fn emptiness(kind: ObjectType, found: Option<ObjectType>, size: Option<u64>) -> FSResult<bool> {
    match existence(kind, found) {
        Err(e) => Err(e),
        Ok(false) => Ok(false),
        Ok(true) => Ok(size == Some(0u64)),
    }
}

fn check_emptiness(kind: ObjectType, found: Option<ObjectType>, size: Option<u64>) -> (r: FSResult<bool>)
    ensures
        r == emptiness(kind, found, size),
{
    match check_existence(kind, found) {
        Err(e) => Err(e),
        Ok(false) => Ok(false),
        Ok(true) => match size {
            Some(n) => Ok(n == 0),
            None => Ok(false),
        },
    }
}

/// The error of an operation that needs an object which a probe did not find
/// with the right kind: `NonExistent` where nothing was there.
pub open spec fn missing(found: Option<ObjectType>) -> FSError {
    match found {
        None => FSError::NonExistent,
        Some(k) => FSError::TypeMismatch(k),
    }
}

fn missing_error(found: Option<ObjectType>) -> (r: FSError)
    ensures
        r == missing(found),
{
    match found {
        None => FSError::NonExistent,
        Some(k) => FSError::TypeMismatch(k),
    }
}

} // verus!

verus! {

/// A regular file on the filesystem (not a symbolic link).
#[derive(Debug, Clone)]
pub struct File {
    path: String,
}

/// The plan that `File::create_on_fs_recursive` makes for a file at `p`.
pub open spec fn file_recursive_creation(p: Seq<char>, found: Option<ObjectType>) -> (Seq<Action>, FSResult<()>) {
    let rest = presence(ObjectType::File, found, File::creation(p));
    (seq![Action::CreateDirAll { path: parent_or_root(p) }] + rest.0, rest.1)
}

fn copy_plan(from: &String, to: &str, rest: Plan) -> (r: Plan)
    ensures
        r@ == copy_then(from@, to@, rest@),
{
    rest.after(Request::Copy { from: from.clone(), to: to.to_string() })
}

impl Object for File {
    open spec fn kind() -> ObjectType {
        ObjectType::File
    }

    closed spec fn location(&self) -> Seq<char> {
        self.path@
    }

    open spec fn creation(p: Seq<char>) -> Action {
        Action::WriteFile { path: p, content: Seq::empty(), append: false }
    }

    open spec fn recursive_creation(p: Seq<char>, found: Option<ObjectType>) -> (Seq<Action>, FSResult<()>) {
        file_recursive_creation(p, found)
    }

    open spec fn removal(p: Seq<char>) -> Action {
        Action::RemoveFile { path: p }
    }

    open spec fn recursive_removal(p: Seq<char>) -> Action {
        Action::RemoveFile { path: p }
    }

    fn object_type() -> (r: ObjectType) {
        ObjectType::File
    }

    fn new(path: &str) -> (r: Self) {
        File { path: path.to_string() }
    }

    fn path(&self) -> (r: &str) {
        self.path.as_str()
    }

    fn exists_on_fs(&self, found: Option<ObjectType>) -> (r: FSResult<bool>) {
        check_existence(ObjectType::File, found)
    }

    fn create_on_fs(&self, found: Option<ObjectType>) -> (r: Plan) {
        plan_presence(ObjectType::File, found, self.write_request(String::new(), false))
    }

    fn create_on_fs_recursive(&self, found: Option<ObjectType>) -> (r: Plan) {
        let parent = match parent_of(self.path.as_str()) {
            Some(q) => q,
            None => "/".to_string(),
        };
        self.create_on_fs(found).after(Request::CreateDirAll { path: parent })
    }

    fn delete_from_fs(&self, found: Option<ObjectType>) -> (r: Plan) {
        plan_absence(ObjectType::File, found, Request::RemoveFile { path: self.path.clone() })
    }

    fn delete_from_fs_recursive(&self, found: Option<ObjectType>) -> (r: Plan) {
        self.delete_from_fs(found)
    }

    fn exists_and_is_empty(&self, found: Option<ObjectType>, size: Option<u64>) -> (r: FSResult<bool>) {
        check_emptiness(ObjectType::File, found, size)
    }

    open spec fn duplication(
        from: Seq<char>,
        to: Seq<char>,
        tree: Seq<(Seq<char>, ObjectType)>,
        rest: (Seq<Action>, FSResult<()>),
    ) -> (Seq<Action>, FSResult<()>) {
        copy_then(from, to, rest)
    }

    fn move_to(self, target: &str, found: Option<ObjectType>, tree: Vec<(String, ObjectType)>) -> (r: Relocation<Self>) {
        match found {
            Some(ObjectType::File) => {
                let rename = Request::Rename { from: self.path.clone(), to: target.to_string() };
                let remove = Plan::single(Request::RemoveFile { path: self.path.clone() });
                let fallback = copy_plan(&self.path, target, remove);
                Relocation { attempt: Some(rename), fallback, result: File::new(target) }
            },
            _ => Relocation {
                attempt: None,
                fallback: Plan::finished(Err(missing_error(found))),
                result: File::new(target),
            },
        }
    }

    fn copy_to(&self, target: &str, found: Option<ObjectType>, tree: Vec<(String, ObjectType)>) -> (r: Relocation<Self>) {
        let fallback = match found {
            Some(ObjectType::File) => copy_plan(&self.path, target, Plan::finished(Ok(()))),
            _ => Plan::finished(Err(missing_error(found))),
        };
        Relocation { attempt: None, fallback, result: File::new(target) }
    }
}

} // verus!

verus! {

/// What `File::write_new` plans for `content` at `p`.
pub open spec fn fresh_write(p: Seq<char>, found: Option<ObjectType>, content: Seq<char>) -> (Seq<Action>, FSResult<()>) {
    match existence(ObjectType::File, found) {
        Err(e) => (Seq::empty(), Err(e)),
        Ok(true) => (Seq::empty(), Err(FSError::AlreadyExists)),
        Ok(false) => (seq![Action::WriteFile { path: p, content, append: false }], Ok(())),
    }
}

/// What `File::read` gives from what a probe found and what reading the file
/// gave.
pub open spec fn reading(found: Option<ObjectType>, contents: Result<String, IoErrorKind>) -> FSResult<String> {
    match existence(ObjectType::File, found) {
        Err(e) => Err(e),
        Ok(false) => Err(FSError::NonExistent),
        Ok(true) => match contents {
            Ok(text) => Ok(text),
            Err(kind) => Err(FSError::from_io_spec(kind)),
        },
    }
}

/// What `append` (when `append`) or `overwrite` plans for `content` at `p`.
pub open spec fn checked_write(p: Seq<char>, found: Option<ObjectType>, content: Seq<char>, append: bool) -> (Seq<Action>, FSResult<()>) {
    match existence(ObjectType::File, found) {
        Err(e) => (Seq::empty(), Err(e)),
        Ok(_) => (seq![Action::WriteFile { path: p, content, append }], Ok(())),
    }
}

impl File {
    /// The request that writes `content` to this file.
    fn write_request(&self, content: String, append: bool) -> (r: Request)
        ensures
            r@ == (Action::WriteFile { path: self.location(), content: content@, append }),
    {
        Request::WriteFile { path: self.path.clone(), content, append }
    }

    fn write_checked(&self, found: Option<ObjectType>, content: &str, append: bool) -> (r: Plan)
        ensures
            r@ == checked_write(self.location(), found, content@, append),
    {
        match check_existence(ObjectType::File, found) {
            Err(e) => Plan::finished(Err(e)),
            Ok(_) => Plan::single(self.write_request(content.to_string(), append)),
        }
    }

    /// Writes `content` to a new file; fails with `AlreadyExists` where the file
    /// is already there.
    pub fn write_new(&self, found: Option<ObjectType>, content: &str) -> (r: Plan)
        ensures
            r@ == fresh_write(self.location(), found, content@),
    {
        match check_existence(ObjectType::File, found) {
            Err(e) => Plan::finished(Err(e)),
            Ok(true) => Plan::finished(Err(FSError::AlreadyExists)),
            Ok(false) => Plan::single(self.write_request(content.to_string(), false)),
        }
    }

    /// Appends `content` to the file, which is created where it is absent.
    pub fn append(&self, found: Option<ObjectType>, content: &str) -> (r: Plan)
        ensures
            r@ == checked_write(self.location(), found, content@, true),
    {
        self.write_checked(found, content, true)
    }

    /// Replaces the file's content with `content`; the file is created where it
    /// is absent.
    pub fn overwrite(&self, found: Option<ObjectType>, content: &str) -> (r: Plan)
        ensures
            r@ == checked_write(self.location(), found, content@, false),
    {
        self.write_checked(found, content, false)
    }

    /// The file's whole content, from what a probe found and what reading the
    /// file gave: `NonExistent` where the file is absent.
    pub fn read(&self, found: Option<ObjectType>, contents: Result<String, IoErrorKind>) -> (r: FSResult<String>)
        ensures
            r == reading(found, contents),
    {
        match check_existence(ObjectType::File, found) {
            Err(e) => Err(e),
            Ok(false) => Err(FSError::NonExistent),
            Ok(true) => match contents {
                Ok(text) => Ok(text),
                Err(kind) => Err(FSError::from_io(kind)),
            },
        }
    }

    /// The file's size in bytes from what its metadata gave; 0 where the
    /// metadata could not be read. Failures are not reported.
    pub fn size(&self, length: Option<u64>) -> (r: u64)
        ensures
            r == match length {
                Some(n) => n,
                None => 0,
            },
    {
        match length {
            Some(n) => n,
            None => 0,
        }
    }

}

} // verus!

verus! {

/// A directory on the filesystem.
#[derive(Debug, Clone)]
pub struct Directory {
    path: String,
}

impl Object for Directory {
    open spec fn kind() -> ObjectType {
        ObjectType::Directory
    }

    closed spec fn location(&self) -> Seq<char> {
        self.path@
    }

    open spec fn creation(p: Seq<char>) -> Action {
        Action::CreateDir { path: p }
    }

    open spec fn recursive_creation(p: Seq<char>, found: Option<ObjectType>) -> (Seq<Action>, FSResult<()>) {
        presence(ObjectType::Directory, found, Action::CreateDirAll { path: p })
    }

    open spec fn removal(p: Seq<char>) -> Action {
        Action::RemoveDir { path: p }
    }

    open spec fn recursive_removal(p: Seq<char>) -> Action {
        Action::RemoveDirAll { path: p }
    }

    fn object_type() -> (r: ObjectType) {
        ObjectType::Directory
    }

    fn new(path: &str) -> (r: Self) {
        Directory { path: path.to_string() }
    }

    fn path(&self) -> (r: &str) {
        self.path.as_str()
    }

    fn exists_on_fs(&self, found: Option<ObjectType>) -> (r: FSResult<bool>) {
        check_existence(ObjectType::Directory, found)
    }

    fn create_on_fs(&self, found: Option<ObjectType>) -> (r: Plan) {
        plan_presence(ObjectType::Directory, found, Request::CreateDir { path: self.path.clone() })
    }

    fn create_on_fs_recursive(&self, found: Option<ObjectType>) -> (r: Plan) {
        plan_presence(ObjectType::Directory, found, Request::CreateDirAll { path: self.path.clone() })
    }

    fn delete_from_fs(&self, found: Option<ObjectType>) -> (r: Plan) {
        plan_absence(ObjectType::Directory, found, Request::RemoveDir { path: self.path.clone() })
    }

    fn delete_from_fs_recursive(&self, found: Option<ObjectType>) -> (r: Plan) {
        plan_absence(ObjectType::Directory, found, Request::RemoveDirAll { path: self.path.clone() })
    }

    fn exists_and_is_empty(&self, found: Option<ObjectType>, size: Option<u64>) -> (r: FSResult<bool>) {
        check_emptiness(ObjectType::Directory, found, size)
    }

    open spec fn duplication(
        from: Seq<char>,
        to: Seq<char>,
        tree: Seq<(Seq<char>, ObjectType)>,
        rest: (Seq<Action>, FSResult<()>),
    ) -> (Seq<Action>, FSResult<()>) {
        tree_copy_then(from, to, tree, rest)
    }

    fn move_to(self, target: &str, found: Option<ObjectType>, tree: Vec<(String, ObjectType)>) -> (r: Relocation<Self>) {
        match found {
            Some(ObjectType::Directory) => {
                let rename = Request::Rename { from: self.path.clone(), to: target.to_string() };
                let remove = Plan::single(Request::RemoveDirAll { path: self.path.clone() });
                let fallback = tree_copy_plan(&self.path, target, &tree, remove);
                Relocation { attempt: Some(rename), fallback, result: Directory::new(target) }
            },
            _ => Relocation {
                attempt: None,
                fallback: Plan::finished(Err(missing_error(found))),
                result: Directory::new(target),
            },
        }
    }

    fn copy_to(&self, target: &str, found: Option<ObjectType>, tree: Vec<(String, ObjectType)>) -> (r: Relocation<Self>) {
        let fallback = match found {
            Some(ObjectType::Directory) => tree_copy_plan(&self.path, target, &tree, Plan::finished(Ok(()))),
            _ => Plan::finished(Err(missing_error(found))),
        };
        Relocation { attempt: None, fallback, result: Directory::new(target) }
    }
}

} // verus!

verus! {

/// The path of `rel` inside the directory `base`.
#[verifier::opaque]
pub open spec fn join(base: Seq<char>, rel: Seq<char>) -> Seq<char> {
    base + "/"@ + rel
}

/// A listing of a directory's tree with its paths as sequences of characters.
pub open spec fn listing(entries: Seq<(String, ObjectType)>) -> Seq<(Seq<char>, ObjectType)> {
    entries.map_values(|e: (String, ObjectType)| (e.0@, e.1))
}

/// The request that copies one entry of the tree at `from` to the tree at `to`:
/// a directory is created, anything else has its content copied.
pub open spec fn entry_copy(from: Seq<char>, to: Seq<char>, e: (Seq<char>, ObjectType)) -> Action {
    if e.1 == ObjectType::Directory {
        Action::CreateDir { path: join(to, e.0) }
    } else {
        Action::Copy { from: join(from, e.0), to: join(to, e.0) }
    }
}

/// The requests that copy each of `entries` from the tree at `from` to the
/// tree at `to`, in order.
pub open spec fn entry_copies(from: Seq<char>, to: Seq<char>, entries: Seq<(Seq<char>, ObjectType)>) -> Seq<Action> {
    entries.map_values(|e: (Seq<char>, ObjectType)| entry_copy(from, to, e))
}

/// The requests that copy the tree at `from`, whose entries are listed parents
/// before children, to `to`: `to` itself is created first.
pub open spec fn tree_copy(from: Seq<char>, to: Seq<char>, entries: Seq<(Seq<char>, ObjectType)>) -> Seq<Action> {
    seq![Action::CreateDir { path: to }] + entry_copies(from, to, entries)
}

/// A copy of the tree at `from` to `to`, followed by the plan `rest`.
pub open spec fn tree_copy_then(
    from: Seq<char>,
    to: Seq<char>,
    entries: Seq<(Seq<char>, ObjectType)>,
    rest: (Seq<Action>, FSResult<()>),
) -> (Seq<Action>, FSResult<()>) {
    (tree_copy(from, to, entries) + rest.0, rest.1)
}

fn join_path(base: &str, rel: &str) -> (r: String)
    ensures
        r@ == join(base@, rel@),
{
    let mut r = base.to_string();
    r.append("/");
    r.append(rel);
    proof {
        reveal(join);
    }
    r
}

fn tree_copy_plan(from: &String, to: &str, entries: &Vec<(String, ObjectType)>, rest: Plan) -> (r: Plan)
    ensures
        r@ == tree_copy_then(from@, to@, listing(entries@), rest@),
{
    let ghost listed = listing(entries@);
    let mut steps: Vec<Request> = Vec::new();
    steps.push(Request::CreateDir { path: to.to_string() });
    let mut i: usize = 0;
    while i < entries.len()
        invariant
            i <= entries@.len(),
            listed == listing(entries@),
            actions(steps@) =~= seq![Action::CreateDir { path: to@ }] + entry_copies(from@, to@, listed.take(i as int)),
        decreases entries@.len() - i,
    {
        let entry = &entries[i];
        let request = if entry.1 == ObjectType::Directory {
            Request::CreateDir { path: join_path(to, entry.0.as_str()) }
        } else {
            Request::Copy { from: join_path(from.as_str(), entry.0.as_str()), to: join_path(to, entry.0.as_str()) }
        };
        proof {
            assert(listed[i as int] == (entry.0@, entry.1));
            assert(request@ == entry_copy(from@, to@, listed[i as int]));
            assert(entry_copies(from@, to@, listed.take(i as int + 1))
                =~= entry_copies(from@, to@, listed.take(i as int)).push(request@));
        }
        let ghost before = steps@;
        steps.push(request);
        proof {
            assert(actions(steps@) =~= actions(before).push(request@));
        }
        i = i + 1;
    }
    assert(listed.take(i as int) =~= listed);
    let mut rest_steps = rest.steps;
    steps.append(&mut rest_steps);
    let r = Plan { steps, outcome: rest.outcome };
    assert(r@.0 =~= tree_copy(from@, to@, listed) + rest@.0);
    r
}

} // verus!
