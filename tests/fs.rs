use rush::fs::{Directory, FSError, File, IoErrorKind, Object, ObjectType};
use rush::plan::{Plan, Progress, Relocation, Request};
use std::collections::HashMap;
use std::path::Path;

#[derive(Debug, Clone, PartialEq)]
enum Node {
    File(String),
    Dir,
}

/// An in-memory filesystem that carries out plans as the program does on disk.
#[derive(Default)]
struct Disk {
    nodes: HashMap<String, Node>,
}

fn parent(p: &str) -> Option<String> {
    Path::new(p).parent().map(|q| q.to_string_lossy().into_owned())
}

impl Disk {
    fn found(&self, p: &str) -> Option<ObjectType> {
        match self.nodes.get(p) {
            None => None,
            Some(Node::File(_)) => Some(ObjectType::File),
            Some(Node::Dir) => Some(ObjectType::Directory),
        }
    }

    fn is_dir(&self, p: &str) -> bool {
        p.is_empty() || self.nodes.get(p) == Some(&Node::Dir)
    }

    fn parent_ready(&self, p: &str) -> bool {
        match parent(p) {
            None => true,
            Some(q) => self.is_dir(&q),
        }
    }

    fn content(&self, p: &str) -> Option<String> {
        match self.nodes.get(p) {
            Some(Node::File(c)) => Some(c.clone()),
            _ => None,
        }
    }

    /// The tree below `dir`: relative paths, parents before children.
    fn listing(&self, dir: &str) -> Vec<(String, ObjectType)> {
        let prefix = format!("{}/", dir);
        let mut entries: Vec<(String, ObjectType)> = self
            .nodes
            .keys()
            .filter(|k| k.starts_with(&prefix))
            .map(|k| (k[prefix.len()..].to_string(), self.found(k).unwrap()))
            .collect();
        entries.sort_by_key(|(rel, _)| (rel.matches('/').count(), rel.clone()));
        entries
    }

    fn perform(&mut self, request: &Request) -> Result<(), IoErrorKind> {
        match request {
            Request::WriteFile { path, content, append } => {
                if self.is_dir(path) {
                    return Err(IoErrorKind::IsADirectory);
                }
                if !self.parent_ready(path) {
                    return Err(IoErrorKind::NotFound);
                }
                let old = self.content(path).unwrap_or_default();
                let new = if *append { old + content } else { content.clone() };
                self.nodes.insert(path.clone(), Node::File(new));
            }
            Request::CreateDir { path } => {
                if self.nodes.contains_key(path) {
                    return Err(IoErrorKind::AlreadyExists);
                }
                if !self.parent_ready(path) {
                    return Err(IoErrorKind::NotFound);
                }
                self.nodes.insert(path.clone(), Node::Dir);
            }
            Request::CreateDirAll { path } => {
                let mut chain = Vec::new();
                let mut at = Some(path.clone());
                while let Some(p) = at {
                    if p.is_empty() {
                        break;
                    }
                    if let Some(Node::File(_)) = self.nodes.get(&p) {
                        return Err(IoErrorKind::AlreadyExists);
                    }
                    at = parent(&p);
                    chain.push(p);
                }
                for p in chain {
                    self.nodes.entry(p).or_insert(Node::Dir);
                }
            }
            Request::RemoveFile { path } => match self.nodes.get(path) {
                Some(Node::File(_)) => {
                    self.nodes.remove(path);
                }
                Some(Node::Dir) => return Err(IoErrorKind::IsADirectory),
                None => return Err(IoErrorKind::NotFound),
            },
            Request::RemoveDir { path } | Request::RemoveDirAll { path } => {
                if !self.nodes.contains_key(path) {
                    return Err(IoErrorKind::NotFound);
                }
                let prefix = format!("{}/", path);
                let below: Vec<String> = self.nodes.keys().filter(|k| k.starts_with(&prefix)).cloned().collect();
                if matches!(request, Request::RemoveDir { .. }) && !below.is_empty() {
                    return Err(IoErrorKind::Other("directory not empty".to_string()));
                }
                for k in below {
                    self.nodes.remove(&k);
                }
                self.nodes.remove(path);
            }
            Request::Rename { from, to } => {
                let node = self.nodes.get(from).cloned().ok_or(IoErrorKind::NotFound)?;
                if !self.parent_ready(to) {
                    return Err(IoErrorKind::NotFound);
                }
                let prefix = format!("{}/", from);
                let below: Vec<String> = self.nodes.keys().filter(|k| k.starts_with(&prefix)).cloned().collect();
                for k in below {
                    let moved = self.nodes.remove(&k).unwrap();
                    self.nodes.insert(format!("{}/{}", to, &k[prefix.len()..]), moved);
                }
                self.nodes.remove(from);
                self.nodes.insert(to.clone(), node);
            }
            Request::Copy { from, to } => {
                let text = self.content(from).ok_or(IoErrorKind::NotFound)?;
                if !self.parent_ready(to) {
                    return Err(IoErrorKind::NotFound);
                }
                self.nodes.insert(to.clone(), Node::File(text));
            }
        }
        Ok(())
    }

    fn carry_out(&mut self, plan: Plan) -> Result<(), FSError> {
        let mut performed: usize = 0;
        let mut failure = None;
        loop {
            match plan.advance(performed, failure.take()) {
                Progress::Perform(index) => match self.perform(&plan.steps[index]) {
                    Ok(()) => performed += 1,
                    Err(kind) => failure = Some(kind),
                },
                Progress::Failed(error) => return Err(error),
                Progress::Done => return plan.outcome,
            }
        }
    }

    /// Carries out a move or a copy; `rename_accepted` says whether the system
    /// takes a rename, as it does not across volumes.
    fn relocate<T>(&mut self, relocation: Relocation<T>, rename_accepted: bool) -> Result<T, FSError> {
        let mut succeeded = false;
        if let Some(attempt) = &relocation.attempt {
            succeeded = rename_accepted && self.perform(attempt).is_ok();
        }
        if relocation.fallback_needed(succeeded) {
            self.carry_out(relocation.fallback)?;
        }
        Ok(relocation.result)
    }
}

fn file_exists(disk: &Disk, file: &File) -> Result<bool, FSError> {
    file.exists_on_fs(disk.found(file.path()))
}

fn dir_exists(disk: &Disk, dir: &Directory) -> Result<bool, FSError> {
    dir.exists_on_fs(disk.found(dir.path()))
}

#[test]
fn create_exists_delete() {
    let mut disk = Disk::default();
    let test_path = "rush_test_file";
    let file = File::new(test_path);
    assert_eq!(file.path(), test_path);
    assert!(!file_exists(&disk, &file).unwrap());
    assert!(disk.found(file.path()).is_none());

    disk.carry_out(file.create_on_fs(disk.found(file.path())))
        .expect("Creating a file should be possible");
    assert!(file_exists(&disk, &file).unwrap());
    assert!(disk.found(file.path()).is_some());

    disk.carry_out(file.delete_from_fs(disk.found(file.path())))
        .expect("Deleting should be possible");
    assert!(!file_exists(&disk, &file).unwrap());
}

#[test]
fn file_write() {
    let mut disk = Disk::default();
    let file = File::new("rush_test_write");
    const MESSAGE: &str = "This is a very fine message!";
    disk.carry_out(file.write_new(disk.found(file.path()), MESSAGE))
        .expect("File should be writable");
    let length = disk.content(file.path()).map(|c| c.len() as u64);
    assert_eq!(file.size(length), MESSAGE.len() as u64);
}

#[test]
fn absent_path_exists_for_neither_kind() {
    let disk = Disk::default();
    assert_eq!(file_exists(&disk, &File::new("nothing/here")), Ok(false));
    assert_eq!(dir_exists(&disk, &Directory::new("nothing/here")), Ok(false));
}

#[test]
fn created_file_exists_and_is_empty() {
    let mut disk = Disk::default();
    let file = File::new("empty.txt");
    assert_eq!(disk.carry_out(file.create_on_fs(disk.found(file.path()))), Ok(()));
    assert_eq!(file_exists(&disk, &file), Ok(true));
    assert_eq!(disk.content("empty.txt"), Some(String::new()));
    assert_eq!(file.exists_and_is_empty(disk.found(file.path()), Some(0)), Ok(true));
}

#[test]
fn create_existing_is_a_no_op() {
    let file = File::new("present.txt");
    let plan = file.create_on_fs(Some(ObjectType::File));
    assert!(plan.steps.is_empty());
    assert_eq!(plan.outcome, Ok(()));
    let dir = Directory::new("present");
    let plan = dir.create_on_fs(Some(ObjectType::Directory));
    assert!(plan.steps.is_empty());
    assert_eq!(plan.outcome, Ok(()));
}

#[test]
fn create_on_wrong_kind_is_a_type_mismatch() {
    let plan = File::new("is_a_dir").create_on_fs(Some(ObjectType::Directory));
    assert!(plan.steps.is_empty());
    assert_eq!(plan.outcome, Err(FSError::TypeMismatch(ObjectType::Directory)));
    let plan = Directory::new("is_a_file").create_on_fs(Some(ObjectType::File));
    assert_eq!(plan.outcome, Err(FSError::TypeMismatch(ObjectType::File)));
    assert_eq!(
        File::new("is_a_dir").exists_on_fs(Some(ObjectType::Directory)),
        Err(FSError::TypeMismatch(ObjectType::Directory))
    );
}

#[test]
fn write_new_on_existing_file_fails() {
    let mut disk = Disk::default();
    let file = File::new("taken.txt");
    disk.carry_out(file.overwrite(None, "old")).unwrap();
    assert_eq!(disk.carry_out(file.write_new(disk.found(file.path()), "new")), Err(FSError::AlreadyExists));
    assert_eq!(disk.content("taken.txt"), Some("old".to_string()));
}

#[test]
fn write_new_then_read_round_trip() {
    let mut disk = Disk::default();
    let file = File::new("fresh.txt");
    assert_eq!(disk.carry_out(file.write_new(disk.found(file.path()), "hello")), Ok(()));
    let contents = disk.content(file.path()).ok_or(IoErrorKind::NotFound);
    assert_eq!(file.read(disk.found(file.path()), contents), Ok("hello".to_string()));
}

#[test]
fn read_absent_file_is_non_existent() {
    let file = File::new("missing.txt");
    assert_eq!(file.read(None, Err(IoErrorKind::NotFound)), Err(FSError::NonExistent));
    assert_eq!(
        file.read(Some(ObjectType::File), Err(IoErrorKind::PermissionDenied)),
        Err(FSError::PermissionDenied)
    );
}

#[test]
fn append_and_overwrite() {
    let mut disk = Disk::default();
    let file = File::new("log.txt");
    disk.carry_out(file.append(disk.found(file.path()), "a")).unwrap();
    disk.carry_out(file.append(disk.found(file.path()), "b")).unwrap();
    assert_eq!(disk.content("log.txt"), Some("ab".to_string()));
    disk.carry_out(file.overwrite(disk.found(file.path()), "c")).unwrap();
    assert_eq!(disk.content("log.txt"), Some("c".to_string()));
    let plan = file.append(Some(ObjectType::Directory), "x");
    assert!(plan.steps.is_empty());
    assert_eq!(plan.outcome, Err(FSError::TypeMismatch(ObjectType::Directory)));
}

#[test]
fn delete_absent_is_a_no_op() {
    let plan = File::new("gone.txt").delete_from_fs(None);
    assert!(plan.steps.is_empty());
    assert_eq!(plan.outcome, Ok(()));
    let plan = Directory::new("gone").delete_from_fs(None);
    assert!(plan.steps.is_empty());
    assert_eq!(plan.outcome, Ok(()));
}

#[test]
fn delete_existing_removes_it() {
    let mut disk = Disk::default();
    let dir = Directory::new("d");
    disk.carry_out(dir.create_on_fs(None)).unwrap();
    let file = File::new("d/f.txt");
    disk.carry_out(file.create_on_fs(None)).unwrap();
    assert_eq!(disk.carry_out(file.delete_from_fs(disk.found(file.path()))), Ok(()));
    assert_eq!(file_exists(&disk, &file), Ok(false));
    assert_eq!(disk.carry_out(dir.delete_from_fs(disk.found(dir.path()))), Ok(()));
    assert_eq!(dir_exists(&disk, &dir), Ok(false));
}

#[test]
fn move_by_rename() {
    let mut disk = Disk::default();
    let file = File::new("from.txt");
    disk.carry_out(file.overwrite(None, "moved")).unwrap();
    let found = disk.found(file.path());
    let moved = disk.relocate(file.move_to("to.txt", found, Vec::new()), true).unwrap();
    assert_eq!(moved.path(), "to.txt");
    assert_eq!(file_exists(&disk, &moved), Ok(true));
    assert_eq!(file_exists(&disk, &File::new("from.txt")), Ok(false));
    assert_eq!(disk.content("to.txt"), Some("moved".to_string()));
}

#[test]
fn move_by_copy_and_delete() {
    let mut disk = Disk::default();
    let file = File::new("from.txt");
    disk.carry_out(file.overwrite(None, "moved")).unwrap();
    let found = disk.found(file.path());
    let relocation = file.move_to("other_volume.txt", found, Vec::new());
    assert_eq!(
        relocation.fallback.steps,
        vec![
            Request::Copy { from: "from.txt".to_string(), to: "other_volume.txt".to_string() },
            Request::RemoveFile { path: "from.txt".to_string() },
        ]
    );
    let moved = disk.relocate(relocation, false).unwrap();
    assert_eq!(file_exists(&disk, &moved), Ok(true));
    assert_eq!(file_exists(&disk, &File::new("from.txt")), Ok(false));
    assert_eq!(disk.content("other_volume.txt"), Some("moved".to_string()));
}

#[test]
fn copy_keeps_both() {
    let mut disk = Disk::default();
    let file = File::new("one.txt");
    disk.carry_out(file.overwrite(None, "same")).unwrap();
    let found = disk.found(file.path());
    let copy = disk.relocate(file.copy_to("two.txt", found, Vec::new()), true).unwrap();
    assert_eq!(copy.path(), "two.txt");
    assert_eq!(file_exists(&disk, &file), Ok(true));
    assert_eq!(file_exists(&disk, &copy), Ok(true));
    assert_eq!(disk.content("one.txt"), disk.content("two.txt"));
}

#[test]
fn recursive_create_then_delete() {
    let mut disk = Disk::default();
    let dir1 = Directory::new("many");
    let dir2 = Directory::new("many/parent");
    let dir3 = Directory::new("many/parent/dirs");
    let file = File::new("many/parent/dirs/file");
    assert_eq!(disk.carry_out(file.delete_from_fs_recursive(disk.found(file.path()))), Ok(()));
    assert_eq!(disk.carry_out(file.create_on_fs(disk.found(file.path()))), Err(FSError::NonExistent));
    assert_eq!(disk.carry_out(file.create_on_fs_recursive(disk.found(file.path()))), Ok(()));
    assert_eq!(dir_exists(&disk, &dir1), Ok(true));
    assert_eq!(dir_exists(&disk, &dir2), Ok(true));
    assert_eq!(dir_exists(&disk, &dir3), Ok(true));
    assert_eq!(file_exists(&disk, &file), Ok(true));
    assert_eq!(disk.carry_out(file.delete_from_fs_recursive(disk.found(file.path()))), Ok(()));
    assert_eq!(file_exists(&disk, &file), Ok(false));
    assert_eq!(dir_exists(&disk, &dir3), Ok(true));
}

#[test]
fn nested_file_created_with_its_ancestors() {
    let mut disk = Disk::default();
    let file = File::new("a/b/c.txt");
    let plan = file.create_on_fs_recursive(disk.found(file.path()));
    assert_eq!(
        plan.steps,
        vec![
            Request::CreateDirAll { path: "a/b".to_string() },
            Request::WriteFile { path: "a/b/c.txt".to_string(), content: String::new(), append: false },
        ]
    );
    assert_eq!(disk.carry_out(plan), Ok(()));
    assert_eq!(disk.found("a"), Some(ObjectType::Directory));
    assert_eq!(disk.found("a/b"), Some(ObjectType::Directory));
    assert_eq!(disk.content("a/b/c.txt"), Some(String::new()));
}

#[test]
fn recursive_create_parent_of_root_and_bare_name() {
    let plan = File::new("/").create_on_fs_recursive(None);
    assert_eq!(plan.steps[0], Request::CreateDirAll { path: "/".to_string() });
    let plan = File::new("top.txt").create_on_fs_recursive(None);
    assert_eq!(plan.steps[0], Request::CreateDirAll { path: String::new() });
}

#[test]
fn directory_recursive_operations() {
    let mut disk = Disk::default();
    let dir = Directory::new("x/y");
    assert_eq!(disk.carry_out(dir.create_on_fs(None)), Err(FSError::NonExistent));
    assert_eq!(disk.carry_out(dir.create_on_fs_recursive(None)), Ok(()));
    assert_eq!(dir_exists(&disk, &Directory::new("x")), Ok(true));
    disk.carry_out(File::new("x/y/z.txt").create_on_fs(None)).unwrap();
    assert_eq!(dir.exists_and_is_empty(disk.found(dir.path()), Some(1)), Ok(false));
    let top = Directory::new("x");
    assert!(disk.carry_out(top.delete_from_fs(disk.found("x"))).is_err());
    assert_eq!(disk.carry_out(top.delete_from_fs_recursive(disk.found("x"))), Ok(()));
    assert_eq!(disk.found("x/y/z.txt"), None);
    assert_eq!(dir_exists(&disk, &top), Ok(false));
}

#[test]
fn exists_and_is_empty_cases() {
    let file = File::new("f");
    assert_eq!(file.exists_and_is_empty(None, None), Ok(false));
    assert_eq!(file.exists_and_is_empty(Some(ObjectType::File), Some(3)), Ok(false));
    assert_eq!(file.exists_and_is_empty(Some(ObjectType::File), None), Ok(false));
    let dir = Directory::new("d");
    assert_eq!(dir.exists_and_is_empty(Some(ObjectType::Directory), Some(0)), Ok(true));
    assert_eq!(dir.exists_and_is_empty(Some(ObjectType::Directory), None), Ok(false));
    assert_eq!(
        dir.exists_and_is_empty(Some(ObjectType::File), Some(0)),
        Err(FSError::TypeMismatch(ObjectType::File))
    );
}

#[test]
fn size_is_zero_without_metadata() {
    let file = File::new("f");
    assert_eq!(file.size(None), 0);
    assert_eq!(file.size(Some(42)), 42);
}

#[test]
fn io_errors_map_to_fs_errors() {
    assert_eq!(FSError::from_io(IoErrorKind::AlreadyExists), FSError::AlreadyExists);
    assert_eq!(FSError::from_io(IoErrorKind::NotFound), FSError::NonExistent);
    assert_eq!(FSError::from_io(IoErrorKind::PermissionDenied), FSError::PermissionDenied);
    assert_eq!(FSError::from_io(IoErrorKind::IsADirectory), FSError::TypeMismatch(ObjectType::Directory));
    assert_eq!(
        FSError::from_io(IoErrorKind::Other("timed out".to_string())),
        FSError::Unknown("timed out".to_string())
    );
}

#[test]
fn classify_and_name_object_types() {
    assert_eq!(ObjectType::classify(true, true, false, false), ObjectType::File);
    assert_eq!(ObjectType::classify(true, false, true, false), ObjectType::Directory);
    assert_eq!(ObjectType::classify(true, false, false, true), ObjectType::SymbolicLink);
    assert_eq!(ObjectType::classify(false, false, false, false), ObjectType::Unknown);
    assert_eq!(ObjectType::classify(true, false, false, false), ObjectType::Unknown);
    assert_eq!(ObjectType::File.name(), "file");
    assert_eq!(ObjectType::Directory.name(), "directory");
    assert_eq!(ObjectType::SymbolicLink.name(), "symbolic link");
    assert_eq!(ObjectType::Unknown.name(), "unknown object");
    assert_eq!(File::object_type(), ObjectType::File);
    assert_eq!(Directory::object_type(), ObjectType::Directory);
}

fn directory_tree(disk: &mut Disk) {
    disk.carry_out(Directory::new("src/sub").create_on_fs_recursive(None)).unwrap();
    disk.carry_out(File::new("src/a.txt").overwrite(None, "alpha")).unwrap();
    disk.carry_out(File::new("src/sub/b.txt").overwrite(None, "beta")).unwrap();
}

#[test]
fn directory_copy_duplicates_the_tree() {
    let mut disk = Disk::default();
    directory_tree(&mut disk);
    let dir = Directory::new("src");
    let entries = disk.listing("src");
    let found = disk.found(dir.path());
    let relocation = dir.copy_to("dst", found, entries);
    assert_eq!(
        relocation.fallback.steps,
        vec![
            Request::CreateDir { path: "dst".to_string() },
            Request::Copy { from: "src/a.txt".to_string(), to: "dst/a.txt".to_string() },
            Request::CreateDir { path: "dst/sub".to_string() },
            Request::Copy { from: "src/sub/b.txt".to_string(), to: "dst/sub/b.txt".to_string() },
        ]
    );
    let copy = disk.relocate(relocation, true).unwrap();
    assert_eq!(copy.path(), "dst");
    assert_eq!(dir_exists(&disk, &copy), Ok(true));
    assert_eq!(dir_exists(&disk, &dir), Ok(true));
    assert_eq!(disk.content("dst/a.txt"), Some("alpha".to_string()));
    assert_eq!(disk.content("dst/sub/b.txt"), Some("beta".to_string()));
    assert_eq!(disk.content("src/sub/b.txt"), Some("beta".to_string()));
}

#[test]
fn directory_move_by_copy_and_delete() {
    let mut disk = Disk::default();
    directory_tree(&mut disk);
    let dir = Directory::new("src");
    let found = disk.found(dir.path());
    let entries = disk.listing("src");
    let relocation = dir.move_to("elsewhere", found, entries);
    assert_eq!(relocation.fallback.steps.last(), Some(&Request::RemoveDirAll { path: "src".to_string() }));
    let moved = disk.relocate(relocation, false).unwrap();
    assert_eq!(dir_exists(&disk, &moved), Ok(true));
    assert_eq!(dir_exists(&disk, &Directory::new("src")), Ok(false));
    assert_eq!(disk.found("src/sub/b.txt"), None);
    assert_eq!(disk.content("elsewhere/a.txt"), Some("alpha".to_string()));
    assert_eq!(disk.content("elsewhere/sub/b.txt"), Some("beta".to_string()));
}

#[test]
fn directory_move_by_rename() {
    let mut disk = Disk::default();
    directory_tree(&mut disk);
    let dir = Directory::new("src");
    let found = disk.found(dir.path());
    let entries = disk.listing("src");
    let moved = disk.relocate(dir.move_to("renamed", found, entries), true).unwrap();
    assert_eq!(dir_exists(&disk, &moved), Ok(true));
    assert_eq!(dir_exists(&disk, &Directory::new("src")), Ok(false));
    assert_eq!(disk.content("renamed/sub/b.txt"), Some("beta".to_string()));
}

#[test]
fn move_or_copy_of_absent_directory_fails() {
    let mut disk = Disk::default();
    let dir = Directory::new("nowhere");
    let relocation = dir.copy_to("dst", None, Vec::new());
    assert!(relocation.attempt.is_none());
    assert!(relocation.fallback.steps.is_empty());
    assert_eq!(disk.relocate(relocation, true).map(|_| ()), Err(FSError::NonExistent));
    let relocation = Directory::new("nowhere").move_to("dst", None, Vec::new());
    assert!(relocation.attempt.is_none());
    assert_eq!(disk.relocate(relocation, true).map(|_| ()), Err(FSError::NonExistent));
    assert_eq!(disk.found("dst"), None);
}

#[test]
fn move_of_wrong_kind_fails() {
    let mut disk = Disk::default();
    disk.carry_out(Directory::new("d").create_on_fs(None)).unwrap();
    let relocation = File::new("d").move_to("e", disk.found("d"), Vec::new());
    assert!(relocation.attempt.is_none());
    assert_eq!(disk.relocate(relocation, true).map(|_| ()), Err(FSError::TypeMismatch(ObjectType::Directory)));
    assert_eq!(disk.found("d"), Some(ObjectType::Directory));
    assert_eq!(disk.found("e"), None);
    let relocation = Directory::new("f.txt").copy_to("g", Some(ObjectType::File), Vec::new());
    assert_eq!(relocation.fallback.outcome, Err(FSError::TypeMismatch(ObjectType::File)));
    assert!(relocation.fallback.steps.is_empty());
}

#[test]
fn plan_advances_request_by_request() {
    let plan = File::new("x/y.txt").create_on_fs_recursive(None);
    assert_eq!(plan.advance(0, None), Progress::Perform(0));
    assert_eq!(plan.advance(1, None), Progress::Perform(1));
    assert_eq!(plan.advance(2, None), Progress::Done);
    assert_eq!(plan.advance(1, Some(IoErrorKind::NotFound)), Progress::Failed(FSError::NonExistent));
}

#[test]
fn fallback_only_after_a_refused_rename() {
    let relocation = File::new("a").move_to("b", Some(ObjectType::File), Vec::new());
    assert!(!relocation.fallback_needed(true));
    assert!(relocation.fallback_needed(false));
    let copy = File::new("a").copy_to("b", Some(ObjectType::File), Vec::new());
    assert!(copy.fallback_needed(true));
}
