//! Primitive filesystem requests and plans made of them.
use vstd::prelude::*;
use crate::fs::{FSError, FSResult, IoErrorKind};

verus! {

/// One primitive request to the filesystem, performed by the caller of the
/// library.
#[derive(Debug, Clone, PartialEq, Eq)]
pub enum Request {
    /// Open `path` for writing, creating it if absent, and write `content`:
    /// after the old content when `append`, in place of it otherwise.
    WriteFile { path: String, content: String, append: bool },
    /// Create exactly the directory `path`.
    CreateDir { path: String },
    /// Create the directory `path` and every missing ancestor.
    CreateDirAll { path: String },
    /// Remove the file `path`.
    RemoveFile { path: String },
    /// Remove the empty directory `path`.
    RemoveDir { path: String },
    /// Remove the directory `path` with everything below it.
    RemoveDirAll { path: String },
    /// Rename `from` to `to` in one step.
    Rename { from: String, to: String },
    /// Copy the content of `from` to `to`.
    Copy { from: String, to: String },
}

/// What a [`Request`] asks for, with paths and contents as sequences of
/// characters.
pub ghost enum Action {
    WriteFile { path: Seq<char>, content: Seq<char>, append: bool },
    CreateDir { path: Seq<char> },
    CreateDirAll { path: Seq<char> },
    RemoveFile { path: Seq<char> },
    RemoveDir { path: Seq<char> },
    RemoveDirAll { path: Seq<char> },
    Rename { from: Seq<char>, to: Seq<char> },
    Copy { from: Seq<char>, to: Seq<char> },
}

impl View for Request {
    type V = Action;

    open spec fn view(&self) -> Action {
        match self {
            Request::WriteFile { path, content, append } => Action::WriteFile {
                path: path@,
                content: content@,
                append: *append,
            },
            Request::CreateDir { path } => Action::CreateDir { path: path@ },
            Request::CreateDirAll { path } => Action::CreateDirAll { path: path@ },
            Request::RemoveFile { path } => Action::RemoveFile { path: path@ },
            Request::RemoveDir { path } => Action::RemoveDir { path: path@ },
            Request::RemoveDirAll { path } => Action::RemoveDirAll { path: path@ },
            Request::Rename { from, to } => Action::Rename { from: from@, to: to@ },
            Request::Copy { from, to } => Action::Copy { from: from@, to: to@ },
        }
    }
}

/// Requests to perform in order. When all of them succeed the operation ends
/// with `outcome`; the first one that fails ends it with that failure.
#[derive(Debug, PartialEq, Eq)]
pub struct Plan {
    pub steps: Vec<Request>,
    pub outcome: FSResult<()>,
}

/// The actions of a sequence of requests.
pub open spec fn actions(steps: Seq<Request>) -> Seq<Action> {
    steps.map_values(|r: Request| r@)
}

impl View for Plan {
    type V = (Seq<Action>, FSResult<()>);

    open spec fn view(&self) -> (Seq<Action>, FSResult<()>) {
        (actions(self.steps@), self.outcome)
    }
}

/// A move or a copy: `attempt`, where there is one, is tried first, and when it
/// succeeds the operation is done. Otherwise `fallback` is carried out. Either
/// way a success ends with `result`, the object at its new place.
pub struct Relocation<T> {
    pub attempt: Option<Request>,
    pub fallback: Plan,
    pub result: T,
}

impl Plan {
    /// The actions of this plan's requests.
    pub open spec fn actions(&self) -> Seq<Action> {
        actions(self.steps@)
    }

    /// A plan with nothing to perform, ending with `outcome`.
    pub fn finished(outcome: FSResult<()>) -> (r: Plan)
        ensures
            r.actions() == Seq::<Action>::empty(),
            r.outcome == outcome,
    {
        let r = Plan { steps: Vec::new(), outcome };
        assert(r.actions() =~= Seq::<Action>::empty());
        r
    }

    /// A plan that performs `request` and then succeeds.
    pub fn single(request: Request) -> (r: Plan)
        ensures
            r.actions() == seq![request@],
            r.outcome == FSResult::<()>::Ok(()),
    {
        let ghost a = request@;
        let mut steps: Vec<Request> = Vec::new();
        steps.push(request);
        let r = Plan { steps, outcome: Ok(()) };
        assert(r.actions() =~= seq![a]);
        r
    }

    /// This plan with `request` performed before all of its own requests.
    pub fn after(self, request: Request) -> (r: Plan)
        ensures
            r.actions() == seq![request@] + self.actions(),
            r.outcome == self.outcome,
    {
        let ghost a = request@;
        let mut steps: Vec<Request> = Vec::new();
        steps.push(request);
        let mut rest = self.steps;
        steps.append(&mut rest);
        let r = Plan { steps, outcome: self.outcome };
        assert(r.actions() =~= seq![a] + self.actions());
        r
    }
}

/// Where carrying out a plan stands.
#[derive(Debug, PartialEq, Eq)]
pub enum Progress {
    /// Perform the request at this index next.
    Perform(usize),
    /// A request failed: the plan ends with this error.
    Failed(FSError),
    /// Every request succeeded: the plan ends with its outcome.
    Done,
}

impl Plan {
    /// What comes next once the first `performed` requests have succeeded and
    /// the one after them, where `failure` is given, failed with that kind.
    pub fn advance(&self, performed: usize, failure: Option<IoErrorKind>) -> (r: Progress)
        ensures
            r == match failure {
                Some(kind) => Progress::Failed(FSError::from_io_spec(kind)),
                None => if performed < self.steps@.len() {
                    Progress::Perform(performed)
                } else {
                    Progress::Done
                },
            },
    {
        match failure {
            Some(kind) => Progress::Failed(FSError::from_io(kind)),
            None => if performed < self.steps.len() {
                Progress::Perform(performed)
            } else {
                Progress::Done
            },
        }
    }
}

impl<T> Relocation<T> {
    /// Whether the fallback is to be carried out, given whether the attempt,
    /// where there is one, succeeded.
    pub fn fallback_needed(&self, attempt_succeeded: bool) -> (r: bool)
        ensures
            r == (self.attempt is None || !attempt_succeeded),
    {
        match &self.attempt {
            None => true,
            Some(_) => !attempt_succeeded,
        }
    }
}

} // verus!
