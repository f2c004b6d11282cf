//! One import as a state machine.
//!
//! The caller performs each returned [`Action`] and reports its outcome as the
//! next [`Event`]. The import creates the assets directory, checks each source
//! path in order, copies those that are regular files, runs the importer tool
//! in the project directory, and finishes with a summary or the first error.
use vstd::prelude::*;
use vstd::string::StringExecFns;
use crate::paths::{assets_dir, assets_dir_spec, destination_of, destination_spec, file_name_of};
use crate::text::{import_message, import_message_spec};

verus! {

/// Why an import stopped. Each holds the description of the underlying failure.
#[derive(Debug)]
pub enum ImportError {
    /// The assets directory could not be created.
    Directory(String),
    /// A file could not be copied.
    Copy(String),
    /// The importer tool could not be started.
    Launch(String),
}

/// The model of an [`ImportError`].
pub enum ImportFailure {
    Directory(Seq<char>),
    Copy(Seq<char>),
    Launch(Seq<char>),
}

impl View for ImportError {
    type V = ImportFailure;

    open spec fn view(&self) -> ImportFailure {
        match self {
            ImportError::Directory(m) => ImportFailure::Directory(m@),
            ImportError::Copy(m) => ImportFailure::Copy(m@),
            ImportError::Launch(m) => ImportFailure::Launch(m@),
        }
    }
}

impl ImportFailure {
    pub open spec fn message(self) -> Seq<char> {
        match self {
            ImportFailure::Directory(m) => m,
            ImportFailure::Copy(m) => m,
            ImportFailure::Launch(m) => m,
        }
    }
}

impl ImportError {
    /// The description of the underlying failure.
    pub fn message(&self) -> (r: String)
        ensures
            r@ == self@.message(),
    {
        match self {
            ImportError::Directory(m) => m.clone(),
            ImportError::Copy(m) => m.clone(),
            ImportError::Launch(m) => m.clone(),
        }
    }
}

/// Work for the caller to perform.
#[derive(Debug)]
pub enum Action {
    /// Create this directory and any missing parents.
    CreateDir(String),
    /// Find out whether this path is a regular file (following links).
    CheckFile(String),
    /// Copy the file at `from` to `to`, replacing what is there.
    CopyFile { from: String, to: String },
    /// Run `program` with `args` in the directory `cwd` and wait for it.
    RunImporter { program: String, args: Vec<String>, cwd: String },
    /// The import is over with this result.
    Finish(Result<String, ImportError>),
}

/// The model of an [`Action`].
pub enum ActionModel {
    CreateDir(Seq<char>),
    CheckFile(Seq<char>),
    CopyFile(Seq<char>, Seq<char>),
    RunImporter(Seq<char>, Seq<Seq<char>>, Seq<char>),
    Finish(Result<Seq<char>, ImportFailure>),
}

impl View for Action {
    type V = ActionModel;

    open spec fn view(&self) -> ActionModel {
        match self {
            Action::CreateDir(p) => ActionModel::CreateDir(p@),
            Action::CheckFile(p) => ActionModel::CheckFile(p@),
            Action::CopyFile { from, to } => ActionModel::CopyFile(from@, to@),
            Action::RunImporter { program, args, cwd } => ActionModel::RunImporter(
                program@,
                args@.map_values(|a: String| a@),
                cwd@,
            ),
            Action::Finish(Ok(m)) => ActionModel::Finish(Ok(m@)),
            Action::Finish(Err(e)) => ActionModel::Finish(Err(e@)),
        }
    }
}

/// The outcome of the last action, reported by the caller.
#[derive(Debug)]
pub enum Event {
    /// Nothing has been done yet.
    Start,
    /// The outcome of [`Action::CreateDir`].
    DirCreated(Result<(), String>),
    /// The outcome of [`Action::CheckFile`]: whether the path is a regular file.
    Checked(bool),
    /// The outcome of [`Action::CopyFile`].
    Copied(Result<(), String>),
    /// Whether [`Action::RunImporter`] could start the program. What the
    /// program itself did is not looked at.
    Launched(Result<(), String>),
}

/// Where an import stands.
#[derive(PartialEq, Eq, Structural, Clone, Copy, Debug)]
pub enum Stage {
    /// Waiting for [`Event::Start`].
    Ready,
    /// Waiting for the assets directory.
    CreatingDir,
    /// Waiting to learn whether the source path at this index is a file.
    Checking(usize),
    /// Waiting for the copy of the source path at this index.
    Copying(usize),
    /// Waiting for the importer tool to start.
    Launching,
    /// Over: no event is taken any more.
    Done,
}

/// The model of an [`AssetImport`].
pub struct ImportState {
    pub paths: Seq<Seq<char>>,
    pub project_dir: Seq<char>,
    pub stage: Stage,
}

/// An import of `paths` into the project at `project_dir`.
pub struct AssetImport {
    paths: Vec<String>,
    project_dir: String,
    assets_dir: String,
    stage: Stage,
}

impl View for AssetImport {
    type V = ImportState;

    closed spec fn view(&self) -> ImportState {
        ImportState {
            paths: self.paths@.map_values(|p: String| p@),
            project_dir: self.project_dir@,
            stage: self.stage,
        }
    }
}

/// The program that finishes an import.
pub open spec fn importer_program() -> Seq<char> {
    "kenga"@
}

/// The arguments the importer program is given for the project at `project_dir`.
pub open spec fn importer_args(project_dir: Seq<char>) -> Seq<Seq<char>> {
    seq!["import"@, "--project"@, project_dir]
}

/// The stage indices of `st` lie within its paths.
pub open spec fn well_formed(st: ImportState) -> bool {
    match st.stage {
        Stage::Checking(i) => i < st.paths.len(),
        Stage::Copying(i) => i < st.paths.len(),
        _ => true,
    }
}

/// Whether an import at `stage` takes the event `e`.
pub open spec fn takes(stage: Stage, e: Event) -> bool {
    match (stage, e) {
        (Stage::Ready, Event::Start) => true,
        (Stage::CreatingDir, Event::DirCreated(_)) => true,
        (Stage::Checking(_), Event::Checked(_)) => true,
        (Stage::Copying(_), Event::Copied(_)) => true,
        (Stage::Launching, Event::Launched(_)) => true,
        _ => false,
    }
}

/// The stage and action that come when the entries from index `i` on are
/// still to be checked.
pub open spec fn check_from(st: ImportState, i: nat) -> (Stage, ActionModel) {
    if i < st.paths.len() {
        (Stage::Checking(i as usize), ActionModel::CheckFile(st.paths[i as int]))
    } else {
        (
            Stage::Launching,
            ActionModel::RunImporter(
                importer_program(),
                importer_args(st.project_dir),
                st.project_dir,
            ),
        )
    }
}

/// The stage and action that follow the event `e` in the import `st`.
pub open spec fn step(st: ImportState, e: Event) -> (Stage, ActionModel) {
    match (st.stage, e) {
        (Stage::Ready, Event::Start) => (
            Stage::CreatingDir,
            ActionModel::CreateDir(assets_dir_spec(st.project_dir)),
        ),
        (Stage::CreatingDir, Event::DirCreated(Err(m))) => (
            Stage::Done,
            ActionModel::Finish(Err(ImportFailure::Directory(m@))),
        ),
        (Stage::CreatingDir, Event::DirCreated(Ok(_))) => check_from(st, 0),
        (Stage::Checking(i), Event::Checked(false)) => check_from(st, i as nat + 1),
        (Stage::Checking(i), Event::Checked(true)) => (
            Stage::Copying(i),
            ActionModel::CopyFile(
                st.paths[i as int],
                destination_spec(
                    assets_dir_spec(st.project_dir),
                    file_name_of(st.paths[i as int]),
                ),
            ),
        ),
        (Stage::Copying(_), Event::Copied(Err(m))) => (
            Stage::Done,
            ActionModel::Finish(Err(ImportFailure::Copy(m@))),
        ),
        (Stage::Copying(i), Event::Copied(Ok(_))) => check_from(st, i as nat + 1),
        (Stage::Launching, Event::Launched(Err(m))) => (
            Stage::Done,
            ActionModel::Finish(Err(ImportFailure::Launch(m@))),
        ),
        (Stage::Launching, Event::Launched(Ok(_))) => (
            Stage::Done,
            ActionModel::Finish(Ok(import_message_spec(st.paths.len()))),
        ),
        // An event the stage does not take: `next` never sees one.
        _ => (st.stage, ActionModel::Finish(Ok(Seq::empty()))),
    }
}

/// A new import of `paths` into the project at `project_dir`.
pub open spec fn fresh(paths: Seq<Seq<char>>, project_dir: Seq<char>) -> ImportState {
    ImportState { paths, project_dir, stage: Stage::Ready }
}

/// The import `st` after it has taken `e`.
pub open spec fn after(st: ImportState, e: Event) -> ImportState {
    ImportState { stage: step(st, e).0, ..st }
}

/// The import `st` takes each of `events` in turn.
pub open spec fn runs(st: ImportState, events: Seq<Event>) -> bool
    decreases events.len(),
{
    if events.len() == 0 {
        true
    } else {
        takes(st.stage, events[0]) && runs(after(st, events[0]), events.drop_first())
    }
}

/// The actions the import `st` returns as it takes each of `events` in turn.
pub open spec fn actions(st: ImportState, events: Seq<Event>) -> Seq<ActionModel>
    decreases events.len(),
{
    if events.len() == 0 {
        Seq::empty()
    } else {
        seq![step(st, events[0]).1] + actions(after(st, events[0]), events.drop_first())
    }
}

impl AssetImport {
    /// The import is well formed and knows its assets directory.
    pub closed spec fn wf(&self) -> bool {
        &&& well_formed(self@)
        &&& self.assets_dir@ == assets_dir_spec(self.project_dir@)
    }

    /// Moves to the check of the entry at `i`, or to the importer tool when
    /// every entry has been handled.
    fn check_from(&mut self, i: usize) -> (r: Action)
        requires
            old(self).wf(),
            i <= old(self).paths.len(),
        ensures
            final(self).wf(),
            final(self).paths == old(self).paths,
            final(self).project_dir == old(self).project_dir,
            (final(self)@.stage, r@) == check_from(old(self)@, i as nat),
    {
        if i < self.paths.len() {
            self.stage = Stage::Checking(i);
            Action::CheckFile(self.paths[i].clone())
        } else {
            self.stage = Stage::Launching;
            let mut args: Vec<String> = Vec::new();
            args.push(String::from_str("import"));
            args.push(String::from_str("--project"));
            args.push(self.project_dir.clone());
            proof {
                reveal_strlit("kenga");
                reveal_strlit("import");
                reveal_strlit("--project");
                assert(args@.map_values(|a: String| a@) =~= importer_args(self.project_dir@));
            }
            Action::RunImporter {
                program: String::from_str("kenga"),
                args,
                cwd: self.project_dir.clone(),
            }
        }
    }

    /// Takes the outcome `e` of the last action and returns the next action.
    pub fn next(&mut self, e: Event) -> (r: Action)
        requires
            old(self).wf(),
            takes(old(self)@.stage, e),
        ensures
            final(self).wf(),
            final(self)@.paths == old(self)@.paths,
            final(self)@.project_dir == old(self)@.project_dir,
            (final(self)@.stage, r@) == step(old(self)@, e),
    {
        match e {
            Event::Start => {
                self.stage = Stage::CreatingDir;
                Action::CreateDir(self.assets_dir.clone())
            },
            Event::DirCreated(Err(m)) => {
                self.stage = Stage::Done;
                Action::Finish(Err(ImportError::Directory(m)))
            },
            Event::DirCreated(Ok(())) => self.check_from(0),
            Event::Checked(is_file) => {
                let i = match self.stage {
                    Stage::Checking(i) => i,
                    _ => 0,
                };
                assert(self@.paths.len() == self.paths.len());
                if is_file {
                    self.stage = Stage::Copying(i);
                    let to = destination_of(self.assets_dir.as_str(), self.paths[i].as_str());
                    Action::CopyFile { from: self.paths[i].clone(), to }
                } else {
                    self.check_from(i + 1)
                }
            },
            Event::Copied(Err(m)) => {
                self.stage = Stage::Done;
                Action::Finish(Err(ImportError::Copy(m)))
            },
            Event::Copied(Ok(())) => {
                let i = match self.stage {
                    Stage::Copying(i) => i,
                    _ => 0,
                };
                assert(self@.paths.len() == self.paths.len());
                self.check_from(i + 1)
            },
            Event::Launched(Err(m)) => {
                self.stage = Stage::Done;
                Action::Finish(Err(ImportError::Launch(m)))
            },
            Event::Launched(Ok(())) => {
                self.stage = Stage::Done;
                Action::Finish(Ok(import_message(self.paths.len())))
            },
        }
    }

    /// A new import of `paths` into the project at `project_dir`, at
    /// [`Stage::Ready`].
    pub fn new(paths: Vec<String>, project_dir: String) -> (r: AssetImport)
        ensures
            r@.paths == paths@.map_values(|p: String| p@),
            r@.project_dir == project_dir@,
            r@.stage == Stage::Ready,
            r.wf(),
    {
        let assets_dir = assets_dir(project_dir.as_str());
        AssetImport { paths, project_dir, assets_dir, stage: Stage::Ready }
    }

    /// Where the import stands.
    pub fn stage(&self) -> (r: Stage)
        ensures
            r == self@.stage,
    {
        self.stage
    }

    /// Whether the import takes `e` now.
    pub fn takes(&self, e: &Event) -> (r: bool)
        ensures
            r == takes(self@.stage, *e),
    {
        match (self.stage, e) {
            (Stage::Ready, Event::Start) => true,
            (Stage::CreatingDir, Event::DirCreated(_)) => true,
            (Stage::Checking(_), Event::Checked(_)) => true,
            (Stage::Copying(_), Event::Copied(_)) => true,
            (Stage::Launching, Event::Launched(_)) => true,
            _ => false,
        }
    }
}

} // verus!
