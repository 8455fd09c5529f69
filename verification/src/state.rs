//! The durable record of the host's registration, and the way it is found
//! and written among several candidate files.
//!
//! Reading and writing files is the program's part.  This module holds the
//! order in which the candidates are tried, what each outcome leads to, the
//! stages of one atomic write and the error that a failure at each stage
//! gives.

use crate::host::{
    extension_replaced, joined_path, now_rfc3339, parent_path, path_join, path_parent,
    path_with_extension, user_config_dir,
};
use crate::metadata::{InstanceMetadata, SessionInfo};
use crate::progress::Progress;
use crate::text::{concat2, concat4, owned, text_of};
use vstd::prelude::*;

verus! {

/// The file of a system service, tried first.
pub const SERVICE_STATE_FILE: &'static str = "/var/lib/operion/resource-state.json";

/// The system-wide file of earlier versions, tried second.
pub const LEGACY_STATE_FILE: &'static str = "/etc/operion/resource-state.json";

/// The permissions of a state file: its owner may read and write it.
pub const STATE_FILE_MODE: u32 = 0o600;

/// The directory of the agent below a configuration directory.
pub const STATE_DIRECTORY: &'static str = "operion";

/// The name of a state file.
pub const STATE_FILE_NAME: &'static str = "resource-state.json";

/// Where a user without a configuration directory keeps the state: below
/// the current directory.
pub const CURRENT_DIRECTORY: &'static str = ".";

/// Why a plan whose temporary file is its target is not written.
pub const NOT_APART: &'static str = "The temporary file would be the state file itself";

/// The time of registration of a state that was made while the clock showed
/// no time: the Unix epoch.
pub const EPOCH_TIMESTAMP: &'static str = "1970-01-01T00:00:00+00:00";

/// Represents the persisted state of a registered resource.
#[derive(Debug, PartialEq, Eq)]
pub struct ResourceState {
    /// The resource ID assigned by the platform.
    pub resource_id: String,
    /// ISO 8601 timestamp of when the resource was registered.
    pub registered_at: String,
    /// The agent version that performed the registration.
    pub agent_version: String,
    /// Cloud instance metadata from registration.
    pub instance_metadata: InstanceMetadata,
    /// Session info from when the agent started.
    pub session: SessionInfo,
}

impl Clone for ResourceState {
    fn clone(&self) -> (out: Self)
        ensures
            out == *self,
    {
        ResourceState {
            resource_id: self.resource_id.clone(),
            registered_at: self.registered_at.clone(),
            agent_version: self.agent_version.clone(),
            instance_metadata: self.instance_metadata.clone(),
            session: self.session,
        }
    }
}

/// Errors that can occur when working with resource state.
#[derive(Debug)]
pub enum StateError {
    ReadError { path: String, error: String },
    ParseError { path: String, error: String },
    WriteError { path: String, error: String },
    CreateDirectoryError { path: String, error: String },
    PermissionError { path: String, error: String },
    SerializeError(String),
}

impl StateError {
    /// The text that describes the error.
    pub open spec fn message_text(self) -> Seq<char> {
        match self {
            StateError::ReadError { path, error } => "Failed to read state file at "@ + path@
                + ": "@ + error@,
            StateError::ParseError { path, error } => "Failed to parse state file at "@ + path@
                + ": "@ + error@,
            StateError::WriteError { path, error } => "Failed to write state file at "@ + path@
                + ": "@ + error@,
            StateError::CreateDirectoryError { path, error } => "Failed to create directory "@
                + path@ + ": "@ + error@,
            StateError::PermissionError { path, error } => "Failed to set permissions on "@ + path@
                + ": "@ + error@,
            StateError::SerializeError(detail) => "Failed to serialize state: "@ + detail@,
        }
    }

    /// Describes the error in words.
    pub fn message(&self) -> (out: String)
        ensures
            out@ == self.message_text(),
    {
        match self {
            StateError::ReadError { path, error } => concat4(
                "Failed to read state file at ",
                path.as_str(),
                ": ",
                error.as_str(),
            ),
            StateError::ParseError { path, error } => concat4(
                "Failed to parse state file at ",
                path.as_str(),
                ": ",
                error.as_str(),
            ),
            StateError::WriteError { path, error } => concat4(
                "Failed to write state file at ",
                path.as_str(),
                ": ",
                error.as_str(),
            ),
            StateError::CreateDirectoryError { path, error } => concat4(
                "Failed to create directory ",
                path.as_str(),
                ": ",
                error.as_str(),
            ),
            StateError::PermissionError { path, error } => concat4(
                "Failed to set permissions on ",
                path.as_str(),
                ": ",
                error.as_str(),
            ),
            StateError::SerializeError(detail) => concat2(
                "Failed to serialize state: ",
                detail.as_str(),
            ),
        }
    }
}

/// The files of a machine as far as a write is concerned: the text that
/// each path holds.
pub type Files = Map<Seq<char>, Seq<char>>;

/// The stages of writing one state file, in their order.  The text goes to
/// a temporary file beside the target and is moved over the target only
/// when it is complete and on disk, so that no reader meets a file that is
/// written in part.
#[derive(Debug, Clone, Copy, PartialEq, Eq, Structural)]
pub enum WriteStage {
    /// Create the directory of the target and what is missing above it.
    CreateDirectory,
    /// Create the temporary file, empty.
    CreateTemporary,
    /// Write the text to the temporary file.
    WriteContents,
    /// Flush the temporary file to disk.
    Sync,
    /// Move the temporary file over the target, atomically.
    Rename,
    /// Restrict the target to `STATE_FILE_MODE`.
    RestrictPermissions,
}

/// The paths that one write works on.
#[derive(Debug)]
pub struct WritePlan {
    /// The directory of the target, where it has one.
    pub directory: Option<String>,
    /// The file that the text is written to first.
    pub temporary: String,
    /// The file that is to hold the text in the end.
    pub target: String,
}

impl WriteStage {
    /// The stage that follows `self`, if any.
    pub open spec fn successor(self) -> Option<WriteStage> {
        match self {
            WriteStage::CreateDirectory => Some(WriteStage::CreateTemporary),
            WriteStage::CreateTemporary => Some(WriteStage::WriteContents),
            WriteStage::WriteContents => Some(WriteStage::Sync),
            WriteStage::Sync => Some(WriteStage::Rename),
            WriteStage::Rename => Some(WriteStage::RestrictPermissions),
            WriteStage::RestrictPermissions => None,
        }
    }

    /// The place of the stage in the order of the stages.
    pub open spec fn position(self) -> nat {
        match self {
            WriteStage::CreateDirectory => 0,
            WriteStage::CreateTemporary => 1,
            WriteStage::WriteContents => 2,
            WriteStage::Sync => 3,
            WriteStage::Rename => 4,
            WriteStage::RestrictPermissions => 5,
        }
    }

    pub fn next(self) -> (next: Option<WriteStage>)
        ensures
            next == self.successor(),
    {
        match self {
            WriteStage::CreateDirectory => Some(WriteStage::CreateTemporary),
            WriteStage::CreateTemporary => Some(WriteStage::WriteContents),
            WriteStage::WriteContents => Some(WriteStage::Sync),
            WriteStage::Sync => Some(WriteStage::Rename),
            WriteStage::Rename => Some(WriteStage::RestrictPermissions),
            WriteStage::RestrictPermissions => None,
        }
    }
}

impl WritePlan {
    /// The plan for writing `path`: its directory is the parent of the path
    /// and its temporary file is the path with the extension `tmp`.
    pub fn for_path(path: &str) -> (plan: Self)
        ensures
            plan.target@ == path@,
            plan.temporary@ == extension_replaced(path@, "tmp"@),
            match parent_path(path@) {
                Some(parent) => plan.directory is Some && plan.directory->0@ == parent,
                None => plan.directory is None,
            },
    {
        proof {
            reveal_strlit("tmp");
        }
        WritePlan {
            directory: path_parent(path),
            temporary: path_with_extension(path, "tmp"),
            target: owned(path),
        }
    }

    /// Whether the temporary file is another file than the target.  A
    /// write along a plan of which this does not hold would go straight into
    /// the target, and is not begun.
    pub fn keeps_target_apart(&self) -> (apart: bool)
        ensures
            apart == (self.temporary@ != self.target@),
    {
        !(self.temporary == self.target)
    }

    /// The stage that a write begins with: a target without a directory
    /// needs none created.
    pub open spec fn first_stage(self) -> WriteStage {
        if self.directory is Some {
            WriteStage::CreateDirectory
        } else {
            WriteStage::CreateTemporary
        }
    }

    /// The path that a failure at `stage` is reported for: the directory
    /// while it is made, the temporary file while it is filled, the target
    /// from the move on.
    pub open spec fn blamed_path(self, stage: WriteStage) -> String {
        match stage {
            WriteStage::CreateDirectory => match self.directory {
                Some(directory) => directory,
                None => self.target,
            },
            WriteStage::CreateTemporary => self.temporary,
            WriteStage::WriteContents => self.temporary,
            WriteStage::Sync => self.temporary,
            WriteStage::Rename => self.target,
            WriteStage::RestrictPermissions => self.target,
        }
    }

    /// The error of a write that failed at `stage` for `reason`.
    pub open spec fn failure(self, stage: WriteStage, reason: String) -> StateError {
        match stage {
            WriteStage::CreateDirectory => StateError::CreateDirectoryError {
                path: self.blamed_path(stage),
                error: reason,
            },
            WriteStage::RestrictPermissions => StateError::PermissionError {
                path: self.blamed_path(stage),
                error: reason,
            },
            _ => StateError::WriteError { path: self.blamed_path(stage), error: reason },
        }
    }

    /// How a write goes on after `stage` ended in `outcome`.
    pub open spec fn write_next(self, stage: WriteStage, outcome: Result<(), String>) -> Progress<
        WriteStage,
        Result<(), StateError>,
    > {
        match outcome {
            Err(reason) => Progress::Done(Err(self.failure(stage, reason))),
            Ok(_) => match stage.successor() {
                Some(next) => Progress::Continue(next),
                None => Progress::Done(Ok(())),
            },
        }
    }

    /// What the files hold once `stage` of a write of `text` has succeeded.
    /// Only two stages touch what files hold: the text goes into the
    /// temporary file, and the move puts the temporary file in the place of
    /// the target, in one step.
    pub open spec fn after_stage(self, stage: WriteStage, text: Seq<char>, files: Files) -> Files {
        match stage {
            WriteStage::CreateTemporary => files.insert(self.temporary@, Seq::empty()),
            WriteStage::WriteContents => files.insert(self.temporary@, text),
            WriteStage::Rename => if files.contains_key(self.temporary@) {
                files.remove(self.temporary@).insert(self.target@, files[self.temporary@])
            } else {
                files
            },
            _ => files,
        }
    }

    /// What the files may hold once `stage` has failed.  A stage that works
    /// on the temporary file may leave it behind with any content, `debris`,
    /// or leave none; every other stage that fails leaves the files as they
    /// were.
    pub open spec fn after_failure(
        self,
        stage: WriteStage,
        debris: Option<Seq<char>>,
        files: Files,
    ) -> Files {
        match stage {
            WriteStage::CreateTemporary | WriteStage::WriteContents | WriteStage::Sync => {
                match debris {
                    Some(content) => files.insert(self.temporary@, content),
                    None => files.remove(self.temporary@),
                }
            },
            _ => files,
        }
    }

    /// What the files hold after a write of `text` that runs from `stage`
    /// on and fails at `failing`, or, with `failing` empty, succeeds.
    pub open spec fn after_write(
        self,
        stage: WriteStage,
        failing: Option<WriteStage>,
        debris: Option<Seq<char>>,
        text: Seq<char>,
        files: Files,
    ) -> Files
        decreases 6 - stage.position(),
    {
        if failing == Some(stage) {
            self.after_failure(stage, debris, files)
        } else {
            match stage.successor() {
                Some(next) => self.after_write(
                    next,
                    failing,
                    debris,
                    text,
                    self.after_stage(stage, text, files),
                ),
                None => self.after_stage(stage, text, files),
            }
        }
    }

    /// What the files hold after an attempt to write `text` along the plan.
    /// A plan whose temporary file is its target is refused, and nothing is
    /// touched; every other plan is gone through from its first stage.
    pub open spec fn after_attempt(
        self,
        failing: Option<WriteStage>,
        debris: Option<Seq<char>>,
        text: Seq<char>,
        files: Files,
    ) -> Files {
        if self.temporary@ == self.target@ {
            files
        } else {
            self.after_write(self.first_stage(), failing, debris, text, files)
        }
    }

    /// The attempt moves the text into the target: the plan is not refused,
    /// and no stage up to the move fails.
    pub open spec fn moves(self, failing: Option<WriteStage>) -> bool {
        &&& self.temporary@ != self.target@
        &&& (failing is None || failing == Some(WriteStage::RestrictPermissions)
            || failing->0.position() < self.first_stage().position())
    }

    fn blame(&self, stage: WriteStage) -> (path: String)
        ensures
            path == self.blamed_path(stage),
    {
        match stage {
            WriteStage::CreateDirectory => match &self.directory {
                Some(directory) => directory.clone(),
                None => self.target.clone(),
            },
            WriteStage::CreateTemporary => self.temporary.clone(),
            WriteStage::WriteContents => self.temporary.clone(),
            WriteStage::Sync => self.temporary.clone(),
            WriteStage::Rename => self.target.clone(),
            WriteStage::RestrictPermissions => self.target.clone(),
        }
    }
}

/// What was found at one candidate path.
#[derive(Debug)]
pub enum FileProbe {
    /// No file is there.
    Missing,
    /// A file is there and could not be read.
    Unreadable(String),
    /// A file was read and does not hold a state.
    Unparseable(String),
    /// A file was read and holds this state.
    Parsed(ResourceState),
}

/// How loading goes on after `probe` was found at the candidate `at`: a
/// missing file sends the search to the next candidate and, behind the last
/// one, ends it with nothing found; a file that is there ends it, with its
/// state or with the error of reading it.
pub open spec fn load_next(paths: Seq<String>, at: int, probe: FileProbe) -> Progress<
    usize,
    Result<Option<ResourceState>, StateError>,
> {
    match probe {
        FileProbe::Missing => if at + 1 < paths.len() {
            Progress::Continue((at + 1) as usize)
        } else {
            Progress::Done(Ok(None))
        },
        FileProbe::Unreadable(error) => Progress::Done(
            Err(StateError::ReadError { path: paths[at], error }),
        ),
        FileProbe::Unparseable(error) => Progress::Done(
            Err(StateError::ParseError { path: paths[at], error }),
        ),
        FileProbe::Parsed(state) => Progress::Done(Ok(Some(state))),
    }
}

/// What loading gives when the candidates from `at` on hold `probes`.
pub open spec fn load_walk(paths: Seq<String>, probes: Seq<FileProbe>, at: int) -> Result<
    Option<ResourceState>,
    StateError,
>
    recommends
        probes.len() == paths.len(),
    decreases paths.len() - at,
{
    if 0 <= at < paths.len() {
        match load_next(paths, at, probes[at]) {
            Progress::Continue(next) => load_walk(paths, probes, at + 1),
            Progress::Done(result) => result,
        }
    } else {
        Ok(None)
    }
}

/// How saving goes on after the attempt at the candidate `at` of `count`
/// ended in `outcome`: a success ends it; a failure sends it to the next
/// candidate and, at the last one, is the failure of the whole.
pub open spec fn save_next(count: int, at: int, outcome: Result<(), StateError>) -> Progress<
    usize,
    Result<(), StateError>,
> {
    match outcome {
        Ok(_) => Progress::Done(Ok(())),
        Err(error) => if at + 1 < count {
            Progress::Continue((at + 1) as usize)
        } else {
            Progress::Done(Err(error))
        },
    }
}

/// What saving gives when the attempts at the candidates from `at` on end
/// in `outcomes`.  Called on no candidates at all, it gives `Ok`; `save`
/// itself fails there.
pub open spec fn save_walk(outcomes: Seq<Result<(), StateError>>, at: int) -> Result<
    (),
    StateError,
>
    decreases outcomes.len() - at,
{
    if 0 <= at < outcomes.len() {
        match save_next(outcomes.len() as int, at, outcomes[at]) {
            Progress::Continue(next) => save_walk(outcomes, at + 1),
            Progress::Done(result) => result,
        }
    } else {
        Ok(())
    }
}

/// How the search for the file to report goes on after the candidate `at`
/// was found `usable` or not: the first usable one is it; the last one is
/// taken untested when none before it is usable.
pub open spec fn locate_next(paths: Seq<String>, at: int, usable: bool) -> Progress<usize, String> {
    if usable {
        Progress::Done(paths[at])
    } else if at + 2 < paths.len() {
        Progress::Continue((at + 1) as usize)
    } else {
        Progress::Done(paths.last())
    }
}

impl ResourceState {
    /// The state of a registration that took place at `stamp`; at the Unix
    /// epoch where the clock showed no time.
    pub fn stamped(
        resource_id: String,
        agent_version: String,
        instance_metadata: InstanceMetadata,
        session: SessionInfo,
        stamp: Option<String>,
    ) -> (state: Self)
        ensures
            state.resource_id == resource_id,
            state.agent_version == agent_version,
            state.instance_metadata == instance_metadata,
            state.session == session,
            state.registered_at@ == (match stamp {
                Some(time) => time@,
                None => EPOCH_TIMESTAMP@,
            }),
    {
        let registered_at: String = match stamp {
            Some(time) => time,
            None => owned(EPOCH_TIMESTAMP),
        };
        ResourceState { resource_id, registered_at, agent_version, instance_metadata, session }
    }

    /// Create a new ResourceState, registered now.
    pub fn new(
        resource_id: String,
        agent_version: String,
        instance_metadata: InstanceMetadata,
        session: SessionInfo,
    ) -> (state: Self)
        ensures
            state.resource_id == resource_id,
            state.agent_version == agent_version,
            state.instance_metadata == instance_metadata,
            state.session == session,
    {
        Self::stamped(resource_id, agent_version, instance_metadata, session, now_rfc3339())
    }

    /// The candidate files in the order in which they are tried, the file
    /// of the user's own installation being `user_file`.
    pub fn candidate_paths_with(user_file: String) -> (paths: Vec<String>)
        ensures
            paths@.len() == 3,
            paths@[0]@ == SERVICE_STATE_FILE@,
            paths@[1]@ == LEGACY_STATE_FILE@,
            paths@[2] == user_file,
    {
        let mut paths: Vec<String> = Vec::new();
        paths.push(owned(SERVICE_STATE_FILE));
        paths.push(owned(LEGACY_STATE_FILE));
        paths.push(user_file);
        paths
    }

    /// The state file of a user whose configuration directory is
    /// `config_dir`: `operion/resource-state.json` below that directory, or
    /// below the current directory where the user has none.
    pub open spec fn user_file(config_dir: Option<Seq<char>>) -> Seq<char> {
        let base = match config_dir {
            Some(dir) => dir,
            None => CURRENT_DIRECTORY@,
        };
        joined_path(joined_path(base, STATE_DIRECTORY@), STATE_FILE_NAME@)
    }

    /// The state file of a user whose configuration directory is
    /// `config_dir`.
    pub fn user_state_file(config_dir: Option<String>) -> (file: String)
        ensures
            file@ == Self::user_file(text_of(config_dir)),
    {
        let base: String = match config_dir {
            Some(dir) => dir,
            None => owned(CURRENT_DIRECTORY),
        };
        let directory: String = path_join(base.as_str(), STATE_DIRECTORY);
        path_join(directory.as_str(), STATE_FILE_NAME)
    }

    /// The candidate files in the order in which they are tried: the file
    /// of a system service, the system-wide file of earlier versions, and
    /// the file below the user's configuration directory, or below the
    /// current directory where the user has none.
    pub fn candidate_paths() -> (paths: Vec<String>)
        ensures
            paths@.len() == 3,
            paths@[0]@ == SERVICE_STATE_FILE@,
            paths@[1]@ == LEGACY_STATE_FILE@,
            exists|config_dir: Option<Seq<char>>| paths@[2]@ == Self::user_file(config_dir),
    {
        let config_dir: Option<String> = user_config_dir();
        let ghost dir: Option<Seq<char>> = text_of(config_dir);
        let paths: Vec<String> = Self::candidate_paths_with(Self::user_state_file(config_dir));
        assert(paths@[2]@ == Self::user_file(dir));
        paths
    }

    /// One step of the search for the file that states are written to.
    /// With nothing tested yet, the first candidate is to be tested, unless
    /// it is the only one.
    pub fn get_state_file_path(paths: &Vec<String>, tested: Option<(usize, bool)>) -> (step:
        Progress<usize, String>)
        requires
            paths@.len() > 0,
            tested is Some ==> (tested->0).0 < paths@.len(),
        ensures
            step == (match tested {
                None => if paths@.len() == 1 {
                    Progress::<usize, String>::Done(paths@[0])
                } else {
                    Progress::<usize, String>::Continue(0)
                },
                Some(test) => locate_next(paths@, test.0 as int, test.1),
            }),
    {
        match tested {
            None => if paths.len() == 1 {
                Progress::Done(paths[0].clone())
            } else {
                Progress::Continue(0)
            },
            Some((at, usable)) => {
                if usable {
                    Progress::Done(paths[at].clone())
                } else if paths.len() - at > 2 {
                    Progress::Continue(at + 1)
                } else {
                    Progress::Done(paths[paths.len() - 1].clone())
                }
            },
        }
    }

    /// One step of loading the state.  With nothing probed yet, the first
    /// candidate is to be probed; with no candidate at all, nothing is
    /// found.
    pub fn load(paths: &Vec<String>, probed: Option<(usize, FileProbe)>) -> (step: Progress<
        usize,
        Result<Option<ResourceState>, StateError>,
    >)
        requires
            probed is Some ==> (probed->0).0 < paths@.len(),
        ensures
            step == (match probed {
                None => if paths@.len() == 0 {
                    Progress::<usize, Result<Option<ResourceState>, StateError>>::Done(Ok(None))
                } else {
                    Progress::<usize, Result<Option<ResourceState>, StateError>>::Continue(0)
                },
                Some(found) => load_next(paths@, found.0 as int, found.1),
            }),
    {
        match probed {
            None => if paths.len() == 0 {
                Progress::Done(Ok(None))
            } else {
                Progress::Continue(0)
            },
            Some((at, probe)) => match probe {
                FileProbe::Missing => if paths.len() - at > 1 {
                    Progress::Continue(at + 1)
                } else {
                    Progress::Done(Ok(None))
                },
                FileProbe::Unreadable(error) => Progress::Done(
                    Err(StateError::ReadError { path: paths[at].clone(), error }),
                ),
                FileProbe::Unparseable(error) => Progress::Done(
                    Err(StateError::ParseError { path: paths[at].clone(), error }),
                ),
                FileProbe::Parsed(state) => Progress::Done(Ok(Some(state))),
            },
        }
    }

    /// One step of saving a state.  With nothing attempted yet, the first
    /// candidate is to be written; with no candidate at all, saving fails.
    pub fn save(count: usize, attempted: Option<(usize, Result<(), StateError>)>) -> (step:
        Progress<usize, Result<(), StateError>>)
        ensures
            match attempted {
                None => if count == 0 {
                    step matches Progress::Done(Err(StateError::WriteError { path, error }))
                        && path@ == "unknown"@ && error@ == "No writable location found"@
                } else {
                    step == Progress::<usize, Result<(), StateError>>::Continue(0)
                },
                Some(attempt) => step == save_next(count as int, attempt.0 as int, attempt.1),
            },
    {
        match attempted {
            None => if count == 0 {
                Progress::Done(
                    Err(
                        StateError::WriteError {
                            path: owned("unknown"),
                            error: owned("No writable location found"),
                        },
                    ),
                )
            } else {
                Progress::Continue(0)
            },
            Some((at, outcome)) => match outcome {
                Ok(_) => Progress::Done(Ok(())),
                Err(error) => if at < count && count - at > 1 {
                    Progress::Continue(at + 1)
                } else {
                    Progress::Done(Err(error))
                },
            },
        }
    }

    /// One step of writing a state file along `plan`.  With no stage done
    /// yet, the write begins, unless the temporary file of the plan is its
    /// target: such a write could not be atomic and ends at once with a
    /// write error for the target.  A stage that fails ends the write with
    /// the error of that stage; when the last stage has succeeded, the write
    /// has.
    pub fn try_save_to_path(
        plan: &WritePlan,
        done: Option<(WriteStage, Result<(), String>)>,
    ) -> (step: Progress<WriteStage, Result<(), StateError>>)
        ensures
            match done {
                None => if plan.temporary@ == plan.target@ {
                    step matches Progress::Done(Err(StateError::WriteError { path, error }))
                        && path == plan.target && error@ == NOT_APART@
                } else {
                    step == Progress::<WriteStage, Result<(), StateError>>::Continue(
                        plan.first_stage(),
                    )
                },
                Some(stage) => step == plan.write_next(stage.0, stage.1),
            },
    {
        match done {
            None => if !plan.keeps_target_apart() {
                Progress::Done(
                    Err(
                        StateError::WriteError {
                            path: plan.target.clone(),
                            error: owned(NOT_APART),
                        },
                    ),
                )
            } else if plan.directory.is_some() {
                Progress::Continue(WriteStage::CreateDirectory)
            } else {
                Progress::Continue(WriteStage::CreateTemporary)
            },
            Some((stage, outcome)) => match outcome {
                Err(reason) => {
                    let path: String = plan.blame(stage);
                    let error: StateError = match stage {
                        WriteStage::CreateDirectory => StateError::CreateDirectoryError {
                            path,
                            error: reason,
                        },
                        WriteStage::RestrictPermissions => StateError::PermissionError {
                            path,
                            error: reason,
                        },
                        _ => StateError::WriteError { path, error: reason },
                    };
                    Progress::Done(Err(error))
                },
                Ok(_) => match stage.next() {
                    Some(next) => Progress::Continue(next),
                    None => Progress::Done(Ok(())),
                },
            },
        }
    }
}

/// Loading ends at the first candidate that is not missing: with the
/// state that it holds, or with the error of reading it.  Where all are
/// missing, nothing is found and no error is raised.
pub proof fn lemma_load_takes_first_present(paths: Seq<String>, probes: Seq<FileProbe>, first: int)
    requires
        probes.len() == paths.len(),
        0 <= first <= paths.len(),
        forall|i: int| 0 <= i < first ==> probes[i] is Missing,
        first < paths.len() ==> !(probes[first] is Missing),
    ensures
        first == paths.len() ==> load_walk(paths, probes, 0) == Ok::<
            Option<ResourceState>,
            StateError,
        >(None),
        first < paths.len() ==> load_walk(paths, probes, 0) == (match probes[first] {
            FileProbe::Parsed(state) => Ok(Some(state)),
            FileProbe::Unparseable(error) => Err(
                StateError::ParseError { path: paths[first], error },
            ),
            FileProbe::Unreadable(error) => Err(
                StateError::ReadError { path: paths[first], error },
            ),
            FileProbe::Missing => Ok(None),
        }),
{
    lemma_load_skips_missing(paths, probes, first, 0);
}

proof fn lemma_load_skips_missing(paths: Seq<String>, probes: Seq<FileProbe>, first: int, at: int)
    requires
        probes.len() == paths.len(),
        0 <= at <= first <= paths.len(),
        forall|i: int| 0 <= i < first ==> probes[i] is Missing,
    ensures
        load_walk(paths, probes, at) == load_walk(paths, probes, first),
    decreases first - at,
{
    if at < first {
        lemma_load_skips_missing(paths, probes, first, at + 1);
    }
}

/// Saving succeeds exactly when the attempt at some candidate succeeds.
/// Where every attempt fails, it fails with the error of the last one.
pub proof fn lemma_save_any_success(outcomes: Seq<Result<(), StateError>>)
    requires
        outcomes.len() > 0,
    ensures
        save_walk(outcomes, 0) is Ok <==> exists|i: int|
            0 <= i < outcomes.len() && #[trigger] outcomes[i] is Ok,
        save_walk(outcomes, 0) is Err ==> save_walk(outcomes, 0) == outcomes.last(),
{
    lemma_save_from(outcomes, 0);
}

proof fn lemma_save_from(outcomes: Seq<Result<(), StateError>>, at: int)
    requires
        0 <= at < outcomes.len(),
    ensures
        save_walk(outcomes, at) is Ok <==> exists|i: int|
            at <= i < outcomes.len() && #[trigger] outcomes[i] is Ok,
        save_walk(outcomes, at) is Err ==> save_walk(outcomes, at) == outcomes.last(),
    decreases outcomes.len() - at,
{
    if outcomes[at] is Err && at + 1 < outcomes.len() {
        lemma_save_from(outcomes, at + 1);
    }
}

/// A write is atomic.  Whatever stage fails, and whatever the failure
/// leaves in the temporary file, the target holds what it held before, up to
/// the move; once the move is done it holds the whole text.  At no point
/// does it hold a part of the text, and a failed write harms no file that
/// was good.  This holds of every plan: one whose temporary file is its
/// target is refused before anything is touched.
pub proof fn lemma_write_is_atomic(
    plan: WritePlan,
    failing: Option<WriteStage>,
    debris: Option<Seq<char>>,
    text: Seq<char>,
    files: Files,
)
    ensures
        ({
            let after = plan.after_attempt(failing, debris, text, files);
            if plan.moves(failing) {
                after.contains_key(plan.target@) && after[plan.target@] == text
            } else {
                after.contains_key(plan.target@) == files.contains_key(plan.target@) && (
                files.contains_key(plan.target@) ==> after[plan.target@] == files[plan.target@])
            }
        }),
{
    reveal_with_fuel(WritePlan::after_write, 7);
}

/// Writing is idempotent: to write a text that the target holds already
/// leaves the target as it is, whether the write succeeds, fails or is
/// refused.
pub proof fn lemma_write_is_idempotent(
    plan: WritePlan,
    failing: Option<WriteStage>,
    debris: Option<Seq<char>>,
    text: Seq<char>,
    files: Files,
)
    requires
        files.contains_key(plan.target@),
        files[plan.target@] == text,
    ensures
        ({
            let after = plan.after_attempt(failing, debris, text, files);
            after.contains_key(plan.target@) && after[plan.target@] == text
        }),
{
    lemma_write_is_atomic(plan, failing, debris, text, files);
}

/// What is saved is what is loaded next.  Saving went to the candidate
/// `written`, the first at which the attempt succeeded, and that candidate
/// now holds `state`.  Where each candidate before it holds no file, or
/// holds `state` as well, loading gives `state` back.  A candidate before it
/// that kept a file of its own would be loaded in its place.
pub proof fn lemma_save_then_load(
    paths: Seq<String>,
    outcomes: Seq<Result<(), StateError>>,
    after: Seq<FileProbe>,
    state: ResourceState,
    written: int,
)
    requires
        outcomes.len() == paths.len(),
        after.len() == paths.len(),
        0 <= written < paths.len(),
        outcomes[written] is Ok,
        forall|i: int| 0 <= i < written ==> outcomes[i] is Err,
        after[written] == FileProbe::Parsed(state),
        forall|i: int|
            0 <= i < written ==> after[i] is Missing || after[i] == FileProbe::Parsed(state),
    ensures
        save_walk(outcomes, 0) is Ok,
        load_walk(paths, after, 0) == Ok::<Option<ResourceState>, StateError>(Some(state)),
{
    lemma_save_any_success(outcomes);
    lemma_load_gives(paths, after, state, written, 0);
}

proof fn lemma_load_gives(
    paths: Seq<String>,
    after: Seq<FileProbe>,
    state: ResourceState,
    written: int,
    at: int,
)
    requires
        after.len() == paths.len(),
        0 <= at <= written < paths.len(),
        after[written] == FileProbe::Parsed(state),
        forall|i: int|
            0 <= i < written ==> after[i] is Missing || after[i] == FileProbe::Parsed(state),
    ensures
        load_walk(paths, after, at) == Ok::<Option<ResourceState>, StateError>(Some(state)),
    decreases written - at,
{
    if at < written {
        lemma_load_gives(paths, after, state, written, at + 1);
    }
}

} // verus!
