//! The failure taxonomy of the engine and the rules that sort a failure of
//! the version-control backend into it.

use crate::backend::{error_class, error_code, error_text};
use vstd::prelude::*;
use vstd::string::StringExecFns;

verus! {

/// Backend code of a failure that carries no more specific code.
pub const CODE_GENERIC: i32 = -1;

/// Backend code: the requested object or path does not exist.
pub const CODE_NOT_FOUND: i32 = -3;

/// Backend code: the object or path exists and blocks the operation.
pub const CODE_EXISTS: i32 = -4;

/// Backend code: a caller-supplied callback asked to stop.
pub const CODE_USER: i32 = -7;

/// Backend code: the remote refused the offered credentials.
pub const CODE_AUTH: i32 = -16;

/// Backend code: the repository is owned by another user.
pub const CODE_OWNER: i32 = -36;

/// Backend class of failures reported by the operating system.
pub const CLASS_OS: i32 = 2;

/// Backend class of failures raised because a callback returned non-zero.
pub const CLASS_CALLBACK: i32 = 26;

/// The status that denotes success.
pub const STATUS_OK: i32 = 0;

/// Status of an operation attempted while no repository is active.
pub const STATUS_NO_ACTIVE_REPOSITORY: i32 = 1;

/// Status of a commit that would not change the tree of its parent.
pub const STATUS_NOTHING_TO_COMMIT: i32 = 2;

/// Status of a merge that met changes it could not reconcile.
pub const STATUS_MERGE_CONFLICT: i32 = 3;

/// The classes of failure that an operation can report.
#[derive(Clone, Copy, Debug, PartialEq, Eq, Structural)]
pub enum ErrorKind {
    /// The session holds no repository.
    NoActiveRepository,
    /// The path names nothing that can be opened.
    PathInvalid,
    /// The target exists and is in the way.
    AlreadyExists,
    /// The operating system or the repository's ownership forbids the access.
    PermissionDenied,
    /// The remote refused the credentials.
    AuthenticationFailed,
    /// The progress reporter asked to stop the transfer.
    TransferCancelled,
    /// Trees, commits or references of the repository could not be read.
    RepositoryCorrupt,
    /// Both sides changed the same content; the paths are named.
    MergeConflict,
    /// Staging produced the tree that the parent commit already has.
    NothingToCommit,
    /// A backend failure that belongs to none of the classes above.
    Unclassified,
}

/// The part of an operation in which the backend failed.
#[derive(Clone, Copy, Debug, PartialEq, Eq, Structural)]
pub enum Stage {
    /// Opening or initializing a repository at a path.
    Open,
    /// Creating a repository from a remote.
    Clone,
    /// Exchanging history with the remote of an active repository.
    Transport,
    /// Looking up a reference or a remote of the active repository by its
    /// name.
    Resolve,
    /// Reading commits, trees or the state of the work tree of the active
    /// repository.
    Read,
    /// Writing to the index, the object store, references or the work tree.
    Write,
}

/// Whether a backend failure reports that a callback asked to stop.
pub open spec fn stop_requested(code: int, class: int) -> bool {
    code == CODE_USER || class == CLASS_CALLBACK
}

/// The class of a backend failure with the given code and class that arose
/// in the given stage.
pub open spec fn classify_spec(stage: Stage, code: int, class: int) -> ErrorKind {
    match stage {
        Stage::Open => {
            if code == CODE_NOT_FOUND {
                ErrorKind::PathInvalid
            } else if code == CODE_EXISTS {
                ErrorKind::AlreadyExists
            } else if code == CODE_OWNER || class == CLASS_OS {
                ErrorKind::PermissionDenied
            } else {
                ErrorKind::RepositoryCorrupt
            }
        },
        Stage::Clone => {
            if code == CODE_AUTH {
                ErrorKind::AuthenticationFailed
            } else if stop_requested(code, class) {
                ErrorKind::TransferCancelled
            } else if code == CODE_NOT_FOUND {
                ErrorKind::PathInvalid
            } else if code == CODE_EXISTS {
                ErrorKind::AlreadyExists
            } else if code == CODE_OWNER || class == CLASS_OS {
                ErrorKind::PermissionDenied
            } else {
                ErrorKind::Unclassified
            }
        },
        Stage::Transport => {
            if code == CODE_AUTH {
                ErrorKind::AuthenticationFailed
            } else if stop_requested(code, class) {
                ErrorKind::TransferCancelled
            } else {
                ErrorKind::Unclassified
            }
        },
        Stage::Resolve => ErrorKind::Unclassified,
        Stage::Read => ErrorKind::RepositoryCorrupt,
        Stage::Write => ErrorKind::Unclassified,
    }
}

/// The status reported for a backend failure: the backend's own code where
/// it is negative, the generic code otherwise.
pub open spec fn backend_status(code: int) -> int {
    if code < 0 {
        code
    } else {
        CODE_GENERIC as int
    }
}

/// Sorts a backend failure into the taxonomy.
pub fn classify(stage: Stage, code: i32, class: i32) -> (kind: ErrorKind)
    ensures
        kind == classify_spec(stage, code as int, class as int),
{
    let stopped = code == CODE_USER || class == CLASS_CALLBACK;
    let denied = code == CODE_OWNER || class == CLASS_OS;
    match stage {
        Stage::Open => {
            if code == CODE_NOT_FOUND {
                ErrorKind::PathInvalid
            } else if code == CODE_EXISTS {
                ErrorKind::AlreadyExists
            } else if denied {
                ErrorKind::PermissionDenied
            } else {
                ErrorKind::RepositoryCorrupt
            }
        },
        Stage::Clone => {
            if code == CODE_AUTH {
                ErrorKind::AuthenticationFailed
            } else if stopped {
                ErrorKind::TransferCancelled
            } else if code == CODE_NOT_FOUND {
                ErrorKind::PathInvalid
            } else if code == CODE_EXISTS {
                ErrorKind::AlreadyExists
            } else if denied {
                ErrorKind::PermissionDenied
            } else {
                ErrorKind::Unclassified
            }
        },
        Stage::Transport => {
            if code == CODE_AUTH {
                ErrorKind::AuthenticationFailed
            } else if stopped {
                ErrorKind::TransferCancelled
            } else {
                ErrorKind::Unclassified
            }
        },
        Stage::Resolve => ErrorKind::Unclassified,
        Stage::Read => ErrorKind::RepositoryCorrupt,
        Stage::Write => ErrorKind::Unclassified,
    }
}

/// What the backend told about one failure, as plain values.
#[derive(Debug)]
pub struct GitFailure {
    /// The backend's error code.
    pub code: i32,
    /// The backend's error class.
    pub class: i32,
    /// The backend's description of the failure.
    pub text: String,
}

/// A failed operation: its class, its status, the step that failed and a
/// description, and for a merge conflict the paths in conflict.
#[derive(Debug)]
pub struct SyncError {
    pub kind: ErrorKind,
    pub status: i32,
    pub step: String,
    pub detail: String,
    pub paths: Vec<String>,
}

impl SyncError {
    /// The status is never the success status. A positive status is one of
    /// the three that belong to the failures that only the engine detects;
    /// every other failure has a negative status, as the backend's codes
    /// are. Only a merge conflict names paths.
    pub open spec fn wf(&self) -> bool {
        &&& self.status != STATUS_OK
        &&& self.kind == ErrorKind::NoActiveRepository <==> self.status
            == STATUS_NO_ACTIVE_REPOSITORY
        &&& self.kind == ErrorKind::NothingToCommit <==> self.status == STATUS_NOTHING_TO_COMMIT
        &&& self.kind == ErrorKind::MergeConflict <==> self.status == STATUS_MERGE_CONFLICT
        &&& self.status > 0 ==> self.status <= STATUS_MERGE_CONFLICT
        &&& self.kind != ErrorKind::MergeConflict ==> self.paths@.len() == 0
    }

    /// Whether the status of the failure is one of the backend's.
    pub open spec fn has_backend_status(&self) -> bool {
        self.status < 0
    }

    /// The text shown for the failure: the step, a colon and a space, the
    /// description.
    pub open spec fn message_spec(&self) -> Seq<char> {
        self.step@ + ": "@ + self.detail@
    }

    /// The failure of an operation that needs a repository when none is
    /// active.
    pub fn no_active_repository(step: &str) -> (e: SyncError)
        ensures
            e.wf(),
            e.kind == ErrorKind::NoActiveRepository,
            e.status == STATUS_NO_ACTIVE_REPOSITORY,
            e.step@ == step@,
            e.paths@.len() == 0,
    {
        SyncError {
            kind: ErrorKind::NoActiveRepository,
            status: STATUS_NO_ACTIVE_REPOSITORY,
            step: String::from_str(step),
            detail: String::from_str("no repository is active"),
            paths: Vec::new(),
        }
    }

    /// The failure of a commit whose staged tree is the tree of its parent.
    pub fn nothing_to_commit(step: &str) -> (e: SyncError)
        ensures
            e.wf(),
            e.kind == ErrorKind::NothingToCommit,
            e.status == STATUS_NOTHING_TO_COMMIT,
            e.step@ == step@,
            e.paths@.len() == 0,
    {
        SyncError {
            kind: ErrorKind::NothingToCommit,
            status: STATUS_NOTHING_TO_COMMIT,
            step: String::from_str(step),
            detail: String::from_str("the staged tree equals the tree of the parent commit"),
            paths: Vec::new(),
        }
    }

    /// The failure of a merge that left the given paths in conflict.
    pub fn merge_conflict(step: &str, paths: Vec<String>) -> (e: SyncError)
        ensures
            e.wf(),
            e.kind == ErrorKind::MergeConflict,
            e.status == STATUS_MERGE_CONFLICT,
            e.step@ == step@,
            e.paths == paths,
    {
        SyncError {
            kind: ErrorKind::MergeConflict,
            status: STATUS_MERGE_CONFLICT,
            step: String::from_str(step),
            detail: String::from_str("both sides changed the same content"),
            paths,
        }
    }

    /// The failure of an operation refused because the repository was found
    /// corrupt earlier and has not been reopened since.
    pub fn corrupt(step: &str) -> (e: SyncError)
        ensures
            e.wf(),
            e.kind == ErrorKind::RepositoryCorrupt,
            e.status == CODE_GENERIC,
            e.step@ == step@,
            e.paths@.len() == 0,
    {
        SyncError {
            kind: ErrorKind::RepositoryCorrupt,
            status: CODE_GENERIC,
            step: String::from_str(step),
            detail: String::from_str("the repository was found corrupt; reopen it"),
            paths: Vec::new(),
        }
    }

    /// The failure of an operation that refuses what it was given before
    /// it turns to the backend. It is reported as an unclassified failure
    /// with the generic status.
    pub fn refused_input(step: &str, detail: &str) -> (e: SyncError)
        ensures
            e.wf(),
            e.kind == ErrorKind::Unclassified,
            e.status == CODE_GENERIC,
            e.step@ == step@,
            e.detail@ == detail@,
            e.paths@.len() == 0,
    {
        SyncError {
            kind: ErrorKind::Unclassified,
            status: CODE_GENERIC,
            step: String::from_str(step),
            detail: String::from_str(detail),
            paths: Vec::new(),
        }
    }

    /// Whether the failure is what a backend failure with the given code
    /// and class becomes when it arises in `stage`.
    pub open spec fn classified_as(&self, stage: Stage, code: int, class: int) -> bool {
        &&& self.kind == classify_spec(stage, code, class)
        &&& self.status == backend_status(code)
    }

    /// Whether the failure is a backend failure that arose in `stage`: its
    /// class and status are those of some code and class of the backend.
    pub open spec fn arose_in(&self, stage: Stage) -> bool {
        &&& self.wf()
        &&& self.paths@.len() == 0
        &&& exists|code: int, class: int| #[trigger] self.classified_as(stage, code, class)
    }

    /// The failure that the backend reported in `stage`, at `step`.
    pub fn from_backend_failure(stage: Stage, step: &str, failure: GitFailure) -> (e: SyncError)
        ensures
            e.wf(),
            e.has_backend_status(),
            e.kind == classify_spec(stage, failure.code as int, failure.class as int),
            e.status == backend_status(failure.code as int),
            e.step@ == step@,
            e.detail == failure.text,
            e.paths@.len() == 0,
            e.arose_in(stage),
    {
        assert(classify_spec(stage, failure.code as int, failure.class as int)
            != ErrorKind::NoActiveRepository);
        let kind = classify(stage, failure.code, failure.class);
        let status: i32 = if failure.code < 0 {
            failure.code
        } else {
            CODE_GENERIC
        };
        let e = SyncError {
            kind,
            status,
            step: String::from_str(step),
            detail: failure.text,
            paths: Vec::new(),
        };
        assert(e.classified_as(stage, failure.code as int, failure.class as int));
        e
    }

    /// The failure of a transfer that the backend reported at `step`, given
    /// whether the progress reporter had asked to stop: a stop that was asked
    /// for makes the failure a cancellation, whatever the backend says of it.
    pub fn from_transfer_failure(
        stage: Stage,
        step: &str,
        failure: GitFailure,
        stopped: bool,
    ) -> (e: SyncError)
        requires
            stage == Stage::Clone || stage == Stage::Transport,
        ensures
            e.wf(),
            e.has_backend_status(),
            e.kind == (if stopped {
                ErrorKind::TransferCancelled
            } else {
                classify_spec(stage, failure.code as int, failure.class as int)
            }),
            e.status == backend_status(failure.code as int),
            e.step@ == step@,
            e.detail == failure.text,
            e.paths@.len() == 0,
            !stopped ==> e.arose_in(stage),
    {
        let mut e = SyncError::from_backend_failure(stage, step, failure);
        if stopped {
            e.kind = ErrorKind::TransferCancelled;
        }
        e
    }

    /// The class of the failure.
    pub fn kind(&self) -> (k: ErrorKind)
        ensures
            k == self.kind,
    {
        self.kind
    }

    /// The status to report for the failure.
    pub fn status_code(&self) -> (s: i32)
        ensures
            s == self.status,
            self.wf() ==> s != STATUS_OK,
    {
        self.status
    }

    /// The text to show for the failure.
    pub fn message(&self) -> (m: String)
        ensures
            m@ == self.message_spec(),
    {
        let mut m = self.step.clone();
        m.append(": ");
        m.append(self.detail.as_str());
        m
    }
}

/// Reads the code, the class and the description off a failure of the
/// backend.
pub fn failure_of(e: &git2::Error) -> (failure: GitFailure) {
    GitFailure { code: error_code(e), class: error_class(e), text: error_text(e) }
}

/// The failure to report when the backend failed with `e` in `stage`, at
/// `step`.
pub fn backend_error(stage: Stage, step: &str, e: &git2::Error) -> (failure: SyncError)
    ensures
        failure.arose_in(stage),
        failure.step@ == step@,
{
    SyncError::from_backend_failure(stage, step, failure_of(e))
}

/// The status to report for the outcome of an operation: the success status
/// for `Ok`, the failure's own status otherwise.
pub fn status_of<T>(outcome: &Result<T, SyncError>) -> (s: i32)
    ensures
        outcome is Ok ==> s == STATUS_OK,
        outcome matches Err(e) ==> s == e.status,
        outcome matches Err(e) ==> (e.wf() ==> s != STATUS_OK),
{
    match outcome {
        Ok(_) => STATUS_OK,
        Err(e) => e.status,
    }
}

/// A backend failure is never sorted into a class that only the engine's own
/// rules produce.
pub proof fn lemma_classify_never_engine_kind(stage: Stage, code: int, class: int)
    ensures
        classify_spec(stage, code, class) != ErrorKind::NoActiveRepository,
        classify_spec(stage, code, class) != ErrorKind::NothingToCommit,
        classify_spec(stage, code, class) != ErrorKind::MergeConflict,
{
}

/// While history is exchanged with a remote, a refusal of the credentials is
/// reported as an authentication failure and as nothing else, whatever class
/// the backend gives it.
pub proof fn lemma_auth_failure_iff_auth_code(stage: Stage, code: int, class: int)
    requires
        stage == Stage::Clone || stage == Stage::Transport,
    ensures
        classify_spec(stage, code, class) == ErrorKind::AuthenticationFailed <==> code
            == CODE_AUTH,
{
}

/// Every failure to read the active repository counts as corruption, and
/// corruption is reported from no stage but reading and opening.
pub proof fn lemma_corrupt_only_from_reading(stage: Stage, code: int, class: int)
    ensures
        stage == Stage::Read ==> classify_spec(stage, code, class) == ErrorKind::RepositoryCorrupt,
        classify_spec(stage, code, class) == ErrorKind::RepositoryCorrupt ==> stage == Stage::Read
            || stage == Stage::Open,
{
}

/// What is known of a backend failure from the stage it arose in alone:
/// reading gives corruption, writing and looking up a name give an
/// unclassified failure, and no stage gives a class of the engine's own or
/// a status that is not negative.
pub proof fn lemma_arose_in(e: SyncError, stage: Stage)
    requires
        e.arose_in(stage),
    ensures
        e.status < 0,
        e.kind != ErrorKind::NoActiveRepository,
        e.kind != ErrorKind::NothingToCommit,
        e.kind != ErrorKind::MergeConflict,
        stage == Stage::Read ==> e.kind == ErrorKind::RepositoryCorrupt,
        stage == Stage::Write || stage == Stage::Resolve ==> e.kind == ErrorKind::Unclassified,
        stage == Stage::Transport ==> e.kind == ErrorKind::AuthenticationFailed || e.kind
            == ErrorKind::TransferCancelled || e.kind == ErrorKind::Unclassified,
        e.kind == ErrorKind::RepositoryCorrupt ==> stage == Stage::Read || stage == Stage::Open,
{
    let (code, class) = choose|code: int, class: int| #[trigger]
        e.classified_as(stage, code, class);
    assert(e.classified_as(stage, code, class));
}

/// The status of a backend failure is negative, so it differs from the
/// success status and from every status of the engine's own.
pub proof fn lemma_backend_status_negative(code: int)
    ensures
        backend_status(code) < 0,
        code < 0 ==> backend_status(code) == code,
{
}

} // verus!
