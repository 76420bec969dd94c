//! The repository session: the one active repository handle, its lifecycle,
//! and the operations that only read the repository.

use crate::backend::{
    author_email,
    author_name,
    head_reference,
    init_repository,
    is_lower_hex,
    oid_hex,
    open_repository,
    peel_to_commit,
    reference_id,
    status_count,
};
use crate::error::{backend_error, lemma_arose_in, ErrorKind, Stage, SyncError};
use vstd::prelude::*;

verus! {

/// What a session holds, as far as its operations depend on it.
#[derive(Clone, Copy, Debug, PartialEq, Eq, Structural)]
pub enum SessionState {
    /// No repository is active.
    Closed,
    /// A repository is active and in use.
    Open,
    /// A repository is active but was found corrupt: every operation on it
    /// fails until a repository is opened, created or cloned again, or the
    /// session is closed.
    Poisoned,
}

impl SessionState {
    /// The state after the handle was released.
    pub open spec fn after_close(self) -> SessionState {
        SessionState::Closed
    }

    /// The state after an attempt to open, create or clone a repository:
    /// a success replaces whatever the session held, a failure leaves it.
    pub open spec fn after_adopt(self, succeeded: bool) -> SessionState {
        if succeeded {
            SessionState::Open
        } else {
            self
        }
    }

    /// The failure that an operation on the active repository is refused
    /// with in this state, if it is refused.
    pub open spec fn refusal(self) -> Option<ErrorKind> {
        match self {
            SessionState::Closed => Some(ErrorKind::NoActiveRepository),
            SessionState::Poisoned => Some(ErrorKind::RepositoryCorrupt),
            SessionState::Open => None,
        }
    }

    /// The state after an operation on the active repository that ended
    /// with the given failure, or with none: corruption found on an open
    /// repository poisons the session, nothing else changes the state.
    pub open spec fn after_operation(self, failure: Option<ErrorKind>) -> SessionState {
        if self == SessionState::Open && failure == Some(ErrorKind::RepositoryCorrupt) {
            SessionState::Poisoned
        } else {
            self
        }
    }
}

/// The class of the failure of an outcome, if it is one.
pub open spec fn failure_kind<T>(outcome: Result<T, SyncError>) -> Option<ErrorKind> {
    match outcome {
        Ok(_) => None,
        Err(e) => Some(e.kind),
    }
}

/// What every operation on the active repository guarantees. In a state
/// that refuses it, it fails with the refusal and changes nothing. On an
/// open repository it never reports that none is active, and the session
/// is poisoned exactly if it reports corruption. Every failure is
/// well-formed.
pub open spec fn operation_post<T>(
    before: SessionState,
    after: SessionState,
    outcome: Result<T, SyncError>,
) -> bool {
    &&& after == before.after_operation(failure_kind(outcome))
    &&& outcome matches Err(e) ==> e.wf()
    &&& before.refusal() matches Some(kind) ==> failure_kind(outcome) == Some(kind)
    &&& before == SessionState::Open ==> failure_kind(outcome) != Some(
        ErrorKind::NoActiveRepository,
    )
}

/// The session: at most one repository handle, owned exclusively. Every
/// operation takes the session by unique reference for its whole duration,
/// so no two operations on one session overlap.
pub struct Session {
    repo: Option<git2::Repository>,
    poisoned: bool,
}

impl View for Session {
    type V = SessionState;

    closed spec fn view(&self) -> SessionState {
        match self.repo {
            None => SessionState::Closed,
            Some(_) => if self.poisoned {
                SessionState::Poisoned
            } else {
                SessionState::Open
            },
        }
    }
}

impl Session {
    /// The repository handle that the session holds, if it holds one.
    pub closed spec fn handle(&self) -> Option<git2::Repository> {
        self.repo
    }

    /// A session without a repository.
    pub fn new() -> (session: Session)
        ensures
            session@ == SessionState::Closed,
            session.handle() is None,
    {
        Session { repo: None, poisoned: false }
    }

    /// The state of the session.
    pub fn state(&self) -> (state: SessionState)
        ensures
            state == self@,
    {
        match &self.repo {
            None => SessionState::Closed,
            Some(_) => if self.poisoned {
                SessionState::Poisoned
            } else {
                SessionState::Open
            },
        }
    }

    /// Takes over the outcome of opening, creating or cloning a repository:
    /// a repository becomes the active one and replaces the one held before,
    /// which is dropped; a failure is handed on and leaves the session as it
    /// was.
    pub fn adopt(&mut self, opened: Result<git2::Repository, SyncError>) -> (r: Result<
        (),
        SyncError,
    >)
        ensures
            final(self)@ == old(self)@.after_adopt(opened is Ok),
            opened matches Ok(repo) ==> r is Ok && final(self).handle() == Some(repo),
            opened matches Err(e) ==> r == Err::<(), SyncError>(e) && *final(self) == *old(self),
    {
        match opened {
            Ok(repo) => {
                self.repo = Some(repo);
                self.poisoned = false;
                Ok(())
            },
            Err(e) => Err(e),
        }
    }

    /// The active repository, or the failure that the state refuses an
    /// operation with.
    pub fn repository(&self, step: &str) -> (r: Result<&git2::Repository, SyncError>)
        ensures
            r is Ok <==> self@ == SessionState::Open,
            r matches Ok(repo) ==> self.handle() == Some(*repo),
            r matches Err(e) ==> e.wf() && Some(e.kind) == self@.refusal() && e.step@ == step@,
    {
        match &self.repo {
            None => Err(SyncError::no_active_repository(step)),
            Some(repo) => if self.poisoned {
                Err(SyncError::corrupt(step))
            } else {
                Ok(repo)
            },
        }
    }

    /// Notes the outcome of an operation on the active repository: a
    /// failure that reports corruption poisons an open session. The outcome
    /// is handed back as it is.
    pub fn settle<T>(&mut self, outcome: Result<T, SyncError>) -> (r: Result<T, SyncError>)
        ensures
            r == outcome,
            final(self)@ == old(self)@.after_operation(failure_kind(outcome)),
            final(self).handle() == old(self).handle(),
    {
        match &outcome {
            Ok(_) => {},
            Err(e) => {
                if e.kind == ErrorKind::RepositoryCorrupt && self.repo.is_some() {
                    self.poisoned = true;
                }
            },
        }
        outcome
    }
}

/// Creates a repository at `repo_path`, or reinitializes the one that is
/// there, and makes it the active one. A repository that was active is
/// replaced without being closed first. On failure the session is left as
/// it was.
pub fn create_repo(session: &mut Session, repo_path: &str) -> (r: Result<(), SyncError>)
    ensures
        final(session)@ == old(session)@.after_adopt(r is Ok),
        r matches Err(e) ==> e.arose_in(Stage::Open) && *final(session) == *old(session),
{
    let opened = match init_repository(repo_path) {
        Ok(repo) => Ok(repo),
        Err(e) => Err(backend_error(Stage::Open, "Repository::init", &e)),
    };
    session.adopt(opened)
}

/// Opens the repository at `repo_path` and makes it the active one. A
/// repository that was active is replaced without being closed first. On
/// failure the session is left as it was.
pub fn open_repo(session: &mut Session, repo_path: &str) -> (r: Result<(), SyncError>)
    ensures
        final(session)@ == old(session)@.after_adopt(r is Ok),
        r matches Err(e) ==> e.arose_in(Stage::Open) && *final(session) == *old(session),
{
    let opened = match open_repository(repo_path) {
        Ok(repo) => Ok(repo),
        Err(e) => Err(backend_error(Stage::Open, "Repository::open", &e)),
    };
    session.adopt(opened)
}

/// Releases the active repository, if there is one. This never fails.
pub fn close(session: &mut Session)
    ensures
        final(session)@ == old(session)@.after_close(),
        final(session)@ == SessionState::Closed,
        final(session).handle() is None,
{
    session.repo = None;
    session.poisoned = false;
}

/// Whether `text` is an identifier in hexadecimal: forty digits, the
/// letters among them in lower case. It is never empty.
pub open spec fn is_commit_id(text: Seq<char>) -> bool {
    text.len() == 40 && forall|i: int| 0 <= i < text.len() ==> is_lower_hex(#[trigger] text[i])
}

/// The identifier of the commit at HEAD of `repo` in hexadecimal, or
/// nothing where HEAD leads to no commit, as in a repository without
/// commits.
pub fn head_commit_id(repo: &git2::Repository) -> (id: Option<String>)
    ensures
        id matches Some(hex) ==> is_commit_id(hex@),
{
    match reference_id(repo, "HEAD") {
        Ok(id) => Some(oid_hex(id)),
        Err(_) => None,
    }
}

/// The identifier of the last commit of the active repository in
/// hexadecimal, or nothing if it has no commit yet.
pub fn last_commit(session: &Session) -> (r: Result<Option<String>, SyncError>)
    ensures
        r is Ok <==> session@ == SessionState::Open,
        r matches Err(e) ==> e.wf() && Some(e.kind) == session@.refusal(),
        r matches Ok(Some(hex)) ==> is_commit_id(hex@),
{
    match session.repository("last_commit") {
        Ok(repo) => Ok(head_commit_id(repo)),
        Err(e) => Err(e),
    }
}

/// Whether a working tree in which `changed` paths differ from the last
/// commit is dirty: it is as soon as one path differs.
pub fn is_dirty(changed: usize) -> (dirty: bool)
    ensures
        dirty == (changed > 0),
{
    changed > 0
}

/// Whether the working tree of `repo` holds any change that is not
/// committed, untracked files and files in untracked directories included.
pub fn has_changes(repo: &git2::Repository) -> (r: Result<bool, SyncError>)
    ensures
        r matches Err(e) ==> e.arose_in(Stage::Read),
{
    match status_count(repo, true, true) {
        Ok(changed) => Ok(is_dirty(changed)),
        Err(e) => Err(backend_error(Stage::Read, "statuses", &e)),
    }
}

/// Whether the working tree of the active repository holds any change that
/// is not committed, untracked files included.
pub fn is_change(session: &mut Session) -> (r: Result<bool, SyncError>)
    ensures
        operation_post(old(session)@, final(session)@, r),
        final(session).handle() == old(session).handle(),
{
    let outcome = match session.repository("is_change") {
        Ok(repo) => has_changes(repo),
        Err(e) => {
            return Err(e);
        },
    };
    proof {
        if let Err(e) = &outcome {
            lemma_arose_in(*e, Stage::Read);
        }
    }
    session.settle(outcome)
}

/// An author identity: the name and the email attached to a commit.
#[derive(Debug)]
pub struct GitAuthor {
    pub name: String,
    pub email: String,
}

/// The identity made of a name and an email, where both are there.
pub open spec fn author_of_spec(name: Option<String>, email: Option<String>) -> Option<
    GitAuthor,
> {
    match (name, email) {
        (Some(name), Some(email)) => Some(GitAuthor { name, email }),
        _ => None,
    }
}

/// The identity made of a name and an email, where both are there.
pub fn author_of(name: Option<String>, email: Option<String>) -> (author: Option<GitAuthor>)
    ensures
        author == author_of_spec(name, email),
{
    match (name, email) {
        (Some(name), Some(email)) => Some(GitAuthor { name, email }),
        _ => None,
    }
}

/// The author of the commit at HEAD of `repo`, or nothing where there is
/// no such commit or its author's name or email is not valid UTF-8.
pub fn head_author(repo: &git2::Repository) -> (author: Option<GitAuthor>) {
    let head = match head_reference(repo) {
        Ok(head) => head,
        Err(_) => {
            return None;
        },
    };
    let commit = match peel_to_commit(&head) {
        Ok(commit) => commit,
        Err(_) => {
            return None;
        },
    };
    author_of(author_name(&commit), author_email(&commit))
}

/// The author of the last commit of the active repository, or nothing if
/// it has no commit yet.
pub fn signature(session: &Session) -> (r: Result<Option<GitAuthor>, SyncError>)
    ensures
        r is Ok <==> session@ == SessionState::Open,
        r matches Err(e) ==> e.wf() && Some(e.kind) == session@.refusal(),
{
    match session.repository("signature") {
        Ok(repo) => Ok(head_author(repo)),
        Err(e) => Err(e),
    }
}

/// Releasing the handle twice leaves the session as releasing it once does,
/// whatever it held.
pub proof fn lemma_close_idempotent(state: SessionState)
    ensures
        state.after_close().after_close() == state.after_close(),
        state.after_close() == SessionState::Closed,
{
}

/// A session that was found corrupt refuses every operation on the
/// repository with corruption and stays as it is, whatever the operation
/// would report; only adopting a repository or closing changes it.
pub proof fn lemma_poison_is_sticky(failure: Option<ErrorKind>)
    ensures
        SessionState::Poisoned.refusal() == Some(ErrorKind::RepositoryCorrupt),
        SessionState::Poisoned.after_operation(failure) == SessionState::Poisoned,
        SessionState::Poisoned.after_adopt(true) == SessionState::Open,
        SessionState::Poisoned.after_adopt(false) == SessionState::Poisoned,
        SessionState::Poisoned.after_close() == SessionState::Closed,
{
}

/// No operation on the repository opens or closes a session: a closed one
/// stays closed, and an active one stays active.
pub proof fn lemma_operations_keep_handle(state: SessionState, failure: Option<ErrorKind>)
    ensures
        state.after_operation(failure) == SessionState::Closed <==> state == SessionState::Closed,
{
}

} // verus!
