//! Exchange of history with the remote: clone, fetch, pull and push.

use crate::backend::{
    annotate_reference,
    clone_repository,
    decide_certificates,
    fetch_options,
    find_reference,
    find_remote,
    new_callbacks,
    push_options,
    remote_fetch,
    remote_push,
    supply_credential,
    watch_transfer,
};
use crate::credential::Cred;
use crate::error::{backend_error, failure_of, lemma_arose_in, ErrorKind, Stage, SyncError};
use crate::merge::{do_merge, normal_merge_failure, MergeOutcome};
use crate::session::{operation_post, GitAuthor, Session};
use vstd::prelude::*;
use vstd::string::StringExecFns;

verus! {

/// The name of the one remote that a repository is synchronized with.
pub const REMOTE: &'static str = "origin";

/// The name of the one branch that is synchronized.
pub const BRANCH: &'static str = "main";

/// The refspec that names the tracked branch on both sides.
pub open spec fn tracked_refspec_spec() -> Seq<char> {
    "refs/heads/"@ + BRANCH@ + ":refs/heads/"@ + BRANCH@
}

/// The refspec that uploads the tracked branch to the branch of the same
/// name.
pub fn tracked_refspec() -> (refspec: String)
    ensures
        refspec@ == tracked_refspec_spec(),
{
    let mut refspec = String::from_str("refs/heads/");
    refspec.append(BRANCH);
    refspec.append(":refs/heads/");
    refspec.append(BRANCH);
    refspec
}

/// The verdict on a certificate that the remote presents: every certificate
/// is accepted. The identity of the server is deliberately not verified.
pub fn certificate_verdict() -> (verdict: git2::CertificateCheckStatus)
    ensures
        verdict is CertificateOk,
{
    git2::CertificateCheckStatus::CertificateOk
}

/// The callbacks of every transfer: certificates are decided by
/// `certificate_verdict`, and the remote is offered `cred` where there is
/// one, a single time; `offered` notes that it was. Without a credential
/// the backend's own default is tried.
pub fn transfer_callbacks<'a>(cred: &'a Option<Cred>, offered: &'a mut bool) -> (callbacks:
    git2::RemoteCallbacks<'a>) {
    let mut callbacks = new_callbacks();
    decide_certificates(&mut callbacks);
    if let Some(cred) = cred {
        supply_credential(&mut callbacks, cred, offered);
    }
    callbacks
}

/// What a failure of a clone can be: the backend's failure as it is
/// classified for a clone, or a cancellation where the reporter asked to
/// stop.
pub open spec fn clone_failure(e: SyncError) -> bool {
    e.wf() && e.has_backend_status() && e.paths@.len() == 0 && (e.arose_in(Stage::Clone) || e.kind
        == ErrorKind::TransferCancelled)
}

/// Clones the history at `remote_url` into a new repository at `repo_path`
/// and makes it the active one. While objects arrive, `reporter` is handed
/// the percentage done and may stop the transfer by answering `false`; the
/// clone then fails as cancelled. On failure the session is left as it was.
pub fn clone_repo<F: Fn(i32) -> bool>(
    session: &mut Session,
    repo_path: &str,
    remote_url: &str,
    cred: Option<Cred>,
    reporter: &F,
) -> (r: Result<(), SyncError>)
    requires
        forall|percent: i32| call_requires(*reporter, (percent,)),
    ensures
        final(session)@ == old(session)@.after_adopt(r is Ok),
        r matches Err(e) ==> clone_failure(e) && *final(session) == *old(session),
{
    let mut stopped = false;
    let mut offered = false;
    let mut callbacks = transfer_callbacks(&cred, &mut offered);
    watch_transfer(&mut callbacks, reporter, &mut stopped);
    let cloned = clone_repository(remote_url, repo_path, fetch_options(callbacks));
    let opened = match cloned {
        Ok(repo) => Ok(repo),
        Err(e) => Err(SyncError::from_transfer_failure(Stage::Clone, "clone", failure_of(&e), stopped)),
    };
    session.adopt(opened)
}

/// What a failure of a transfer with the remote of the active repository
/// can be: a failure to look up the remote, or a failure of the transfer.
pub open spec fn transfer_failure(e: SyncError) -> bool {
    e.arose_in(Stage::Resolve) || e.arose_in(Stage::Transport)
}

/// Uploads the tracked branch of `repo` to the remote. The transfer is
/// attempted once.
pub fn push_branch(repo: &git2::Repository, cred: Option<Cred>) -> (r: Result<(), SyncError>)
    ensures
        r matches Err(e) ==> transfer_failure(e),
{
    let mut remote = match find_remote(repo, REMOTE) {
        Ok(remote) => remote,
        Err(e) => {
            return Err(backend_error(Stage::Resolve, "find_remote", &e));
        },
    };
    let mut offered = false;
    let mut options = push_options(transfer_callbacks(&cred, &mut offered));
    match remote_push(&mut remote, tracked_refspec().as_str(), &mut options) {
        Ok(()) => Ok(()),
        Err(e) => Err(backend_error(Stage::Transport, "push", &e)),
    }
}

/// Uploads the tracked branch of the active repository to the remote.
pub fn push(session: &mut Session, cred: Option<Cred>) -> (r: Result<(), SyncError>)
    ensures
        operation_post(old(session)@, final(session)@, r),
        final(session).handle() == old(session).handle(),
        r is Err && old(session)@ == crate::session::SessionState::Open ==> final(session)@
            == crate::session::SessionState::Open,
{
    let outcome = match session.repository("push") {
        Ok(repo) => push_branch(repo, cred),
        Err(e) => {
            return Err(e);
        },
    };
    proof {
        if let Err(e) = &outcome {
            if e.arose_in(Stage::Resolve) {
                lemma_arose_in(*e, Stage::Resolve);
            } else {
                lemma_arose_in(*e, Stage::Transport);
            }
        }
    }
    session.settle(outcome)
}

/// Downloads the history of the remote into `repo`, as the refspecs that
/// are configured for the remote say. The transfer is attempted once.
pub fn fetch_remote(repo: &git2::Repository, cred: Option<Cred>) -> (r: Result<(), SyncError>)
    ensures
        r matches Err(e) ==> transfer_failure(e),
{
    let mut remote = match find_remote(repo, REMOTE) {
        Ok(remote) => remote,
        Err(e) => {
            return Err(backend_error(Stage::Resolve, "find_remote", &e));
        },
    };
    let mut offered = false;
    let mut options = fetch_options(transfer_callbacks(&cred, &mut offered));
    let configured: Vec<String> = Vec::new();
    match remote_fetch(&mut remote, &configured, &mut options) {
        Ok(()) => Ok(()),
        Err(e) => Err(backend_error(Stage::Transport, "fetch", &e)),
    }
}

/// Downloads the history of the remote into the active repository.
pub fn fetch(session: &mut Session, cred: Option<Cred>) -> (r: Result<(), SyncError>)
    ensures
        operation_post(old(session)@, final(session)@, r),
        final(session).handle() == old(session).handle(),
        r is Err && old(session)@ == crate::session::SessionState::Open ==> final(session)@
            == crate::session::SessionState::Open,
{
    let outcome = match session.repository("fetch") {
        Ok(repo) => fetch_remote(repo, cred),
        Err(e) => {
            return Err(e);
        },
    };
    proof {
        if let Err(e) = &outcome {
            if e.arose_in(Stage::Resolve) {
                lemma_arose_in(*e, Stage::Resolve);
            } else {
                lemma_arose_in(*e, Stage::Transport);
            }
        }
    }
    session.settle(outcome)
}

/// What a failure of a pull can be: a failure of the transfer or of the
/// merge that follows it.
pub open spec fn pull_failure(e: SyncError) -> bool {
    transfer_failure(e) || normal_merge_failure(e)
}

/// Downloads the history of the remote into `repo` and reconciles the
/// tracked branch with the fetched tip. `author` signs a merge commit.
pub fn pull_branch(repo: &git2::Repository, cred: Option<Cred>, author: &GitAuthor) -> (r: Result<
    MergeOutcome,
    SyncError,
>)
    ensures
        r matches Err(e) ==> pull_failure(e),
{
    if let Err(e) = fetch_remote(repo, cred) {
        return Err(e);
    }
    let fetch_head = match find_reference(repo, "FETCH_HEAD") {
        Ok(reference) => reference,
        Err(e) => {
            return Err(backend_error(Stage::Resolve, "find_reference", &e));
        },
    };
    let fetch_commit = match annotate_reference(repo, &fetch_head) {
        Ok(commit) => commit,
        Err(e) => {
            return Err(backend_error(Stage::Read, "reference_to_annotated_commit", &e));
        },
    };
    do_merge(repo, BRANCH, fetch_commit, author)
}

/// Downloads the history of the remote into the active repository and
/// reconciles the tracked branch with the fetched tip. `author` signs a
/// merge commit.
pub fn pull(session: &mut Session, cred: Option<Cred>, author: &GitAuthor) -> (r: Result<
    MergeOutcome,
    SyncError,
>)
    ensures
        operation_post(old(session)@, final(session)@, r),
        final(session).handle() == old(session).handle(),
{
    let outcome = match session.repository("pull") {
        Ok(repo) => pull_branch(repo, cred, author),
        Err(e) => {
            return Err(e);
        },
    };
    proof {
        if let Err(e) = &outcome {
            if e.arose_in(Stage::Resolve) {
                lemma_arose_in(*e, Stage::Resolve);
            } else if e.arose_in(Stage::Transport) {
                lemma_arose_in(*e, Stage::Transport);
            } else if e.arose_in(Stage::Read) {
                lemma_arose_in(*e, Stage::Read);
            } else if e.arose_in(Stage::Write) {
                lemma_arose_in(*e, Stage::Write);
            }
        }
    }
    session.settle(outcome)
}

} // verus!
