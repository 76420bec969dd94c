//! The commit writer: stages the whole working directory and records it.

use crate::backend::{
    commit_tree_id,
    holds_nul,
    refused_in_signature,
    create_commit,
    find_tree,
    head_reference,
    index_add_all,
    index_write,
    index_write_tree,
    oid_hex,
    peel_to_commit,
    repository_index,
    signature_now,
};
use crate::error::{backend_error, lemma_arose_in, ErrorKind, Stage, SyncError, CODE_GENERIC};
use crate::history::has_nul;
use crate::session::{operation_post, Session};
use vstd::prelude::*;

verus! {

/// What to do with a staged tree.
#[derive(Clone, Copy, Debug, PartialEq, Eq, Structural)]
pub enum CommitPlan {
    /// The branch has no commit yet: write a commit without a parent.
    Root,
    /// Write a commit on top of the branch tip.
    Child,
    /// The staged tree is the tree of the branch tip: there is nothing to
    /// record.
    Nothing,
}

/// The plan for a staged tree with identifier `staged`, given the
/// identifier of the tree of the branch tip, if the branch has one. A
/// commit without a parent is always written, also for an empty tree.
pub open spec fn commit_plan_spec(tip_tree: Option<Seq<char>>, staged: Seq<char>) -> CommitPlan {
    match tip_tree {
        None => CommitPlan::Root,
        Some(tree) => if tree == staged {
            CommitPlan::Nothing
        } else {
            CommitPlan::Child
        },
    }
}

/// The text of the identifier of the tip's tree, where there is a tip.
pub open spec fn tree_text(tip_tree: Option<String>) -> Option<Seq<char>> {
    match tip_tree {
        Some(tree) => Some(tree@),
        None => None,
    }
}

/// Decides what to do with a staged tree.
pub fn commit_plan(tip_tree: &Option<String>, staged: &String) -> (plan: CommitPlan)
    ensures
        plan == commit_plan_spec(tree_text(*tip_tree), staged@),
{
    match tip_tree {
        None => CommitPlan::Root,
        Some(tree) => if *tree == *staged {
            CommitPlan::Nothing
        } else {
            CommitPlan::Child
        },
    }
}

/// What a failure of a commit can be: nothing to commit, or a failure of
/// the backend while reading or writing.
pub open spec fn commit_failure(e: SyncError) -> bool {
    ||| e.wf() && e.kind == ErrorKind::NothingToCommit
    ||| e.arose_in(Stage::Read)
    ||| e.arose_in(Stage::Write)
}

/// Refuses a staged tree that is the tree of the branch tip: for such a
/// tree there is nothing to commit. Every other staged tree is let
/// through with what is to be done with it.
pub fn refuse_unchanged(tip_tree: &Option<String>, staged: &String) -> (r: Result<
    CommitPlan,
    SyncError,
>)
    ensures
        r is Err <==> commit_plan_spec(tree_text(*tip_tree), staged@) == CommitPlan::Nothing,
        r matches Ok(plan) ==> plan == commit_plan_spec(tree_text(*tip_tree), staged@),
        r matches Err(e) ==> e.wf() && e.kind == ErrorKind::NothingToCommit,
{
    match commit_plan(tip_tree, staged) {
        CommitPlan::Nothing => Err(SyncError::nothing_to_commit("commit")),
        plan => Ok(plan),
    }
}

/// The failure of a commit whose message holds a NUL character.
pub fn refused_message() -> (e: SyncError)
    ensures
        e.arose_in(Stage::Write),
        e.kind == ErrorKind::Unclassified,
{
    let e = SyncError::refused_input("commit", "the message holds a NUL character");
    assert(e.classified_as(Stage::Write, CODE_GENERIC as int, 0));
    e
}

/// Stages every path of the working directory of `repo`, additions,
/// modifications and deletions alike, and writes the staged tree as a
/// commit with the given message, authored and committed by the given
/// identity, on top of the branch tip. A branch without commits gets a
/// commit without a parent. Where the staged tree is the tree of the tip,
/// no commit is written and the commit fails with nothing to commit. The
/// identity and the message are looked at before anything is staged:
/// nothing is staged and the commit fails where the name or the email of
/// the author is empty or holds a NUL character or an angle bracket, or
/// where the message holds a NUL character.
pub fn commit_staged(
    repo: &git2::Repository,
    author_name: &str,
    author_email: &str,
    message: &str,
) -> (r: Result<(), SyncError>)
    ensures
        r matches Err(e) ==> commit_failure(e),
        refused_in_signature(author_name@) || refused_in_signature(author_email@) || holds_nul(
            message@,
        ) ==> r is Err,
{
    let signature = match signature_now(author_name, author_email) {
        Ok(signature) => signature,
        Err(e) => {
            return Err(backend_error(Stage::Write, "Signature::now", &e));
        },
    };
    if has_nul(message) {
        return Err(refused_message());
    }
    let mut index = match repository_index(repo) {
        Ok(index) => index,
        Err(e) => {
            return Err(backend_error(Stage::Read, "index", &e));
        },
    };
    if let Err(e) = index_add_all(&mut index, "*") {
        return Err(backend_error(Stage::Write, "add_all", &e));
    }
    if let Err(e) = index_write(&mut index) {
        return Err(backend_error(Stage::Write, "write", &e));
    }
    let tree_id = match index_write_tree(&mut index) {
        Ok(id) => id,
        Err(e) => {
            return Err(backend_error(Stage::Write, "write_tree", &e));
        },
    };
    let tree = match find_tree(repo, tree_id) {
        Ok(tree) => tree,
        Err(e) => {
            return Err(backend_error(Stage::Read, "find_tree", &e));
        },
    };
    let parent = match head_reference(repo) {
        Ok(head) => match peel_to_commit(&head) {
            Ok(commit) => Some(commit),
            Err(_) => None,
        },
        Err(_) => None,
    };
    let tip_tree = match &parent {
        Some(commit) => Some(oid_hex(commit_tree_id(commit))),
        None => None,
    };
    let staged = oid_hex(tree_id);
    if let Err(e) = refuse_unchanged(&tip_tree, &staged) {
        return Err(e);
    }
    let first_parent = match &parent {
        Some(commit) => Some(commit),
        None => None,
    };
    match create_commit(repo, "HEAD", &signature, &signature, message, &tree, first_parent, None) {
        Ok(_) => Ok(()),
        Err(e) => Err(backend_error(Stage::Write, "commit", &e)),
    }
}

/// Stages every change of the working directory of the active repository
/// and commits it with the given message in the name of the given author.
pub fn commit_all(
    session: &mut Session,
    author_name: &str,
    author_email: &str,
    message: &str,
) -> (r: Result<(), SyncError>)
    ensures
        operation_post(old(session)@, final(session)@, r),
        final(session).handle() == old(session).handle(),
        refused_in_signature(author_name@) || refused_in_signature(author_email@) || holds_nul(
            message@,
        ) ==> r is Err,
{
    let outcome = match session.repository("commit_all") {
        Ok(repo) => commit_staged(repo, author_name, author_email, message),
        Err(e) => {
            return Err(e);
        },
    };
    proof {
        if let Err(e) = &outcome {
            if e.arose_in(Stage::Read) {
                lemma_arose_in(*e, Stage::Read);
            } else if e.arose_in(Stage::Write) {
                lemma_arose_in(*e, Stage::Write);
            }
        }
    }
    session.settle(outcome)
}

/// A commit is refused as nothing to commit exactly where the branch has a
/// tip and the staged tree is the tree of that tip: the first commit of a
/// branch is never refused.
pub proof fn lemma_nothing_to_commit(tip_tree: Option<Seq<char>>, staged: Seq<char>)
    ensures
        commit_plan_spec(tip_tree, staged) == CommitPlan::Nothing <==> tip_tree == Some(staged),
        commit_plan_spec(None, staged) == CommitPlan::Root,
{
}

} // verus!
