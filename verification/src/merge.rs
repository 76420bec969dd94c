//! Reconciliation of the local branch with a fetched remote tip.
//!
//! A merge is a walk through the states of `MergeState`. It starts from a
//! fetched tip, analyzes how the tip relates to HEAD, and ends in one of
//! four states: nothing to do, the branch fast-forwarded, a merge commit
//! written, or a conflict reported. The analysis is the backend's; what it
//! calls for is decided by `plan_merge`, and `carry_out` takes the merge
//! from there to its end. The first three ends are the values of
//! `MergeOutcome`; a conflict is reported as a failure.

use crate::backend::{
    annotate_reference,
    annotated_id,
    checkout_head,
    checkout_index,
    commit_tree,
    create_commit,
    create_reference,
    find_commit,
    find_reference,
    find_tree,
    force_checkout,
    head_reference,
    holds_nul,
    index_conflicts,
    index_has_conflicts,
    index_write_tree_to,
    merge_analysis_bits,
    merge_base,
    merge_trees,
    new_checkout_options,
    oid_hex,
    reference_name,
    refused_in_signature,
    set_head,
    set_reference_target,
    signature_now,
    utf8_text,
};
use crate::error::{backend_error, ErrorKind, Stage, SyncError};
use crate::session::GitAuthor;
use vstd::prelude::*;
use vstd::string::StringExecFns;
use vstd::utf8::{decode_utf8, valid_utf8};

verus! {

/// Analysis flag: HEAD and the tip have diverged and must be merged.
pub const ANALYSIS_NORMAL: u32 = 1;

/// Analysis flag: the tip is reachable from HEAD.
pub const ANALYSIS_UP_TO_DATE: u32 = 2;

/// Analysis flag: HEAD is an ancestor of the tip, or is unborn.
pub const ANALYSIS_FAST_FORWARD: u32 = 4;

/// What the analysis of a fetched tip calls for.
#[derive(Clone, Copy, Debug, PartialEq, Eq, Structural)]
pub enum MergePlan {
    /// The tip brings nothing new.
    UpToDate,
    /// The branch can be moved to the tip.
    FastForward,
    /// The two histories have to be merged.
    NormalMerge,
}

/// The states in which a merge ends without a failure.
#[derive(Clone, Copy, Debug, PartialEq, Eq, Structural)]
pub enum MergeOutcome {
    /// Nothing was done.
    UpToDate,
    /// The branch and the working tree were moved to the tip; no commit
    /// was written.
    FastForward,
    /// A commit with the local and the remote tip as parents was written.
    Committed,
}

/// The states of a merge.
#[derive(Clone, Copy, Debug, PartialEq, Eq, Structural)]
pub enum MergeState {
    /// The remote tip was fetched; nothing is known of it yet.
    Fetched,
    /// The relation of the tip to HEAD was analyzed.
    Analyzed,
    /// The tip brings nothing new. The merge ends here.
    UpToDate,
    /// The branch is moved to the tip. The merge ends here.
    FastForward,
    /// The histories have diverged and are merged.
    NormalMerge,
    /// The merge commit was written. The merge ends here.
    Committed,
    /// Changes overlap. The merge ends here, without a commit.
    Conflict,
}

impl MergeState {
    /// Whether a merge can go from this state to `next` in one step.
    pub open spec fn steps_to(self, next: MergeState) -> bool {
        match self {
            MergeState::Fetched => next == MergeState::Analyzed,
            MergeState::Analyzed => next == MergeState::UpToDate || next
                == MergeState::FastForward || next == MergeState::NormalMerge,
            MergeState::NormalMerge => next == MergeState::Committed || next
                == MergeState::Conflict,
            _ => false,
        }
    }

    /// Whether a merge ends in this state.
    pub open spec fn is_terminal(self) -> bool {
        self == MergeState::UpToDate || self == MergeState::FastForward || self
            == MergeState::Committed || self == MergeState::Conflict
    }

    /// Whether a merge can go from this state to `end` in at most `steps`
    /// steps.
    pub open spec fn reaches(self, end: MergeState, steps: nat) -> bool
        decreases steps,
    {
        self == end || (steps > 0 && exists|next: MergeState| #[trigger]
            self.steps_to(next) && next.reaches(end, (steps - 1) as nat))
    }
}

impl MergePlan {
    /// The state that the plan stands for.
    pub open spec fn state_spec(self) -> MergeState {
        match self {
            MergePlan::UpToDate => MergeState::UpToDate,
            MergePlan::FastForward => MergeState::FastForward,
            MergePlan::NormalMerge => MergeState::NormalMerge,
        }
    }

    /// The state in which a merge that follows this plan ends when it does
    /// not fail.
    pub open spec fn success(self) -> MergeOutcome {
        match self {
            MergePlan::UpToDate => MergeOutcome::UpToDate,
            MergePlan::FastForward => MergeOutcome::FastForward,
            MergePlan::NormalMerge => MergeOutcome::Committed,
        }
    }

    /// The state that the plan stands for.
    pub fn state(self) -> (state: MergeState)
        ensures
            state == self.state_spec(),
    {
        match self {
            MergePlan::UpToDate => MergeState::UpToDate,
            MergePlan::FastForward => MergeState::FastForward,
            MergePlan::NormalMerge => MergeState::NormalMerge,
        }
    }
}

impl MergeOutcome {
    /// The state that the outcome stands for.
    pub open spec fn state_spec(self) -> MergeState {
        match self {
            MergeOutcome::UpToDate => MergeState::UpToDate,
            MergeOutcome::FastForward => MergeState::FastForward,
            MergeOutcome::Committed => MergeState::Committed,
        }
    }

    /// Whether a merge that ends in this state wrote a commit.
    pub open spec fn writes_commit(self) -> bool {
        self == MergeOutcome::Committed
    }

    /// The state that the outcome stands for.
    pub fn state(self) -> (state: MergeState)
        ensures
            state == self.state_spec(),
            state.is_terminal(),
    {
        match self {
            MergeOutcome::UpToDate => MergeState::UpToDate,
            MergeOutcome::FastForward => MergeState::FastForward,
            MergeOutcome::Committed => MergeState::Committed,
        }
    }
}

/// Whether `flag` is set in `bits`.
pub open spec fn has_flag(bits: u32, flag: u32) -> bool {
    bits & flag != 0
}

/// The plan for the analysis flags `bits`: a fast-forward wherever one is
/// possible, else a merge where the histories have diverged, else nothing.
pub open spec fn plan_spec(bits: u32) -> MergePlan {
    if has_flag(bits, ANALYSIS_FAST_FORWARD) {
        MergePlan::FastForward
    } else if has_flag(bits, ANALYSIS_NORMAL) {
        MergePlan::NormalMerge
    } else {
        MergePlan::UpToDate
    }
}

/// Decides what the analysis flags call for.
pub fn plan_merge(bits: u32) -> (plan: MergePlan)
    ensures
        plan == plan_spec(bits),
{
    if bits & ANALYSIS_FAST_FORWARD != 0 {
        MergePlan::FastForward
    } else if bits & ANALYSIS_NORMAL != 0 {
        MergePlan::NormalMerge
    } else {
        MergePlan::UpToDate
    }
}

/// The paths of one conflict, on each of the three sides that has an entry.
#[derive(Debug)]
pub struct ConflictSides {
    pub ancestor: Option<Vec<u8>>,
    pub ours: Option<Vec<u8>>,
    pub theirs: Option<Vec<u8>>,
}

/// The path that names a conflict: ours where we have an entry, else
/// theirs, else the ancestor's.
pub open spec fn conflict_path_spec(sides: ConflictSides) -> Option<Seq<u8>> {
    match sides.ours {
        Some(path) => Some(path@),
        None => match sides.theirs {
            Some(path) => Some(path@),
            None => match sides.ancestor {
                Some(path) => Some(path@),
                None => None,
            },
        },
    }
}

/// The name of a conflict: the text of its path, where it has one and the
/// path is valid UTF-8.
pub open spec fn conflict_name_spec(sides: ConflictSides) -> Option<Seq<char>> {
    match conflict_path_spec(sides) {
        Some(path) => if valid_utf8(path) {
            Some(decode_utf8(path))
        } else {
            None
        },
        None => None,
    }
}

/// The names of the conflicts that have one, in their order.
pub open spec fn conflict_names_spec(conflicts: Seq<ConflictSides>) -> Seq<Seq<char>>
    decreases conflicts.len(),
{
    if conflicts.len() == 0 {
        Seq::empty()
    } else {
        let before = conflict_names_spec(conflicts.drop_last());
        match conflict_name_spec(conflicts.last()) {
            Some(name) => before.push(name),
            None => before,
        }
    }
}

/// The texts of a sequence of strings.
pub open spec fn texts(strings: Seq<String>) -> Seq<Seq<char>> {
    strings.map_values(|s: String| s@)
}

/// The path that names a conflict.
pub fn conflict_path(sides: &ConflictSides) -> (path: Option<&Vec<u8>>)
    ensures
        path is Some <==> conflict_path_spec(*sides) is Some,
        path matches Some(p) ==> Some(p@) == conflict_path_spec(*sides),
{
    match &sides.ours {
        Some(path) => Some(path),
        None => match &sides.theirs {
            Some(path) => Some(path),
            None => match &sides.ancestor {
                Some(path) => Some(path),
                None => None,
            },
        },
    }
}

/// The names of the conflicts that have one, in their order.
pub fn conflict_names(conflicts: &Vec<ConflictSides>) -> (names: Vec<String>)
    ensures
        texts(names@) == conflict_names_spec(conflicts@),
{
    let mut names: Vec<String> = Vec::new();
    let mut i: usize = 0;
    assert(conflicts@.take(0) =~= Seq::empty());
    assert(texts(names@) =~= conflict_names_spec(conflicts@.take(0)));
    while i < conflicts.len()
        invariant
            i <= conflicts.len(),
            texts(names@) == conflict_names_spec(conflicts@.take(i as int)),
        decreases conflicts.len() - i,
    {
        let ghost before = names@;
        let name = match conflict_path(&conflicts[i]) {
            Some(path) => utf8_text(path),
            None => None,
        };
        assert(conflicts@.take(i + 1).drop_last() =~= conflicts@.take(i as int));
        assert(conflicts@.take(i + 1).last() == conflicts@[i as int]);
        if let Some(name) = name {
            names.push(name);
            assert(texts(names@) =~= texts(before).push(name@));
        }
        i += 1;
    }
    assert(conflicts@.take(conflicts.len() as int) =~= conflicts@);
    names
}

/// The full name of the local branch `branch`.
pub fn branch_refname(branch: &str) -> (refname: String)
    ensures
        refname@ == "refs/heads/"@ + branch@,
{
    let mut refname = String::from_str("refs/heads/");
    refname.append(branch);
    refname
}

/// The log message of a fast-forward of the reference `name` to the commit
/// `id`.
pub fn fast_forward_log(name: &str, id: &str) -> (log: String)
    ensures
        log@ == "Fast-Forward: Setting "@ + name@ + " to id: "@ + id@,
{
    let mut log = String::from_str("Fast-Forward: Setting ");
    log.append(name);
    log.append(" to id: ");
    log.append(id);
    log
}

/// The log message of the creation of the branch `branch` at the commit
/// `id`.
pub fn new_branch_log(branch: &str, id: &str) -> (log: String)
    ensures
        log@ == "Setting "@ + branch@ + " to "@ + id@,
{
    let mut log = String::from_str("Setting ");
    log.append(branch);
    log.append(" to ");
    log.append(id);
    log
}

/// The message of the commit that merges the commit `remote` into the
/// commit `local`. It says that the commit is a merge, and of what.
pub fn merge_message(remote: &str, local: &str) -> (message: String)
    ensures
        message@ == "Merge: "@ + remote@ + " into "@ + local@,
{
    let mut message = String::from_str("Merge: ");
    message.append(remote);
    message.append(" into ");
    message.append(local);
    message
}

/// Moves the branch `branch` of `repo` to the fetched tip, makes HEAD point
/// to it and brings the working tree in line. Where the branch does not
/// exist yet, it is created at the tip. No commit is written. No branch has
/// a NUL character in its name: with such a name the fast-forward fails.
pub fn fast_forward(
    repo: &git2::Repository,
    branch: &str,
    fetch_commit: &git2::AnnotatedCommit<'_>,
) -> (r: Result<(), SyncError>)
    ensures
        r matches Err(e) ==> e.arose_in(Stage::Write),
        holds_nul(branch@) ==> r is Err,
{
    let target = annotated_id(fetch_commit);
    let refname = branch_refname(branch);
    proof {
        lemma_nul_survives_prefix("refs/heads/"@, branch@);
    }
    match find_reference(repo, refname.as_str()) {
        Ok(mut reference) => {
            let name = match reference_name(&reference) {
                Some(name) => name,
                None => refname,
            };
            let log = fast_forward_log(name.as_str(), oid_hex(target).as_str());
            if let Err(e) = set_reference_target(&mut reference, target, log.as_str()) {
                return Err(backend_error(Stage::Write, "set_target", &e));
            }
            if let Err(e) = set_head(repo, name.as_str()) {
                return Err(backend_error(Stage::Write, "set_head", &e));
            }
        },
        Err(_) => {
            let log = new_branch_log(branch, oid_hex(target).as_str());
            if let Err(e) = create_reference(repo, refname.as_str(), target, true, log.as_str()) {
                return Err(backend_error(Stage::Write, "reference", &e));
            }
            if let Err(e) = set_head(repo, refname.as_str()) {
                return Err(backend_error(Stage::Write, "set_head", &e));
            }
        },
    }
    forced_checkout_of_head(repo)
}

/// Brings the index and the working tree of `repo` in line with the commit
/// at HEAD. What differs from it in the working tree is discarded.
pub fn forced_checkout_of_head(repo: &git2::Repository) -> (r: Result<(), SyncError>)
    ensures
        r matches Err(e) ==> e.arose_in(Stage::Write),
{
    let mut options = new_checkout_options();
    force_checkout(&mut options);
    match checkout_head(repo, &mut options) {
        Ok(()) => Ok(()),
        Err(e) => Err(backend_error(Stage::Write, "checkout_head", &e)),
    }
}

/// What a failure of a three-way merge can be: a conflict that names its
/// paths, or a failure of the backend while reading, looking up HEAD or
/// writing.
pub open spec fn normal_merge_failure(e: SyncError) -> bool {
    ||| e.wf() && e.kind == ErrorKind::MergeConflict
    ||| e.arose_in(Stage::Resolve)
    ||| e.arose_in(Stage::Read)
    ||| e.arose_in(Stage::Write)
}

/// What reading the two sides of a three-way merge gives: the two tips,
/// the index that holds the merge of their trees over the tree of their
/// merge base, and the conflicts of that index where it has any.
pub struct MergeReading<'r> {
    pub local_id: git2::Oid,
    pub remote_id: git2::Oid,
    pub local_commit: git2::Commit<'r>,
    pub remote_commit: git2::Commit<'r>,
    pub index: git2::Index,
    pub conflicts: Option<Vec<ConflictSides>>,
}

/// Reads what a three-way merge of the fetched tip into the commit that
/// `head` leads to needs: the two commits, their trees, their merge base
/// and its tree, the merge of the three trees, and its conflicts. Nothing
/// is written. Whatever cannot be read is reported as a failure of
/// reading, which counts as corruption.
pub fn read_merge<'r>(
    repo: &'r git2::Repository,
    head: &git2::Reference<'_>,
    fetch_commit: &git2::AnnotatedCommit<'_>,
) -> (r: Result<MergeReading<'r>, SyncError>)
    ensures
        r matches Err(e) ==> e.arose_in(Stage::Read) && e.kind == ErrorKind::RepositoryCorrupt,
{
    let outcome = read_merge_steps(repo, head, fetch_commit);
    proof {
        if let Err(e) = &outcome {
            crate::error::lemma_arose_in(*e, Stage::Read);
        }
    }
    outcome
}

fn read_merge_steps<'r>(
    repo: &'r git2::Repository,
    head: &git2::Reference<'_>,
    fetch_commit: &git2::AnnotatedCommit<'_>,
) -> (r: Result<MergeReading<'r>, SyncError>)
    ensures
        r matches Err(e) ==> e.arose_in(Stage::Read),
{
    let local = match annotate_reference(repo, head) {
        Ok(local) => local,
        Err(e) => {
            return Err(backend_error(Stage::Read, "reference_to_annotated_commit", &e));
        },
    };
    let local_id = annotated_id(&local);
    let remote_id = annotated_id(fetch_commit);
    let local_commit = match find_commit(repo, local_id) {
        Ok(commit) => commit,
        Err(e) => {
            return Err(backend_error(Stage::Read, "find_commit", &e));
        },
    };
    let remote_commit = match find_commit(repo, remote_id) {
        Ok(commit) => commit,
        Err(e) => {
            return Err(backend_error(Stage::Read, "find_commit", &e));
        },
    };
    let local_tree = match commit_tree(&local_commit) {
        Ok(tree) => tree,
        Err(e) => {
            return Err(backend_error(Stage::Read, "tree", &e));
        },
    };
    let remote_tree = match commit_tree(&remote_commit) {
        Ok(tree) => tree,
        Err(e) => {
            return Err(backend_error(Stage::Read, "tree", &e));
        },
    };
    let base_id = match merge_base(repo, local_id, remote_id) {
        Ok(id) => id,
        Err(e) => {
            return Err(backend_error(Stage::Read, "merge_base", &e));
        },
    };
    let base_commit = match find_commit(repo, base_id) {
        Ok(commit) => commit,
        Err(e) => {
            return Err(backend_error(Stage::Read, "find_commit", &e));
        },
    };
    let base_tree = match commit_tree(&base_commit) {
        Ok(tree) => tree,
        Err(e) => {
            return Err(backend_error(Stage::Read, "tree", &e));
        },
    };
    let index = match merge_trees(repo, &base_tree, &local_tree, &remote_tree) {
        Ok(index) => index,
        Err(e) => {
            return Err(backend_error(Stage::Read, "merge_trees", &e));
        },
    };
    let conflicts = if index_has_conflicts(&index) {
        match index_conflicts(&index) {
            Ok(conflicts) => Some(conflicts),
            Err(e) => {
                return Err(backend_error(Stage::Read, "conflicts", &e));
            },
        }
    } else {
        None
    };
    Ok(MergeReading { local_id, remote_id, local_commit, remote_commit, index, conflicts })
}

/// The failure of a merge that met the given conflicts: a merge conflict
/// that names them.
pub fn conflict_failure(conflicts: &Vec<ConflictSides>) -> (e: SyncError)
    ensures
        e.wf(),
        e.kind == ErrorKind::MergeConflict,
        texts(e.paths@) == conflict_names_spec(conflicts@),
{
    SyncError::merge_conflict("merge_trees", conflict_names(conflicts))
}

/// Merges the fetched tip into HEAD of `repo` by a three-way merge over
/// their merge base. Where nothing overlaps, a commit with the local and
/// the remote tip as parents, in this order, is written in the name of
/// `author` and the working tree is brought in line. Where changes overlap,
/// the merged index is checked out, which leaves the conflicts in the
/// working tree, no commit is written, and the conflict is reported with
/// the names of its paths. The identity is looked at first: nothing is
/// read or written, and the merge fails, where the name or the email of
/// `author` is empty or holds a NUL character or an angle bracket. Nothing
/// is written before all is read.
pub fn normal_merge(
    repo: &git2::Repository,
    fetch_commit: &git2::AnnotatedCommit<'_>,
    author: &GitAuthor,
) -> (r: Result<(), SyncError>)
    ensures
        r matches Err(e) ==> normal_merge_failure(e),
        refused_in_signature(author.name@) || refused_in_signature(author.email@) ==> r is Err,
{
    let signature = match signature_now(author.name.as_str(), author.email.as_str()) {
        Ok(signature) => signature,
        Err(e) => {
            return Err(backend_error(Stage::Write, "Signature::now", &e));
        },
    };
    let head = match head_reference(repo) {
        Ok(head) => head,
        Err(e) => {
            return Err(backend_error(Stage::Resolve, "head", &e));
        },
    };
    let mut reading = match read_merge(repo, &head, fetch_commit) {
        Ok(reading) => reading,
        Err(e) => {
            return Err(e);
        },
    };
    if let Some(conflicts) = &reading.conflicts {
        if let Err(e) = checkout_index(repo, &mut reading.index) {
            return Err(backend_error(Stage::Write, "checkout_index", &e));
        }
        return Err(conflict_failure(conflicts));
    }
    let tree_id = match index_write_tree_to(&mut reading.index, repo) {
        Ok(id) => id,
        Err(e) => {
            return Err(backend_error(Stage::Write, "write_tree_to", &e));
        },
    };
    let tree = match find_tree(repo, tree_id) {
        Ok(tree) => tree,
        Err(e) => {
            return Err(backend_error(Stage::Read, "find_tree", &e));
        },
    };
    let message = merge_message(
        oid_hex(reading.remote_id).as_str(),
        oid_hex(reading.local_id).as_str(),
    );
    if let Err(e) = create_commit(
        repo,
        "HEAD",
        &signature,
        &signature,
        message.as_str(),
        &tree,
        Some(&reading.local_commit),
        Some(&reading.remote_commit),
    ) {
        return Err(backend_error(Stage::Write, "commit", &e));
    }
    forced_checkout_of_head(repo)
}

/// Carries out `plan` for the fetched tip: nothing for a tip that brings
/// nothing new, which cannot fail; a fast-forward of `branch`; or a
/// three-way merge. A merge that does not fail ends in the state that the
/// plan leads to, and only a three-way merge can report a conflict.
pub fn carry_out(
    repo: &git2::Repository,
    plan: MergePlan,
    branch: &str,
    fetch_commit: &git2::AnnotatedCommit<'_>,
    author: &GitAuthor,
) -> (r: Result<MergeOutcome, SyncError>)
    ensures
        plan == MergePlan::UpToDate ==> r is Ok,
        r matches Ok(outcome) ==> outcome == plan.success(),
        r matches Err(e) ==> normal_merge_failure(e),
        r matches Err(e) ==> (e.kind == ErrorKind::MergeConflict ==> plan
            == MergePlan::NormalMerge),
        plan == MergePlan::FastForward && holds_nul(branch@) ==> r is Err,
        plan == MergePlan::NormalMerge && (refused_in_signature(author.name@)
            || refused_in_signature(author.email@)) ==> r is Err,
{
    match plan {
        MergePlan::UpToDate => Ok(MergeOutcome::UpToDate),
        MergePlan::FastForward => match fast_forward(repo, branch, fetch_commit) {
            Ok(()) => Ok(MergeOutcome::FastForward),
            Err(e) => {
                proof {
                    crate::error::lemma_arose_in(e, Stage::Write);
                }
                Err(e)
            },
        },
        MergePlan::NormalMerge => match normal_merge(repo, fetch_commit, author) {
            Ok(()) => Ok(MergeOutcome::Committed),
            Err(e) => Err(e),
        },
    }
}

/// Analyzes how the fetched tip relates to HEAD of `repo` and decides what
/// the analysis calls for. Nothing is written. A failure to analyze is a
/// failure of reading, which counts as corruption.
pub fn analyze(repo: &git2::Repository, fetch_commit: &git2::AnnotatedCommit<'_>) -> (r: Result<
    MergePlan,
    SyncError,
>)
    ensures
        r matches Err(e) ==> e.arose_in(Stage::Read) && e.kind == ErrorKind::RepositoryCorrupt,
{
    match merge_analysis_bits(repo, fetch_commit) {
        Ok(bits) => Ok(plan_merge(bits)),
        Err(e) => {
            let failure = backend_error(Stage::Read, "merge_analysis", &e);
            proof {
                crate::error::lemma_arose_in(failure, Stage::Read);
            }
            Err(failure)
        },
    }
}

/// Reconciles HEAD of `repo` with the fetched tip: analyzes how the tip
/// relates to HEAD and carries out what the analysis calls for. `branch` is
/// the local branch that a fast-forward moves; `author` signs a merge
/// commit. A failure to analyze counts as corruption.
pub fn do_merge(
    repo: &git2::Repository,
    branch: &str,
    fetch_commit: git2::AnnotatedCommit<'_>,
    author: &GitAuthor,
) -> (r: Result<MergeOutcome, SyncError>)
    ensures
        r matches Err(e) ==> normal_merge_failure(e),
{
    let plan = match analyze(repo, &fetch_commit) {
        Ok(plan) => plan,
        Err(e) => {
            return Err(e);
        },
    };
    carry_out(repo, plan, branch, &fetch_commit, author)
}

/// A NUL character in a text is still there when the text is put behind a
/// prefix.
pub proof fn lemma_nul_survives_prefix(prefix: Seq<char>, text: Seq<char>)
    ensures
        holds_nul(text) ==> holds_nul(prefix + text),
{
    if holds_nul(text) {
        let i = choose|i: int| 0 <= i < text.len() && text[i] == '\0';
        assert((prefix + text)[prefix.len() + i] == '\0');
    }
}

/// A merge ends exactly in the states that no step leads out of.
pub proof fn lemma_terminal_states_have_no_successor(state: MergeState)
    ensures
        state.is_terminal() <==> forall|next: MergeState| !state.steps_to(next),
{
    if !state.is_terminal() {
        match state {
            MergeState::Fetched => {
                assert(state.steps_to(MergeState::Analyzed));
            },
            MergeState::Analyzed => {
                assert(state.steps_to(MergeState::UpToDate));
            },
            _ => {
                assert(state.steps_to(MergeState::Committed));
            },
        }
    }
}

/// A commit or a conflict is reached through a three-way merge only: no
/// step leads there from a fast-forward or from an up-to-date tip.
pub proof fn lemma_commit_and_conflict_follow_normal_merge(from: MergeState, to: MergeState)
    requires
        from.steps_to(to),
        to == MergeState::Committed || to == MergeState::Conflict,
    ensures
        from == MergeState::NormalMerge,
{
}

/// Every plan is a state that the analysis leads to, and the state in which
/// a merge that follows the plan ends without a failure is terminal and is
/// reached from the fetched tip in at most three steps.
pub proof fn lemma_plan_reaches_its_end(plan: MergePlan)
    ensures
        MergeState::Analyzed.steps_to(plan.state_spec()),
        plan.success().state_spec().is_terminal(),
        plan.state_spec().reaches(plan.success().state_spec(), 1),
        MergeState::Fetched.reaches(plan.success().state_spec(), 3),
{
    let end = plan.success().state_spec();
    let planned = plan.state_spec();
    assert(end.reaches(end, 0));
    if plan == MergePlan::NormalMerge {
        lemma_one_more_step(planned, end, end, 0);
    }
    lemma_one_more_step(MergeState::Analyzed, planned, end, 1);
    lemma_one_more_step(MergeState::Fetched, MergeState::Analyzed, end, 2);
}

/// A state that steps to a state from which an end is reached in some
/// number of steps reaches that end in one step more.
pub proof fn lemma_one_more_step(from: MergeState, next: MergeState, end: MergeState, steps: nat)
    requires
        from.steps_to(next),
        next.reaches(end, steps),
    ensures
        from.reaches(end, steps + 1),
{
    let more: nat = steps + 1;
    assert(from.steps_to(next) && next.reaches(end, (more - 1) as nat));
}

/// A merge writes a commit only where the histories have diverged and no
/// fast-forward is possible: a fast-forward and an up-to-date tip end
/// without one.
pub proof fn lemma_commit_only_on_divergence(bits: u32)
    ensures
        plan_spec(bits).success().writes_commit() <==> has_flag(bits, ANALYSIS_NORMAL) && !has_flag(
            bits,
            ANALYSIS_FAST_FORWARD,
        ),
        has_flag(bits, ANALYSIS_FAST_FORWARD) ==> plan_spec(bits).success()
            == MergeOutcome::FastForward,
        !has_flag(bits, ANALYSIS_FAST_FORWARD) && !has_flag(bits, ANALYSIS_NORMAL) ==> plan_spec(
            bits,
        ).success() == MergeOutcome::UpToDate,
{
}

/// Each conflict gives at most one name, so there are no more names than
/// conflicts.
pub proof fn lemma_conflict_names_bounded(conflicts: Seq<ConflictSides>)
    ensures
        conflict_names_spec(conflicts).len() <= conflicts.len(),
    decreases conflicts.len(),
{
    if conflicts.len() > 0 {
        lemma_conflict_names_bounded(conflicts.drop_last());
    }
}

} // verus!
