//! The boundary to the version-control backend.
//!
//! Everything here is believed, not proved: the declarations make the
//! backend's types known, and each function holds one call into the backend
//! together with the conversion of its arguments and result. The rules of
//! the engine live in the other modules, which call these functions.

use crate::credential::{offer_credential, Cred};
use crate::history::TreeItem;
use crate::merge::ConflictSides;
use crate::progress::forward_progress;
use crate::transport::certificate_verdict;
use git2::Cred as GitCredential;
use vstd::prelude::*;

verus! {

#[verifier::external_type_specification]
#[verifier::external_body]
pub struct ExRepository(git2::Repository);

#[verifier::external_type_specification]
#[verifier::external_body]
pub struct ExGitError(git2::Error);

#[verifier::external_type_specification]
#[verifier::external_body]
pub struct ExOid(git2::Oid);

#[verifier::external_type_specification]
#[verifier::external_body]
pub struct ExCommit<'repo>(git2::Commit<'repo>);

#[verifier::external_type_specification]
#[verifier::external_body]
pub struct ExTree<'repo>(git2::Tree<'repo>);

#[verifier::external_type_specification]
#[verifier::external_body]
pub struct ExReference<'repo>(git2::Reference<'repo>);

#[verifier::external_type_specification]
#[verifier::external_body]
pub struct ExAnnotatedCommit<'repo>(git2::AnnotatedCommit<'repo>);

#[verifier::external_type_specification]
#[verifier::external_body]
pub struct ExIndex(git2::Index);

#[verifier::external_type_specification]
#[verifier::external_body]
pub struct ExSignature<'a>(git2::Signature<'a>);

#[verifier::external_type_specification]
#[verifier::external_body]
pub struct ExRevwalk<'repo>(git2::Revwalk<'repo>);

#[verifier::external_type_specification]
#[verifier::external_body]
pub struct ExRemote<'repo>(git2::Remote<'repo>);

#[verifier::external_type_specification]
#[verifier::external_body]
pub struct ExRemoteCallbacks<'a>(git2::RemoteCallbacks<'a>);

#[verifier::external_type_specification]
#[verifier::external_body]
pub struct ExFetchOptions<'a>(git2::FetchOptions<'a>);

#[verifier::external_type_specification]
#[verifier::external_body]
pub struct ExPushOptions<'a>(git2::PushOptions<'a>);

#[verifier::external_type_specification]
#[verifier::external_body]
pub struct ExGitCredential(GitCredential);

#[verifier::external_type_specification]
#[verifier::external_body]
pub struct ExCheckoutBuilder<'a>(git2::build::CheckoutBuilder<'a>);

#[verifier::external_type_specification]
pub struct ExCertificateCheckStatus(git2::CertificateCheckStatus);

#[verifier::external_type_specification]
pub struct ExErrorCode(git2::ErrorCode);

#[verifier::external_type_specification]
pub struct ExErrorClass(git2::ErrorClass);

#[verifier::external_type_specification]
pub struct ExTreeWalkMode(git2::TreeWalkMode);

/// Whether the text holds a NUL character. The backend hands its texts on
/// as C strings, which cannot hold one, and fails where a text does.
pub open spec fn holds_nul(text: Seq<char>) -> bool {
    text.contains('\0')
}

/// Whether the backend refuses the text as the name or the email of a
/// signature for what it holds: nothing at all, a NUL character, or an
/// angle bracket.
pub open spec fn refused_in_signature(text: Seq<char>) -> bool {
    text.len() == 0 || holds_nul(text) || text.contains('<') || text.contains('>')
}

/// Whether `c` is a digit or a lower-case letter from `a` to `f`.
pub open spec fn is_lower_hex(c: char) -> bool {
    ('0' <= c && c <= '9') || ('a' <= c && c <= 'f')
}

/// `git2::Error::raw_code`: the backend's code of the failure.
#[verifier::external_body]
pub(crate) fn error_code(e: &git2::Error) -> (code: i32) {
    e.raw_code() as i32
}

/// `git2::Error::raw_class`: the backend's class of the failure.
#[verifier::external_body]
pub(crate) fn error_class(e: &git2::Error) -> (class: i32) {
    e.raw_class() as i32
}

/// `git2::Error::new`: a failure with the given code, class and
/// description.
#[verifier::external_body]
pub(crate) fn new_error(code: git2::ErrorCode, class: git2::ErrorClass, text: &str) -> (e:
    git2::Error) {
    git2::Error::new(code, class, text)
}

/// `git2::Error`'s `Display`: the backend's description of the failure.
#[verifier::external_body]
pub(crate) fn error_text(e: &git2::Error) -> (text: String) {
    e.to_string()
}

/// `git2::Oid`'s `Display`: the identifier in hexadecimal. The backend
/// writes the twenty bytes of the identifier as forty lower-case digits.
#[verifier::external_body]
pub(crate) fn oid_hex(id: git2::Oid) -> (hex: String)
    ensures
        hex@.len() == 40,
        forall|i: int| 0 <= i < hex@.len() ==> is_lower_hex(#[trigger] hex@[i]),
{
    id.to_string()
}

/// `git2::Repository::init`: creates a repository at `path`, or
/// reinitializes the one that is there.
#[verifier::external_body]
pub(crate) fn init_repository(path: &str) -> (r: Result<git2::Repository, git2::Error>) {
    git2::Repository::init(path)
}

/// `git2::Repository::open`: opens the repository at `path`.
#[verifier::external_body]
pub(crate) fn open_repository(path: &str) -> (r: Result<git2::Repository, git2::Error>) {
    git2::Repository::open(path)
}

/// `git2::build::RepoBuilder::clone`, on a new builder with the given fetch
/// options: clones `url` into `path`.
#[verifier::external_body]
pub(crate) fn clone_repository(url: &str, path: &str, options: git2::FetchOptions<'_>) -> (r:
    Result<git2::Repository, git2::Error>) {
    let mut builder = git2::build::RepoBuilder::new();
    builder.fetch_options(options);
    builder.clone(url, std::path::Path::new(path))
}

/// `git2::RemoteCallbacks::new`: a set of callbacks with none installed.
#[verifier::external_body]
pub(crate) fn new_callbacks<'a>() -> (callbacks: git2::RemoteCallbacks<'a>) {
    git2::RemoteCallbacks::new()
}

/// `git2::RemoteCallbacks::certificate_check`: the backend asks
/// `certificate_verdict` about every certificate it meets.
#[verifier::external_body]
pub(crate) fn decide_certificates(callbacks: &mut git2::RemoteCallbacks<'_>) {
    callbacks.certificate_check(|_certificate, _host| Ok(certificate_verdict()));
}

/// `git2::RemoteCallbacks::credentials`: the backend asks
/// `offer_credential` for `cred` whenever the remote wants credentials,
/// and gives up when it answers with a failure.
#[verifier::external_body]
pub(crate) fn supply_credential<'a>(
    callbacks: &mut git2::RemoteCallbacks<'a>,
    cred: &'a Cred,
    offered: &'a mut bool,
) {
    callbacks.credentials(move |_url, _username, _allowed| offer_credential(cred, offered));
}

/// `git2::RemoteCallbacks::transfer_progress`: the backend hands the counts
/// of indexed and total objects to `forward_progress` as the transfer
/// advances, and stops when it answers `false`.
#[verifier::external_body]
pub(crate) fn watch_transfer<'a, F: Fn(i32) -> bool>(
    callbacks: &mut git2::RemoteCallbacks<'a>,
    reporter: &'a F,
    stopped: &'a mut bool,
)
    requires
        forall|percent: i32| call_requires(*reporter, (percent,)),
{
    callbacks.transfer_progress(
        move |stats|
            forward_progress(stats.indexed_objects(), stats.total_objects(), reporter, stopped),
    );
}

/// `git2::FetchOptions::remote_callbacks`, on new options: fetch options
/// that use `callbacks`.
#[verifier::external_body]
pub(crate) fn fetch_options<'a>(callbacks: git2::RemoteCallbacks<'a>) -> (options:
    git2::FetchOptions<'a>) {
    let mut options = git2::FetchOptions::new();
    options.remote_callbacks(callbacks);
    options
}

/// `git2::PushOptions::remote_callbacks`, on new options: push options that
/// use `callbacks`.
#[verifier::external_body]
pub(crate) fn push_options<'a>(callbacks: git2::RemoteCallbacks<'a>) -> (options:
    git2::PushOptions<'a>) {
    let mut options = git2::PushOptions::new();
    options.remote_callbacks(callbacks);
    options
}

/// `git2::Cred::userpass_plaintext`: a credential of a user name and a
/// password. It fails where one of the two holds a NUL character, and
/// nowhere else: the backend only copies the two texts.
#[verifier::external_body]
pub(crate) fn userpass_credential(username: &str, password: &str) -> (r: Result<
    GitCredential,
    git2::Error,
>)
    ensures
        r is Err <==> holds_nul(username@) || holds_nul(password@),
{
    GitCredential::userpass_plaintext(username, password)
}

/// `git2::Cred::ssh_key_from_memory`: a credential of a key pair held in
/// memory, with the passphrase of the private key if it has one. It fails
/// where one of the texts holds a NUL character.
#[verifier::external_body]
pub(crate) fn ssh_key_credential(
    username: &str,
    public_key: &str,
    private_key: &str,
    passphrase: &Option<String>,
) -> (r: Result<GitCredential, git2::Error>)
    ensures
        holds_nul(username@) || holds_nul(public_key@) || holds_nul(private_key@) ==> r is Err,
        passphrase matches Some(phrase) ==> (holds_nul(phrase@) ==> r is Err),
{
    GitCredential::ssh_key_from_memory(username, Some(public_key), private_key, passphrase.as_deref())
}

/// `git2::Repository::refname_to_id`: the identifier that the reference
/// `name` resolves to.
#[verifier::external_body]
pub(crate) fn reference_id(repo: &git2::Repository, name: &str) -> (r: Result<
    git2::Oid,
    git2::Error,
>) {
    repo.refname_to_id(name)
}

/// `git2::Repository::head`: the reference that HEAD resolves to.
#[verifier::external_body]
pub(crate) fn head_reference<'r>(repo: &'r git2::Repository) -> (r: Result<
    git2::Reference<'r>,
    git2::Error,
>) {
    repo.head()
}

/// `git2::Repository::find_reference`: the reference called `name`. It
/// fails where the name holds a NUL character.
#[verifier::external_body]
pub(crate) fn find_reference<'r>(repo: &'r git2::Repository, name: &str) -> (r: Result<
    git2::Reference<'r>,
    git2::Error,
>)
    ensures
        holds_nul(name@) ==> r is Err,
{
    repo.find_reference(name)
}

/// `git2::Reference::peel_to_commit`: the commit that the reference leads
/// to.
#[verifier::external_body]
pub(crate) fn peel_to_commit<'r>(reference: &git2::Reference<'r>) -> (r: Result<
    git2::Commit<'r>,
    git2::Error,
>) {
    reference.peel_to_commit()
}

/// `git2::Reference::name`: the full name of the reference, if it is valid
/// UTF-8.
#[verifier::external_body]
pub(crate) fn reference_name(reference: &git2::Reference<'_>) -> (name: Option<String>) {
    reference.name().map(String::from)
}

/// `git2::Reference::set_target`: points the reference at `id` and writes
/// `log` to its log.
#[verifier::external_body]
pub(crate) fn set_reference_target<'r>(
    reference: &mut git2::Reference<'r>,
    id: git2::Oid,
    log: &str,
) -> (r: Result<git2::Reference<'r>, git2::Error>) {
    reference.set_target(id, log)
}

/// `git2::Repository::reference`: creates the direct reference `name` at
/// `id`, replacing an existing one only if `force` is set. It fails where
/// the name or the log message holds a NUL character.
#[verifier::external_body]
pub(crate) fn create_reference<'r>(
    repo: &'r git2::Repository,
    name: &str,
    id: git2::Oid,
    force: bool,
    log: &str,
) -> (r: Result<git2::Reference<'r>, git2::Error>)
    ensures
        holds_nul(name@) || holds_nul(log@) ==> r is Err,
{
    repo.reference(name, id, force, log)
}

/// `git2::Repository::set_head`: makes HEAD point to the reference `name`.
#[verifier::external_body]
pub(crate) fn set_head(repo: &git2::Repository, name: &str) -> (r: Result<(), git2::Error>) {
    repo.set_head(name)
}

/// `git2::Repository::reference_to_annotated_commit`: the commit that
/// `reference` points to, with the way it was reached.
#[verifier::external_body]
pub(crate) fn annotate_reference<'r>(
    repo: &'r git2::Repository,
    reference: &git2::Reference<'_>,
) -> (r: Result<git2::AnnotatedCommit<'r>, git2::Error>) {
    repo.reference_to_annotated_commit(reference)
}

/// `git2::AnnotatedCommit::id`: the identifier of the commit.
#[verifier::external_body]
pub(crate) fn annotated_id(commit: &git2::AnnotatedCommit<'_>) -> (id: git2::Oid) {
    commit.id()
}

/// `git2::Repository::find_commit`: the commit with identifier `id`.
#[verifier::external_body]
pub(crate) fn find_commit<'r>(repo: &'r git2::Repository, id: git2::Oid) -> (r: Result<
    git2::Commit<'r>,
    git2::Error,
>) {
    repo.find_commit(id)
}

/// `git2::Repository::find_tree`: the tree with identifier `id`.
#[verifier::external_body]
pub(crate) fn find_tree<'r>(repo: &'r git2::Repository, id: git2::Oid) -> (r: Result<
    git2::Tree<'r>,
    git2::Error,
>) {
    repo.find_tree(id)
}

/// `git2::Commit::tree`: the tree of the commit.
#[verifier::external_body]
pub(crate) fn commit_tree<'r>(commit: &git2::Commit<'r>) -> (r: Result<
    git2::Tree<'r>,
    git2::Error,
>) {
    commit.tree()
}

/// `git2::Commit::tree_id`: the identifier of the tree of the commit.
#[verifier::external_body]
pub(crate) fn commit_tree_id(commit: &git2::Commit<'_>) -> (id: git2::Oid) {
    commit.tree_id()
}

/// `git2::Commit::time`, its seconds: the commit time in seconds since the
/// epoch.
#[verifier::external_body]
pub(crate) fn commit_seconds(commit: &git2::Commit<'_>) -> (seconds: i64) {
    commit.time().seconds()
}

/// `git2::Commit::parents`, its first item: the first parent of the commit,
/// or nothing if it has none or the parent cannot be loaded.
#[verifier::external_body]
pub(crate) fn first_parent<'r>(commit: &git2::Commit<'r>) -> (parent: Option<git2::Commit<'r>>) {
    commit.parents().next()
}

/// `git2::Commit::author`, its name: the author's name, if it is valid
/// UTF-8.
#[verifier::external_body]
pub(crate) fn author_name(commit: &git2::Commit<'_>) -> (name: Option<String>) {
    commit.author().name().map(String::from)
}

/// `git2::Commit::author`, its email: the author's email, if it is valid
/// UTF-8.
#[verifier::external_body]
pub(crate) fn author_email(commit: &git2::Commit<'_>) -> (email: Option<String>) {
    commit.author().email().map(String::from)
}

/// `git2::Tree::get_path`: whether the tree, or one of its subtrees, holds
/// an entry at `path`.
#[verifier::external_body]
pub(crate) fn tree_has_path(tree: &git2::Tree<'_>, path: &str) -> (present: bool) {
    tree.get_path(std::path::Path::new(path)).is_ok()
}

/// `git2::Tree::walk`: every entry of the tree and of its subtrees, in the
/// order of the walk, each with the directory it lies in, its name if that
/// is valid UTF-8, and whether it is a blob.
#[verifier::external_body]
pub(crate) fn tree_entries(tree: &git2::Tree<'_>, mode: git2::TreeWalkMode) -> (r: Result<
    Vec<TreeItem>,
    git2::Error,
>) {
    let mut items = Vec::new();
    tree.walk(mode, |root, entry| {
        let name = entry.name().map(String::from);
        let is_blob = matches!(entry.kind(), Some(git2::ObjectType::Blob));
        items.push(TreeItem { root: root.to_string(), name, is_blob });
        git2::TreeWalkResult::Ok
    })?;
    Ok(items)
}

/// `git2::Repository::diff_tree_to_tree`, held to one pathspec: the number
/// of entries matching `pathspec` that differ between `old` and `new`.
/// With `literal` set the pathspec is a path and matches itself only;
/// otherwise it is a pattern. The backend panics on a pathspec that holds
/// a NUL character.
#[verifier::external_body]
pub(crate) fn changed_entries(
    repo: &git2::Repository,
    old: &git2::Tree<'_>,
    new: &git2::Tree<'_>,
    pathspec: &str,
    literal: bool,
) -> (r: Result<usize, git2::Error>)
    requires
        !pathspec@.contains('\0'),
{
    let mut options = git2::DiffOptions::new();
    options.pathspec(pathspec).disable_pathspec_match(literal);
    let diff = repo.diff_tree_to_tree(Some(old), Some(new), Some(&mut options))?;
    Ok(diff.deltas().len())
}

/// `git2::Repository::revwalk`: a walk over the commit graph that has no
/// starting point yet.
#[verifier::external_body]
pub(crate) fn new_revwalk<'r>(repo: &'r git2::Repository) -> (r: Result<
    git2::Revwalk<'r>,
    git2::Error,
>) {
    repo.revwalk()
}

/// `git2::Revwalk::push_head`: starts the walk at HEAD.
#[verifier::external_body]
pub(crate) fn revwalk_push_head(walk: &mut git2::Revwalk<'_>) -> (r: Result<(), git2::Error>) {
    walk.push_head()
}

/// `git2::Revwalk::set_sorting`: orders the walk by the sorting flags in
/// `bits`.
#[verifier::external_body]
pub(crate) fn revwalk_set_sorting(walk: &mut git2::Revwalk<'_>, bits: u32) -> (r: Result<
    (),
    git2::Error,
>) {
    walk.set_sorting(git2::Sort::from_bits_truncate(bits))
}

/// `git2::Revwalk`'s `Iterator`: the identifiers of the commits of the
/// walk, in its order, or the first failure.
#[verifier::external_body]
pub(crate) fn revwalk_collect(walk: git2::Revwalk<'_>) -> (r: Result<Vec<git2::Oid>, git2::Error>) {
    walk.collect()
}

/// `git2::Repository::statuses`, its length: the number of paths whose
/// status differs from the last commit, counting untracked files and the
/// files inside untracked directories as the two flags say.
#[verifier::external_body]
pub(crate) fn status_count(
    repo: &git2::Repository,
    include_untracked: bool,
    recurse_untracked: bool,
) -> (r: Result<usize, git2::Error>) {
    let mut options = git2::StatusOptions::new();
    options.include_untracked(include_untracked).recurse_untracked_dirs(recurse_untracked);
    Ok(repo.statuses(Some(&mut options))?.len())
}

/// `git2::Repository::merge_analysis`, its analysis flags: how the given
/// commit relates to HEAD, as the backend's bit set.
#[verifier::external_body]
pub(crate) fn merge_analysis_bits(
    repo: &git2::Repository,
    theirs: &git2::AnnotatedCommit<'_>,
) -> (r: Result<u32, git2::Error>) {
    repo.merge_analysis(&[theirs]).map(|(analysis, _preference)| analysis.bits())
}

/// `git2::Repository::merge_base`: a best common ancestor of the two
/// commits.
#[verifier::external_body]
pub(crate) fn merge_base(repo: &git2::Repository, one: git2::Oid, two: git2::Oid) -> (r: Result<
    git2::Oid,
    git2::Error,
>) {
    repo.merge_base(one, two)
}

/// `git2::Repository::merge_trees`, with default options: an index that
/// holds the three-way merge of `ours` and `theirs` over `ancestor`.
#[verifier::external_body]
pub(crate) fn merge_trees(
    repo: &git2::Repository,
    ancestor: &git2::Tree<'_>,
    ours: &git2::Tree<'_>,
    theirs: &git2::Tree<'_>,
) -> (r: Result<git2::Index, git2::Error>) {
    repo.merge_trees(ancestor, ours, theirs, None)
}

/// `git2::Repository::index`: the index of the repository.
#[verifier::external_body]
pub(crate) fn repository_index(repo: &git2::Repository) -> (r: Result<git2::Index, git2::Error>) {
    repo.index()
}

/// `git2::Index::add_all`, with default flags and no callback: brings the
/// index entries of the paths that match `pattern` in line with the working
/// directory.
#[verifier::external_body]
pub(crate) fn index_add_all(index: &mut git2::Index, pattern: &str) -> (r: Result<
    (),
    git2::Error,
>) {
    index.add_all([pattern].iter(), git2::IndexAddOption::DEFAULT, None)
}

/// `git2::Index::write`: writes the index to disk.
#[verifier::external_body]
pub(crate) fn index_write(index: &mut git2::Index) -> (r: Result<(), git2::Error>) {
    index.write()
}

/// `git2::Index::write_tree`: writes the index as a tree into its own
/// repository and returns the identifier of the root tree.
#[verifier::external_body]
pub(crate) fn index_write_tree(index: &mut git2::Index) -> (r: Result<git2::Oid, git2::Error>) {
    index.write_tree()
}

/// `git2::Index::write_tree_to`: writes the index as a tree into `repo` and
/// returns the identifier of the root tree.
#[verifier::external_body]
pub(crate) fn index_write_tree_to(index: &mut git2::Index, repo: &git2::Repository) -> (r: Result<
    git2::Oid,
    git2::Error,
>) {
    index.write_tree_to(repo)
}

/// `git2::Index::has_conflicts`: whether the index holds entries in
/// conflict.
#[verifier::external_body]
pub(crate) fn index_has_conflicts(index: &git2::Index) -> (conflicted: bool) {
    index.has_conflicts()
}

/// `git2::Index::conflicts`: the conflicts of the index, each with the path
/// of its entry on the ancestor's side, on our side and on their side, as
/// far as the side has one.
#[verifier::external_body]
pub(crate) fn index_conflicts(index: &git2::Index) -> (r: Result<Vec<ConflictSides>, git2::Error>) {
    let mut sides = Vec::new();
    for conflict in index.conflicts()? {
        let conflict = conflict?;
        let ancestor = conflict.ancestor.map(|entry| entry.path);
        let ours = conflict.our.map(|entry| entry.path);
        let theirs = conflict.their.map(|entry| entry.path);
        sides.push(ConflictSides { ancestor, ours, theirs });
    }
    Ok(sides)
}

/// `String::from_utf8`, on a copy of the bytes: the text that the bytes
/// encode, if they are valid UTF-8.
#[verifier::external_body]
pub(crate) fn utf8_text(bytes: &Vec<u8>) -> (text: Option<String>)
    ensures
        text is Some <==> vstd::utf8::valid_utf8(bytes@),
        text matches Some(t) ==> t@ == vstd::utf8::decode_utf8(bytes@),
{
    String::from_utf8(bytes.clone()).ok()
}

/// `git2::Signature::now`: a signature of the given name and email, dated
/// now. It fails where the name or the email is empty or holds a NUL
/// character or an angle bracket.
#[verifier::external_body]
pub(crate) fn signature_now(name: &str, email: &str) -> (r: Result<
    git2::Signature<'static>,
    git2::Error,
>)
    ensures
        refused_in_signature(name@) || refused_in_signature(email@) ==> r is Err,
{
    git2::Signature::now(name, email)
}

/// `git2::Repository::commit`: writes a commit of `tree` with the given
/// author, committer and message and with the given parents, in this
/// order, moves the reference `update_ref` to it and returns its
/// identifier. It fails where the name of the reference or the message
/// holds a NUL character.
#[verifier::external_body]
pub(crate) fn create_commit(
    repo: &git2::Repository,
    update_ref: &str,
    author: &git2::Signature<'_>,
    committer: &git2::Signature<'_>,
    message: &str,
    tree: &git2::Tree<'_>,
    first_parent: Option<&git2::Commit<'_>>,
    second_parent: Option<&git2::Commit<'_>>,
) -> (r: Result<git2::Oid, git2::Error>)
    ensures
        holds_nul(update_ref@) || holds_nul(message@) ==> r is Err,
{
    let parents: Vec<&git2::Commit<'_>> = first_parent.into_iter().chain(second_parent).collect();
    repo.commit(Some(update_ref), author, committer, message, tree, &parents)
}

/// `git2::Repository::checkout_index`, with default options: brings the
/// working directory in line with `index`.
#[verifier::external_body]
pub(crate) fn checkout_index(repo: &git2::Repository, index: &mut git2::Index) -> (r: Result<
    (),
    git2::Error,
>) {
    repo.checkout_index(Some(index), None)
}

/// `git2::build::CheckoutBuilder::new`: checkout options with the
/// backend's defaults, under which a checkout leaves alone what differs in
/// the working directory.
#[verifier::external_body]
pub(crate) fn new_checkout_options() -> (options: git2::build::CheckoutBuilder<'static>) {
    git2::build::CheckoutBuilder::new()
}

/// `git2::build::CheckoutBuilder::force`: makes a checkout with these
/// options do whatever brings the working directory in line, discarding
/// what differs.
#[verifier::external_body]
pub(crate) fn force_checkout(options: &mut git2::build::CheckoutBuilder<'_>) {
    options.force();
}

/// `git2::Repository::checkout_head`: brings the index and the working
/// directory in line with the commit at HEAD, as `options` say.
#[verifier::external_body]
pub(crate) fn checkout_head(
    repo: &git2::Repository,
    options: &mut git2::build::CheckoutBuilder<'_>,
) -> (r: Result<(), git2::Error>) {
    repo.checkout_head(Some(options))
}

/// `git2::Repository::find_remote`: the remote called `name`.
#[verifier::external_body]
pub(crate) fn find_remote<'r>(repo: &'r git2::Repository, name: &str) -> (r: Result<
    git2::Remote<'r>,
    git2::Error,
>) {
    repo.find_remote(name)
}

/// `git2::Remote::fetch`, with no log message: downloads what `refspecs`
/// name, or what the remote's configured refspecs name where there are
/// none, and updates the remote-tracking references.
#[verifier::external_body]
pub(crate) fn remote_fetch(
    remote: &mut git2::Remote<'_>,
    refspecs: &Vec<String>,
    options: &mut git2::FetchOptions<'_>,
) -> (r: Result<(), git2::Error>) {
    remote.fetch(refspecs.as_slice(), Some(options), None)
}

/// `git2::Remote::push`: uploads what `refspec` names to the remote.
#[verifier::external_body]
pub(crate) fn remote_push(
    remote: &mut git2::Remote<'_>,
    refspec: &str,
    options: &mut git2::PushOptions<'_>,
) -> (r: Result<(), git2::Error>) {
    remote.push(&[refspec], Some(options))
}

} // verus!
