use git2::{build::CheckoutBuilder, IndexEntry, IndexTime, Oid, Repository, Signature};
use gitnote_sync::error::{ErrorKind, STATUS_MERGE_CONFLICT};
use gitnote_sync::merge::{
    carry_out, conflict_names, conflict_path, do_merge, plan_merge, ConflictSides, MergeOutcome,
    MergePlan, MergeState,
};
use gitnote_sync::session::GitAuthor;
use std::path::Path;
use std::time::{SystemTime, UNIX_EPOCH};

fn scratch(name: &str) -> String {
    let nanos = SystemTime::now().duration_since(UNIX_EPOCH).unwrap().as_nanos();
    format!("/tmp/gitnote_sync_merge_{}/{}", nanos, name)
}

fn signature() -> Signature<'static> {
    Signature::now("Moi", "test@example.com").unwrap()
}

fn author() -> GitAuthor {
    GitAuthor { name: "Moi".to_string(), email: "test@example.com".to_string() }
}

fn switch_to_branch(repo: &Repository, branch_name: &str) {
    let ref_name = format!("refs/heads/{}", branch_name);
    let obj = repo.revparse_single(&ref_name).unwrap().peel_to_commit().unwrap();

    let mut opts = CheckoutBuilder::new();
    opts.force();

    repo.checkout_tree(obj.as_object(), Some(&mut opts)).unwrap();
    repo.set_head(&ref_name).unwrap();
}

pub fn commit_current_state(repo: &Repository, message: &str) -> git2::Oid {
    let sig = signature();
    let mut index = repo.index().unwrap();
    let tree_id = index.write_tree().unwrap();
    let tree = repo.find_tree(tree_id).unwrap();

    let parent = repo.head().ok().and_then(|h| h.target()).and_then(|id| repo.find_commit(id).ok());

    let parents = match &parent {
        Some(c) => vec![c],
        None => vec![],
    };

    repo.commit(Some("HEAD"), &sig, &sig, message, &tree, &parents).unwrap()
}

fn add_file(repo: &Repository, filename: &str, content: &str) {
    let entry = IndexEntry {
        ctime: IndexTime::new(0, 0),
        mtime: IndexTime::new(0, 0),
        dev: 0,
        ino: 0,
        mode: 0o100644,
        uid: 0,
        gid: 0,
        file_size: 0,
        id: Oid::zero(),
        flags: 0,
        flags_extended: 0,
        path: filename.as_bytes().to_vec(),
    };
    let mut index = repo.index().unwrap();
    index.add_frombuffer(&entry, content.as_bytes()).unwrap();
    index.write().unwrap();

    let mut opts = CheckoutBuilder::new();
    opts.force();
    repo.checkout_index(Some(&mut index), Some(&mut opts)).unwrap();
}

fn read_file(repo: &Repository, path: &str) -> String {
    let id = repo.blob_path(&repo.workdir().unwrap().join(path)).unwrap();
    String::from_utf8(repo.find_blob(id).unwrap().content().to_vec()).unwrap()
}

fn has_file(repo: &Repository, path: &str) -> bool {
    repo.blob_path(&repo.workdir().unwrap().join(path)).is_ok()
}

fn assert_content(repo: &Repository, path: &str, content: &str) {
    let real_content = read_file(repo, path);

    assert_eq!(real_content, content);
}

fn current_branch(repo: &Repository) -> String {
    repo.head().unwrap().shorthand().unwrap().to_string()
}

fn head_id(repo: &Repository) -> Oid {
    repo.refname_to_id("HEAD").unwrap()
}

fn annotated<'r>(repo: &'r Repository, refname: &str) -> git2::AnnotatedCommit<'r> {
    let reference = repo.find_reference(refname).unwrap();
    repo.reference_to_annotated_commit(&reference).unwrap()
}

#[test]
fn test_clean_merge_flow() {
    let path = scratch("repo_test/clean_repo");
    let repo = Repository::init(Path::new(&path)).unwrap();

    add_file(&repo, "file1.txt", "hello");
    let oid1 = commit_current_state(&repo, "Initial commit on master");
    let master = current_branch(&repo);

    let commit1 = repo.find_commit(oid1).unwrap();
    repo.branch("dev", &commit1, false).unwrap();
    switch_to_branch(&repo, "dev");

    add_file(&repo, "file2.txt", "hello");
    commit_current_state(&repo, "Add file2 on dev");

    switch_to_branch(&repo, &master);
    add_file(&repo, "file1.txt", "hello world");
    commit_current_state(&repo, "Modif file1 on master");

    let annotated_dev = {
        let dev_ref = repo.find_reference("refs/heads/dev").unwrap();
        repo.reference_to_annotated_commit(&dev_ref).unwrap()
    };

    let author = author();
    do_merge(&repo, "dev", annotated_dev, &author).expect("Merge failed");

    assert_content(&repo, "file1.txt", "hello world");
    assert_content(&repo, "file2.txt", "hello");
}

#[test]
fn test_clean_merge_flow2() {
    let path = scratch("repo_test/clean_repo2");
    let repo = Repository::init(Path::new(&path)).unwrap();

    add_file(&repo, "file1.txt", "Contenu Initial");
    let oid1 = commit_current_state(&repo, "Initial commit on master");
    let master = current_branch(&repo);

    let commit1 = repo.find_commit(oid1).unwrap();
    repo.branch("dev", &commit1, false).unwrap();
    switch_to_branch(&repo, "dev");

    add_file(&repo, "file2.txt", "Contenu Dev");
    commit_current_state(&repo, "Add file2 on dev");

    switch_to_branch(&repo, &master);
    add_file(&repo, "file3.txt", "Contenu Master");
    commit_current_state(&repo, "Add file3 on master");

    let annotated_dev = {
        let dev_ref = repo.find_reference("refs/heads/dev").unwrap();
        repo.reference_to_annotated_commit(&dev_ref).unwrap()
    };

    let author = author();
    do_merge(&repo, "dev", annotated_dev, &author).expect("Merge failed");

    assert_content(&repo, "file1.txt", "Contenu Initial");
    assert_content(&repo, "file2.txt", "Contenu Dev");
    assert_content(&repo, "file3.txt", "Contenu Master");
}

#[test]
fn diverged_histories_end_in_a_commit_with_two_parents() {
    let path = scratch("two_parents");
    let repo = Repository::init(Path::new(&path)).unwrap();

    add_file(&repo, "file1.txt", "base");
    let base = commit_current_state(&repo, "base");
    let local_branch = current_branch(&repo);
    repo.branch("remote", &repo.find_commit(base).unwrap(), false).unwrap();

    switch_to_branch(&repo, "remote");
    add_file(&repo, "file2.txt", "from remote");
    let remote_tip = commit_current_state(&repo, "remote adds file2");

    switch_to_branch(&repo, &local_branch);
    add_file(&repo, "file3.txt", "from local");
    let local_tip = commit_current_state(&repo, "local adds file3");

    let outcome = do_merge(&repo, &local_branch, annotated(&repo, "refs/heads/remote"), &author());
    assert_eq!(outcome.unwrap(), MergeOutcome::Committed);

    let merged = repo.find_commit(head_id(&repo)).unwrap();
    assert_eq!(merged.parent_count(), 2);
    assert_eq!(merged.parent_id(0).unwrap(), local_tip);
    assert_eq!(merged.parent_id(1).unwrap(), remote_tip);
    assert_eq!(merged.author().name(), Some("Moi"));
    assert_eq!(merged.author().email(), Some("test@example.com"));
    assert_eq!(
        merged.message(),
        Some(format!("Merge: {} into {}", remote_tip, local_tip).as_str())
    );
    assert_content(&repo, "file1.txt", "base");
    assert_content(&repo, "file2.txt", "from remote");
    assert_content(&repo, "file3.txt", "from local");
}

#[test]
fn tip_ahead_of_head_is_fast_forwarded_without_a_commit() {
    let path = scratch("fast_forward");
    let repo = Repository::init(Path::new(&path)).unwrap();

    add_file(&repo, "file1.txt", "one");
    let base = commit_current_state(&repo, "base");
    let local_branch = current_branch(&repo);
    repo.branch("ahead", &repo.find_commit(base).unwrap(), false).unwrap();

    switch_to_branch(&repo, "ahead");
    add_file(&repo, "file2.txt", "two");
    let tip = commit_current_state(&repo, "ahead adds file2");

    switch_to_branch(&repo, &local_branch);
    assert!(!has_file(&repo, "file2.txt"));
    assert_eq!(head_id(&repo), base);

    let outcome = do_merge(&repo, &local_branch, annotated(&repo, "refs/heads/ahead"), &author());
    assert_eq!(outcome.unwrap(), MergeOutcome::FastForward);

    assert_eq!(head_id(&repo), tip);
    assert_eq!(current_branch(&repo), local_branch);
    assert_eq!(repo.find_commit(tip).unwrap().parent_count(), 1);
    assert_content(&repo, "file1.txt", "one");
    assert_content(&repo, "file2.txt", "two");
}

#[test]
fn tip_behind_head_is_up_to_date() {
    let path = scratch("up_to_date");
    let repo = Repository::init(Path::new(&path)).unwrap();

    add_file(&repo, "file1.txt", "one");
    let base = commit_current_state(&repo, "base");
    let local_branch = current_branch(&repo);
    repo.branch("behind", &repo.find_commit(base).unwrap(), false).unwrap();
    add_file(&repo, "file2.txt", "two");
    let tip = commit_current_state(&repo, "local adds file2");

    let outcome = do_merge(&repo, &local_branch, annotated(&repo, "refs/heads/behind"), &author());
    assert_eq!(outcome.unwrap(), MergeOutcome::UpToDate);
    assert_eq!(head_id(&repo), tip);

    let same = do_merge(&repo, &local_branch, annotated(&repo, "HEAD"), &author());
    assert_eq!(same.unwrap(), MergeOutcome::UpToDate);
    assert_eq!(head_id(&repo), tip);
}

#[test]
fn overlapping_changes_end_in_a_conflict_without_a_commit() {
    let path = scratch("conflict");
    let repo = Repository::init(Path::new(&path)).unwrap();

    add_file(&repo, "file1.txt", "base\n");
    let base = commit_current_state(&repo, "base");
    let local_branch = current_branch(&repo);
    repo.branch("remote", &repo.find_commit(base).unwrap(), false).unwrap();

    switch_to_branch(&repo, "remote");
    add_file(&repo, "file1.txt", "remote\n");
    commit_current_state(&repo, "remote changes file1");

    switch_to_branch(&repo, &local_branch);
    add_file(&repo, "file1.txt", "local\n");
    let local_tip = commit_current_state(&repo, "local changes file1");

    let failure =
        do_merge(&repo, &local_branch, annotated(&repo, "refs/heads/remote"), &author())
            .unwrap_err();
    assert_eq!(failure.kind(), ErrorKind::MergeConflict);
    assert_eq!(failure.status_code(), STATUS_MERGE_CONFLICT);
    assert_eq!(failure.paths, vec!["file1.txt".to_string()]);
    assert_eq!(
        failure.message(),
        "merge_trees: both sides changed the same content"
    );

    assert_eq!(head_id(&repo), local_tip);
    assert_eq!(repo.find_commit(local_tip).unwrap().parent_count(), 1);
    let left = read_file(&repo, "file1.txt");
    assert!(left.contains("<<<<<<<"));
    assert!(left.contains("local"));
    assert!(left.contains("remote"));
}

#[test]
fn unborn_head_is_fast_forwarded_to_the_tip() {
    let path = scratch("unborn");
    let repo = Repository::init(Path::new(&path)).unwrap();

    add_file(&repo, "file1.txt", "one");
    let tip = commit_current_state(&repo, "base");
    let first = current_branch(&repo);
    repo.set_head("refs/heads/fresh").unwrap();
    assert!(repo.head().is_err());

    let outcome =
        do_merge(&repo, "fresh", annotated(&repo, &format!("refs/heads/{}", first)), &author());
    assert_eq!(outcome.unwrap(), MergeOutcome::FastForward);
    assert_eq!(current_branch(&repo), "fresh");
    assert_eq!(head_id(&repo), tip);
    assert_content(&repo, "file1.txt", "one");
}

#[test]
fn plan_prefers_a_fast_forward_over_a_merge() {
    assert_eq!(plan_merge(0), MergePlan::UpToDate);
    assert_eq!(plan_merge(1), MergePlan::NormalMerge);
    assert_eq!(plan_merge(2), MergePlan::UpToDate);
    assert_eq!(plan_merge(4), MergePlan::FastForward);
    assert_eq!(plan_merge(5), MergePlan::FastForward);
    assert_eq!(plan_merge(8), MergePlan::UpToDate);
    assert_eq!(plan_merge(12), MergePlan::FastForward);
    assert_eq!(plan_merge(3), MergePlan::NormalMerge);
    assert_eq!(plan_merge(u32::MAX), MergePlan::FastForward);
    assert_eq!(plan_merge(u32::MAX - 4), MergePlan::NormalMerge);
    assert_eq!(plan_merge(u32::MAX - 5), MergePlan::UpToDate);
}

#[test]
fn conflicts_are_named_by_our_path_first() {
    let sides = |a: Option<&str>, o: Option<&str>, t: Option<&str>| ConflictSides {
        ancestor: a.map(|p| p.as_bytes().to_vec()),
        ours: o.map(|p| p.as_bytes().to_vec()),
        theirs: t.map(|p| p.as_bytes().to_vec()),
    };
    assert_eq!(
        conflict_path(&sides(Some("a"), Some("o"), Some("t"))),
        Some(&b"o".to_vec())
    );
    assert_eq!(conflict_path(&sides(Some("a"), None, Some("t"))), Some(&b"t".to_vec()));
    assert_eq!(conflict_path(&sides(Some("a"), None, None)), Some(&b"a".to_vec()));
    assert_eq!(conflict_path(&sides(None, None, None)), None);

    let broken = ConflictSides { ancestor: None, ours: Some(vec![0xff, 0xfe]), theirs: None };
    let names = conflict_names(&vec![
        sides(Some("base.txt"), Some("ours.txt"), Some("theirs.txt")),
        sides(None, None, None),
        broken,
        sides(Some("gone.md"), None, None),
        sides(None, None, Some("dir/é.txt")),
    ]);
    assert_eq!(
        names,
        vec!["ours.txt".to_string(), "gone.md".to_string(), "dir/é.txt".to_string()]
    );
    assert!(conflict_names(&Vec::new()).is_empty());
}

#[test]
fn up_to_date_plan_touches_nothing() {
    let path = scratch("plan_up_to_date");
    let repo = Repository::init(Path::new(&path)).unwrap();
    add_file(&repo, "file1.txt", "one");
    let base = commit_current_state(&repo, "base");
    let branch = current_branch(&repo);
    repo.branch("ahead", &repo.find_commit(base).unwrap(), false).unwrap();
    switch_to_branch(&repo, "ahead");
    add_file(&repo, "file2.txt", "two");
    commit_current_state(&repo, "ahead");
    switch_to_branch(&repo, &branch);

    let tip = annotated(&repo, "refs/heads/ahead");
    let outcome = carry_out(&repo, MergePlan::UpToDate, &branch, &tip, &author());
    assert_eq!(outcome.unwrap(), MergeOutcome::UpToDate);
    assert_eq!(head_id(&repo), base);
    assert!(!has_file(&repo, "file2.txt"));
}

#[test]
fn plans_and_outcomes_stand_for_states() {
    assert_eq!(MergePlan::UpToDate.state(), MergeState::UpToDate);
    assert_eq!(MergePlan::FastForward.state(), MergeState::FastForward);
    assert_eq!(MergePlan::NormalMerge.state(), MergeState::NormalMerge);
    assert_eq!(MergeOutcome::UpToDate.state(), MergeState::UpToDate);
    assert_eq!(MergeOutcome::FastForward.state(), MergeState::FastForward);
    assert_eq!(MergeOutcome::Committed.state(), MergeState::Committed);
}

#[test]
fn fast_forward_of_a_branch_with_a_nul_in_its_name_fails() {
    let path = scratch("nul_branch");
    let repo = Repository::init(Path::new(&path)).unwrap();
    add_file(&repo, "file1.txt", "one");
    let base = commit_current_state(&repo, "base");
    let branch = current_branch(&repo);
    repo.branch("ahead", &repo.find_commit(base).unwrap(), false).unwrap();
    switch_to_branch(&repo, "ahead");
    add_file(&repo, "file2.txt", "two");
    commit_current_state(&repo, "ahead");
    switch_to_branch(&repo, &branch);

    let tip = annotated(&repo, "refs/heads/ahead");
    let failure = gitnote_sync::merge::fast_forward(&repo, "ma\0in", &tip).unwrap_err();
    assert_eq!(failure.kind(), ErrorKind::Unclassified);
    assert_eq!(failure.step, "reference");
    assert_eq!(head_id(&repo), base);

    let outcome = carry_out(&repo, MergePlan::FastForward, "ma\0in", &tip, &author());
    assert!(outcome.is_err());
    assert_eq!(head_id(&repo), base);
}

#[test]
fn merge_in_the_name_of_an_unusable_author_fails_without_a_commit() {
    let path = scratch("unusable_author");
    let repo = Repository::init(Path::new(&path)).unwrap();
    add_file(&repo, "file1.txt", "base");
    let base = commit_current_state(&repo, "base");
    let branch = current_branch(&repo);
    repo.branch("remote", &repo.find_commit(base).unwrap(), false).unwrap();
    switch_to_branch(&repo, "remote");
    add_file(&repo, "file2.txt", "from remote");
    commit_current_state(&repo, "remote adds file2");
    switch_to_branch(&repo, &branch);
    add_file(&repo, "file3.txt", "from local");
    let local_tip = commit_current_state(&repo, "local adds file3");

    let identities = [
        ("", "test@example.com"),
        ("Moi", ""),
        ("M\0oi", "test@example.com"),
        ("Moi", "test\0@example.com"),
        ("Moi <", "test@example.com"),
        ("Moi", "<test@example.com>"),
        ("Moi", "test@example.com>"),
    ];
    for (name, email) in identities {
        let unusable = GitAuthor { name: name.to_string(), email: email.to_string() };
        let tip = annotated(&repo, "refs/heads/remote");
        let failure = gitnote_sync::merge::normal_merge(&repo, &tip, &unusable).unwrap_err();
        assert_eq!(failure.kind(), ErrorKind::Unclassified, "{:?} {:?}", name, email);
        assert_eq!(failure.step, "Signature::now");
        assert_eq!(head_id(&repo), local_tip);
        let tip = annotated(&repo, "refs/heads/remote");
        assert!(do_merge(&repo, &branch, tip, &unusable).is_err());
        assert_eq!(head_id(&repo), local_tip);
    }

    let tip = annotated(&repo, "refs/heads/remote");
    assert_eq!(do_merge(&repo, &branch, tip, &author()).unwrap(), MergeOutcome::Committed);
}

#[test]
fn texts_handed_to_the_backend_are_fixed() {
    assert_eq!(gitnote_sync::merge::branch_refname("main"), "refs/heads/main");
    assert_eq!(gitnote_sync::merge::branch_refname(""), "refs/heads/");
    assert_eq!(
        gitnote_sync::merge::fast_forward_log("refs/heads/main", "abc"),
        "Fast-Forward: Setting refs/heads/main to id: abc"
    );
    assert_eq!(gitnote_sync::merge::new_branch_log("main", "abc"), "Setting main to abc");
    assert_eq!(gitnote_sync::merge::merge_message("r1", "l2"), "Merge: r1 into l2");
}

#[test]
fn conflict_failure_names_the_conflicts() {
    let one = ConflictSides { ancestor: None, ours: Some(b"a.txt".to_vec()), theirs: None };
    let two = ConflictSides { ancestor: Some(b"b/c.md".to_vec()), ours: None, theirs: None };
    let failure = gitnote_sync::merge::conflict_failure(&vec![one, two]);
    assert_eq!(failure.kind(), ErrorKind::MergeConflict);
    assert_eq!(failure.status_code(), STATUS_MERGE_CONFLICT);
    assert_eq!(failure.paths, vec!["a.txt".to_string(), "b/c.md".to_string()]);
}

/// A branch whose tip is a commit with a tree that is not in the
/// repository.
fn branch_without_tree(repo: &Repository, name: &str, parent: Oid) {
    let text = format!(
        "tree {}\nparent {}\nauthor Moi <test@example.com> 1 +0000\ncommitter Moi <test@example.com> 1 +0000\n\nbroken\n",
        "1234567890123456789012345678901234567890", parent
    );
    let id = repo.odb().unwrap().write(git2::ObjectType::Commit, text.as_bytes()).unwrap();
    repo.reference(&format!("refs/heads/{}", name), id, true, "broken").unwrap();
}

#[test]
fn unreadable_tree_fails_the_merge_as_corruption_and_writes_nothing() {
    let path = scratch("unreadable");
    let repo = Repository::init(Path::new(&path)).unwrap();
    add_file(&repo, "file1.txt", "base");
    let base = commit_current_state(&repo, "base");
    let branch = current_branch(&repo);
    add_file(&repo, "file3.txt", "from local");
    let local_tip = commit_current_state(&repo, "local adds file3");
    branch_without_tree(&repo, "broken", base);

    let head = repo.head().unwrap();
    let tip = annotated(&repo, "refs/heads/broken");
    let failure = gitnote_sync::merge::read_merge(&repo, &head, &tip).err().unwrap();
    assert_eq!(failure.kind(), ErrorKind::RepositoryCorrupt);
    assert_eq!(failure.step, "tree");

    let tip = annotated(&repo, "refs/heads/broken");
    let failure = do_merge(&repo, &branch, tip, &author()).unwrap_err();
    assert_eq!(failure.kind(), ErrorKind::RepositoryCorrupt);
    assert!(failure.status_code() < 0);
    assert_eq!(head_id(&repo), local_tip);
    assert_eq!(current_branch(&repo), branch);
    assert_content(&repo, "file3.txt", "from local");
    assert!(repo.statuses(None).unwrap().is_empty());
}

#[test]
fn reading_a_clean_merge_finds_no_conflicts() {
    let path = scratch("reading");
    let repo = Repository::init(Path::new(&path)).unwrap();
    add_file(&repo, "file1.txt", "base");
    let base = commit_current_state(&repo, "base");
    let branch = current_branch(&repo);
    repo.branch("remote", &repo.find_commit(base).unwrap(), false).unwrap();
    switch_to_branch(&repo, "remote");
    add_file(&repo, "file2.txt", "from remote");
    let remote_tip = commit_current_state(&repo, "remote adds file2");
    switch_to_branch(&repo, &branch);
    add_file(&repo, "file3.txt", "from local");
    let local_tip = commit_current_state(&repo, "local adds file3");

    let head = repo.head().unwrap();
    let tip = annotated(&repo, "refs/heads/remote");
    let reading = gitnote_sync::merge::read_merge(&repo, &head, &tip).ok().unwrap();
    assert_eq!(reading.local_id, local_tip);
    assert_eq!(reading.remote_id, remote_tip);
    assert_eq!(reading.local_commit.id(), local_tip);
    assert_eq!(reading.remote_commit.id(), remote_tip);
    assert!(reading.conflicts.is_none());
    assert_eq!(reading.index.len(), 3);
    assert_eq!(head_id(&repo), local_tip);
    assert!(!has_file(&repo, "file2.txt"));
}

#[test]
fn analysis_tells_the_plan_without_writing() {
    let path = scratch("analysis");
    let repo = Repository::init(Path::new(&path)).unwrap();
    add_file(&repo, "file1.txt", "one");
    let base = commit_current_state(&repo, "base");
    let branch = current_branch(&repo);
    repo.branch("ahead", &repo.find_commit(base).unwrap(), false).unwrap();
    switch_to_branch(&repo, "ahead");
    add_file(&repo, "file2.txt", "two");
    commit_current_state(&repo, "ahead");
    switch_to_branch(&repo, &branch);

    let ahead = annotated(&repo, "refs/heads/ahead");
    assert_eq!(gitnote_sync::merge::analyze(&repo, &ahead).unwrap(), MergePlan::FastForward);
    let same = annotated(&repo, "HEAD");
    assert_eq!(gitnote_sync::merge::analyze(&repo, &same).unwrap(), MergePlan::UpToDate);
    add_file(&repo, "file3.txt", "three");
    commit_current_state(&repo, "local");
    let ahead = annotated(&repo, "refs/heads/ahead");
    assert_eq!(gitnote_sync::merge::analyze(&repo, &ahead).unwrap(), MergePlan::NormalMerge);
    assert!(!has_file(&repo, "file2.txt"));
}
