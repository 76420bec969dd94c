use gitnote_sync::error::{
    classify, status_of, ErrorKind, GitFailure, Stage, SyncError, CLASS_CALLBACK, CLASS_OS,
    CODE_AUTH, CODE_EXISTS, CODE_GENERIC, CODE_NOT_FOUND, CODE_OWNER, CODE_USER,
    STATUS_MERGE_CONFLICT, STATUS_NOTHING_TO_COMMIT, STATUS_NO_ACTIVE_REPOSITORY, STATUS_OK,
};

fn failure(code: i32, class: i32, text: &str) -> GitFailure {
    GitFailure { code, class, text: text.to_string() }
}

const STAGES: [Stage; 6] =
    [Stage::Open, Stage::Clone, Stage::Transport, Stage::Resolve, Stage::Read, Stage::Write];

#[test]
fn backend_constants_are_the_backends_own() {
    assert_eq!(CODE_GENERIC, git2::Error::from_str("x").raw_code());
    let code = |c: git2::ErrorCode| git2::Error::new(c, git2::ErrorClass::None, "x").raw_code();
    let class = |c: git2::ErrorClass| {
        git2::Error::new(git2::ErrorCode::GenericError, c, "x").raw_class() as i32
    };
    assert_eq!(CODE_NOT_FOUND, code(git2::ErrorCode::NotFound));
    assert_eq!(CODE_EXISTS, code(git2::ErrorCode::Exists));
    assert_eq!(CODE_USER, code(git2::ErrorCode::User));
    assert_eq!(CODE_AUTH, code(git2::ErrorCode::Auth));
    assert_eq!(CODE_OWNER, code(git2::ErrorCode::Owner));
    assert_eq!(CLASS_OS, class(git2::ErrorClass::Os));
    assert_eq!(CLASS_CALLBACK, class(git2::ErrorClass::Callback));
    assert_eq!(gitnote_sync::merge::ANALYSIS_NORMAL, git2::MergeAnalysis::ANALYSIS_NORMAL.bits());
    assert_eq!(
        gitnote_sync::merge::ANALYSIS_UP_TO_DATE,
        git2::MergeAnalysis::ANALYSIS_UP_TO_DATE.bits()
    );
    assert_eq!(
        gitnote_sync::merge::ANALYSIS_FAST_FORWARD,
        git2::MergeAnalysis::ANALYSIS_FASTFORWARD.bits()
    );
    assert_eq!(gitnote_sync::history::SORT_BY_TIME, git2::Sort::TIME.bits());
}

#[test]
fn opening_failures_are_sorted_by_code_then_class() {
    assert_eq!(classify(Stage::Open, CODE_NOT_FOUND, 6), ErrorKind::PathInvalid);
    assert_eq!(classify(Stage::Open, CODE_NOT_FOUND, CLASS_OS), ErrorKind::PathInvalid);
    assert_eq!(classify(Stage::Open, CODE_EXISTS, 0), ErrorKind::AlreadyExists);
    assert_eq!(classify(Stage::Open, CODE_GENERIC, CLASS_OS), ErrorKind::PermissionDenied);
    assert_eq!(classify(Stage::Open, CODE_OWNER, 7), ErrorKind::PermissionDenied);
    assert_eq!(classify(Stage::Open, CODE_GENERIC, 6), ErrorKind::RepositoryCorrupt);
    assert_eq!(classify(Stage::Open, CODE_AUTH, 0), ErrorKind::RepositoryCorrupt);
    assert_eq!(classify(Stage::Open, 0, 0), ErrorKind::RepositoryCorrupt);
}

#[test]
fn transfer_failures_put_authentication_first() {
    for stage in [Stage::Clone, Stage::Transport] {
        assert_eq!(classify(stage, CODE_AUTH, 23), ErrorKind::AuthenticationFailed);
        assert_eq!(classify(stage, CODE_AUTH, CLASS_CALLBACK), ErrorKind::AuthenticationFailed);
        assert_eq!(classify(stage, CODE_USER, 0), ErrorKind::TransferCancelled);
        assert_eq!(classify(stage, CODE_GENERIC, CLASS_CALLBACK), ErrorKind::TransferCancelled);
        assert_eq!(classify(stage, CODE_GENERIC, 12), ErrorKind::Unclassified);
        assert_eq!(classify(stage, -17, 16), ErrorKind::Unclassified);
    }
    assert_eq!(classify(Stage::Clone, CODE_NOT_FOUND, 0), ErrorKind::PathInvalid);
    assert_eq!(classify(Stage::Clone, CODE_EXISTS, 0), ErrorKind::AlreadyExists);
    assert_eq!(classify(Stage::Clone, CODE_GENERIC, CLASS_OS), ErrorKind::PermissionDenied);
    assert_eq!(classify(Stage::Clone, CODE_OWNER, 0), ErrorKind::PermissionDenied);
    assert_eq!(classify(Stage::Transport, CODE_NOT_FOUND, 0), ErrorKind::Unclassified);
    assert_eq!(classify(Stage::Transport, CODE_EXISTS, 0), ErrorKind::Unclassified);
    assert_eq!(classify(Stage::Transport, CODE_GENERIC, CLASS_OS), ErrorKind::Unclassified);
}

#[test]
fn local_failures_depend_on_the_stage_alone() {
    for code in [CODE_GENERIC, CODE_NOT_FOUND, CODE_EXISTS, CODE_USER, CODE_AUTH, CODE_OWNER, -9] {
        for class in [0, CLASS_OS, CLASS_CALLBACK, 9] {
            assert_eq!(classify(Stage::Read, code, class), ErrorKind::RepositoryCorrupt);
            assert_eq!(classify(Stage::Write, code, class), ErrorKind::Unclassified);
            assert_eq!(classify(Stage::Resolve, code, class), ErrorKind::Unclassified);
        }
    }
}

#[test]
fn no_backend_failure_gets_a_class_of_the_engine() {
    for stage in STAGES {
        for code in -40..=1 {
            for class in 0..=35 {
                let kind = classify(stage, code, class);
                assert_ne!(kind, ErrorKind::NoActiveRepository);
                assert_ne!(kind, ErrorKind::NothingToCommit);
                assert_ne!(kind, ErrorKind::MergeConflict);
                let e = SyncError::from_backend_failure(stage, "s", failure(code, class, "t"));
                assert_eq!(e.kind(), kind);
                assert!(e.status_code() < 0);
            }
        }
    }
}

#[test]
fn backend_failure_keeps_code_and_text() {
    let e = SyncError::from_backend_failure(Stage::Open, "Repository::open", failure(-3, 6, "gone"));
    assert_eq!(e.kind(), ErrorKind::PathInvalid);
    assert_eq!(e.status_code(), -3);
    assert_eq!(e.message(), "Repository::open: gone");
    assert!(e.paths.is_empty());

    let odd = SyncError::from_backend_failure(Stage::Write, "commit", failure(0, 0, "no code"));
    assert_eq!(odd.status_code(), CODE_GENERIC);
    let positive = SyncError::from_backend_failure(Stage::Write, "commit", failure(7, 0, ""));
    assert_eq!(positive.status_code(), CODE_GENERIC);
    assert_eq!(positive.message(), "commit: ");
    let low = SyncError::from_backend_failure(Stage::Write, "commit", failure(i32::MIN, 0, ""));
    assert_eq!(low.status_code(), i32::MIN);
}

#[test]
fn a_requested_stop_makes_any_transfer_failure_a_cancellation() {
    let plain = SyncError::from_transfer_failure(Stage::Clone, "clone", failure(-1, 0, "x"), false);
    assert_eq!(plain.kind(), ErrorKind::Unclassified);
    let stopped = SyncError::from_transfer_failure(Stage::Clone, "clone", failure(-1, 0, "x"), true);
    assert_eq!(stopped.kind(), ErrorKind::TransferCancelled);
    assert_eq!(stopped.status_code(), -1);
    assert_eq!(stopped.message(), "clone: x");
    let auth =
        SyncError::from_transfer_failure(Stage::Transport, "fetch", failure(-16, 23, "x"), true);
    assert_eq!(auth.kind(), ErrorKind::TransferCancelled);
    assert_eq!(auth.status_code(), -16);
    let refused =
        SyncError::from_transfer_failure(Stage::Transport, "fetch", failure(-16, 23, "x"), false);
    assert_eq!(refused.kind(), ErrorKind::AuthenticationFailed);
}

#[test]
fn failures_of_the_engine_have_their_own_statuses() {
    let none = SyncError::no_active_repository("push");
    assert_eq!(none.kind(), ErrorKind::NoActiveRepository);
    assert_eq!(none.status_code(), STATUS_NO_ACTIVE_REPOSITORY);
    assert_eq!(none.status_code(), 1);
    assert_eq!(none.message(), "push: no repository is active");

    let nothing = SyncError::nothing_to_commit("commit");
    assert_eq!(nothing.kind(), ErrorKind::NothingToCommit);
    assert_eq!(nothing.status_code(), STATUS_NOTHING_TO_COMMIT);
    assert_eq!(nothing.status_code(), 2);

    let conflict = SyncError::merge_conflict("merge", vec!["a.txt".to_string(), "b/c.md".to_string()]);
    assert_eq!(conflict.kind(), ErrorKind::MergeConflict);
    assert_eq!(conflict.status_code(), STATUS_MERGE_CONFLICT);
    assert_eq!(conflict.status_code(), 3);
    assert_eq!(conflict.paths, vec!["a.txt".to_string(), "b/c.md".to_string()]);

    let corrupt = SyncError::corrupt("pull");
    assert_eq!(corrupt.kind(), ErrorKind::RepositoryCorrupt);
    assert_eq!(corrupt.status_code(), CODE_GENERIC);
    assert_eq!(corrupt.message(), "pull: the repository was found corrupt; reopen it");
}

#[test]
fn status_is_zero_for_success_only() {
    let ok: Result<u8, SyncError> = Ok(7);
    assert_eq!(status_of(&ok), STATUS_OK);
    assert_eq!(status_of(&ok), 0);
    let failed: Result<u8, SyncError> = Err(SyncError::nothing_to_commit("commit"));
    assert_eq!(status_of(&failed), 2);
    let backend: Result<(), SyncError> =
        Err(SyncError::from_backend_failure(Stage::Read, "tree", failure(-3, 9, "missing")));
    assert_eq!(status_of(&backend), -3);
}
