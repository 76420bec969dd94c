use gitnote_sync::setup::{
    git_config_content, git_config_path, join_path, known_hosts_path, ssh_directory,
    writes_git_config,
};
use std::path::Path;

#[test]
fn paths_below_home_are_joined_by_one_slash() {
    assert_eq!(git_config_path("/data/home"), "/data/home/.gitconfig");
    assert_eq!(git_config_path("/data/home/"), "/data/home/.gitconfig");
    assert_eq!(ssh_directory("/data/home"), "/data/home/.ssh");
    assert_eq!(known_hosts_path("/data/home"), "/data/home/.ssh/known_hosts");
    assert_eq!(known_hosts_path("/data/home/"), "/data/home/.ssh/known_hosts");
    assert_eq!(git_config_path("/"), "/.gitconfig");
    assert_eq!(git_config_path(""), ".gitconfig");
    assert_eq!(known_hosts_path(""), ".ssh/known_hosts");
    assert_eq!(join_path("a", ""), "a/");
    assert_eq!(join_path("é", "ü"), "é/ü");
}

#[test]
fn joined_paths_agree_with_the_standard_library() {
    for home in ["/data/home", "/data/home/", "/", "", "relative", "a/b/"] {
        for name in [".gitconfig", ".ssh", "known_hosts"] {
            assert_eq!(Path::new(&join_path(home, name)), Path::new(home).join(name));
        }
    }
}

#[test]
fn configuration_marks_every_directory_as_safe() {
    assert_eq!(git_config_content(), "[safe]\n\tdirectory = *");
}

#[test]
fn configuration_is_written_only_where_there_is_none() {
    assert!(writes_git_config(false));
    assert!(!writes_git_config(true));
}
