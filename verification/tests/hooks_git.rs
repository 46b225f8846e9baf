use proximityd::hooks::{git_branch_from_head, git_commit_from_head, git_head_ref, git_remote_from_config, hook_command};

#[test]
fn branch_from_head() {
    assert_eq!(git_branch_from_head("ref: refs/heads/main\n"), Some("main".to_string()));
    assert_eq!(git_branch_from_head("0123abcd\n"), Some("0123abcd".to_string()));
}

#[test]
fn commit_from_head() {
    assert_eq!(git_head_ref("ref: refs/heads/main\n"), Some("refs/heads/main".to_string()));
    assert_eq!(git_head_ref("0123abcd\n"), None);
    assert_eq!(git_commit_from_head("ref: refs/heads/main\n", Some("deadbeef\n")), Some("deadbeef".to_string()));
    assert_eq!(git_commit_from_head("ref: refs/heads/main\n", None), None);
    assert_eq!(git_commit_from_head(" 0123abcd \n", None), Some("0123abcd".to_string()));
}

#[test]
fn remote_from_config() {
    let cfg = "[core]\n\tbare = false\n[remote \"origin\"]\n\turl = git@example.com:a/b.git\r\n\turl = second\n";
    assert_eq!(git_remote_from_config(cfg), Some("git@example.com:a/b.git".to_string()));
    assert_eq!(git_remote_from_config("[core]\n"), None);
}

#[test]
fn session_hook_command() {
    assert_eq!(hook_command("/usr/bin/proximityd"), "/usr/bin/proximityd session-context --format toon");
}
