use mure::command_wrapper::RawCommandOutput;
use mure::git::{
    classify_pull_output, clone_args, current_branch_from_parts, delete_branch_args,
    fetch_prune_args, has_unsaved_entries, interpret_merged_branches, interpret_pull,
    is_clean_entries, merged_branches_args, pull_args, split_lines, switch_args, Error,
    PullFastForwardStatus, RawGitCommandOutput,
};
use mure::text::{contains_substring, join_lines, split_non_empty};

fn raw_git(status: i32, stdout: &str, stderr: &str) -> RawGitCommandOutput {
    RawGitCommandOutput {
        status,
        stdout: stdout.to_string(),
        stderr: stderr.to_string(),
    }
}

#[test]
fn test_split_lines() {
    let lines = "a\nb\nc\n";
    let expected = vec!["a", "b", "c"];
    assert_eq!(split_lines(lines), expected);
}

#[test]
fn test_split_lines_drops_empty_pieces() {
    assert_eq!(split_lines(""), Vec::<String>::new());
    assert_eq!(split_lines("\n\n\n"), Vec::<String>::new());
    assert_eq!(split_lines("main"), vec!["main"]);
    assert_eq!(split_lines("\na\n\nb"), vec!["a", "b"]);
}

#[test]
fn test_split_non_empty_other_separator() {
    assert_eq!(
        split_non_empty("/home/user/.dev/repo", '/'),
        vec!["home", "user", ".dev", "repo"]
    );
}

#[test]
fn test_contains_substring() {
    assert!(contains_substring("Already up to date.", "Already up to date."));
    assert!(contains_substring("xxAlready up to date.yy", "up to date"));
    assert!(!contains_substring("Fast-forward", "Already"));
    assert!(contains_substring("anything", ""));
    assert!(!contains_substring("", "a"));
}

#[test]
fn test_join_lines() {
    assert_eq!(join_lines(&vec![]), "");
    assert_eq!(join_lines(&vec!["a".to_string()]), "a");
    assert_eq!(
        join_lines(&vec!["a".to_string(), "b".to_string(), "c".to_string()]),
        "a\nb\nc"
    );
}

#[test]
fn test_classify_pull_output() {
    assert_eq!(
        classify_pull_output("Already up to date.\n"),
        PullFastForwardStatus::AlreadyUpToDate
    );
    assert_eq!(
        classify_pull_output("Updating 1111111..2222222\nFast-forward\n"),
        PullFastForwardStatus::FastForwarded
    );
    assert_eq!(
        classify_pull_output("fatal: Not possible to fast-forward, aborting.\n"),
        PullFastForwardStatus::Abort
    );
    assert_eq!(classify_pull_output(""), PullFastForwardStatus::Abort);
}

#[test]
fn test_git_success() {
    assert!(raw_git(0, "", "").success());
    assert!(!raw_git(1, "", "").success());
    assert!(!raw_git(-1, "", "").success());
}

#[test]
fn test_git_interpret_to() {
    let raw = raw_git(0, "out", "err");
    let out = raw.interpret_to(7u32).unwrap();
    assert_eq!(out.interpreted_to, 7);
    assert_eq!(out.raw.stdout, "out");
}

#[test]
fn test_git_interpret_unit() {
    assert!(raw_git(0, "", "").interpret_unit().is_ok());
    match raw_git(128, "", "boom").interpret_unit() {
        Err(Error::Raw(raw)) => assert_eq!(raw.stderr, "boom"),
        _ => panic!("expected a raw error"),
    }
}

#[test]
fn test_interpret_pull() {
    let out = interpret_pull(raw_git(0, "Already up to date.\n", ""));
    assert_eq!(out.interpreted_to, PullFastForwardStatus::AlreadyUpToDate);
    let out = interpret_pull(raw_git(1, "something odd", ""));
    assert_eq!(out.interpreted_to, PullFastForwardStatus::Abort);
}

#[test]
fn test_interpret_merged_branches() {
    let out = interpret_merged_branches(raw_git(0, "feature\nmain\n", ""));
    assert_eq!(out.interpreted_to, vec!["feature", "main"]);
}

#[test]
fn test_git_error_messages() {
    assert_eq!(
        Error::Raw(raw_git(1, "", "error: branch 'feature' not found.\n")).message(),
        "error: branch 'feature' not found.\n"
    );
    assert_eq!(
        Error::FailedToExecute("No such file or directory (os error 2)".to_string()).message(),
        "Failed to execute git command: No such file or directory (os error 2)"
    );
    assert_eq!(
        Error::NoWorkingDirectory.message(),
        "repository has no working directory"
    );
    assert_eq!(Error::CommandNotFound.message(), "git command not found");
}

#[test]
fn test_unsaved_entries() {
    assert!(!has_unsaved_entries(&vec![]));
    assert!(is_clean_entries(&vec![]));
    // a file newly added to the index
    assert!(has_unsaved_entries(&vec![1]));
    // a file modified in the working tree
    assert!(has_unsaved_entries(&vec![256]));
    // a file modified in the index and again in the working tree: any
    // qualifying flag makes the tree dirty
    assert!(has_unsaved_entries(&vec![2 | 256]));
    assert!(!is_clean_entries(&vec![1 | 128]));
    // an ignored file does not count as unsaved work
    assert!(!has_unsaved_entries(&vec![1 << 14]));
    assert!(is_clean_entries(&vec![1 << 14]));
    // but a qualifying flag beside a non-qualifying one still does
    assert!(has_unsaved_entries(&vec![(1 << 14) | 512]));
}

#[test]
fn test_argument_vectors() {
    assert_eq!(fetch_prune_args(), vec!["fetch", "--prune"]);
    assert_eq!(
        merged_branches_args(),
        vec![
            "for-each-ref",
            "--format=%(refname:short)",
            "refs/heads/**/*",
            "--merged"
        ]
    );
    assert_eq!(
        pull_args("origin", "main"),
        vec!["pull", "--ff-only", "origin", "main"]
    );
    assert_eq!(switch_args("main"), vec!["switch", "main"]);
    assert_eq!(delete_branch_args("feature"), vec!["branch", "-d", "feature"]);
    assert_eq!(
        clone_args("https://github.com/kitsuyui/mure"),
        vec!["clone", "https://github.com/kitsuyui/mure"]
    );
}

#[test]
fn test_current_branch_from_parts() {
    match current_branch_from_parts(true, None, None) {
        Err(e) => assert_eq!(e.message(), "repository is empty"),
        _ => panic!("expected an error"),
    }
    match current_branch_from_parts(false, None, None) {
        Err(e) => assert_eq!(e.message(), "head is not a branch"),
        _ => panic!("expected an error"),
    }
    match current_branch_from_parts(false, Some("main".to_string()), None) {
        Err(e) => assert_eq!(e.message(), "branch name is not found"),
        _ => panic!("expected an error"),
    }
    assert_eq!(
        current_branch_from_parts(false, Some("main".to_string()), Some("main".to_string()))
            .unwrap(),
        "main"
    );
}

#[test]
fn test_command_wrapper_interpret() {
    let raw = RawCommandOutput {
        status: 0,
        stdout: "hello".to_string(),
        stderr: String::new(),
    };
    assert!(raw.success());
    let out = raw.interpret_to(true).unwrap();
    assert!(out.interpreted_to);
    let raw = RawCommandOutput {
        status: 2,
        stdout: String::new(),
        stderr: "bad".to_string(),
    };
    assert!(!raw.success());
    match raw.interpret_unit() {
        Err(mure::command_wrapper::Error::Raw(r)) => assert_eq!(r.stderr, "bad"),
        _ => panic!("expected a raw error"),
    }
}

#[test]
fn test_command_wrapper_error_message() {
    let e = mure::command_wrapper::Error::FailedToExecute(
        "No such file or directory (os error 2)".to_string(),
    );
    assert_eq!(
        e.message(),
        "Failed to execute command: No such file or directory (os error 2)"
    );
}
