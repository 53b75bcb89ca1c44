use mure::batch::{progress_line, report_lines, RepoOutcome};
use mure::clone::clone_plan;
use mure::config::{Config, ConfigSupport, Core, GitHub, Shell};
use mure::edit::{choose_editor, get_editor_from_config};
use mure::gh::{default_branch_args, interpret_default_branch};
use mure::github::RepoInfo;
use mure::issues::{ApiRepository, GitHubRepoSummary, RepositorySummary};
use mure::list::{list_line, mure_repo_from_paths};
use mure::mure_error::Error;
use mure::path::{shell_shims, shell_shims_for_cd_directly};
use mure::refresh::{Reason, RefreshStatus};
use mure::Verbosity;

fn plain_config(base_dir: &str) -> Config {
    Config {
        core: Core {
            base_dir: base_dir.to_string(),
            editor: None,
        },
        github: GitHub {
            username: "kitsuyui".to_string(),
            query: None,
            queries: None,
        },
        shell: Some(Shell {
            cd_shims: Some("mucd".to_string()),
        }),
    }
}

#[test]
fn mod_test_parse_github_url() {
    let tobe = RepoInfo::new("github.com", "kitsuyui", "mure");

    // match
    assert_eq!(
        RepoInfo::parse_url("https://github.com/kitsuyui/mure").unwrap(),
        tobe
    );
    assert_eq!(
        RepoInfo::parse_url("https://github.com/kitsuyui/mure.git").unwrap(),
        tobe
    );
    assert_eq!(
        RepoInfo::parse_url("git@github.com:kitsuyui/mure.git").unwrap(),
        tobe
    );
    assert_eq!(
        RepoInfo::parse_url("ssh://git@github.com:22/kitsuyui/mure.git").unwrap(),
        tobe
    );
    assert_eq!(
        RepoInfo::parse_url("ssh://git@github.com/kitsuyui/mure.git").unwrap(),
        tobe
    );

    // not match
    assert!(RepoInfo::parse_url("https://github.com/").is_none());
    assert!(RepoInfo::parse_url("https://example.com/something/else").is_none());
    assert!(RepoInfo::parse_url("git@example.com:kitsuyui/mure.git").is_none());
    assert!(RepoInfo::parse_url("ssh://git@example.com/kitsuyui/mure.git").is_none());
}

#[test]
fn repo_test_parse_github_url() {
    let tobe = RepoInfo::new("github.com", "kitsuyui", "mure");

    assert_eq!(
        RepoInfo::parse_url("https://github.com/kitsuyui/mure").unwrap(),
        tobe
    );
    assert_eq!(
        RepoInfo::parse_url("https://github.com/kitsuyui/mure.git").unwrap(),
        tobe
    );
    assert_eq!(
        RepoInfo::parse_url("git@github.com:kitsuyui/mure.git").unwrap(),
        tobe
    );
    assert_eq!(
        RepoInfo::parse_url("ssh://git@github.com:22/kitsuyui/mure.git").unwrap(),
        tobe
    );
    assert_eq!(
        RepoInfo::parse_url("ssh://git@github.com/kitsuyui/mure.git").unwrap(),
        tobe
    );

    assert!(RepoInfo::parse_url("https://github.com/").is_none());
    assert!(RepoInfo::parse_url("https://example.com/something/else").is_none());
    assert!(RepoInfo::parse_url("git@example.com:kitsuyui/mure.git").is_none());
    assert!(RepoInfo::parse_url("ssh://git@example.com/kitsuyui/mure.git").is_none());
}

#[test]
fn test_names() {
    let repo_info = RepoInfo::new("github.com", "kitsuyui", "mure");
    assert_eq!(repo_info.fully_qualified_name(), "github.com/kitsuyui/mure");
    assert_eq!(repo_info.name_with_owner(), "kitsuyui/mure");
}

#[test]
fn test_shell_shims() {
    let config = Config {
        core: Core {
            base_dir: "".to_string(),
            editor: None,
        },
        github: GitHub {
            username: "".to_string(),
            query: None,
            queries: None,
        },
        shell: Some(Shell {
            cd_shims: Some("mucd".to_string()),
        }),
    };
    let shims = shell_shims(&config);
    assert_eq!(
        shims,
        "function mucd() { local p=$(mure path \"$1\") && cd \"$p\" }\n"
    );
}

#[test]
fn test_shell_shims_for_cd_directly() {
    assert_eq!(
        shell_shims_for_cd_directly("mure", "godev"),
        "function godev() { local p=$(mure path \"$1\") && cd \"$p\" }\n"
    );
}

#[test]
fn test_get_get_editor_from_config() {
    let mut config = plain_config("~/.dev");
    config.core.editor = Some("great_editor".to_string());
    let result = get_editor_from_config(&config);
    assert!(result.is_ok());
    assert_eq!(result.unwrap(), "great_editor");
}

#[test]
fn test_get_editor_from_config_missing() {
    let config = plain_config("~/.dev");
    let result = get_editor_from_config(&config);
    match result {
        Err(e) => assert_eq!(e.message(), "No editor found"),
        _ => panic!("expected an error"),
    }
}

#[test]
fn test_choose_editor_priority() {
    assert_eq!(
        choose_editor(
            Some("config_editor".to_string()),
            Some("git_editor".to_string()),
            Some("env_editor".to_string())
        )
        .unwrap(),
        "config_editor"
    );
    assert_eq!(
        choose_editor(None, Some("git_editor".to_string()), Some("env_editor".to_string()))
            .unwrap(),
        "git_editor"
    );
    assert_eq!(
        choose_editor(None, None, Some("env_editor".to_string())).unwrap(),
        "env_editor"
    );
    match choose_editor(None, None, None) {
        Err(e) => assert_eq!(e.message(), "No editor found"),
        _ => panic!("expected an error"),
    }
}

#[test]
fn test_config_paths() {
    let config = plain_config("/home/user/.dev");
    assert_eq!(config.base_path(), "/home/user/.dev");
    assert_eq!(config.repos_store_path(), "/home/user/.dev/repo");
    assert_eq!(
        config.repo_store_path("github.com", "kitsuyui", "mure"),
        "/home/user/.dev/repo/github.com/kitsuyui/mure"
    );
    assert_eq!(
        config.repo_work_path("github.com", "kitsuyui", "mure"),
        "/home/user/.dev/mure"
    );
    assert_eq!(config.resolve_cd_shims(), "mucd");
}

#[test]
fn test_resolve_cd_shims_default() {
    let mut config = plain_config("/tmp");
    config.shell = None;
    assert_eq!(config.resolve_cd_shims(), "mucd");
    config.shell = Some(Shell { cd_shims: None });
    assert_eq!(config.resolve_cd_shims(), "mucd");
}

#[test]
fn test_queries_selection() {
    let mut config = plain_config("/tmp");
    assert!(!config.github.is_both_query_and_queries_set());
    assert_eq!(config.github.get_queries(), Vec::<String>::new());
    config.github.query = Some("is:public".to_string());
    assert_eq!(config.github.get_queries(), vec!["is:public"]);
    config.github.queries = Some(vec!["a".to_string(), "b".to_string()]);
    assert!(config.github.is_both_query_and_queries_set());
    assert_eq!(config.github.get_queries(), vec!["a", "b"]);
}

#[test]
fn test_select_queries() {
    let mut config = plain_config("/tmp");
    let cli = vec!["is:public".to_string()];
    assert_eq!(
        mure::issues::select_queries(&cli, &config.github).unwrap(),
        vec!["is:public"]
    );
    let none: Vec<String> = vec![];
    assert_eq!(
        mure::issues::select_queries(&none, &config.github).unwrap(),
        Vec::<String>::new()
    );
    config.github.query = Some("a".to_string());
    config.github.queries = Some(vec!["b".to_string()]);
    match mure::issues::select_queries(&none, &config.github) {
        Err(e) => assert_eq!(
            e.message(),
            "Both query and queries are set. Please set only one of them."
        ),
        _ => panic!("expected an error"),
    }
}

#[test]
fn test_default_config() {
    let config = mure::config::default_config();
    assert_eq!(config.core.base_dir, "~/.dev");
    assert!(config.core.editor.is_none());
    assert_eq!(config.github.username, "");
    assert_eq!(config.shell.unwrap().cd_shims.unwrap(), "mucd");
}

#[test]
fn test_default_branch_args() {
    assert_eq!(
        default_branch_args(),
        vec![
            "repo",
            "view",
            "--json",
            "defaultBranchRef",
            "-t",
            "{{.defaultBranchRef.name}}"
        ]
    );
}

#[test]
fn test_interpret_default_branch() {
    let ok = interpret_default_branch(mure::command_wrapper::RawCommandOutput {
        status: 0,
        stdout: "main".to_string(),
        stderr: String::new(),
    });
    assert_eq!(ok.unwrap(), "main");
    let err = interpret_default_branch(mure::command_wrapper::RawCommandOutput {
        status: 1,
        stdout: String::new(),
        stderr: "gh: Not Found (HTTP 404)".to_string(),
    });
    match err {
        Err(e) => assert_eq!(e.message(), "gh: Not Found (HTTP 404)"),
        _ => panic!("expected an error"),
    }
}

#[test]
fn test_mure_repo_from_paths() {
    let repo = mure_repo_from_paths(
        "/home/user/.dev/mure",
        "/home/user/.dev/repo/github.com/kitsuyui/mure",
    )
    .unwrap();
    assert_eq!(repo.relative_path, "/home/user/.dev/mure");
    assert_eq!(
        repo.absolute_path,
        "/home/user/.dev/repo/github.com/kitsuyui/mure"
    );
    assert_eq!(repo.repo.domain, "github.com");
    assert_eq!(repo.repo.owner, "kitsuyui");
    assert_eq!(repo.repo.repo, "mure");
    assert_eq!(repo.repo.fully_qualified_name(), "github.com/kitsuyui/mure");
}

#[test]
fn test_mure_repo_from_shallow_path() {
    match mure_repo_from_paths("link", "/mure") {
        Err(e) => assert_eq!(e.message(), "failed to get owner or domain"),
        _ => panic!("expected an error"),
    }
    match mure_repo_from_paths("link", "/") {
        Err(e) => assert_eq!(e.message(), "failed to get repo name"),
        _ => panic!("expected an error"),
    }
}

#[test]
fn test_list_line() {
    let repo = mure_repo_from_paths("mure", "/base/repo/github.com/kitsuyui/mure").unwrap();
    assert_eq!(
        list_line(&repo, true, true),
        "/base/repo/github.com/kitsuyui/mure"
    );
    assert_eq!(list_line(&repo, false, true), "kitsuyui/mure");
    assert_eq!(list_line(&repo, true, false), "mure");
    assert_eq!(list_line(&repo, false, false), "mure");
}

#[test]
fn test_clone_plan() {
    let config = plain_config("/home/user/.dev");
    let plan = clone_plan(&config, "https://github.com/kitsuyui/mure").unwrap();
    assert_eq!(plan.base, "/home/user/.dev");
    assert_eq!(
        plan.store_path,
        "/home/user/.dev/repo/github.com/kitsuyui/mure"
    );
    assert_eq!(plan.parent_path, "/home/user/.dev/repo/github.com/kitsuyui");
    assert_eq!(plan.work_path, "/home/user/.dev/mure");

    match clone_plan(&config, "") {
        Err(e) => assert_eq!(e.message(), "invalid repo url"),
        _ => panic!("expected an error"),
    }
}

#[test]
fn test_clone_report_lines() {
    let raw = mure::git::RawGitCommandOutput {
        status: 0,
        stdout: "out\n".to_string(),
        stderr: "Cloning into 'mure'...\n".to_string(),
    };
    assert_eq!(
        mure::clone::clone_report_lines(&raw, Verbosity::Quiet),
        Vec::<String>::new()
    );
    assert_eq!(
        mure::clone::clone_report_lines(&raw, Verbosity::Normal),
        vec!["Cloning into 'mure'...\n"]
    );
    assert_eq!(
        mure::clone::clone_report_lines(&raw, Verbosity::Verbose),
        vec!["Cloning into 'mure'...\n", "out\n"]
    );
}

#[test]
fn test_empty_discovery_line() {
    assert_eq!(mure::batch::empty_discovery_line(), "No repositories found");
}

#[test]
fn test_already_initialized_error() {
    assert_eq!(
        mure::config::already_initialized_error().message(),
        "config file already exists"
    );
}

#[test]
fn test_mure_error_variants() {
    assert_eq!(Error::from_str("boom").message(), "boom");
    assert_eq!(Error::GitCommandError("git".to_string()).message(), "git");
    assert_eq!(Error::GHCommandError("gh".to_string()).message(), "gh");
    assert_eq!(Error::CodecovError("cov".to_string()).message(), "cov");
}

#[test]
fn test_verbosity_from_bools() {
    assert!(matches!(Verbosity::from_bools(true, false), Verbosity::Quiet));
    assert!(matches!(Verbosity::from_bools(true, true), Verbosity::Quiet));
    assert!(matches!(
        Verbosity::from_bools(false, true),
        Verbosity::Verbose
    ));
    assert!(matches!(
        Verbosity::from_bools(false, false),
        Verbosity::Normal
    ));
}

#[test]
fn test_summary_from_api() {
    let api = ApiRepository {
        name: "mure".to_string(),
        issues_total_count: 3,
        pull_requests_total_count: 5,
        default_branch_name: Some("main".to_string()),
        url: "https://github.com/kitsuyui/mure".to_string(),
        latest_release_published_at: Some("2023-01-02T03:04:05Z".to_string()),
    };
    let summary = GitHubRepoSummary::new_from_api(&api);
    assert_eq!(summary.last_release_at, "2023-01-02");
    assert_eq!(summary.number_of_issues, 3);
    assert_eq!(summary.number_of_pull_requests, 5);

    let api = ApiRepository {
        name: "quiet".to_string(),
        issues_total_count: 0,
        pull_requests_total_count: 0,
        default_branch_name: None,
        url: "https://example.invalid".to_string(),
        latest_release_published_at: None,
    };
    let summary = GitHubRepoSummary::new_from_api(&api);
    assert_eq!(summary.last_release_at, "****-**-**");
    let row = RepositorySummary::new(summary);
    assert_eq!(row.default_branch(), "main");
    assert_eq!(row.number_of_issues(), 0);
    assert_eq!(row.number_of_pull_requests(), 0);
}

#[test]
fn test_repository_summary_order() {
    let mk = |name: &str, issues: i64, prs: i64| ApiRepository {
        name: name.to_string(),
        issues_total_count: issues,
        pull_requests_total_count: prs,
        default_branch_name: Some("main".to_string()),
        url: format!("https://github.com/kitsuyui/{name}"),
        latest_release_published_at: None,
    };
    let repos = vec![mk("few", 1, 1), mk("many", 2, 9), mk("tied", 7, 1)];
    let rows = mure::issues::repository_summary(&repos).unwrap();
    let names: Vec<String> = rows.iter().map(|r| r.github.name.clone()).collect();
    assert_eq!(names, vec!["many", "tied", "few"]);
}

#[test]
fn test_batch_report() {
    assert_eq!(progress_line(&"mure".to_string()), "> Refreshing mure");

    let skip = RepoOutcome {
        name: "norepo".to_string(),
        result: Ok(RefreshStatus::DoNothing(Reason::NotGitRepository)),
    };
    assert_eq!(report_lines(&skip), vec!["norepo is not a git repository"]);

    let skip = RepoOutcome {
        name: "quiet".to_string(),
        result: Ok(RefreshStatus::DoNothing(Reason::NoRemote)),
    };
    assert_eq!(report_lines(&skip), vec!["quiet has no remote"]);

    let update = RepoOutcome {
        name: "mure".to_string(),
        result: Ok(RefreshStatus::Update {
            switch_to_default: false,
            message: "Fast-forwarded".to_string(),
        }),
    };
    assert_eq!(report_lines(&update), vec!["Fast-forwarded"]);

    let update = RepoOutcome {
        name: "mure".to_string(),
        result: Ok(RefreshStatus::Update {
            switch_to_default: true,
            message: "done".to_string(),
        }),
    };
    assert_eq!(report_lines(&update), vec!["Switched to mure", "done"]);

    let failure = RepoOutcome {
        name: "broken".to_string(),
        result: Err(Error::from_str("fatal: lost")),
    };
    assert_eq!(report_lines(&failure), vec!["fatal: lost"]);
}

#[test]
fn test_batch_isolates_one_skip() {
    // Three repositories: one with no remote, two fully synchronized. The
    // batch reports one skip and two updates; every outcome produces lines
    // and none stops the others.
    let outcomes = vec![
        RepoOutcome {
            name: "a".to_string(),
            result: Ok(RefreshStatus::Update {
                switch_to_default: false,
                message: "Already up to date".to_string(),
            }),
        },
        RepoOutcome {
            name: "b".to_string(),
            result: Ok(RefreshStatus::DoNothing(Reason::NoRemote)),
        },
        RepoOutcome {
            name: "c".to_string(),
            result: Ok(RefreshStatus::Update {
                switch_to_default: false,
                message: "Already up to date".to_string(),
            }),
        },
    ];
    let mut skips: usize = 0;
    let mut updates: usize = 0;
    for outcome in &outcomes {
        let lines = report_lines(outcome);
        assert!(!lines.is_empty());
        match &outcome.result {
            Ok(RefreshStatus::DoNothing(_)) => skips += 1,
            Ok(RefreshStatus::Update { .. }) => updates += 1,
            Err(_) => panic!("no error may escape the batch"),
        }
        drop(lines);
    }
    assert_eq!(skips, 1);
    assert_eq!(updates, outcomes.len() - 1);
}
