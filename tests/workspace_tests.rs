use nut_workspace::apply::{check_script_mode, command_line, ApplyRun};
use nut_workspace::command::{ProcessOutput, Reply};
use nut_workspace::config::NutConfig;
use nut_workspace::error::NutError;
use nut_workspace::porcelain::count_changes;
use nut_workspace::repository::{find_repositories, WalkEntry, MAX_REPOSITORY_SEARCH_DEPTH};
use nut_workspace::status::{collect_statuses, status_report, RepoStatus, StatusAction, StatusQuery};
use nut_workspace::workspace::{entered_workspace, newest_first, parse_workspace_id, Workspace, WorkspaceId};

fn path(p: &str) -> Vec<String> {
    if p.is_empty() {
        Vec::new()
    } else {
        p.split('/').map(|s| s.to_string()).collect()
    }
}

fn dir(p: &str) -> WalkEntry {
    WalkEntry { components: path(p), is_dir: true }
}

fn ran(code: i32, stdout: &str) -> Reply {
    Reply::Ran(ProcessOutput { code: Some(code), signal: None, stdout: stdout.to_string() })
}

#[test]
fn staged_and_modified_plus_untracked_file() {
    let c = count_changes("MM src/lib.rs\n?? notes.txt\n");
    assert_eq!((c.staged, c.modified, c.untracked), (1, 1, 1));
    let s = RepoStatus::new(path("org/repo"), "main".to_string(), c);
    assert!(s.has_changes);
}

#[test]
fn clean_repository_has_no_changes() {
    let c = count_changes("");
    assert_eq!((c.staged, c.modified, c.untracked), (0, 0, 0));
    assert!(!RepoStatus::new(path("a"), "main".to_string(), c).has_changes);
}

#[test]
fn porcelain_codes_are_classified() {
    let c = count_changes("A  new.rs\n M edited.rs\nR  old -> new\nD  gone\r\n?? x\n?\n\nUU conflict");
    assert_eq!(c.staged, 4);
    assert_eq!(c.modified, 2);
    assert_eq!(c.untracked, 1);
    let c = count_changes("M\r\n");
    assert_eq!((c.staged, c.modified, c.untracked), (0, 0, 0));
    let c = count_changes("M\r");
    assert_eq!((c.staged, c.modified, c.untracked), (1, 1, 0));
}

#[test]
fn locator_is_sorted_and_depth_bounded() {
    let entries = vec![
        dir(""),
        dir("zeta"),
        dir("zeta/.git"),
        dir("org"),
        dir("org/b"),
        dir("org/b/.git"),
        dir("org/a-b/.git"),
        dir("org/a/.git"),
        dir("deep/er/repo/.git"),
        WalkEntry { components: path("org/c/.git"), is_dir: false },
        dir(".git"),
    ];
    assert_eq!(MAX_REPOSITORY_SEARCH_DEPTH, 3);
    let repos = find_repositories(&entries);
    assert_eq!(repos, vec![path(""), path("org/a"), path("org/a-b"), path("org/b"), path("zeta")]);
}

#[test]
fn empty_workspace_status_and_apply() {
    let report = status_report(&collect_statuses(Vec::new()));
    assert!(report.contains(&"  0 repositories total".to_string()));
    assert!(report.contains(&"All repositories are clean.".to_string()));
    let (_, step) = ApplyRun::new("/ws", Vec::new());
    assert_eq!(step.lines, vec!["No repositories found in workspace".to_string()]);
    assert!(step.run_in.is_none());
    assert!(step.result.is_ok());
}

#[test]
fn status_report_lists_repositories_with_changes() {
    let dirty = RepoStatus::new(path("org/x"), "dev".to_string(), count_changes("MM a\n?? b\n?? c\n"));
    let clean = RepoStatus::new(path("org/y"), "main".to_string(), count_changes(""));
    let all = collect_statuses(vec![Some(clean), None, Some(dirty)]);
    assert_eq!(all[0].path_text(), "org/x");
    assert_eq!(all.len(), 2);
    let report = status_report(&all);
    assert_eq!(
        report,
        vec![
            "Workspace status:",
            "  2 repositories total",
            "  1 clean, 1 with changes",
            "",
            "Repositories with changes:",
            "",
            "  org/x (dev)",
            "    1 file(s) with staged changes",
            "    1 file(s) with unstaged changes",
            "    2 untracked file(s)",
            "",
        ]
    );
}

#[test]
fn status_query_handles_detached_head_and_missing_marker() {
    let (mut q, a) = StatusQuery::new("/ws", &path("org/r"));
    assert!(matches!(&a, StatusAction::CheckExists(p) if p == "/ws/org/r/.git"));
    let a = q.step(&Reply::Exists(true));
    assert!(matches!(&a, StatusAction::Output(c) if c.args == vec!["branch", "--show-current"]));
    let a = q.step(&ran(0, "\n"));
    assert!(matches!(&a, StatusAction::Output(c) if c.args == vec!["rev-parse", "--short", "HEAD"]));
    let a = q.step(&ran(0, "1a2b3c\n"));
    assert!(matches!(&a, StatusAction::Output(c) if c.args == vec!["status", "--porcelain"] && c.working_dir == "/ws/org/r"));
    match q.step(&ran(0, " M file\n")) {
        StatusAction::Finish(Some(s)) => {
            assert_eq!(s.current_branch, "(detached at 1a2b3c)");
            assert_eq!(s.modified_files, 1);
            assert_eq!(s.path_text(), "org/r");
        }
        other => panic!("unexpected {:?}", other),
    }
    let (mut q, _) = StatusQuery::new("/ws", &path("x"));
    assert!(matches!(q.step(&Reply::Exists(false)), StatusAction::Finish(None)));
    let (mut q, _) = StatusQuery::new("/ws", &path("x"));
    q.step(&Reply::Exists(true));
    assert!(matches!(q.step(&ran(128, "")), StatusAction::Finish(None)));
}

#[test]
fn failure_in_one_repository_does_not_stop_the_next() {
    let (mut run, step) = ApplyRun::new("/ws", vec![path("org/a"), path("org/b")]);
    assert_eq!(step.lines, vec!["==> org/a <==".to_string()]);
    assert_eq!(step.run_in.as_deref(), Some("/ws/org/a"));
    let step = run.step(&ran(2, ""));
    match &step.complaint {
        Some(NutError::CommandFailed { repo, message }) => {
            assert_eq!(repo, "org/a");
            assert_eq!(message, "Command exited with status code 2");
        }
        other => panic!("unexpected {:?}", other),
    }
    assert_eq!(step.lines, vec!["".to_string(), "==> org/b <==".to_string()]);
    assert_eq!(step.run_in.as_deref(), Some("/ws/org/b"));
    let step = run.step(&ran(0, ""));
    assert!(step.complaint.is_none());
    assert!(step.run_in.is_none());
    assert!(step.result.is_ok());
}

#[test]
fn apply_reports_signals_and_start_failures() {
    let (mut run, _) = ApplyRun::new("/ws", vec![path("a"), path("b")]);
    let step = run.step(&Reply::Ran(ProcessOutput { code: None, signal: Some(15), stdout: String::new() }));
    assert!(matches!(&step.complaint, Some(NutError::CommandFailed { message, .. }) if message == "Command terminated by signal 15"));
    let step = run.step(&Reply::IoFailed("not found".to_string()));
    assert!(matches!(step.result, Err(NutError::CommandFailed { ref repo, .. }) if repo == "b"));
    let (mut run, _) = ApplyRun::new("/ws", vec![path("a")]);
    let step = run.step(&ran(-1, ""));
    assert!(matches!(&step.complaint, Some(NutError::CommandFailed { message, .. }) if message == "Command exited with status code -1"));
}

#[test]
fn apply_command_line_and_script_checks() {
    assert!(matches!(command_line(None, Vec::new()), Err(NutError::ApplyMissingCommand)));
    assert_eq!(command_line(None, vec!["ls".to_string()]).unwrap(), vec!["ls".to_string()]);
    assert_eq!(
        command_line(Some("/s.sh".to_string()), vec!["x".to_string()]).unwrap(),
        vec!["/s.sh".to_string(), "x".to_string()]
    );
    assert!(check_script_mode("s.sh", 0o755).is_ok());
    assert!(matches!(check_script_mode("s.sh", 0o644), Err(NutError::ScriptNotExecutable { .. })));
}

#[test]
fn config_directories() {
    let c = NutConfig::default();
    assert!(matches!(c.get_workspace_dir(), Err(NutError::WorkspaceDirectoryNotConfigured)));
    assert_eq!(c.get_cache_dir(&Some("/home/u".to_string())), "/home/u/.cache/nut");
    assert_eq!(c.get_cache_dir(&None), "/tmp/.cache/nut");
    let c = NutConfig { workspace_dir: Some("/w".to_string()), cache_dir: Some("/c".to_string()) };
    assert_eq!(c.get_workspace_dir().unwrap(), "/w");
    assert_eq!(c.get_cache_dir(&None), "/c");
}

#[test]
fn workspace_ids_round_trip_and_resolve() {
    let id = parse_workspace_id("01D39ZY06FGSCTVN4T2V9PKHFZ").unwrap();
    assert_eq!(id.to_text(), "01D39ZY06FGSCTVN4T2V9PKHFZ");
    assert_eq!(id.timestamp_ms(), 1_549_744_931_023);
    assert!(matches!(parse_workspace_id("nope"), Err(NutError::InvalidWorkspaceId { .. })));
    assert_eq!(parse_workspace_id("01d39zy06fgsctvn4t2v9pkhfz").unwrap(), id);
    assert!(matches!(parse_workspace_id("01D39ZY06FGSCTVN4T2V9PKHFU"), Err(NutError::InvalidWorkspaceId { .. })));
    assert_eq!(WorkspaceId { value: 0 }.to_text(), "00000000000000000000000000");
    let w = Workspace::resolve(&Some("01D39ZY06FGSCTVN4T2V9PKHFZ".to_string()), Err(NutError::AlreadyInWorkspace), "/data").unwrap();
    assert_eq!(w.path, "/data/01D39ZY06FGSCTVN4T2V9PKHFZ");
    let entered = entered_workspace(&path("01D39ZY06FGSCTVN4T2V9PKHFZ/org"), "/data/x", "/data");
    let w = Workspace::resolve(&None, entered, "/data").unwrap();
    assert_eq!(w.id, WorkspaceId { value: id.value });
    assert!(matches!(
        entered_workspace(&Vec::new(), "/home", "/data"),
        Err(NutError::NotInWorkspace { .. })
    ));
}

#[test]
fn workspaces_are_listed_newest_first() {
    let at = |ms: u128, r: u128| WorkspaceId { value: (ms << 80) | r };
    let ids = vec![at(5, 1), at(9, 0), at(5, 0), at(7, 3)];
    assert_eq!(newest_first(&ids), vec![1, 3, 0, 2]);
    assert_eq!(newest_first(&Vec::new()), Vec::<usize>::new());
}
