use nut_workspace::clone::{CloneAction, CloneInfo, ClonePipeline};
use nut_workspace::command::{GitCommand, ProcessOutput, Reply};
use nut_workspace::error::NutError;
use nut_workspace::gh::GitProtocol;
use nut_workspace::scheduler::CloneScheduler;

fn ran(code: i32, stdout: &str) -> Reply {
    Reply::Ran(ProcessOutput { code: Some(code), signal: None, stdout: stdout.to_string() })
}

fn info(with_metadata: bool) -> CloneInfo {
    CloneInfo {
        full_name: "owner/repo".to_string(),
        latest_commit: if with_metadata { Some("abc123".to_string()) } else { None },
        default_branch: if with_metadata { Some("main".to_string()) } else { None },
    }
}

fn expect_git(action: &CloneAction, dir: &str, args: &[&str], capture: bool) {
    let cmd: &GitCommand = match (action, capture) {
        (CloneAction::Output(c), true) => c,
        (CloneAction::Run(c), false) => c,
        other => panic!("unexpected action {:?}", other),
    };
    assert_eq!(cmd.working_dir, dir);
    assert_eq!(cmd.args, args.iter().map(|a| a.to_string()).collect::<Vec<_>>());
}

#[test]
fn second_run_with_up_to_date_checkout_makes_no_network_call() {
    let (mut p, a) = ClonePipeline::new("/ws", "/cache", &info(true), GitProtocol::Https);
    assert!(matches!(&a, CloneAction::CheckExists(d) if d == "/ws/owner/repo"));
    let a = p.step(&Reply::Exists(true));
    expect_git(&a, "/ws/owner/repo", &["rev-parse", "origin/main"], true);
    let a = p.step(&ran(0, "abc123\n"));
    assert!(matches!(a, CloneAction::Finish(Ok(()))));
    assert!(p.is_finished());
}

#[test]
fn local_clone_points_origin_at_real_url() {
    let (mut p, a) = ClonePipeline::new("/ws", "/cache", &info(false), GitProtocol::Https);
    assert!(matches!(&a, CloneAction::CheckExists(d) if d == "/ws/owner/repo"));
    let a = p.step(&Reply::Exists(false));
    expect_git(&a, "/ws", &["clone", "--local", "/cache/github.com/owner/repo", "owner/repo"], false);
    let a = p.step(&ran(0, ""));
    expect_git(
        &a,
        "/ws/owner/repo",
        &["remote", "set-url", "origin", "https://github.com/owner/repo.git"],
        false,
    );
    let a = p.step(&ran(0, ""));
    assert!(matches!(a, CloneAction::Finish(Ok(()))));
}

#[test]
fn fresh_clone_creates_mirror_then_clones_locally() {
    let (mut p, _) = ClonePipeline::new("/ws", "/cache/", &info(true), GitProtocol::Ssh);
    let a = p.step(&Reply::Exists(false));
    assert!(matches!(&a, CloneAction::CheckExists(d) if d == "/cache/github.com/owner/repo"));
    let a = p.step(&Reply::Exists(false));
    assert!(matches!(&a, CloneAction::CreateDirAll(d) if d == "/cache/github.com"));
    let a = p.step(&Reply::Done);
    expect_git(
        &a,
        "/cache/github.com",
        &["clone", "git@github.com:owner/repo.git", "owner/repo", "--mirror", "--bare"],
        false,
    );
    let a = p.step(&ran(0, ""));
    assert!(matches!(&a, CloneAction::CheckExists(d) if d == "/ws/owner/repo"));
    let a = p.step(&Reply::Exists(false));
    expect_git(&a, "/ws", &["clone", "--local", "/cache/github.com/owner/repo", "owner/repo"], false);
}

#[test]
fn stale_mirror_is_refreshed() {
    let (mut p, _) = ClonePipeline::new("/ws", "/cache", &info(true), GitProtocol::Https);
    p.step(&Reply::Exists(false));
    let a = p.step(&Reply::Exists(true));
    expect_git(&a, "/cache/github.com/owner/repo", &["rev-parse", "origin/main"], true);
    let a = p.step(&ran(0, "old999\n"));
    expect_git(&a, "/cache/github.com/owner/repo", &["remote", "update", "--prune"], false);
    let a = p.step(&ran(0, ""));
    assert!(matches!(&a, CloneAction::CheckExists(d) if d == "/ws/owner/repo"));
    let a = p.step(&Reply::Exists(true));
    assert!(matches!(a, CloneAction::Finish(Ok(()))));
}

#[test]
fn stale_checkout_on_feature_branch_is_only_fetched() {
    let (mut p, _) = ClonePipeline::new("/ws", "/cache", &info(true), GitProtocol::Https);
    p.step(&Reply::Exists(true));
    let a = p.step(&ran(0, "old999\n"));
    expect_git(&a, "/ws/owner/repo", &["branch", "--show-current"], true);
    let a = p.step(&ran(0, "feature\n"));
    expect_git(&a, "/ws/owner/repo", &["fetch", "origin"], false);
    let a = p.step(&ran(1, ""));
    match a {
        CloneAction::Finish(Err(NutError::GitOperationFailed { operation })) => {
            assert_eq!(operation, "git fetch origin")
        }
        other => panic!("unexpected {:?}", other),
    }
}

#[test]
fn stale_checkout_on_default_branch_is_pulled() {
    let (mut p, _) = ClonePipeline::new("/ws", "/cache", &info(true), GitProtocol::Https);
    p.step(&Reply::Exists(true));
    p.step(&ran(0, "old999"));
    let a = p.step(&ran(0, "main\n"));
    expect_git(&a, "/ws/owner/repo", &["pull"], false);
    assert!(matches!(p.step(&ran(0, "")), CloneAction::Finish(Ok(()))));
}

#[test]
fn pipeline_reports_git_that_cannot_start_and_directory_failures() {
    let (mut p, _) = ClonePipeline::new("/ws", "/cache", &info(true), GitProtocol::Https);
    p.step(&Reply::Exists(true));
    match p.step(&Reply::IoFailed("No such file".to_string())) {
        CloneAction::Finish(Err(NutError::GitCommandFailed { command, message })) => {
            assert_eq!(command, "git rev-parse origin/main");
            assert_eq!(message, "No such file");
        }
        other => panic!("unexpected {:?}", other),
    }
    let (mut p, _) = ClonePipeline::new("/ws", "/cache", &info(true), GitProtocol::Https);
    p.step(&Reply::Exists(false));
    p.step(&Reply::Exists(false));
    match p.step(&Reply::IoFailed("denied".to_string())) {
        CloneAction::Finish(Err(NutError::CreateDirectoryFailed { path, .. })) => {
            assert_eq!(path, "/cache/github.com")
        }
        other => panic!("unexpected {:?}", other),
    }
}

#[test]
fn zero_ceiling_is_refused_before_any_clone() {
    assert!(matches!(CloneScheduler::new(0, 3), Err(NutError::ZeroParallelism)));
}

#[test]
fn scheduler_bounds_pipelines_in_flight_and_collects_failures() {
    let mut s = CloneScheduler::new(2, 3).unwrap();
    assert_eq!(s.next_to_start(), Some(0));
    assert_eq!(s.next_to_start(), Some(1));
    assert_eq!(s.next_to_start(), None);
    s.complete(Err(NutError::GitOperationFailed { operation: "git pull".to_string() }));
    assert_eq!(s.next_to_start(), Some(2));
    assert_eq!(s.next_to_start(), None);
    s.complete(Ok(()));
    assert!(!s.is_done());
    s.complete(Ok(()));
    assert!(s.is_done());
    assert!(matches!(s.outcome(), Err(NutError::GitOperationFailed { .. })));
}

#[test]
fn git_command_builder_and_results() {
    let c = GitCommand::new("/r").arg("status").args(&["--porcelain", "-z"]);
    assert_eq!(c.describe(), "git status --porcelain -z");
    assert!(c.run_result(&ran(0, "")).is_ok());
    assert!(matches!(c.run_result(&ran(128, "")), Err(NutError::GitOperationFailed { .. })));
    match c.run_result(&Reply::Ran(ProcessOutput { code: None, signal: Some(9), stdout: String::new() })) {
        Err(NutError::GitTerminatedBySignal { operation, signal }) => {
            assert_eq!(operation, "git status --porcelain -z");
            assert_eq!(signal, 9);
        }
        other => panic!("unexpected {:?}", other),
    }
    assert!(matches!(
        c.run_result(&Reply::IoFailed("not found".to_string())),
        Err(NutError::GitCommandFailed { .. })
    ));
    assert_eq!(c.output_string(&ran(1, "  out \n")).unwrap(), "  out");
    assert_eq!(c.output_string(&ran(0, " a")).unwrap(), " a");
}
