use headway::cloudbuild::{build_step, BuildAction, BuildEvent, BuildState, CloudbuildRun};
use headway::plan::assemble_plan;
use headway::types::{BuildConfig, BuildPlan, BuildVerdict, Status};
use std::path::PathBuf;

/// What the outside world answers while a build runs.
struct World {
    script_exists: bool,
    exit_code: Option<i32>,
    stdout: &'static str,
    stderr: &'static str,
    elapsed_ms: u64,
    version_after: Option<&'static str>,
}

/// Drive the machine to its verdict; also returns how many times the script ran
/// and the diagnostic that was to be printed.
fn drive(bp: &BuildPlan, cfg: &BuildConfig, w: &World) -> (BuildVerdict, usize, Option<String>) {
    let mut state = BuildState::Start;
    let mut event = BuildEvent::Started;
    let mut runs = 0;
    loop {
        assert!(state.accepts(&event));
        let (next, action) = build_step(bp, cfg, state, event);
        state = next;
        event = match action {
            BuildAction::CheckScript { path } => {
                assert_eq!(path, cfg.cloudbuild_path);
                BuildEvent::ScriptChecked { exists: w.script_exists }
            }
            BuildAction::RunCloudbuild { script, crate_name } => {
                assert_eq!(script, cfg.cloudbuild_path);
                assert_eq!(crate_name, bp.crate_name);
                runs += 1;
                BuildEvent::CloudbuildFinished {
                    run: CloudbuildRun {
                        exit_code: w.exit_code,
                        success: w.exit_code == Some(0),
                        stdout: w.stdout.to_owned(),
                        stderr: w.stderr.to_owned(),
                        elapsed_ms: w.elapsed_ms,
                    },
                }
            }
            BuildAction::ProbeVersion { crate_name } => {
                assert_eq!(crate_name, bp.crate_name);
                BuildEvent::VersionProbed { version: w.version_after.map(str::to_owned) }
            }
            BuildAction::Finish { verdict, diagnostic } => return (verdict, runs, diagnostic),
        };
    }
}

fn test_plan(name: &str, cfg: &BuildConfig) -> BuildPlan {
    assemble_plan(format!("/tmp/x/{name}"), name.to_owned(), "unknown".to_owned(), None, cfg)
}

fn cfg(path: &str, require_fresh: bool) -> BuildConfig {
    BuildConfig { cloudbuild_path: path.to_owned(), require_fresh }
}

fn world(exists: bool, code: i32, stdout: &'static str, stderr: &'static str) -> World {
    World {
        script_exists: exists,
        exit_code: Some(code),
        stdout,
        stderr,
        elapsed_ms: 12,
        version_after: None,
    }
}

#[test]
fn test_build_cloudbuild_absent_returns_unreachable() {
    let cfg = cfg("/tmp/x/nonexistent_cloudbuild.sh", false);
    let bp = test_plan("testcrate", &cfg);
    let (verdict, runs, diag) = drive(&bp, &cfg, &world(false, 0, "", ""));
    assert_eq!(verdict.status, Status::CloudbuildUnreachable);
    assert_eq!(runs, 0);
    assert_eq!(
        diag.as_deref(),
        Some("headway: cloudbuild.sh not found at /tmp/x/nonexistent_cloudbuild.sh: returning cloudbuild-unreachable")
    );
}

#[test]
fn test_build_stub_success() {
    let cfg = cfg("/tmp/x/stub_cloudbuild.sh", false);
    let bp = test_plan("testcrate", &cfg);
    let (verdict, runs, diag) = drive(&bp, &cfg, &world(true, 0, "pulled: /tmp/testcrate\n", ""));
    assert_eq!(verdict.status, Status::Built);
    assert_eq!(verdict.artifact_path.map(PathBuf::from), Some(PathBuf::from("/tmp/testcrate")));
    assert_eq!(runs, 1);
    assert_eq!(diag, None);
}

#[test]
fn test_build_stub_build_failed() {
    let cfg = cfg("/tmp/x/stub_cloudbuild.sh", false);
    let bp = test_plan("testcrate", &cfg);
    let (verdict, _, diag) = drive(&bp, &cfg, &world(true, 1, "build error\n", "boom\n"));
    assert_eq!(verdict.status, Status::BuildFailed);
    assert_eq!(verdict.cloudbuild_exit_code, Some(1));
    assert_eq!(verdict.artifact_path, None);
    assert_eq!(diag.as_deref(), Some("headway: cloudbuild.sh build failed (exit Some(1)):\nboom"));
}

#[test]
fn ac4_unreachable_exit_code_2_from_stub() {
    let cfg = cfg("/tmp/x/stub_exit2.sh", false);
    let bp = test_plan("unreachcrate2", &cfg);
    let (verdict, _, diag) =
        drive(&bp, &cfg, &world(true, 2, "", "unreachable: cannot reach Hetzner\n"));
    assert_eq!(verdict.status, Status::CloudbuildUnreachable);
    assert_ne!(verdict.status, Status::Built);
    assert_eq!(verdict.status.exit_code(), 1);
    assert_eq!(
        diag.as_deref(),
        Some("headway: cloudbuild.sh reported unreachable (exit Some(2)): unreachable: cannot reach Hetzner")
    );
}

#[test]
fn ac4_absent_cloudbuild_returns_unreachable_nonzero() {
    let cfg = cfg("/nonexistent/cloudbuild.sh", false);
    let bp = test_plan("unreachcrate", &cfg);
    let (verdict, runs, _) = drive(&bp, &cfg, &world(false, 0, "", ""));
    assert_eq!(verdict.status, Status::CloudbuildUnreachable);
    assert_ne!(verdict.status.exit_code(), 0);
    assert_eq!(runs, 0);
}

#[test]
fn unreachable_markers_in_stderr() {
    let cfg = cfg("/s.sh", false);
    let bp = test_plan("c", &cfg);
    for err in ["ssh: connect to host x port 22", "Connection refused", "Cannot reach builder"] {
        let (verdict, _, _) = drive(&bp, &cfg, &world(true, 255, "", err));
        assert_eq!(verdict.status, Status::CloudbuildUnreachable, "{err}");
    }
    let (verdict, _, _) = drive(&bp, &cfg, &world(true, 0, "", "unreachable but fine"));
    assert_eq!(verdict.status, Status::Built);
}

#[test]
fn signal_ended_run_is_build_failed() {
    let cfg = cfg("/s.sh", false);
    let bp = test_plan("c", &cfg);
    let w = World { exit_code: None, ..world(true, 0, "", "killed\n") };
    let (verdict, _, diag) = drive(&bp, &cfg, &w);
    assert_eq!(verdict.status, Status::BuildFailed);
    assert_eq!(diag.as_deref(), Some("headway: cloudbuild.sh build failed (exit None):\nkilled"));
}

#[test]
fn ac5_noop_fresh_when_versions_match() {
    let cfg = cfg("/tmp/x/fail_stub.sh", true);
    let head = "0123456789abcdef0123456789abcdef01234567";
    let bp = assemble_plan(
        "/tmp/x/freshcrate".to_owned(),
        "freshcrate".to_owned(),
        head.to_owned(),
        Some(head.to_owned()),
        &cfg,
    );
    let (verdict, runs, _) = drive(&bp, &cfg, &world(true, 99, "", "SHOULD NOT BE CALLED"));
    assert_eq!(verdict.status, Status::NoOpFresh);
    assert_eq!(verdict.elapsed_ms, 0);
    assert_eq!(runs, 0);
}

#[test]
fn ac5_no_require_fresh_invokes_cloudbuild() {
    let cfg = cfg("/tmp/x/success_stub.sh", false);
    let head = "0123456789abcdef0123456789abcdef01234567";
    let bp = assemble_plan(
        "/tmp/x/freshcrate2".to_owned(),
        "freshcrate2".to_owned(),
        head.to_owned(),
        Some(head.to_owned()),
        &cfg,
    );
    let (verdict, runs, _) = drive(&bp, &cfg, &world(true, 0, "pulled: /tmp/freshcrate2\n", ""));
    assert_eq!(verdict.status, Status::Built);
    assert_eq!(runs, 1);
}

#[test]
fn ac6_version_before_and_after_recorded() {
    let cfg = cfg("/tmp/x/ver_stub.sh", false);
    let bp = assemble_plan(
        "/tmp/x/vercrate".to_owned(),
        "vercrate".to_owned(),
        "unknown".to_owned(),
        Some("v0.0.1-before".to_owned()),
        &cfg,
    );
    let w = World { version_after: Some("v0.0.2-after"), ..world(true, 0, "pulled: /tmp/vercrate\n", "") };
    let (verdict, _, _) = drive(&bp, &cfg, &w);
    assert_eq!(verdict.status, Status::Built);
    assert_eq!(verdict.version_before.as_deref(), Some("v0.0.1-before"));
    assert_eq!(verdict.version_after.as_deref(), Some("v0.0.2-after"));
    assert_eq!(verdict.elapsed_ms, 12);
}

#[test]
fn ac6_noop_versions_are_equal() {
    let cfg = cfg("/tmp/x/fail_stub.sh", true);
    let shared_version = "abc123deadbeef";
    let bp = assemble_plan(
        "/tmp/x/eqcrate".to_owned(),
        "eqcrate".to_owned(),
        shared_version.to_owned(),
        Some(shared_version.to_owned()),
        &cfg,
    );
    let (verdict, _, _) = drive(&bp, &cfg, &world(true, 99, "", ""));
    assert_eq!(verdict.status, Status::NoOpFresh);
    assert_eq!(verdict.version_before.as_deref(), Some(shared_version));
    assert_eq!(verdict.version_after.as_deref(), Some(shared_version));
}

#[test]
fn freshness_needs_equal_versions() {
    let cfg = cfg("/s.sh", true);
    let bp = assemble_plan(
        "/d".to_owned(),
        "c".to_owned(),
        "abc".to_owned(),
        Some("c 0.1.0 (abc)".to_owned()),
        &cfg,
    );
    let (verdict, runs, _) = drive(&bp, &cfg, &world(true, 0, "", ""));
    assert_eq!(verdict.status, Status::Built);
    assert_eq!(runs, 1);
}

#[test]
fn finished_state_accepts_nothing() {
    assert!(!BuildState::Finished.accepts(&BuildEvent::Started));
    assert!(!BuildState::Start.accepts(&BuildEvent::ScriptChecked { exists: true }));
    assert!(BuildState::AwaitScriptCheck.accepts(&BuildEvent::ScriptChecked { exists: true }));
}
