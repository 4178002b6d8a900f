use headway::manifest::PlanError;
use headway::plan::{plan_step, PlanAction, PlanEvent, PlanState};
use headway::types::{BuildConfig, BuildPlan};

/// What the file system and subprocesses answer while planning.
struct Found {
    canonical: Option<&'static str>,
    manifest: Option<&'static str>,
    basename: Option<&'static str>,
    git_stdout: Option<&'static str>,
    version_stdout: Option<&'static str>,
}

/// Drive planning to its end; also returns the processes it asked for.
fn drive(cfg: &BuildConfig, f: &Found) -> (Result<BuildPlan, PlanError>, Vec<String>) {
    let mut asked = Vec::new();
    let mut state = PlanState::AwaitDir;
    let mut event = PlanEvent::DirResolved { canonical: f.canonical.map(str::to_owned) };
    loop {
        assert!(state.accepts(&event));
        let (next, action) = plan_step(cfg, state, event);
        state = next;
        event = match action {
            PlanAction::ReadManifest { dir } => {
                assert_eq!(Some(dir.as_str()), f.canonical);
                PlanEvent::ManifestRead {
                    manifest: f.manifest.map(str::to_owned),
                    basename: f.basename.map(str::to_owned),
                }
            }
            PlanAction::ReadHead { dir } => {
                asked.push(format!("git -C {dir} rev-parse HEAD"));
                PlanEvent::HeadRead { git_stdout: f.git_stdout.map(str::to_owned) }
            }
            PlanAction::ProbeVersion { name } => {
                asked.push(format!("{name} --version"));
                PlanEvent::VersionRead { version_stdout: f.version_stdout.map(str::to_owned) }
            }
            PlanAction::Finish { result } => return (result, asked),
        };
    }
}

fn cfg() -> BuildConfig {
    BuildConfig { cloudbuild_path: "/opt/cloudbuild.sh".to_owned(), require_fresh: true }
}

#[test]
fn planning_missing_dir_runs_nothing() {
    let f = Found { canonical: None, manifest: None, basename: None, git_stdout: None, version_stdout: None };
    let (r, asked) = drive(&cfg(), &f);
    assert_eq!(r.err(), Some(PlanError::CrateDirNotFound));
    assert!(asked.is_empty());
}

#[test]
fn planning_without_name_stops_before_probes() {
    let f = Found {
        canonical: Some("/"),
        manifest: None,
        basename: None,
        git_stdout: Some("abc\n"),
        version_stdout: None,
    };
    let (r, asked) = drive(&cfg(), &f);
    assert_eq!(r.err(), Some(PlanError::NoReadableBasename));
    assert!(asked.is_empty());
}

#[test]
fn planning_full_plan() {
    let f = Found {
        canonical: Some("/work/my-crate"),
        manifest: Some("[package]\nname = \"my-crate\"\nversion = \"0.1.0\"\n"),
        basename: Some("my-crate"),
        git_stdout: Some("0123abcd\n"),
        version_stdout: Some("my-crate 0.1.0\n"),
    };
    let (r, asked) = drive(&cfg(), &f);
    let p = r.expect("plan");
    assert_eq!(p.crate_dir, "/work/my-crate");
    assert_eq!(p.crate_name, "my-crate");
    assert_eq!(p.source_head, "0123abcd");
    assert_eq!(p.installed_version.as_deref(), Some("my-crate 0.1.0"));
    assert_eq!(p.cloudbuild_command, "bash /opt/cloudbuild.sh build my-crate");
    assert_eq!(asked, vec!["git -C /work/my-crate rev-parse HEAD", "my-crate --version"]);
}

#[test]
fn planning_falls_back_to_basename_and_unknown_head() {
    let f = Found {
        canonical: Some("/work/fallback-name"),
        manifest: None,
        basename: Some("fallback-name"),
        git_stdout: None,
        version_stdout: None,
    };
    let (r, _) = drive(&cfg(), &f);
    let p = r.expect("plan");
    assert_eq!(p.crate_name, "fallback-name");
    assert_eq!(p.source_head, "unknown");
    assert_eq!(p.installed_version, None);
}
