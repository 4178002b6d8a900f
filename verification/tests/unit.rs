use headway::artifact::extract_artifact_path;
use headway::format::{format_plan_table, format_verdict_table, i32_decimal, u64_decimal};
use headway::manifest::{derive_crate_name, name_from_manifest, PlanError};
use headway::paths::{expand_tilde, resolve_cloudbuild_path_pub, DEFAULT_CLOUDBUILD_PATH};
use headway::plan::{assemble_plan, installed_version_from, plan, source_head_from};
use headway::types::{BuildConfig, BuildPlan, BuildVerdict, Status};
use std::path::PathBuf;

fn fake_manifest(name: &str) -> String {
    format!("[package]\nname = \"{name}\"\nversion = \"0.1.0\"\nedition = \"2021\"\n")
}

#[test]
fn test_expand_tilde() {
    let home = "/home/jsy";
    let expanded = expand_tilde("~/foo/bar", Some(home));
    assert_eq!(PathBuf::from(expanded), PathBuf::from(home).join("foo/bar"));
}

#[test]
fn expand_tilde_matches_path_join() {
    for (home, p) in [
        ("/home/jsy", "~/foo/bar"),
        ("/home/jsy/", "~/foo"),
        ("", "~/foo"),
        ("/home/jsy", "~//etc/x"),
        ("/home/jsy", "~/"),
    ] {
        let expected = PathBuf::from(home).join(&p[2..]);
        assert_eq!(PathBuf::from(expand_tilde(p, Some(home))), expected, "{home} {p}");
    }
}

#[test]
fn expand_tilde_leaves_other_paths() {
    assert_eq!(expand_tilde("/abs/path", Some("/home/u")), "/abs/path");
    assert_eq!(expand_tilde("~user/x", Some("/home/u")), "~user/x");
    assert_eq!(expand_tilde("~/x", None), "~/x");
    assert_eq!(expand_tilde("", Some("/home/u")), "");
}

#[test]
fn resolve_prefers_configured_path() {
    assert_eq!(resolve_cloudbuild_path_pub(Some("/opt/cb.sh"), Some("/home/u")), "/opt/cb.sh");
    assert_eq!(resolve_cloudbuild_path_pub(Some("~/cb.sh"), Some("/home/u")), "/home/u/cb.sh");
    assert_eq!(
        resolve_cloudbuild_path_pub(None, Some("/home/u")),
        "/home/u/.local/share/cloudbuild/cloudbuild.sh"
    );
    assert_eq!(resolve_cloudbuild_path_pub(None, None), DEFAULT_CLOUDBUILD_PATH);
}

#[test]
fn test_derive_crate_name_from_cargo_toml() {
    let manifest = fake_manifest("my-crate");
    let name = derive_crate_name(true, Some(&manifest), Some("my-crate")).expect("derive name");
    assert_eq!(name, "my-crate");
}

#[test]
fn manifest_name_wins_over_basename() {
    let manifest = fake_manifest("pkg-name");
    assert_eq!(derive_crate_name(true, Some(&manifest), Some("dir-name")), Ok("pkg-name".to_owned()));
}

#[test]
fn test_derive_crate_name_fallback_basename() {
    let name = derive_crate_name(true, None, Some("fallback-name")).expect("derive name");
    assert_eq!(name, "fallback-name");
}

#[test]
fn derive_crate_name_without_basename_fails() {
    assert_eq!(derive_crate_name(true, None, None), Err(PlanError::NoReadableBasename));
    assert_eq!(
        derive_crate_name(true, Some("[package]\nversion = \"1\"\n"), None),
        Err(PlanError::NoReadableBasename)
    );
}

#[test]
fn derive_crate_name_missing_dir_fails() {
    assert_eq!(derive_crate_name(false, None, Some("dir-x")), Err(PlanError::CrateDirNotFound));
    let manifest = fake_manifest("my-crate");
    assert_eq!(
        derive_crate_name(false, Some(&manifest), Some("dir-x")),
        Err(PlanError::CrateDirNotFound)
    );
}

#[test]
fn manifest_name_parsing_edges() {
    assert_eq!(name_from_manifest("name=\"foo\""), Some("foo".to_owned()));
    assert_eq!(name_from_manifest("  name   =   \"sp aced\"  \r\n"), Some("sp aced".to_owned()));
    assert_eq!(name_from_manifest("name = bare"), Some("bare".to_owned()));
    assert_eq!(name_from_manifest("name = \"\"\nname = \"second\""), Some("second".to_owned()));
    assert_eq!(name_from_manifest("namespace = \"ns\"\nname = \"x\""), Some("ns".to_owned()));
    assert_eq!(name_from_manifest("name \"nope\"\n"), None);
    assert_eq!(name_from_manifest("version = \"1\"\n# name = \"c\""), None);
    assert_eq!(name_from_manifest("\u{3000}name = \"wide\"\u{a0}"), Some("wide".to_owned()));
    assert_eq!(name_from_manifest("name = \"a=b\""), Some("a=b".to_owned()));
    assert_eq!(name_from_manifest(""), None);
}

#[test]
fn test_extract_artifact_path_pulled() {
    let stdout = "building...\npulled: /home/jsy/.local/bin/mybin\ndone\n";
    let p = extract_artifact_path(stdout).map(PathBuf::from);
    assert_eq!(p, Some(PathBuf::from("/home/jsy/.local/bin/mybin")));
}

#[test]
fn test_extract_artifact_path_none() {
    let stdout = "building...\ndone\n";
    assert!(extract_artifact_path(stdout).is_none());
}

#[test]
fn extract_artifact_path_edges() {
    assert_eq!(extract_artifact_path("artifact:   /a/b  \n"), Some("/a/b".to_owned()));
    assert_eq!(extract_artifact_path("pulled:\npulled: /second"), Some("/second".to_owned()));
    assert_eq!(extract_artifact_path("  pulled: /x\r\n"), Some("/x".to_owned()));
    assert_eq!(extract_artifact_path("note pulled: /x"), None);
    assert_eq!(extract_artifact_path("artifact: /first\npulled: /second"), Some("/first".to_owned()));
    assert_eq!(extract_artifact_path(""), None);
}

#[test]
fn probes_trim_and_default() {
    assert_eq!(source_head_from(Some("abc123\n")), "abc123");
    assert_eq!(source_head_from(None), "unknown");
    assert_eq!(installed_version_from(Some(" mybin 0.1.0\n")), Some("mybin 0.1.0".to_owned()));
    assert_eq!(installed_version_from(None), None);
}

#[test]
fn plan_builds_cloudbuild_command() {
    let cfg = BuildConfig::with_cloudbuild_path("/opt/cloudbuild.sh".to_owned());
    assert!(cfg.require_fresh);
    let p = assemble_plan(
        "/work/my-crate".to_owned(),
        "my-crate".to_owned(),
        "deadbeef".to_owned(),
        None,
        &cfg,
    );
    assert_eq!(p.cloudbuild_command, "bash /opt/cloudbuild.sh build my-crate");
    assert!(p.cloudbuild_command.contains("my-crate"));
    assert!(p.cloudbuild_command.contains("build"));
    assert_eq!(p.crate_dir, "/work/my-crate");
    assert_eq!(p.source_head, "deadbeef");
}

#[test]
fn plan_from_findings() {
    let cfg = BuildConfig::with_cloudbuild_path("/opt/cloudbuild.sh".to_owned());
    let manifest = fake_manifest("my-crate");
    let p = plan(
        Some("/work/my-crate".to_owned()),
        Some(&manifest),
        Some("my-crate"),
        Some("deadbeef\n"),
        Some("my-crate 0.1.0\n"),
        &cfg,
    )
    .expect("plan");
    assert_eq!(p.crate_dir, "/work/my-crate");
    assert_eq!(p.crate_name, "my-crate");
    assert_eq!(p.source_head, "deadbeef");
    assert_eq!(p.installed_version.as_deref(), Some("my-crate 0.1.0"));
    assert_eq!(p.cloudbuild_command, "bash /opt/cloudbuild.sh build my-crate");
}

#[test]
fn plan_errors() {
    let cfg = BuildConfig::with_cloudbuild_path("/opt/cloudbuild.sh".to_owned());
    assert_eq!(
        plan(None, None, Some("dir-x"), None, None, &cfg).err(),
        Some(PlanError::CrateDirNotFound)
    );
    assert_eq!(
        plan(Some("/".to_owned()), None, None, None, None, &cfg).err(),
        Some(PlanError::NoReadableBasename)
    );
    let p = plan(Some("/w/fallback-name".to_owned()), None, Some("fallback-name"), None, None, &cfg)
        .expect("plan");
    assert_eq!(p.crate_name, "fallback-name");
    assert_eq!(p.source_head, "unknown");
}

#[test]
fn decimal_numbers() {
    assert_eq!(u64_decimal(0), "0");
    assert_eq!(u64_decimal(1234), "1234");
    assert_eq!(u64_decimal(u64::MAX), u64::MAX.to_string());
    assert_eq!(i32_decimal(-7), "-7");
    assert_eq!(i32_decimal(i32::MIN), i32::MIN.to_string());
    assert_eq!(i32_decimal(42), "42");
}

#[test]
fn plan_table_layout() {
    let p = BuildPlan {
        crate_dir: "/w/c".to_owned(),
        crate_name: "c".to_owned(),
        source_head: "abc".to_owned(),
        installed_version: None,
        cloudbuild_command: "bash s build c".to_owned(),
    };
    assert_eq!(
        format_plan_table(&p),
        "crate:             c\ncrate_dir:         /w/c\nsource_head:       abc\ninstalled_version: (none)\nwould_run:         bash s build c"
    );
}

#[test]
fn verdict_table_layout() {
    let v = BuildVerdict {
        crate_name: "c".to_owned(),
        artifact_path: Some("/tmp/c".to_owned()),
        version_before: Some("c 0.1.0".to_owned()),
        version_after: None,
        cloudbuild_exit_code: Some(0),
        elapsed_ms: 1500,
        status: Status::Built,
    };
    assert_eq!(
        format_verdict_table(&v),
        "crate:          c\nstatus:         Built\nversion_before: c 0.1.0\nversion_after:  (none)\nelapsed_ms:     1500\nartifact:       /tmp/c"
    );
    let v2 = BuildVerdict { status: Status::CloudbuildUnreachable, artifact_path: None, ..v };
    assert!(format_verdict_table(&v2).contains("status:         CloudbuildUnreachable\n"));
    assert!(format_verdict_table(&v2).ends_with("artifact:       (none)"));
}

#[test]
fn status_exit_codes() {
    assert_eq!(Status::Built.exit_code(), 0);
    assert_eq!(Status::NoOpFresh.exit_code(), 0);
    assert_eq!(Status::CloudbuildUnreachable.exit_code(), 1);
    assert_eq!(Status::BuildFailed.exit_code(), 1);
    assert_eq!(Status::NoOpFresh.name(), format!("{:?}", Status::NoOpFresh));
}
