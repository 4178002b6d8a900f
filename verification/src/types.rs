//! The records that planning and building produce, and their abstract views.

use vstd::prelude::*;
use crate::text::opt_string;

verus! {

/// Whether a build was actually fresh (no-op) or the script was unreachable.
#[derive(Clone, Copy, Debug, PartialEq, Eq, Structural)]
pub enum Status {
    /// `cloudbuild.sh` ran and the artifact was produced.
    Built,
    /// `installed_version == source_head`; cloudbuild was not invoked.
    NoOpFresh,
    /// `cloudbuild.sh` was absent or reported that the builder is unreachable.
    /// Local cargo was not invoked.
    CloudbuildUnreachable,
    /// `cloudbuild.sh` was reachable but the build itself failed.
    BuildFailed,
}

/// Process exit code the CLI uses for a verdict status.
pub open spec fn status_exit_code(s: Status) -> i32 {
    match s {
        Status::Built | Status::NoOpFresh => 0,
        Status::CloudbuildUnreachable | Status::BuildFailed => 1,
    }
}

impl Status {
    /// Exit code for this status: 0 for `Built`/`NoOpFresh`, 1 otherwise.
    pub fn exit_code(&self) -> (code: i32)
        ensures
            code == status_exit_code(*self),
    {
        match self {
            Status::Built | Status::NoOpFresh => 0,
            Status::CloudbuildUnreachable | Status::BuildFailed => 1,
        }
    }
}

/// Plan computed before any subprocess is invoked.
#[derive(Debug, Clone)]
pub struct BuildPlan {
    /// Absolute path to the crate directory.
    pub crate_dir: String,
    /// Crate name (from `Cargo.toml` or the directory basename).
    pub crate_name: String,
    /// Git HEAD SHA of the crate source (or `"unknown"` if not a git repo).
    pub source_head: String,
    /// Currently installed version of the binary, if any.
    pub installed_version: Option<String>,
    /// The exact `cloudbuild.sh build <name>` command that `--no-dry-run` would run.
    pub cloudbuild_command: String,
}

/// Abstract view of a [`BuildPlan`].
pub struct PlanView {
    pub crate_dir: Seq<char>,
    pub crate_name: Seq<char>,
    pub source_head: Seq<char>,
    pub installed_version: Option<Seq<char>>,
    pub cloudbuild_command: Seq<char>,
}

impl View for BuildPlan {
    type V = PlanView;

    open spec fn view(&self) -> PlanView {
        PlanView {
            crate_dir: self.crate_dir@,
            crate_name: self.crate_name@,
            source_head: self.source_head@,
            installed_version: opt_string(self.installed_version),
            cloudbuild_command: self.cloudbuild_command@,
        }
    }
}

/// Result of a build.
#[derive(Debug, Clone)]
pub struct BuildVerdict {
    /// Crate name.
    pub crate_name: String,
    /// Path to the pulled artifact, if `status == Built`.
    pub artifact_path: Option<String>,
    /// Installed version before this build (mirrors `BuildPlan.installed_version`).
    pub version_before: Option<String>,
    /// Installed version after this build (re-probed from the installed binary).
    pub version_after: Option<String>,
    /// Raw exit code from `cloudbuild.sh`.
    pub cloudbuild_exit_code: Option<i32>,
    /// Elapsed wall-clock milliseconds for the subprocess call.
    pub elapsed_ms: u64,
    /// High-level verdict.
    pub status: Status,
}

/// Abstract view of a [`BuildVerdict`].
pub struct VerdictView {
    pub crate_name: Seq<char>,
    pub artifact_path: Option<Seq<char>>,
    pub version_before: Option<Seq<char>>,
    pub version_after: Option<Seq<char>>,
    pub cloudbuild_exit_code: Option<i32>,
    pub elapsed_ms: u64,
    pub status: Status,
}

impl View for BuildVerdict {
    type V = VerdictView;

    open spec fn view(&self) -> VerdictView {
        VerdictView {
            crate_name: self.crate_name@,
            artifact_path: opt_string(self.artifact_path),
            version_before: opt_string(self.version_before),
            version_after: opt_string(self.version_after),
            cloudbuild_exit_code: self.cloudbuild_exit_code,
            elapsed_ms: self.elapsed_ms,
            status: self.status,
        }
    }
}

/// Configuration for a build.
#[derive(Debug, Clone)]
pub struct BuildConfig {
    /// Path to `cloudbuild.sh`.
    pub cloudbuild_path: String,
    /// If `true`, finish at once with `NoOpFresh` when
    /// `installed_version == source_head`.
    pub require_fresh: bool,
}

/// Abstract view of a [`BuildConfig`].
pub struct ConfigView {
    pub cloudbuild_path: Seq<char>,
    pub require_fresh: bool,
}

impl View for BuildConfig {
    type V = ConfigView;

    open spec fn view(&self) -> ConfigView {
        ConfigView { cloudbuild_path: self.cloudbuild_path@, require_fresh: self.require_fresh }
    }
}

impl BuildConfig {
    /// The default configuration for a resolved `cloudbuild.sh` path: the
    /// freshness guard is on.
    pub fn with_cloudbuild_path(cloudbuild_path: String) -> (cfg: BuildConfig)
        ensures
            cfg@.cloudbuild_path == cloudbuild_path@,
            cfg.require_fresh,
    {
        BuildConfig { cloudbuild_path, require_fresh: true }
    }
}

} // verus!
