//! Planning a build: the decisions as a state machine that the caller drives
//! (it canonicalizes the directory, reads its manifest, asks git for HEAD and
//! probes the installed version), and the assembly of the [`BuildPlan`].

use vstd::prelude::*;
use vstd::string::*;
use crate::manifest::{derivation, derive_crate_name, PlanError};
use crate::text::{opt_str, opt_string, trim, trim_string};
use crate::types::{BuildConfig, BuildPlan, ConfigView, PlanView};

verus! {

/// The command that routes a build of `crate_name` through the script.
pub open spec fn cloudbuild_command_text(script: Seq<char>, crate_name: Seq<char>) -> Seq<char> {
    "bash "@ + script + " build "@ + crate_name
}

/// The source HEAD that git reported: its trimmed output, or `unknown` where
/// git could not tell.
pub open spec fn source_head_text(git_stdout: Option<Seq<char>>) -> Seq<char> {
    match git_stdout {
        Some(out) => trim(out),
        None => "unknown"@,
    }
}

/// The installed version that `<name> --version` reported, trimmed.
pub open spec fn installed_version_text(version_stdout: Option<Seq<char>>) -> Option<Seq<char>> {
    match version_stdout {
        Some(out) => Some(trim(out)),
        None => None,
    }
}

/// The git HEAD SHA from the output of `git -C <dir> rev-parse HEAD`;
/// `git_stdout` is `None` where git could not be run, failed, or printed
/// something that is not UTF-8.
pub fn source_head_from(git_stdout: Option<&str>) -> (head: String)
    ensures
        head@ == source_head_text(opt_str(git_stdout)),
{
    match git_stdout {
        Some(out) => trim_string(out),
        None => String::from_str("unknown"),
    }
}

/// The installed version from the output of `<name> --version`;
/// `version_stdout` is `None` where the binary could not be run or failed.
pub fn installed_version_from(version_stdout: Option<&str>) -> (v: Option<String>)
    ensures
        opt_string(v) == installed_version_text(opt_str(version_stdout)),
{
    match version_stdout {
        Some(out) => Some(trim_string(out)),
        None => None,
    }
}

/// Assemble the [`BuildPlan`] of a crate whose canonical directory, derived
/// name, source HEAD and installed version are known.
pub fn assemble_plan(
    crate_dir: String,
    crate_name: String,
    source_head: String,
    installed_version: Option<String>,
    cfg: &BuildConfig,
) -> (p: BuildPlan)
    ensures
        p@.crate_dir == crate_dir@,
        p@.crate_name == crate_name@,
        p@.source_head == source_head@,
        p@.installed_version == opt_string(installed_version),
        p@.cloudbuild_command == cloudbuild_command_text(cfg@.cloudbuild_path, crate_name@),
{
    let mut cloudbuild_command = String::from_str("bash ");
    cloudbuild_command.append(cfg.cloudbuild_path.as_str());
    cloudbuild_command.append(" build ");
    cloudbuild_command.append(crate_name.as_str());
    BuildPlan { crate_dir, crate_name, source_head, installed_version, cloudbuild_command }
}


/// What planning gives, from the canonical directory (`None` where the requested
/// one does not exist), its manifest text and basename, git's output and the
/// version probe's output.
pub open spec fn plan_result(
    c: ConfigView,
    canonical: Option<Seq<char>>,
    manifest: Option<Seq<char>>,
    basename: Option<Seq<char>>,
    git_stdout: Option<Seq<char>>,
    version_stdout: Option<Seq<char>>,
) -> Result<PlanView, PlanError> {
    match canonical {
        None => Err(PlanError::CrateDirNotFound),
        Some(dir) => match derivation(true, manifest, basename) {
            Err(e) => Err(e),
            Ok(name) => Ok(
                assembled_plan(
                    c,
                    dir,
                    name,
                    source_head_text(git_stdout),
                    installed_version_text(version_stdout),
                ),
            ),
        },
    }
}

/// Build a [`BuildPlan`] from what was found out about the requested directory:
/// its canonical form (`None` where it does not exist), the text of its
/// `Cargo.toml` (`None` where absent or unreadable), its basename (`None` where
/// it has none or it is not UTF-8), the output of `git -C <dir> rev-parse HEAD`
/// (`None` where git could not be run, failed, or printed non-UTF-8) and the
/// output of `<crate name> --version` (`None` where it could not be run or
/// failed). The planning machine ([`plan_step`]) asks for exactly these, in turn.
///
/// Returns an error if the directory does not exist or no crate name can be
/// derived. Runs nothing: in particular never the build script.
pub fn plan(
    canonical_dir: Option<String>,
    manifest: Option<&str>,
    basename: Option<&str>,
    git_stdout: Option<&str>,
    version_stdout: Option<&str>,
    cfg: &BuildConfig,
) -> (r: Result<BuildPlan, PlanError>)
    ensures
        plan_result_view(r) == plan_result(
            cfg@,
            opt_string(canonical_dir),
            opt_str(manifest),
            opt_str(basename),
            opt_str(git_stdout),
            opt_str(version_stdout),
        ),
{
    let dir = match canonical_dir {
        Some(d) => d,
        None => return Err(PlanError::CrateDirNotFound),
    };
    match derive_crate_name(true, manifest, basename) {
        Ok(name) => {
            let head = source_head_from(git_stdout);
            let installed = installed_version_from(version_stdout);
            Ok(assemble_plan(dir, name, head, installed, cfg))
        },
        Err(e) => Err(e),
    }
}

/// What the caller found out since the last action.
pub enum PlanEvent {
    /// The canonical form of the requested directory (`None` where it does not exist).
    DirResolved { canonical: Option<String> },
    /// The text of `<dir>/Cargo.toml` (`None` where it is absent or unreadable)
    /// and the directory's basename (`None` where it has none or it is not UTF-8).
    ManifestRead { manifest: Option<String>, basename: Option<String> },
    /// The output of `git -C <dir> rev-parse HEAD` (`None` where git could not
    /// be run, failed, or printed something that is not UTF-8).
    HeadRead { git_stdout: Option<String> },
    /// The output of `<name> --version` (`None` where it could not be run or failed).
    VersionRead { version_stdout: Option<String> },
}

/// Abstract view of a [`PlanEvent`].
pub enum PlanEventView {
    DirResolved(Option<Seq<char>>),
    ManifestRead(Option<Seq<char>>, Option<Seq<char>>),
    HeadRead(Option<Seq<char>>),
    VersionRead(Option<Seq<char>>),
}

impl View for PlanEvent {
    type V = PlanEventView;

    open spec fn view(&self) -> PlanEventView {
        match self {
            PlanEvent::DirResolved { canonical } => PlanEventView::DirResolved(opt_string(*canonical)),
            PlanEvent::ManifestRead { manifest, basename } => PlanEventView::ManifestRead(
                opt_string(*manifest),
                opt_string(*basename),
            ),
            PlanEvent::HeadRead { git_stdout } => PlanEventView::HeadRead(opt_string(*git_stdout)),
            PlanEvent::VersionRead { version_stdout } => PlanEventView::VersionRead(
                opt_string(*version_stdout),
            ),
        }
    }
}

/// Where planning stands.
pub enum PlanState {
    /// Waiting for the canonical directory; planning starts here.
    AwaitDir,
    /// Waiting for the manifest of `dir`.
    AwaitManifest { dir: String },
    /// Waiting for the source HEAD of `dir`, whose crate is `name`.
    AwaitHead { dir: String, name: String },
    /// Waiting for the installed version of `name`.
    AwaitVersion { dir: String, name: String, head: String },
    /// The plan, or the error, has been given.
    Finished,
}

/// Abstract view of a [`PlanState`].
pub enum PlanStateView {
    AwaitDir,
    AwaitManifest(Seq<char>),
    AwaitHead(Seq<char>, Seq<char>),
    AwaitVersion(Seq<char>, Seq<char>, Seq<char>),
    Finished,
}

impl View for PlanState {
    type V = PlanStateView;

    open spec fn view(&self) -> PlanStateView {
        match self {
            PlanState::AwaitDir => PlanStateView::AwaitDir,
            PlanState::AwaitManifest { dir } => PlanStateView::AwaitManifest(dir@),
            PlanState::AwaitHead { dir, name } => PlanStateView::AwaitHead(dir@, name@),
            PlanState::AwaitVersion { dir, name, head } => PlanStateView::AwaitVersion(
                dir@,
                name@,
                head@,
            ),
            PlanState::Finished => PlanStateView::Finished,
        }
    }
}

/// What the caller is to do next.
pub enum PlanAction {
    /// Read `<dir>/Cargo.toml` and the basename of `dir`, then hand back `ManifestRead`.
    ReadManifest { dir: String },
    /// Run `git -C <dir> rev-parse HEAD`, then hand back `HeadRead`.
    ReadHead { dir: String },
    /// Run `<name> --version`, then hand back `VersionRead`.
    ProbeVersion { name: String },
    /// Planning is over.
    Finish { result: Result<BuildPlan, PlanError> },
}

/// The view of a planning result.
pub open spec fn plan_result_view(r: Result<BuildPlan, PlanError>) -> Result<PlanView, PlanError> {
    match r {
        Ok(p) => Ok(p@),
        Err(e) => Err(e),
    }
}

/// Abstract view of a [`PlanAction`].
pub enum PlanActionView {
    ReadManifest(Seq<char>),
    ReadHead(Seq<char>),
    ProbeVersion(Seq<char>),
    Finish(Result<PlanView, PlanError>),
}

impl View for PlanAction {
    type V = PlanActionView;

    open spec fn view(&self) -> PlanActionView {
        match self {
            PlanAction::ReadManifest { dir } => PlanActionView::ReadManifest(dir@),
            PlanAction::ReadHead { dir } => PlanActionView::ReadHead(dir@),
            PlanAction::ProbeVersion { name } => PlanActionView::ProbeVersion(name@),
            PlanAction::Finish { result } => PlanActionView::Finish(plan_result_view(*result)),
        }
    }
}

/// The event that each planning state waits for.
pub open spec fn plan_accepts_event(s: PlanStateView, e: PlanEventView) -> bool {
    match s {
        PlanStateView::AwaitDir => e is DirResolved,
        PlanStateView::AwaitManifest(_) => e is ManifestRead,
        PlanStateView::AwaitHead(_, _) => e is HeadRead,
        PlanStateView::AwaitVersion(_, _, _) => e is VersionRead,
        PlanStateView::Finished => false,
    }
}

/// The plan assembled from what was found out.
pub open spec fn assembled_plan(
    c: ConfigView,
    dir: Seq<char>,
    name: Seq<char>,
    head: Seq<char>,
    installed: Option<Seq<char>>,
) -> PlanView {
    PlanView {
        crate_dir: dir,
        crate_name: name,
        source_head: head,
        installed_version: installed,
        cloudbuild_command: cloudbuild_command_text(c.cloudbuild_path, name),
    }
}

/// The next planning state and action, for an event that the state accepts.
pub open spec fn plan_next(c: ConfigView, s: PlanStateView, e: PlanEventView) -> (
    PlanStateView,
    PlanActionView,
)
    recommends
        plan_accepts_event(s, e),
{
    match (s, e) {
        (PlanStateView::AwaitDir, PlanEventView::DirResolved(canonical)) => match canonical {
            Some(dir) => (PlanStateView::AwaitManifest(dir), PlanActionView::ReadManifest(dir)),
            None => (
                PlanStateView::Finished,
                PlanActionView::Finish(Err(PlanError::CrateDirNotFound)),
            ),
        },
        (PlanStateView::AwaitManifest(dir), PlanEventView::ManifestRead(manifest, basename)) => {
            match derivation(true, manifest, basename) {
                Ok(name) => (PlanStateView::AwaitHead(dir, name), PlanActionView::ReadHead(dir)),
                Err(err) => (PlanStateView::Finished, PlanActionView::Finish(Err(err))),
            }
        },
        (PlanStateView::AwaitHead(dir, name), PlanEventView::HeadRead(out)) => (
            PlanStateView::AwaitVersion(dir, name, source_head_text(out)),
            PlanActionView::ProbeVersion(name),
        ),
        (PlanStateView::AwaitVersion(dir, name, head), PlanEventView::VersionRead(out)) => (
            PlanStateView::Finished,
            PlanActionView::Finish(
                Ok(assembled_plan(c, dir, name, head, installed_version_text(out))),
            ),
        ),
        _ => (PlanStateView::Finished, PlanActionView::Finish(Err(PlanError::CrateDirNotFound))),
    }
}

fn as_str_opt(o: &Option<String>) -> (r: Option<&str>)
    ensures
        opt_str(r) == opt_string(*o),
{
    match o {
        Some(s) => Some(s.as_str()),
        None => None,
    }
}

impl PlanState {
    /// Whether this state waits for `event`.
    pub fn accepts(&self, event: &PlanEvent) -> (b: bool)
        ensures
            b == plan_accepts_event(self@, event@),
    {
        match self {
            PlanState::AwaitDir => matches!(event, PlanEvent::DirResolved { .. }),
            PlanState::AwaitManifest { .. } => matches!(event, PlanEvent::ManifestRead { .. }),
            PlanState::AwaitHead { .. } => matches!(event, PlanEvent::HeadRead { .. }),
            PlanState::AwaitVersion { .. } => matches!(event, PlanEvent::VersionRead { .. }),
            PlanState::Finished => false,
        }
    }
}

/// Take one step of planning under `cfg`: the state it moves to and the action
/// the caller performs next.
pub fn plan_step(cfg: &BuildConfig, state: PlanState, event: PlanEvent) -> (r: (
    PlanState,
    PlanAction,
))
    requires
        plan_accepts_event(state@, event@),
    ensures
        (r.0@, r.1@) == plan_next(cfg@, state@, event@),
{
    match state {
        PlanState::AwaitDir => {
            match event {
                PlanEvent::DirResolved { canonical } => match canonical {
                    Some(dir) => {
                        let d = dir.clone();
                        (PlanState::AwaitManifest { dir }, PlanAction::ReadManifest { dir: d })
                    },
                    None => (
                        PlanState::Finished,
                        PlanAction::Finish { result: Err(PlanError::CrateDirNotFound) },
                    ),
                },
                _ => (
                    PlanState::Finished,
                    PlanAction::Finish { result: Err(PlanError::CrateDirNotFound) },
                ),
            }
        },
        PlanState::AwaitManifest { dir } => {
            match event {
                PlanEvent::ManifestRead { manifest, basename } => {
                    match derive_crate_name(true, as_str_opt(&manifest), as_str_opt(&basename)) {
                        Ok(name) => {
                            let d = dir.clone();
                            (PlanState::AwaitHead { dir, name }, PlanAction::ReadHead { dir: d })
                        },
                        Err(err) => (PlanState::Finished, PlanAction::Finish { result: Err(err) }),
                    }
                },
                _ => (
                    PlanState::Finished,
                    PlanAction::Finish { result: Err(PlanError::CrateDirNotFound) },
                ),
            }
        },
        PlanState::AwaitHead { dir, name } => {
            match event {
                PlanEvent::HeadRead { git_stdout } => {
                    let head = source_head_from(as_str_opt(&git_stdout));
                    let n = name.clone();
                    (PlanState::AwaitVersion { dir, name, head }, PlanAction::ProbeVersion { name: n })
                },
                _ => (
                    PlanState::Finished,
                    PlanAction::Finish { result: Err(PlanError::CrateDirNotFound) },
                ),
            }
        },
        PlanState::AwaitVersion { dir, name, head } => {
            match event {
                PlanEvent::VersionRead { version_stdout } => {
                    let installed = installed_version_from(as_str_opt(&version_stdout));
                    let p = assemble_plan(dir, name, head, installed, cfg);
                    (PlanState::Finished, PlanAction::Finish { result: Ok(p) })
                },
                _ => (
                    PlanState::Finished,
                    PlanAction::Finish { result: Err(PlanError::CrateDirNotFound) },
                ),
            }
        },
        PlanState::Finished => (
            PlanState::Finished,
            PlanAction::Finish { result: Err(PlanError::CrateDirNotFound) },
        ),
    }
}

} // verus!
