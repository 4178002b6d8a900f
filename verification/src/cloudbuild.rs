//! The decisions of a build, as a state machine: the caller performs each
//! action (checking for the script, running it, probing the installed
//! version) and hands back what happened as the next event. No action ever
//! runs a local compiler; the only build is the `cloudbuild.sh` run.

use vstd::prelude::*;
use vstd::string::*;
use crate::artifact::{artifact_in, extract_artifact_path};
use crate::format::{debug_exit_code, exit_code_debug};
use crate::text::{chars_of, occurs, occurs_in, opt_string, trim, trim_string};
use crate::types::{BuildConfig, BuildPlan, BuildVerdict, ConfigView, PlanView, Status, VerdictView};

verus! {

/// What a finished `bash <script> build <name>` run reported.
pub struct CloudbuildRun {
    /// Exit code (`None` where a signal ended the process).
    pub exit_code: Option<i32>,
    /// Whether the process exited successfully.
    pub success: bool,
    /// Its standard output (lossily decoded).
    pub stdout: String,
    /// Its standard error (lossily decoded).
    pub stderr: String,
    /// Wall-clock milliseconds the run took.
    pub elapsed_ms: u64,
}

/// Abstract view of a [`CloudbuildRun`].
pub struct RunView {
    pub exit_code: Option<i32>,
    pub success: bool,
    pub stdout: Seq<char>,
    pub stderr: Seq<char>,
    pub elapsed_ms: u64,
}

impl View for CloudbuildRun {
    type V = RunView;

    open spec fn view(&self) -> RunView {
        RunView {
            exit_code: self.exit_code,
            success: self.success,
            stdout: self.stdout@,
            stderr: self.stderr@,
            elapsed_ms: self.elapsed_ms,
        }
    }
}

/// What happened since the last action.
pub enum BuildEvent {
    /// The build begins.
    Started,
    /// Whether the configured script exists.
    ScriptChecked { exists: bool },
    /// The script ran to completion.
    CloudbuildFinished { run: CloudbuildRun },
    /// What `<name> --version` reported after the build, if it ran successfully.
    VersionProbed { version: Option<String> },
}

/// Abstract view of a [`BuildEvent`].
pub enum EventView {
    Started,
    ScriptChecked(bool),
    CloudbuildFinished(RunView),
    VersionProbed(Option<Seq<char>>),
}

impl View for BuildEvent {
    type V = EventView;

    open spec fn view(&self) -> EventView {
        match self {
            BuildEvent::Started => EventView::Started,
            BuildEvent::ScriptChecked { exists } => EventView::ScriptChecked(*exists),
            BuildEvent::CloudbuildFinished { run } => EventView::CloudbuildFinished(run@),
            BuildEvent::VersionProbed { version } => EventView::VersionProbed(opt_string(*version)),
        }
    }
}

/// Where a build stands.
pub enum BuildState {
    /// Nothing has happened yet.
    Start,
    /// Waiting to learn whether the script exists.
    AwaitScriptCheck,
    /// Waiting for the script's run.
    AwaitCloudbuild,
    /// The run succeeded; waiting for the installed version.
    AwaitVersionProbe { exit_code: Option<i32>, stdout: String, elapsed_ms: u64 },
    /// The verdict has been given.
    Finished,
}

/// Abstract view of a [`BuildState`].
pub enum StateView {
    Start,
    AwaitScriptCheck,
    AwaitCloudbuild,
    AwaitVersionProbe(Option<i32>, Seq<char>, u64),
    Finished,
}

impl View for BuildState {
    type V = StateView;

    open spec fn view(&self) -> StateView {
        match self {
            BuildState::Start => StateView::Start,
            BuildState::AwaitScriptCheck => StateView::AwaitScriptCheck,
            BuildState::AwaitCloudbuild => StateView::AwaitCloudbuild,
            BuildState::AwaitVersionProbe { exit_code, stdout, elapsed_ms } => {
                StateView::AwaitVersionProbe(*exit_code, stdout@, *elapsed_ms)
            },
            BuildState::Finished => StateView::Finished,
        }
    }
}

/// What the caller is to do next.
pub enum BuildAction {
    /// Check whether the script at `path` exists, then hand back `ScriptChecked`.
    CheckScript { path: String },
    /// Run `bash <script> build <crate_name>`, then hand back `CloudbuildFinished`.
    RunCloudbuild { script: String, crate_name: String },
    /// Run `<crate_name> --version`, then hand back `VersionProbed`.
    ProbeVersion { crate_name: String },
    /// The build is over; report `diagnostic` on standard error, if any.
    Finish { verdict: BuildVerdict, diagnostic: Option<String> },
}

/// Abstract view of a [`BuildAction`].
pub enum ActionView {
    CheckScript(Seq<char>),
    RunCloudbuild(Seq<char>, Seq<char>),
    ProbeVersion(Seq<char>),
    Finish(VerdictView, Option<Seq<char>>),
}

impl View for BuildAction {
    type V = ActionView;

    open spec fn view(&self) -> ActionView {
        match self {
            BuildAction::CheckScript { path } => ActionView::CheckScript(path@),
            BuildAction::RunCloudbuild { script, crate_name } => ActionView::RunCloudbuild(
                script@,
                crate_name@,
            ),
            BuildAction::ProbeVersion { crate_name } => ActionView::ProbeVersion(crate_name@),
            BuildAction::Finish { verdict, diagnostic } => ActionView::Finish(
                verdict@,
                opt_string(*diagnostic),
            ),
        }
    }
}

/// The event that each state waits for.
pub open spec fn accepts_event(s: StateView, e: EventView) -> bool {
    match s {
        StateView::Start => e is Started,
        StateView::AwaitScriptCheck => e is ScriptChecked,
        StateView::AwaitCloudbuild => e is CloudbuildFinished,
        StateView::AwaitVersionProbe(..) => e is VersionProbed,
        StateView::Finished => false,
    }
}

/// The freshness guard: it is on and the installed version equals the source HEAD.
pub open spec fn is_fresh(p: PlanView, c: ConfigView) -> bool {
    c.require_fresh && p.installed_version == Some(p.source_head)
}

/// A run reports the builder unreachable: exit code 2 (the script's convention),
/// or a failure whose standard error names the condition.
pub open spec fn reports_unreachable(r: RunView) -> bool {
    ||| r.exit_code == Some(2i32)
    ||| !r.success && (occurs_in(r.stderr, "unreachable"@) || occurs_in(r.stderr, "Cannot reach"@)
        || occurs_in(r.stderr, "Connection refused"@) || occurs_in(r.stderr, "ssh: connect"@))
}

/// A verdict on the plan's crate; `version_before` is always the plan's installed version.
pub open spec fn verdict_of(
    p: PlanView,
    status: Status,
    artifact_path: Option<Seq<char>>,
    version_after: Option<Seq<char>>,
    cloudbuild_exit_code: Option<i32>,
    elapsed_ms: u64,
) -> VerdictView {
    VerdictView {
        crate_name: p.crate_name,
        artifact_path,
        version_before: p.installed_version,
        version_after,
        cloudbuild_exit_code,
        elapsed_ms,
        status,
    }
}

/// Standard-error note when the script is absent.
pub open spec fn missing_script_note(path: Seq<char>) -> Seq<char> {
    "headway: cloudbuild.sh not found at "@ + path + ": returning cloudbuild-unreachable"@
}

/// Standard-error note when the run reports the builder unreachable.
pub open spec fn unreachable_note(r: RunView) -> Seq<char> {
    "headway: cloudbuild.sh reported unreachable (exit "@ + debug_exit_code(r.exit_code) + "): "@
        + trim(r.stderr)
}

/// Standard-error note when the build fails.
pub open spec fn failed_note(r: RunView) -> Seq<char> {
    "headway: cloudbuild.sh build failed (exit "@ + debug_exit_code(r.exit_code) + "):\n"@ + trim(
        r.stderr,
    )
}

/// The next state and action, for an event that the state accepts.
pub open spec fn next(p: PlanView, c: ConfigView, s: StateView, e: EventView) -> (
    StateView,
    ActionView,
)
    recommends
        accepts_event(s, e),
{
    match (s, e) {
        (StateView::Start, _) => if is_fresh(p, c) {
            (
                StateView::Finished,
                ActionView::Finish(
                    verdict_of(p, Status::NoOpFresh, None, p.installed_version, None, 0),
                    None,
                ),
            )
        } else {
            (StateView::AwaitScriptCheck, ActionView::CheckScript(c.cloudbuild_path))
        },
        (StateView::AwaitScriptCheck, EventView::ScriptChecked(exists)) => if exists {
            (
                StateView::AwaitCloudbuild,
                ActionView::RunCloudbuild(c.cloudbuild_path, p.crate_name),
            )
        } else {
            (
                StateView::Finished,
                ActionView::Finish(
                    verdict_of(p, Status::CloudbuildUnreachable, None, None, None, 0),
                    Some(missing_script_note(c.cloudbuild_path)),
                ),
            )
        },
        (StateView::AwaitCloudbuild, EventView::CloudbuildFinished(r)) => if reports_unreachable(r) {
            (
                StateView::Finished,
                ActionView::Finish(
                    verdict_of(
                        p,
                        Status::CloudbuildUnreachable,
                        None,
                        None,
                        r.exit_code,
                        r.elapsed_ms,
                    ),
                    Some(unreachable_note(r)),
                ),
            )
        } else if !r.success {
            (
                StateView::Finished,
                ActionView::Finish(
                    verdict_of(p, Status::BuildFailed, None, None, r.exit_code, r.elapsed_ms),
                    Some(failed_note(r)),
                ),
            )
        } else {
            (
                StateView::AwaitVersionProbe(r.exit_code, r.stdout, r.elapsed_ms),
                ActionView::ProbeVersion(p.crate_name),
            )
        },
        (
            StateView::AwaitVersionProbe(code, out, ms),
            EventView::VersionProbed(version),
        ) => (
            StateView::Finished,
            ActionView::Finish(
                verdict_of(p, Status::Built, artifact_in(out), version, code, ms),
                None,
            ),
        ),
        _ => (StateView::Finished, ActionView::CheckScript(c.cloudbuild_path)),
    }
}

fn clone_opt(o: &Option<String>) -> (r: Option<String>)
    ensures
        opt_string(r) == opt_string(*o),
{
    match o {
        Some(s) => Some(s.clone()),
        None => None,
    }
}

fn run_reports_unreachable(run: &CloudbuildRun) -> (b: bool)
    ensures
        b == reports_unreachable(run@),
{
    let code_two = match run.exit_code {
        Some(c) => c == 2,
        None => false,
    };
    if code_two {
        return true;
    }
    if run.success {
        return false;
    }
    let err = chars_of(run.stderr.as_str());
    occurs(&err, &chars_of("unreachable")) || occurs(&err, &chars_of("Cannot reach")) || occurs(
        &err,
        &chars_of("Connection refused"),
    ) || occurs(&err, &chars_of("ssh: connect"))
}

fn note_with_stderr(head: &str, code: Option<i32>, sep: &str, stderr: &str) -> (r: String)
    ensures
        r@ == head@ + debug_exit_code(code) + sep@ + trim(stderr@),
{
    let mut r = String::from_str(head);
    let c = exit_code_debug(code);
    r.append(c.as_str());
    r.append(sep);
    let t = trim_string(stderr);
    r.append(t.as_str());
    r
}

impl BuildState {
    /// Whether this state waits for `event`.
    pub fn accepts(&self, event: &BuildEvent) -> (b: bool)
        ensures
            b == accepts_event(self@, event@),
    {
        match self {
            BuildState::Start => matches!(event, BuildEvent::Started),
            BuildState::AwaitScriptCheck => matches!(event, BuildEvent::ScriptChecked { .. }),
            BuildState::AwaitCloudbuild => matches!(event, BuildEvent::CloudbuildFinished { .. }),
            BuildState::AwaitVersionProbe { .. } => matches!(event, BuildEvent::VersionProbed { .. }),
            BuildState::Finished => false,
        }
    }
}

/// Take one step of the build of `plan` under `cfg`: the state it moves to
/// and the action the caller performs next.
pub fn build_step(plan: &BuildPlan, cfg: &BuildConfig, state: BuildState, event: BuildEvent) -> (r: (
    BuildState,
    BuildAction,
))
    requires
        accepts_event(state@, event@),
    ensures
        (r.0@, r.1@) == next(plan@, cfg@, state@, event@),
{
    match state {
        BuildState::Start => {
            let fresh = cfg.require_fresh && match &plan.installed_version {
                Some(installed) => *installed == plan.source_head,
                None => false,
            };
            if fresh {
                let verdict = BuildVerdict {
                    crate_name: plan.crate_name.clone(),
                    artifact_path: None,
                    version_before: clone_opt(&plan.installed_version),
                    version_after: clone_opt(&plan.installed_version),
                    cloudbuild_exit_code: None,
                    elapsed_ms: 0,
                    status: Status::NoOpFresh,
                };
                (BuildState::Finished, BuildAction::Finish { verdict, diagnostic: None })
            } else {
                (
                    BuildState::AwaitScriptCheck,
                    BuildAction::CheckScript { path: cfg.cloudbuild_path.clone() },
                )
            }
        },
        BuildState::AwaitScriptCheck => {
            let exists = match event {
                BuildEvent::ScriptChecked { exists } => exists,
                _ => false,
            };
            if exists {
                (
                    BuildState::AwaitCloudbuild,
                    BuildAction::RunCloudbuild {
                        script: cfg.cloudbuild_path.clone(),
                        crate_name: plan.crate_name.clone(),
                    },
                )
            } else {
                let verdict = BuildVerdict {
                    crate_name: plan.crate_name.clone(),
                    artifact_path: None,
                    version_before: clone_opt(&plan.installed_version),
                    version_after: None,
                    cloudbuild_exit_code: None,
                    elapsed_ms: 0,
                    status: Status::CloudbuildUnreachable,
                };
                let mut note = String::from_str("headway: cloudbuild.sh not found at ");
                note.append(cfg.cloudbuild_path.as_str());
                note.append(": returning cloudbuild-unreachable");
                (BuildState::Finished, BuildAction::Finish { verdict, diagnostic: Some(note) })
            }
        },
        BuildState::AwaitCloudbuild => {
            match event {
                BuildEvent::CloudbuildFinished { run } => {
                    if run_reports_unreachable(&run) {
                        let verdict = BuildVerdict {
                            crate_name: plan.crate_name.clone(),
                            artifact_path: None,
                            version_before: clone_opt(&plan.installed_version),
                            version_after: None,
                            cloudbuild_exit_code: run.exit_code,
                            elapsed_ms: run.elapsed_ms,
                            status: Status::CloudbuildUnreachable,
                        };
                        let note = note_with_stderr(
                            "headway: cloudbuild.sh reported unreachable (exit ",
                            run.exit_code,
                            "): ",
                            run.stderr.as_str(),
                        );
                        (
                            BuildState::Finished,
                            BuildAction::Finish { verdict, diagnostic: Some(note) },
                        )
                    } else if !run.success {
                        let verdict = BuildVerdict {
                            crate_name: plan.crate_name.clone(),
                            artifact_path: None,
                            version_before: clone_opt(&plan.installed_version),
                            version_after: None,
                            cloudbuild_exit_code: run.exit_code,
                            elapsed_ms: run.elapsed_ms,
                            status: Status::BuildFailed,
                        };
                        let note = note_with_stderr(
                            "headway: cloudbuild.sh build failed (exit ",
                            run.exit_code,
                            "):\n",
                            run.stderr.as_str(),
                        );
                        (
                            BuildState::Finished,
                            BuildAction::Finish { verdict, diagnostic: Some(note) },
                        )
                    } else {
                        (
                            BuildState::AwaitVersionProbe {
                                exit_code: run.exit_code,
                                stdout: run.stdout,
                                elapsed_ms: run.elapsed_ms,
                            },
                            BuildAction::ProbeVersion { crate_name: plan.crate_name.clone() },
                        )
                    }
                },
                _ => (
                    BuildState::Finished,
                    BuildAction::CheckScript { path: cfg.cloudbuild_path.clone() },
                ),
            }
        },
        BuildState::AwaitVersionProbe { exit_code, stdout, elapsed_ms } => {
            let version_after = match event {
                BuildEvent::VersionProbed { version } => version,
                _ => None,
            };
            let verdict = BuildVerdict {
                crate_name: plan.crate_name.clone(),
                artifact_path: extract_artifact_path(stdout.as_str()),
                version_before: clone_opt(&plan.installed_version),
                version_after,
                cloudbuild_exit_code: exit_code,
                elapsed_ms,
                status: Status::Built,
            };
            (BuildState::Finished, BuildAction::Finish { verdict, diagnostic: None })
        },
        BuildState::Finished => (
            BuildState::Finished,
            BuildAction::CheckScript { path: cfg.cloudbuild_path.clone() },
        ),
    }
}

} // verus!
