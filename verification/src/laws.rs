//! Properties of the build machine and the plan that hold on every input.

use vstd::prelude::*;
use crate::cloudbuild::{
    accepts_event, is_fresh, next, reports_unreachable, ActionView, EventView, RunView, StateView,
};
use crate::artifact::artifact_in;
use crate::format::{decimal, or_none, plan_table, status_name, verdict_table};
use crate::paths::expanded;
use crate::manifest::{derivation, manifest_name, PlanError};
use crate::parse_laws::{manifest_with_package_name, single_line};
use crate::plan::{
    cloudbuild_command_text, plan_accepts_event, plan_next, plan_result, PlanActionView,
    PlanEventView, PlanStateView,
};
use crate::text::{is_ws, occurs_in, trim};
use crate::types::{status_exit_code, ConfigView, PlanView, Status, VerdictView};

verus! {

/// The events that answer an action.
pub open spec fn answers(a: ActionView, e: EventView) -> bool {
    match a {
        ActionView::CheckScript(_) => e is ScriptChecked,
        ActionView::RunCloudbuild(_, _) => e is CloudbuildFinished,
        ActionView::ProbeVersion(_) => e is VersionProbed,
        ActionView::Finish(_, _) => false,
    }
}

/// How many steps a state is at most from the verdict.
pub open spec fn steps_left(s: StateView) -> nat {
    match s {
        StateView::Start => 4,
        StateView::AwaitScriptCheck => 3,
        StateView::AwaitCloudbuild => 2,
        StateView::AwaitVersionProbe(..) => 1,
        StateView::Finished => 0,
    }
}

/// With the freshness guard on and the installed version equal to the source
/// HEAD, the first step ends the build as `NoOpFresh`: the script is neither
/// checked for nor run, the elapsed time is zero, and the version after is
/// the version before.
pub proof fn fresh_build_skips_cloudbuild(p: PlanView, c: ConfigView)
    requires
        is_fresh(p, c),
    ensures
        next(p, c, StateView::Start, EventView::Started).0 is Finished,
        next(p, c, StateView::Start, EventView::Started).1 matches ActionView::Finish(v, d) && {
            &&& d is None
            &&& v.status == Status::NoOpFresh
            &&& v.elapsed_ms == 0
            &&& v.cloudbuild_exit_code is None
            &&& v.artifact_path is None
            &&& v.version_before == p.installed_version
            &&& v.version_after == v.version_before
        },
{
}

/// A `NoOpFresh` verdict comes exactly from the first step with the guard on
/// and the versions equal; with the guard off there is never one.
pub proof fn no_op_only_when_fresh(p: PlanView, c: ConfigView, s: StateView, e: EventView)
    requires
        accepts_event(s, e),
    ensures
        (next(p, c, s, e).1 matches ActionView::Finish(v, _) && v.status == Status::NoOpFresh) <==> (
        s is Start && is_fresh(p, c)),
        !c.require_fresh ==> !(next(p, c, s, e).1 matches ActionView::Finish(v, _) && v.status
            == Status::NoOpFresh),
{
}

/// Without the script the build is `CloudbuildUnreachable`, never built by other means.
pub proof fn absent_script_is_unreachable(p: PlanView, c: ConfigView)
    ensures
        next(p, c, StateView::AwaitScriptCheck, EventView::ScriptChecked(false)).1 matches ActionView::Finish(v, d) && {
            &&& v.status == Status::CloudbuildUnreachable
            &&& v.cloudbuild_exit_code is None
            &&& v.elapsed_ms == 0
            &&& d is Some
        },
{
}

/// A run reporting the builder unreachable (exit code 2 among others) gives a
/// `CloudbuildUnreachable` verdict; a failing run that does not gives `BuildFailed`.
pub proof fn failed_runs_are_classified(p: PlanView, c: ConfigView, r: RunView)
    ensures
        r.exit_code == Some(2i32) ==> (next(p, c, StateView::AwaitCloudbuild, EventView::CloudbuildFinished(r)).1 matches ActionView::Finish(v, _)
            && v.status == Status::CloudbuildUnreachable && v.cloudbuild_exit_code == Some(2i32)),
        (!r.success && !reports_unreachable(r)) ==> (next(p, c, StateView::AwaitCloudbuild, EventView::CloudbuildFinished(r)).1 matches ActionView::Finish(v, _)
            && v.status == Status::BuildFailed),
        !r.success ==> next(p, c, StateView::AwaitCloudbuild, EventView::CloudbuildFinished(r)).0 is Finished,
{
}

/// A `Built` verdict only ever follows a run of the script that succeeded and
/// did not report the builder unreachable.
pub proof fn built_only_after_successful_run(p: PlanView, c: ConfigView, s: StateView, e: EventView)
    requires
        accepts_event(s, e),
    ensures
        (next(p, c, s, e).1 matches ActionView::Finish(v, _) && v.status == Status::Built) ==> s is AwaitVersionProbe,
        next(p, c, s, e).0 is AwaitVersionProbe ==> (s is AwaitCloudbuild && (e matches EventView::CloudbuildFinished(r)
            && r.success && !reports_unreachable(r))),
{
}

/// Every verdict names the plan's crate, records the plan's installed version
/// as the version before, and names an artifact only when the crate was built.
pub proof fn verdict_records_plan(p: PlanView, c: ConfigView, s: StateView, e: EventView)
    requires
        accepts_event(s, e),
    ensures
        next(p, c, s, e).1 matches ActionView::Finish(v, _) ==> {
            &&& v.crate_name == p.crate_name
            &&& v.version_before == p.installed_version
            &&& (v.artifact_path is Some ==> v.status == Status::Built)
        },
{
}

/// The only process that builds is `bash <configured script> build <crate>`.
pub proof fn only_cloudbuild_is_run(p: PlanView, c: ConfigView, s: StateView, e: EventView)
    requires
        accepts_event(s, e),
    ensures
        next(p, c, s, e).1 matches ActionView::RunCloudbuild(script, name) ==> script
            == c.cloudbuild_path && name == p.crate_name,
        next(p, c, s, e).1 matches ActionView::ProbeVersion(name) ==> name == p.crate_name,
{
}

/// Each step moves closer to the verdict; the state reached waits exactly for
/// the events that answer the action, and there is no step after a verdict.
pub proof fn machine_progresses(p: PlanView, c: ConfigView, s: StateView, e: EventView, e2: EventView)
    requires
        accepts_event(s, e),
    ensures
        steps_left(next(p, c, s, e).0) < steps_left(s),
        accepts_event(next(p, c, s, e).0, e2) <==> answers(next(p, c, s, e).1, e2),
        next(p, c, s, e).0 is Finished <==> next(p, c, s, e).1 is Finish,
{
}

/// The planned command names the `build` subcommand and the crate.
pub proof fn command_names_crate(script: Seq<char>, name: Seq<char>)
    ensures
        occurs_in(cloudbuild_command_text(script, name), name),
        occurs_in(cloudbuild_command_text(script, name), " build "@),
{
    let t = cloudbuild_command_text(script, name);
    let i = ("bash "@ + script).len() as int;
    let j = ("bash "@ + script + " build "@).len() as int;
    assert(t.subrange(j, j + name.len()) =~= name);
    assert(t.subrange(i, i + " build "@.len()) =~= " build "@);
}


/// The last action of planning when the caller answers each action with the
/// event it asks for, found out from the given values.
pub open spec fn driven_plan(
    c: ConfigView,
    canonical: Option<Seq<char>>,
    manifest: Option<Seq<char>>,
    basename: Option<Seq<char>>,
    git_stdout: Option<Seq<char>>,
    version_stdout: Option<Seq<char>>,
) -> PlanActionView {
    let (s1, a1) = plan_next(c, PlanStateView::AwaitDir, PlanEventView::DirResolved(canonical));
    if a1 is Finish {
        a1
    } else {
        let (s2, a2) = plan_next(c, s1, PlanEventView::ManifestRead(manifest, basename));
        if a2 is Finish {
            a2
        } else {
            let (s3, a3) = plan_next(c, s2, PlanEventView::HeadRead(git_stdout));
            if a3 is Finish {
                a3
            } else {
                plan_next(c, s3, PlanEventView::VersionRead(version_stdout)).1
            }
        }
    }
}

/// Driving the planning machine gives what [`crate::plan::plan`] computes from
/// the same findings: it fails exactly when the directory does not exist or no
/// name can be derived; otherwise the plan holds the canonical directory, the derived name,
/// the trimmed HEAD (or `unknown`), the trimmed installed version and the
/// command `bash <script> build <name>`.
pub proof fn planning_gives_plan_result(
    c: ConfigView,
    canonical: Option<Seq<char>>,
    manifest: Option<Seq<char>>,
    basename: Option<Seq<char>>,
    git_stdout: Option<Seq<char>>,
    version_stdout: Option<Seq<char>>,
)
    ensures
        driven_plan(c, canonical, manifest, basename, git_stdout, version_stdout)
            == PlanActionView::Finish(
            plan_result(c, canonical, manifest, basename, git_stdout, version_stdout),
        ),
{
}

/// A missing directory ends planning at once, before any process is run; a
/// name that cannot be derived ends it before git or the version probe runs.
pub proof fn planning_fails_before_processes(
    c: ConfigView,
    dir: Seq<char>,
    manifest: Option<Seq<char>>,
    basename: Option<Seq<char>>,
)
    ensures
        plan_next(c, PlanStateView::AwaitDir, PlanEventView::DirResolved(None))
            == (PlanStateView::Finished, PlanActionView::Finish(
            Err::<PlanView, PlanError>(PlanError::CrateDirNotFound),
        )),
        derivation(true, manifest, basename) is Err ==> plan_next(
            c,
            PlanStateView::AwaitManifest(dir),
            PlanEventView::ManifestRead(manifest, basename),
        ) == (PlanStateView::Finished, PlanActionView::Finish(
            Err::<PlanView, PlanError>(derivation(true, manifest, basename)->Err_0),
        )),
{
}

/// The only processes planning asks for are git on the canonical directory and
/// `<name> --version` of the derived name; it never asks for the script.
/// Each step moves closer to the end, and the state reached waits exactly
/// for the event that answers the action.
pub proof fn planning_runs_only_probes(
    c: ConfigView,
    s: PlanStateView,
    e: PlanEventView,
    e2: PlanEventView,
)
    requires
        plan_accepts_event(s, e),
    ensures
        plan_next(c, s, e).1 matches PlanActionView::ReadManifest(d) ==> e == PlanEventView::DirResolved(Some(d)),
        plan_next(c, s, e).1 matches PlanActionView::ReadHead(d) ==> s == PlanStateView::AwaitManifest(d),
        plan_next(c, s, e).1 matches PlanActionView::ProbeVersion(n) ==> (s matches PlanStateView::AwaitHead(_, m) && m == n),
        plan_steps_left(plan_next(c, s, e).0) < plan_steps_left(s),
        plan_accepts_event(plan_next(c, s, e).0, e2) <==> plan_answers(plan_next(c, s, e).1, e2),
{
}

/// How many steps a planning state is at most from the end.
pub open spec fn plan_steps_left(s: PlanStateView) -> nat {
    match s {
        PlanStateView::AwaitDir => 4,
        PlanStateView::AwaitManifest(_) => 3,
        PlanStateView::AwaitHead(_, _) => 2,
        PlanStateView::AwaitVersion(_, _, _) => 1,
        PlanStateView::Finished => 0,
    }
}

/// The events that answer a planning action.
pub open spec fn plan_answers(a: PlanActionView, e: PlanEventView) -> bool {
    match a {
        PlanActionView::ReadManifest(_) => e is ManifestRead,
        PlanActionView::ReadHead(_) => e is HeadRead,
        PlanActionView::ProbeVersion(_) => e is VersionRead,
        PlanActionView::Finish(_) => false,
    }
}


/// The freshness guard fires exactly when it is on and there is an installed
/// version equal to the source HEAD; otherwise, and in particular for a crate
/// that was never installed, the first step asks to check for the configured
/// script.
pub proof fn freshness_guard_exact(p: PlanView, c: ConfigView)
    ensures
        next(p, c, StateView::Start, EventView::Started).1 is Finish <==> (c.require_fresh
            && p.installed_version == Some(p.source_head)),
        !(c.require_fresh && p.installed_version == Some(p.source_head)) ==> next(
            p,
            c,
            StateView::Start,
            EventView::Started,
        ) == (StateView::AwaitScriptCheck, ActionView::CheckScript(c.cloudbuild_path)),
        p.installed_version is None ==> next(p, c, StateView::Start, EventView::Started) == (
            StateView::AwaitScriptCheck,
            ActionView::CheckScript(c.cloudbuild_path),
        ),
{
}

/// How a finished run is judged: a success not exiting with 2 goes on to
/// probe the installed version of the plan's crate; a failure whose standard
/// error names one of the unreachable conditions is `CloudbuildUnreachable`;
/// any other failure not exiting with 2 is `BuildFailed`. Either verdict keeps
/// the run's exit code and time.
pub proof fn run_outcome(p: PlanView, c: ConfigView, r: RunView)
    ensures
        (r.success && r.exit_code != Some(2i32)) ==> next(
            p,
            c,
            StateView::AwaitCloudbuild,
            EventView::CloudbuildFinished(r),
        ) == (
            StateView::AwaitVersionProbe(r.exit_code, r.stdout, r.elapsed_ms),
            ActionView::ProbeVersion(p.crate_name),
        ),
        (!r.success && (occurs_in(r.stderr, "unreachable"@) || occurs_in(r.stderr, "Cannot reach"@)
            || occurs_in(r.stderr, "Connection refused"@) || occurs_in(r.stderr, "ssh: connect"@)))
            ==> (next(p, c, StateView::AwaitCloudbuild, EventView::CloudbuildFinished(r)).1 matches ActionView::Finish(v, _)
            && v.status == Status::CloudbuildUnreachable && v.cloudbuild_exit_code == r.exit_code
            && v.elapsed_ms == r.elapsed_ms),
        (!r.success && r.exit_code != Some(2i32) && !occurs_in(r.stderr, "unreachable"@)
            && !occurs_in(r.stderr, "Cannot reach"@) && !occurs_in(r.stderr, "Connection refused"@)
            && !occurs_in(r.stderr, "ssh: connect"@)) ==> (next(p, c, StateView::AwaitCloudbuild, EventView::CloudbuildFinished(r)).1 matches ActionView::Finish(v, _)
            && v.status == Status::BuildFailed && v.cloudbuild_exit_code == r.exit_code
            && v.elapsed_ms == r.elapsed_ms),
{
}

/// After a successful run, the version probe's answer ends the build as
/// `Built`: the artifact is the one the run's output announces, the version
/// after is the probe's answer, and the run's exit code and time are kept.
pub proof fn built_verdict_contents(
    p: PlanView,
    c: ConfigView,
    code: Option<i32>,
    out: Seq<char>,
    ms: u64,
    version: Option<Seq<char>>,
)
    ensures
        next(p, c, StateView::AwaitVersionProbe(code, out, ms), EventView::VersionProbed(version))
            == (
            StateView::Finished,
            ActionView::Finish(
                VerdictView {
                    crate_name: p.crate_name,
                    artifact_path: artifact_in(out),
                    version_before: p.installed_version,
                    version_after: version,
                    cloudbuild_exit_code: code,
                    elapsed_ms: ms,
                    status: Status::Built,
                },
                None,
            ),
        ),
{
}

/// The plan of an existing directory whose manifest names a crate is for that
/// crate, whatever the directory's basename: it holds the canonical directory,
/// the trimmed HEAD (or `unknown`), the trimmed installed version, and runs
/// `bash <script> build <name>`.
pub proof fn plan_names_manifest_crate(
    c: ConfigView,
    dir: Seq<char>,
    manifest: Seq<char>,
    basename: Option<Seq<char>>,
    git_stdout: Option<Seq<char>>,
    version_stdout: Option<Seq<char>>,
    n: Seq<char>,
)
    requires
        manifest_name(manifest) == Some(n),
    ensures
        plan_result(c, Some(dir), Some(manifest), basename, git_stdout, version_stdout) == Ok::<
            PlanView,
            PlanError,
        >(
            PlanView {
                crate_dir: dir,
                crate_name: n,
                source_head: match git_stdout {
                    Some(o) => trim(o),
                    None => "unknown"@,
                },
                installed_version: match version_stdout {
                    Some(o) => Some(trim(o)),
                    None => None,
                },
                cloudbuild_command: "bash "@ + c.cloudbuild_path + " build "@ + n,
            },
        ),
{
}

/// A `Cargo.toml` whose first line is a table header and whose second line is
/// `name = "<n>"` plans a build of `n`, not of the directory's basename.
pub proof fn plan_reads_package_name(
    c: ConfigView,
    dir: Seq<char>,
    header: Seq<char>,
    n: Seq<char>,
    rest: Seq<char>,
    basename: Option<Seq<char>>,
    git_stdout: Option<Seq<char>>,
    version_stdout: Option<Seq<char>>,
)
    requires
        single_line(header),
        header.len() > 0,
        header[0] == '[',
        !is_ws(header.last()),
        single_line(n),
        n.len() > 0,
        n[0] != '"',
        n.last() != '"',
    ensures
        plan_result(
            c,
            Some(dir),
            Some(header + "\n"@ + ("name = \""@ + n + "\""@) + "\n"@ + rest),
            basename,
            git_stdout,
            version_stdout,
        ) matches Ok(p) && p.crate_name == n && p.cloudbuild_command == "bash "@
            + c.cloudbuild_path + " build "@ + n,
{
    manifest_with_package_name(header, n, rest);
}

/// The plan of an existing directory whose manifest is absent or names no crate
/// is for the directory's basename; with no basename either, planning fails.
pub proof fn plan_falls_back_to_basename(
    c: ConfigView,
    dir: Seq<char>,
    manifest: Option<Seq<char>>,
    b: Seq<char>,
    git_stdout: Option<Seq<char>>,
    version_stdout: Option<Seq<char>>,
)
    requires
        manifest is None || manifest_name(manifest->0) is None,
    ensures
        plan_result(c, Some(dir), manifest, Some(b), git_stdout, version_stdout) matches Ok(p)
            && p.crate_name == b && p.crate_dir == dir,
        plan_result(c, Some(dir), manifest, None, git_stdout, version_stdout) == Err::<
            PlanView,
            PlanError,
        >(PlanError::NoReadableBasename),
        plan_result(c, None, manifest, Some(b), git_stdout, version_stdout) == Err::<
            PlanView,
            PlanError,
        >(PlanError::CrateDirNotFound),
{
}


/// The verdict table up to its status line.
pub open spec fn verdict_table_head(crate_name: Seq<char>) -> Seq<char> {
    "crate:          "@ + crate_name + "\nstatus:         "@
}

proof fn lemma_status_line(v: VerdictView)
    ensures
        verdict_table_head(v.crate_name).len() + status_name(v.status).len() < verdict_table(v).len(),
        forall|k: int|
            0 <= k < status_name(v.status).len() ==> verdict_table(v)[verdict_table_head(
                v.crate_name,
            ).len() + k] == status_name(v.status)[k],
        verdict_table(v)[verdict_table_head(v.crate_name).len() + status_name(v.status).len() as int]
            == '\n',
{
    reveal_strlit("\nversion_before: ");
    let head = verdict_table_head(v.crate_name);
    let name = status_name(v.status);
    let rest = "\nversion_before: "@ + or_none(v.version_before) + "\nversion_after:  "@ + or_none(
        v.version_after,
    ) + "\nelapsed_ms:     "@ + decimal(v.elapsed_ms as nat) + "\nartifact:       "@ + or_none(
        v.artifact_path,
    );
    assert(verdict_table(v) =~= head + name + rest);
    assert(rest[0] == '\n');
    assert forall|k: int| 0 <= k < name.len() implies (head + name + rest)[head.len() + k]
        == name[k] by {
        assert((head + name)[head.len() + k] == name[k]);
    }
    assert((head + name + rest)[head.len() + name.len() as int] == rest[0]);
}

/// Each status is shown under its own name: different statuses have
/// different names, and neither name extends the other up to a line break.
pub proof fn status_names_distinct(s1: Status, s2: Status)
    requires
        s1 != s2,
    ensures
        status_name(s1) != status_name(s2),
        exists|k: int|
            0 <= k && k < status_name(s1).len() + 1 && k < status_name(s2).len() + 1 && (
            status_name(s1) + "\n"@)[k] != (status_name(s2) + "\n"@)[k],
{
    reveal_strlit("Built");
    reveal_strlit("NoOpFresh");
    reveal_strlit("CloudbuildUnreachable");
    reveal_strlit("BuildFailed");
    reveal_strlit("\n");
    let a = status_name(s1) + "\n"@;
    let b = status_name(s2) + "\n"@;
    if (s1 == Status::Built && s2 == Status::BuildFailed) || (s1 == Status::BuildFailed && s2
        == Status::Built) {
        assert(a[5] != b[5]);
    } else {
        assert(a[0] != b[0]);
    }
}

proof fn lemma_status_char(v: VerdictView, k: int)
    requires
        0 <= k <= status_name(v.status).len(),
    ensures
        verdict_table(v)[verdict_table_head(v.crate_name).len() + k] == (status_name(v.status)
            + "\n"@)[k],
{
    reveal_strlit("\n");
    lemma_status_line(v);
}

/// The status line shows the verdict's own status: two verdicts for the same
/// crate whose tables are equal have the same status.
#[verifier::spinoff_prover]
pub proof fn verdict_table_shows_status(v1: VerdictView, v2: VerdictView)
    requires
        v1.crate_name == v2.crate_name,
        verdict_table(v1) == verdict_table(v2),
    ensures
        v1.status == v2.status,
{
    if v1.status != v2.status {
        status_names_distinct(v1.status, v2.status);
        let n1 = status_name(v1.status);
        let n2 = status_name(v2.status);
        let k = choose|k: int|
            0 <= k && k < n1.len() + 1 && k < n2.len() + 1 && (n1 + "\n"@)[k] != (n2
                + "\n"@)[k];
        lemma_status_char(v1, k);
        lemma_status_char(v2, k);
    }
}


/// The command line reports success (exit code 0) exactly for a build or a
/// fresh no-op, and failure (1) for an unreachable builder or a failed build.
pub proof fn exit_code_reports_failure(s: Status)
    ensures
        status_exit_code(s) == 0 <==> (s == Status::Built || s == Status::NoOpFresh),
        status_exit_code(s) != 0 ==> status_exit_code(s) == 1,
{
}

/// Only a leading `~/` is expanded, and only where there is a home directory;
/// the rest of the path is kept as it is, placed under the home directory with
/// one `/` between them (none where the home is empty or already ends with
/// `/`), unless it is itself absolute.
pub proof fn expansion_keeps_rest(p: Seq<char>, h: Seq<char>, r: Seq<char>)
    ensures
        !(p.len() >= 2 && p[0] == '~' && p[1] == '/') ==> expanded(p, Some(h)) == p,
        expanded(p, None) == p,
        (r.len() > 0 && r[0] == '/') ==> expanded("~/"@ + r, Some(h)) == r,
        !(r.len() > 0 && r[0] == '/') ==> expanded("~/"@ + r, Some(h)) == if h.len() > 0
            && h.last() != '/' {
            h + "/"@ + r
        } else {
            h + r
        },
{
    reveal_strlit("~/");
    assert("~/"@ =~= seq!['~', '/']);
    if p.len() >= 2 && p.take(2) == "~/"@ {
        assert(p[0] == p.take(2)[0] && p[1] == p.take(2)[1]);
    }
    let q = "~/"@ + r;
    assert(q.take(2) =~= "~/"@);
    assert(q.skip(2) =~= r);
}

/// The plan table starts with the crate's name and ends with the exact
/// command that would run.
pub proof fn plan_table_shows_name_and_command(p: PlanView)
    ensures
        plan_table(p).take(("crate:             "@ + p.crate_name).len() as int)
            == "crate:             "@ + p.crate_name,
        plan_table(p).skip(
            plan_table(p).len() - ("\nwould_run:         "@ + p.cloudbuild_command).len(),
        ) == "\nwould_run:         "@ + p.cloudbuild_command,
{
    let a = "crate:             "@ + p.crate_name;
    let z = "\nwould_run:         "@ + p.cloudbuild_command;
    let mid = "\ncrate_dir:         "@ + p.crate_dir + "\nsource_head:       "@ + p.source_head
        + "\ninstalled_version: "@ + or_none(p.installed_version);
    assert(plan_table(p) =~= a + mid + z);
    assert((a + mid + z).take(a.len() as int) =~= a);
    assert((a + mid + z).skip((a + mid + z).len() - z.len()) =~= z);
}

/// The verdict table starts with the crate's name and ends with the artifact,
/// or `(none)` where there is none.
pub proof fn verdict_table_shows_name_and_artifact(v: VerdictView)
    ensures
        verdict_table(v).take(("crate:          "@ + v.crate_name).len() as int)
            == "crate:          "@ + v.crate_name,
        verdict_table(v).skip(
            verdict_table(v).len() - ("\nartifact:       "@ + or_none(v.artifact_path)).len(),
        ) == "\nartifact:       "@ + match v.artifact_path {
            Some(a) => a,
            None => "(none)"@,
        },
{
    let a = "crate:          "@ + v.crate_name;
    let z = "\nartifact:       "@ + or_none(v.artifact_path);
    let mid = "\nstatus:         "@ + status_name(v.status) + "\nversion_before: "@ + or_none(
        v.version_before,
    ) + "\nversion_after:  "@ + or_none(v.version_after) + "\nelapsed_ms:     "@ + decimal(
        v.elapsed_ms as nat,
    );
    assert(verdict_table(v) =~= a + mid + z);
    assert((a + mid + z).take(a.len() as int) =~= a);
    assert((a + mid + z).skip((a + mid + z).len() - z.len()) =~= z);
}

} // verus!
