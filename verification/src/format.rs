//! Human-readable renderings: decimal numbers and the plan and verdict tables.

use vstd::prelude::*;
use vstd::string::*;
use crate::types::{BuildPlan, BuildVerdict, PlanView, Status, VerdictView};

verus! {

/// The decimal digit character for `d < 10`.
pub open spec fn digit_char(d: nat) -> char {
    if d == 0 {
        '0'
    } else if d == 1 {
        '1'
    } else if d == 2 {
        '2'
    } else if d == 3 {
        '3'
    } else if d == 4 {
        '4'
    } else if d == 5 {
        '5'
    } else if d == 6 {
        '6'
    } else if d == 7 {
        '7'
    } else if d == 8 {
        '8'
    } else {
        '9'
    }
}

/// Decimal notation of `n`, without leading zeros.
pub open spec fn decimal(n: nat) -> Seq<char>
    decreases n,
{
    if n < 10 {
        seq![digit_char(n)]
    } else {
        decimal(n / 10) + seq![digit_char(n % 10)]
    }
}

/// Decimal notation of a signed integer, with a leading `-` when negative.
pub open spec fn signed_decimal(n: int) -> Seq<char> {
    if n < 0 {
        "-"@ + decimal((-n) as nat)
    } else {
        decimal(n as nat)
    }
}

/// `{:?}` of an optional exit code: `Some(<n>)` or `None`.
pub open spec fn debug_exit_code(c: Option<i32>) -> Seq<char> {
    match c {
        Some(n) => "Some("@ + signed_decimal(n as int) + ")"@,
        None => "None"@,
    }
}

/// `{:?}` of a status: the variant's name.
pub open spec fn status_name(s: Status) -> Seq<char> {
    match s {
        Status::Built => "Built"@,
        Status::NoOpFresh => "NoOpFresh"@,
        Status::CloudbuildUnreachable => "CloudbuildUnreachable"@,
        Status::BuildFailed => "BuildFailed"@,
    }
}

/// An optional text, or `(none)`.
pub open spec fn or_none(o: Option<Seq<char>>) -> Seq<char> {
    match o {
        Some(s) => s,
        None => "(none)"@,
    }
}

/// The table that shows a plan.
pub open spec fn plan_table(p: PlanView) -> Seq<char> {
    "crate:             "@ + p.crate_name + "\ncrate_dir:         "@ + p.crate_dir
        + "\nsource_head:       "@ + p.source_head + "\ninstalled_version: "@ + or_none(
        p.installed_version,
    ) + "\nwould_run:         "@ + p.cloudbuild_command
}

/// The table that shows a verdict.
pub open spec fn verdict_table(v: VerdictView) -> Seq<char> {
    "crate:          "@ + v.crate_name + "\nstatus:         "@ + status_name(v.status)
        + "\nversion_before: "@ + or_none(v.version_before) + "\nversion_after:  "@ + or_none(
        v.version_after,
    ) + "\nelapsed_ms:     "@ + decimal(v.elapsed_ms as nat) + "\nartifact:       "@ + or_none(
        v.artifact_path,
    )
}

fn digit_str(d: u64) -> (r: &'static str)
    requires
        d < 10,
    ensures
        r@ == seq![digit_char(d as nat)],
{
    if d == 0 {
        proof { reveal_strlit("0"); }
        "0"
    } else if d == 1 {
        proof { reveal_strlit("1"); }
        "1"
    } else if d == 2 {
        proof { reveal_strlit("2"); }
        "2"
    } else if d == 3 {
        proof { reveal_strlit("3"); }
        "3"
    } else if d == 4 {
        proof { reveal_strlit("4"); }
        "4"
    } else if d == 5 {
        proof { reveal_strlit("5"); }
        "5"
    } else if d == 6 {
        proof { reveal_strlit("6"); }
        "6"
    } else if d == 7 {
        proof { reveal_strlit("7"); }
        "7"
    } else if d == 8 {
        proof { reveal_strlit("8"); }
        "8"
    } else {
        proof { reveal_strlit("9"); }
        "9"
    }
}

/// Decimal notation of `n`.
pub fn u64_decimal(n: u64) -> (r: String)
    ensures
        r@ == decimal(n as nat),
    decreases n,
{
    if n < 10 {
        String::from_str(digit_str(n))
    } else {
        let mut r = u64_decimal(n / 10);
        r.append(digit_str(n % 10));
        r
    }
}

/// Decimal notation of a signed `n`.
pub fn i32_decimal(n: i32) -> (r: String)
    ensures
        r@ == signed_decimal(n as int),
{
    if n < 0 {
        let m: i64 = n as i64;
        let mut r = String::from_str("-");
        let digits = u64_decimal((-m) as u64);
        r.append(digits.as_str());
        r
    } else {
        u64_decimal(n as u64)
    }
}

/// `{:?}` of an optional exit code.
pub fn exit_code_debug(c: Option<i32>) -> (r: String)
    ensures
        r@ == debug_exit_code(c),
{
    match c {
        Some(n) => {
            let mut r = String::from_str("Some(");
            let digits = i32_decimal(n);
            r.append(digits.as_str());
            r.append(")");
            r
        },
        None => String::from_str("None"),
    }
}

impl Status {
    /// The variant's name, as `{:?}` prints it.
    pub fn name(&self) -> (r: &'static str)
        ensures
            r@ == status_name(*self),
    {
        match self {
            Status::Built => "Built",
            Status::NoOpFresh => "NoOpFresh",
            Status::CloudbuildUnreachable => "CloudbuildUnreachable",
            Status::BuildFailed => "BuildFailed",
        }
    }
}

fn append_or_none(r: &mut String, o: &Option<String>)
    ensures
        final(r)@ == old(r)@ + or_none(crate::text::opt_string(*o)),
{
    match o {
        Some(s) => r.append(s.as_str()),
        None => r.append("(none)"),
    }
}

/// Format a [`BuildPlan`] for table display.
pub fn format_plan_table(plan: &BuildPlan) -> (r: String)
    ensures
        r@ == plan_table(plan@),
{
    let mut r = String::from_str("crate:             ");
    r.append(plan.crate_name.as_str());
    r.append("\ncrate_dir:         ");
    r.append(plan.crate_dir.as_str());
    r.append("\nsource_head:       ");
    r.append(plan.source_head.as_str());
    r.append("\ninstalled_version: ");
    append_or_none(&mut r, &plan.installed_version);
    r.append("\nwould_run:         ");
    r.append(plan.cloudbuild_command.as_str());
    r
}

/// Format a [`BuildVerdict`] for table display.
pub fn format_verdict_table(verdict: &BuildVerdict) -> (r: String)
    ensures
        r@ == verdict_table(verdict@),
{
    let mut r = String::from_str("crate:          ");
    r.append(verdict.crate_name.as_str());
    r.append("\nstatus:         ");
    r.append(verdict.status.name());
    r.append("\nversion_before: ");
    append_or_none(&mut r, &verdict.version_before);
    r.append("\nversion_after:  ");
    append_or_none(&mut r, &verdict.version_after);
    r.append("\nelapsed_ms:     ");
    let ms = u64_decimal(verdict.elapsed_ms);
    r.append(ms.as_str());
    r.append("\nartifact:       ");
    append_or_none(&mut r, &verdict.artifact_path);
    r
}

} // verus!
