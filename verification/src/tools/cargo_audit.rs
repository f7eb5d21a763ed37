//! cargo audit, the checker of Rust dependencies against the RustSec
//! advisory database: the report it gives and the course of an audit.

use vstd::prelude::*;

use crate::run::{
    fail, fails_with, finishes_with, joined, lossy_text, opt_view, push_arg, runs_command,
    utf8_lossy, Action, CommandEvent, CommandSpec, Report, Stage,
};
use crate::text::{blank, is_blank, views};
use crate::tools::cargo_clippy::{clippy_args, clippy_command};

verus! {

/// The vulnerabilities part of an audit report. Each advisory in `list` is
/// kept as its JSON text.
#[derive(Debug)]
pub struct Vulnerabilities {
    pub found: bool,
    pub count: i32,
    pub list: Vec<String>,
}

/// An audit report. The `warnings` object is kept as its JSON text.
#[derive(Debug)]
pub struct CargoAuditOutput {
    pub vulnerabilities: Vulnerabilities,
    pub warnings: String,
}

/// The arguments of `cargo` for an audit with a JSON report.
pub open spec fn audit_args() -> Seq<Seq<char>> {
    seq!["audit"@, "--json"@]
}

/// The audit command, run in `path`.
pub(crate) fn audit_command(path: String) -> (res: Action)
    ensures
        runs_command(res, "cargo"@, audit_args(), Some(path@), None),
{
    let mut args: Vec<String> = Vec::new();
    push_arg(&mut args, "audit");
    push_arg(&mut args, "--json");
    proof {
        assert(views(args@) =~= audit_args());
    }
    Action::Run(CommandSpec { program: "cargo".to_owned(), args, dir: Some(path), timeout_secs: None })
}

impl CargoAuditOutput {
    /// Starts an audit of the project in `path`: `cargo audit --json` runs
    /// there.
    pub fn start_audit(path: String) -> (res: (Stage, Action))
        ensures
            res.0 == (Stage::AuditScan { then: None }),
            runs_command(res.1, "cargo"@, audit_args(), Some(path@), None),
            res.1 matches Action::Run(c) && views(c.args@) == seq!["audit"@, "--json"@],
    {
        (Stage::AuditScan { then: None }, audit_command(path))
    }
}

/// The step after the audit command: a failed start or a blank output ends
/// the run with a failure; otherwise the output is to be parsed as the
/// report.
pub open spec fn scanned(then: Option<Seq<char>>, c: CommandEvent, next: Stage, act: Action) -> bool {
    match c {
        CommandEvent::LaunchFailed(cause) => fails_with(
            next,
            act,
            "Failed to run cargo audit"@,
            Some(cause@),
        ),
        CommandEvent::Finished(out) => {
            let stdout = utf8_lossy(out.stdout@);
            let stderr = utf8_lossy(out.stderr@);
            if is_blank(stdout) {
                fails_with(next, act, "cargo audit returned empty result. stderr: "@ + stderr, None)
            } else {
                &&& next matches Stage::AuditReport { then: t } && opt_view(t) == then
                &&& act matches Action::ParseAudit(t) && t@ == stdout
            }
        },
        CommandEvent::TimedOut => false,
    }
}

/// The step after parsing the report: a failure that carries the parser's
/// message, or else the report, which ends the run, or, when a lint run is
/// to follow, is kept while clippy runs.
pub open spec fn parsed(
    then: Option<Seq<char>>,
    p: Result<CargoAuditOutput, String>,
    next: Stage,
    act: Action,
) -> bool {
    match p {
        Ok(o) => match then {
            None => finishes_with(next, act, Report::Audit(o)),
            Some(path) => {
                &&& next matches Stage::ClippyScan { path: q, audit: Some(a) } && q@ == path && a
                    == o
                &&& runs_command(act, "cargo"@, clippy_args(), Some(path), None)
            },
        },
        Err(e) => fails_with(next, act, "Failed to parse cargo audit JSON output"@, Some(e@)),
    }
}

/// See [`scanned`].
pub(crate) fn after_scan(then: Option<String>, c: CommandEvent) -> (res: (Stage, Action))
    requires
        !(c is TimedOut),
    ensures
        scanned(opt_view(then), c, res.0, res.1),
{
    match c {
        CommandEvent::LaunchFailed(cause) => fail("Failed to run cargo audit".to_owned(), Some(cause)),
        CommandEvent::Finished(out) => {
            let stdout = lossy_text(&out.stdout);
            let stderr = lossy_text(&out.stderr);
            if blank(stdout.as_str()) {
                fail(joined("cargo audit returned empty result. stderr: ", stderr.as_str()), None)
            } else {
                (Stage::AuditReport { then }, Action::ParseAudit(stdout))
            }
        },
        // Ruled out by the precondition: this command has no time limit.
        CommandEvent::TimedOut => fail(String::new(), None),
    }
}

/// See [`parsed`].
pub(crate) fn after_parse(then: Option<String>, p: Result<CargoAuditOutput, String>) -> (res: (
    Stage,
    Action,
))
    ensures
        parsed(opt_view(then), p, res.0, res.1),
{
    match p {
        Ok(o) => match then {
            None => (Stage::Finished, Action::Finish(Ok(Report::Audit(o)))),
            Some(path) => {
                let act = clippy_command(path.clone());
                (Stage::ClippyScan { path, audit: Some(o) }, act)
            },
        },
        Err(e) => fail("Failed to parse cargo audit JSON output".to_owned(), Some(e)),
    }
}

} // verus!
