//! What scanner runs do, stated over their steps and the outcomes they are given.

use vstd::prelude::*;

use crate::run::{opt_view, utf8_lossy, Action, CommandEvent, CommandOutput, Event, Report, Stage};
use crate::text::{
    is_white_space, lemma_non_blank_lines_clean, lemma_not_blank, non_blank_lines, trim, views,
};
use crate::number::{decimal, parse_reads_back_decimal};
use crate::text::lemma_all_white_space_blank;
use crate::tools::bandit::{timeout_for, BanditOutput};
use crate::tools::cargo_audit::CargoAuditOutput;
use crate::tools::cargo_clippy::{json_value_error, lint_part, CargoClippyOutput};

verus! {

/// A fix report that says nothing changed has an empty diff: `git diff` is
/// only consulted, and its output only reported, when `git diff --quiet`
/// found changes.
pub proof fn unchanged_fix_has_empty_diff(stage: Stage, event: Event, next: Stage, act: Action)
    requires
        stage.step_spec(event, next, act),
    ensures
        act matches Action::Finish(Ok(Report::ClippyFix(r))) ==> (!r.changed ==> r.diff@.len()
            == 0),
{
}

/// The report of a Rust project scan carries, beside the lint, exactly the
/// audit report that was parsed before clippy ran.
pub proof fn rust_scan_keeps_audit(
    first: Stage,
    parsed: Event,
    middle: Stage,
    run_clippy: Action,
    linted: Event,
    last: Stage,
    act: Action,
)
    requires
        first matches Stage::AuditReport { then: Some(_) },
        first.step_spec(parsed, middle, run_clippy),
        middle.step_spec(linted, last, act),
    ensures
        match parsed {
            Event::AuditParsed(Ok(o)) => act matches Action::Finish(Ok(rep)) ==> (
            rep matches Report::RustScan(s) && s.cargo_audit_output == o),
            _ => true,
        },
{
}

/// Every message of `r` is a non-empty JSON text with no white space at
/// either end.
pub open spec fn clean_messages(r: CargoClippyOutput) -> bool {
    forall|i: int|
        0 <= i < r.messages@.len() ==> {
            let m = (#[trigger] r.messages@[i])@;
            &&& m.len() > 0
            &&& trim(m) == m
            &&& json_value_error(m) is None
        }
}

/// The messages of a lint report, alone or beside an audit, are each a
/// non-empty JSON text with no white space around it.
pub proof fn lint_messages_are_clean_json(stage: Stage, event: Event, next: Stage, act: Action)
    requires
        stage.step_spec(event, next, act),
    ensures
        act matches Action::Finish(Ok(Report::Clippy(r))) ==> clean_messages(r),
        act matches Action::Finish(Ok(Report::RustScan(s))) ==> clean_messages(s.cargo_clippy_output),
{
    match stage {
        Stage::ClippyScan { path, audit } => match event {
            Event::Command(CommandEvent::Finished(out)) => {
                let lines = non_blank_lines(utf8_lossy(out.stdout@));
                lemma_non_blank_lines_clean(utf8_lossy(out.stdout@));
                match act {
                    Action::Finish(Ok(rep)) => match lint_part(rep, audit) {
                        Some(r) => {
                            assert forall|i: int| 0 <= i < r.messages@.len() implies lines[i]
                                == (#[trigger] r.messages@[i])@ by {
                                assert(views(r.messages@)[i] == r.messages@[i]@);
                            }
                        },
                        None => {},
                    },
                    _ => {},
                }
            },
            _ => {},
        },
        _ => {},
    }
}

/// Whatever exit code cargo audit ends with (it exits 1 when it finds
/// vulnerabilities), an output holding anything but white space is what
/// gets parsed as the audit report, and the run waits for that report.
pub proof fn audit_output_is_parsed_whatever_the_exit_code(
    then: Option<String>,
    out: CommandOutput,
    i: int,
    next: Stage,
    act: Action,
)
    requires
        (Stage::AuditScan { then }).step_spec(Event::Command(CommandEvent::Finished(out)), next, act),
        0 <= i < utf8_lossy(out.stdout@).len(),
        !is_white_space(utf8_lossy(out.stdout@)[i]),
    ensures
        act matches Action::ParseAudit(t) && t@ == utf8_lossy(out.stdout@),
        next matches Stage::AuditReport { then: t } && opt_view(t) == opt_view(then),
{
    lemma_not_blank(utf8_lossy(out.stdout@), i);
}

/// Whatever exit code Bandit ends with other than 2 (it exits 1 when it
/// finds issues), an output holding anything but white space is what gets
/// parsed as the Bandit report.
pub proof fn bandit_output_is_parsed_unless_exit_two(
    path: String,
    python: String,
    timeout_secs: u64,
    out: CommandOutput,
    i: int,
    next: Stage,
    act: Action,
)
    requires
        (Stage::BanditScan { path, python, timeout_secs }).step_spec(
            Event::Command(CommandEvent::Finished(out)),
            next,
            act,
        ),
        out.exit_code != Some(2i32),
        0 <= i < utf8_lossy(out.stdout@).len(),
        !is_white_space(utf8_lossy(out.stdout@)[i]),
    ensures
        act matches Action::ParseBandit(t) && t@ == utf8_lossy(out.stdout@),
        next is BanditReport,
{
    lemma_not_blank(utf8_lossy(out.stdout@), i);
}

/// A lint run that succeeds reports, alone or inside a Rust scan report,
/// every non-blank line of clippy's output, trimmed, in order and none
/// else, with clippy's standard error and exit code; inside a Rust scan
/// report the audit part is the audit that preceded the lint.
pub proof fn lint_report_holds_every_line(
    path: String,
    audit: Option<crate::tools::cargo_audit::CargoAuditOutput>,
    out: CommandOutput,
    next: Stage,
    act: Action,
)
    requires
        (Stage::ClippyScan { path, audit }).step_spec(
            Event::Command(CommandEvent::Finished(out)),
            next,
            act,
        ),
    ensures
        act matches Action::Finish(Ok(Report::Clippy(r))) ==> {
            &&& audit is None
            &&& r.messages@.len() == non_blank_lines(utf8_lossy(out.stdout@)).len()
            &&& forall|j: int|
                0 <= j < r.messages@.len() ==> (#[trigger] r.messages@[j])@ == non_blank_lines(
                    utf8_lossy(out.stdout@),
                )[j]
            &&& r.stderr@ == utf8_lossy(out.stderr@)
            &&& r.exit_code == out.exit_code
            &&& r.success == (out.exit_code == Some(0i32))
        },
        act matches Action::Finish(Ok(Report::RustScan(s))) ==> {
            &&& audit == Some(s.cargo_audit_output)
            &&& s.cargo_clippy_output.messages@.len() == non_blank_lines(
                utf8_lossy(out.stdout@),
            ).len()
            &&& forall|j: int|
                0 <= j < s.cargo_clippy_output.messages@.len() ==> (
                #[trigger] s.cargo_clippy_output.messages@[j])@ == non_blank_lines(
                    utf8_lossy(out.stdout@),
                )[j]
            &&& s.cargo_clippy_output.stderr@ == utf8_lossy(out.stderr@)
            &&& s.cargo_clippy_output.exit_code == out.exit_code
            &&& s.cargo_clippy_output.success == (out.exit_code == Some(0i32))
        },
{
    match act {
        Action::Finish(Ok(rep)) => match lint_part(rep, audit) {
            Some(r) => {
                assert forall|j: int| 0 <= j < r.messages@.len() implies (
                #[trigger] r.messages@[j])@ == views(r.messages@)[j] by {}
            },
            None => {},
        },
        _ => {},
    }
}

/// `r` carries what the `cargo clippy --fix` run left behind: whether it
/// exited 0, its output, its standard error and its exit code.
pub open spec fn carries_fix_run(r: crate::tools::cargo_clippy::CargoClippyFixOutput, fix: CommandOutput) -> bool {
    &&& r.success == (fix.exit_code == Some(0i32))
    &&& r.stdout@ == utf8_lossy(fix.stdout@)
    &&& r.stderr@ == utf8_lossy(fix.stderr@)
    &&& r.exit_code == fix.exit_code
}

/// When `git diff --quiet` finds no change, the fix report is the
/// `cargo clippy --fix` run's own outcome, unchanged and with an empty diff.
pub proof fn fix_report_without_changes(
    path: String,
    fix: CommandOutput,
    checking: Stage,
    run_check: Action,
    check: CommandOutput,
    last: Stage,
    act: Action,
)
    requires
        (Stage::FixScan { path }).step_spec(
            Event::Command(CommandEvent::Finished(fix)),
            checking,
            run_check,
        ),
        checking.step_spec(Event::Command(CommandEvent::Finished(check)), last, act),
        check.exit_code == Some(0i32),
    ensures
        act matches Action::Finish(Ok(Report::ClippyFix(r))) && carries_fix_run(r, fix)
            && !r.changed && r.diff@.len() == 0,
{
}

/// When `git diff --quiet` finds changes, the fix report is the
/// `cargo clippy --fix` run's own outcome, unchanged by the two `git`
/// commands, with `changed` set and the output of `git diff` as its diff.
pub proof fn fix_report_with_changes(
    path: String,
    fix: CommandOutput,
    checking: Stage,
    run_check: Action,
    check: CommandOutput,
    diffing: Stage,
    run_diff: Action,
    diff: CommandOutput,
    last: Stage,
    act: Action,
)
    requires
        (Stage::FixScan { path }).step_spec(
            Event::Command(CommandEvent::Finished(fix)),
            checking,
            run_check,
        ),
        checking.step_spec(Event::Command(CommandEvent::Finished(check)), diffing, run_diff),
        check.exit_code == Some(1i32),
        diffing.step_spec(Event::Command(CommandEvent::Finished(diff)), last, act),
    ensures
        act matches Action::Finish(Ok(Report::ClippyFix(r))) && carries_fix_run(r, fix)
            && r.changed && r.diff@ == utf8_lossy(diff.stdout@),
{
}

/// A parsed Bandit report ends the run exactly as parsed: no result is
/// dropped, added or altered.
pub proof fn bandit_report_is_returned_as_parsed(report: BanditOutput, next: Stage, act: Action)
    requires
        Stage::BanditReport.step_spec(Event::BanditParsed(Ok(report)), next, act),
    ensures
        act == Action::Finish(Ok(Report::Bandit(report))),
        act matches Action::Finish(Ok(Report::Bandit(r))) && r.results@.len()
            == report.results@.len() && r.results@ == report.results@,
        next is Finished,
{
}

/// When the path exists, the scanner runs under the interpreter that the
/// run keeps (the `BANDIT_PYTHON` setting when it is set), on that path,
/// with the run's time limit, in the caller's directory.
pub proof fn bandit_runs_the_configured_interpreter(
    path: String,
    python: String,
    timeout_secs: u64,
    is_dir: bool,
    next: Stage,
    act: Action,
)
    requires
        (Stage::BanditPath { path, python, timeout_secs }).step_spec(
            Event::PathChecked { exists: true, is_dir },
            next,
            act,
        ),
    ensures
        act matches Action::Run(c) && c.program@ == python@ && c.timeout_secs == Some(timeout_secs)
            && c.dir is None && views(c.args@).contains(path@),
        act matches Action::Run(c) && views(c.args@) == seq!["-m"@, "bandit"@] + (if is_dir {
            seq!["-r"@]
        } else {
            Seq::empty()
        }) + seq![path@, "-f"@, "json"@],
        next matches Stage::BanditScan { path: p, python: q, timeout_secs: t } && p@ == path@ && q@
            == python@ && t == timeout_secs,
{
    match act {
        Action::Run(c) => {
            let i: int = if is_dir { 3 } else { 2 };
            assert(views(c.args@)[i] == path@);
        },
        _ => {},
    }
}

/// `s` ends with `tail`.
pub open spec fn ends_with(s: Seq<char>, tail: Seq<char>) -> bool {
    tail.len() <= s.len() && s.subrange(s.len() - tail.len(), s.len() as int) == tail
}

/// `part` stands in `s` from position `k` on.
pub open spec fn holds_at(s: Seq<char>, part: Seq<char>, k: int) -> bool {
    0 <= k && k + part.len() <= s.len() && s.subrange(k, k + part.len()) == part
}

/// A command that cannot be started ends the run, whatever the stage, with
/// a failure whose cause is the launch error.
pub proof fn launch_failure_is_the_cause(stage: Stage, cause: String, next: Stage, act: Action)
    requires
        stage.step_spec(Event::Command(CommandEvent::LaunchFailed(cause)), next, act),
    ensures
        next is Finished,
        act matches Action::Finish(Err(f)) && opt_view(f.cause) == Some(cause@),
{
}

/// An output of white space only is a failure for each scanner (for
/// Bandit unless it exited with 2, which fails anyway), a failure without
/// cause whose message ends with what the scanner wrote on standard error.
pub proof fn blank_output_fails_with_stderr(stage: Stage, out: CommandOutput, next: Stage, act: Action)
    requires
        stage is AuditScan || stage is ClippyScan || stage is BanditScan,
        stage.step_spec(Event::Command(CommandEvent::Finished(out)), next, act),
        forall|i: int|
            0 <= i < utf8_lossy(out.stdout@).len() ==> is_white_space(
                #[trigger] utf8_lossy(out.stdout@)[i],
            ),
    ensures
        next is Finished,
        act matches Action::Finish(Err(f)) && f.cause is None && ends_with(
            f.context@,
            utf8_lossy(out.stderr@),
        ),
{
    lemma_all_white_space_blank(utf8_lossy(out.stdout@));
    match act {
        Action::Finish(Err(f)) => {
            let e = utf8_lossy(out.stderr@);
            let m = f.context@;
            assert(m.subrange(m.len() - e.len(), m.len() as int) =~= e);
        },
        _ => {},
    }
}

/// Bandit's exit status 2 is a failure whatever it printed, a failure
/// without cause whose message ends with its standard error.
pub proof fn bandit_exit_two_fails(
    path: String,
    python: String,
    timeout_secs: u64,
    out: CommandOutput,
    next: Stage,
    act: Action,
)
    requires
        (Stage::BanditScan { path, python, timeout_secs }).step_spec(
            Event::Command(CommandEvent::Finished(out)),
            next,
            act,
        ),
        out.exit_code == Some(2i32),
    ensures
        next is Finished,
        act matches Action::Finish(Err(f)) && f.cause is None && ends_with(
            f.context@,
            utf8_lossy(out.stderr@),
        ),
{
    match act {
        Action::Finish(Err(f)) => {
            let e = utf8_lossy(out.stderr@);
            let m = f.context@;
            assert(m.subrange(m.len() - e.len(), m.len() as int) =~= e);
        },
        _ => {},
    }
}

/// A Bandit scan of a path that does not exist fails without running any
/// command, with a message that ends with the path.
pub proof fn bandit_refuses_missing_path(
    path: String,
    python: String,
    timeout_secs: u64,
    is_dir: bool,
    next: Stage,
    act: Action,
)
    requires
        (Stage::BanditPath { path, python, timeout_secs }).step_spec(
            Event::PathChecked { exists: false, is_dir },
            next,
            act,
        ),
    ensures
        next is Finished,
        act matches Action::Finish(Err(f)) && f.cause is None && ends_with(f.context@, path@),
{
    match act {
        Action::Finish(Err(f)) => {
            let m = f.context@;
            assert(m.subrange(m.len() - path@.len(), m.len() as int) =~= path@);
        },
        _ => {},
    }
}

/// A Bandit scan that outlives its time limit fails without cause, with a
/// message that ends with the path and tells the limit in seconds.
pub proof fn bandit_time_out_fails(
    path: String,
    python: String,
    timeout_secs: u64,
    next: Stage,
    act: Action,
)
    requires
        (Stage::BanditScan { path, python, timeout_secs }).step_spec(
            Event::Command(CommandEvent::TimedOut),
            next,
            act,
        ),
    ensures
        next is Finished,
        act matches Action::Finish(Err(f)) && f.cause is None && ends_with(f.context@, path@)
            && exists|k: int| #[trigger] holds_at(f.context@, decimal(timeout_secs as nat), k),
{
    match act {
        Action::Finish(Err(f)) => {
            let m = f.context@;
            let d = decimal(timeout_secs as nat);
            let k = "Bandit scan timed out after "@.len() as int;
            assert(m.subrange(m.len() - path@.len(), m.len() as int) =~= path@);
            assert(m.subrange(k, k + d.len()) =~= d);
            assert(holds_at(m, d, k));
        },
        _ => {},
    }
}

/// A parsed audit report ends an audit exactly as parsed; in a Rust scan it
/// is kept, unchanged, while cargo clippy runs on the same project.
pub proof fn audit_report_is_kept_as_parsed(
    then: Option<String>,
    report: CargoAuditOutput,
    next: Stage,
    act: Action,
)
    requires
        (Stage::AuditReport { then }).step_spec(Event::AuditParsed(Ok(report)), next, act),
    ensures
        then is None ==> next is Finished && act == Action::Finish(Ok(Report::Audit(report))),
        then matches Some(p) ==> (next matches Stage::ClippyScan { path: q, audit: Some(a) } && q@
            == p@ && a == report),
        then matches Some(p) ==> (act matches Action::Run(c) && c.program@ == "cargo"@ && views(
            c.args@,
        ) == seq!["clippy"@, "--all-targets"@, "--message-format=json"@] && opt_view(c.dir) == Some(
            p@,
        ) && c.timeout_secs is None),
{
}

/// Once `cargo clippy --fix` has run, whatever its exit code, `git diff
/// --quiet` runs in the same project, and the run waits for it.
pub proof fn fix_always_asks_git(path: String, fix: CommandOutput, next: Stage, act: Action)
    requires
        (Stage::FixScan { path }).step_spec(Event::Command(CommandEvent::Finished(fix)), next, act),
    ensures
        next matches Stage::FixCheck { path: p, .. } && p@ == path@,
        act matches Action::Run(c) && c.program@ == "git"@ && views(c.args@) == seq![
            "diff"@,
            "--quiet"@,
        ] && opt_view(c.dir) == Some(path@) && c.timeout_secs is None,
{
}

/// `git diff --quiet` exiting with 1 has `git diff` run in the same
/// project; exiting with anything but 0 or 1 is a failure without cause
/// whose message ends with git's standard error.
pub proof fn fix_check_outcomes(
    path: String,
    fix: crate::tools::cargo_clippy::FixRun,
    check: CommandOutput,
    next: Stage,
    act: Action,
)
    requires
        (Stage::FixCheck { path, fix }).step_spec(
            Event::Command(CommandEvent::Finished(check)),
            next,
            act,
        ),
    ensures
        check.exit_code == Some(1i32) ==> (act matches Action::Run(c) && c.program@ == "git"@
            && views(c.args@) == seq!["diff"@] && opt_view(c.dir) == Some(path@)),
        check.exit_code != Some(0i32) && check.exit_code != Some(1i32) ==> next is Finished,
        check.exit_code != Some(0i32) && check.exit_code != Some(1i32) ==> (act matches Action::Finish(
            Err(f),
        ) && f.cause is None && ends_with(f.context@, utf8_lossy(check.stderr@))),
{
    match act {
        Action::Finish(Err(f)) => {
            let e = utf8_lossy(check.stderr@);
            let m = f.context@;
            assert(m.subrange(m.len() - e.len(), m.len() as int) =~= e);
        },
        _ => {},
    }
}

/// A time limit given as the decimal text of a positive number is that
/// number.
pub proof fn timeout_setting_is_read(n: u64)
    requires
        n > 0,
    ensures
        timeout_for(Some(decimal(n as nat))) == n,
{
    parse_reads_back_decimal(n);
}

} // verus!
