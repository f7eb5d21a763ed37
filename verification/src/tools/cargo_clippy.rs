//! cargo clippy, the Rust linter: the course of a lint run, whose JSON
//! messages come one per line, and of a `--fix` run, which is followed by a
//! look at what `git diff` shows.

use vstd::prelude::*;

use crate::run::{
    fail, fails_with, is_failure, joined, lossy_text, opt_view, push_arg,
    runs_command, utf8_lossy, Action, CommandEvent, CommandSpec, Failure, Report, Stage,
};
use crate::server::ScanRustResult;
use crate::text::{blank, is_blank, non_blank_lines, non_blank_lines_of, views};
use crate::tools::cargo_audit::CargoAuditOutput;

verus! {

/// A lint report: the JSON messages that cargo printed, each kept as its
/// JSON text, what it printed on standard error, whether it succeeded and
/// its exit code.
#[derive(Debug)]
pub struct CargoClippyOutput {
    pub messages: Vec<String>,
    pub stderr: String,
    pub success: bool,
    pub exit_code: Option<i32>,
}

/// A fix report: how `cargo clippy --fix` went, whether it changed the
/// working tree, and the diff of the changes.
#[derive(Debug)]
pub struct CargoClippyFixOutput {
    pub success: bool,
    pub stdout: String,
    pub stderr: String,
    pub exit_code: Option<i32>,
    pub changed: bool,
    pub diff: String,
}

/// How `cargo clippy --fix` went, kept while `git` is asked what changed.
#[derive(Debug)]
pub struct FixRun {
    pub success: bool,
    pub stdout: String,
    pub stderr: String,
    pub exit_code: Option<i32>,
}

/// A name for what `serde_json::from_str::<serde_json::Value>` makes of
/// `text`: `None` when `text` is one JSON value with nothing but white
/// space around it, otherwise `Some` of the parser's error message.
pub uninterp spec fn json_value_error(text: Seq<char>) -> Option<Seq<char>>;

/// Checks `text` with `serde_json::from_str::<serde_json::Value>`. Claims
/// that the outcome, reduced to `None` or the error's message, is
/// [`json_value_error`] of the text; nothing is claimed about which texts
/// the parser accepts.
#[verifier::external_body]
fn json_error(text: &str) -> (res: Option<String>)
    ensures
        opt_view(res) == json_value_error(text@),
{
    match serde_json::from_str::<serde_json::Value>(text) {
        Ok(_) => None,
        Err(e) => Some(e.to_string()),
    }
}

/// Line `k` is the first of `lines` that is not a JSON value.
pub open spec fn first_bad_line(lines: Seq<Seq<char>>, k: int) -> bool {
    &&& 0 <= k < lines.len()
    &&& json_value_error(lines[k]) is Some
    &&& forall|j: int| 0 <= j < k ==> json_value_error(#[trigger] lines[j]) is None
}

/// Every one of `lines` is a JSON value.
pub open spec fn all_json(lines: Seq<Seq<char>>) -> bool {
    forall|j: int| 0 <= j < lines.len() ==> json_value_error(#[trigger] lines[j]) is None
}

/// The failure for a message line that is not JSON.
pub open spec fn bad_line_failure(f: Failure, line: Seq<char>) -> bool {
    is_failure(f, "Failed to parse cargo clippy JSON line: "@ + line, json_value_error(line))
}

/// Checks that each of `lines` is a JSON value: gives the lines back when
/// all are, and otherwise fails on the first that is not.
pub fn check_messages(lines: Vec<String>) -> (res: Result<Vec<String>, Failure>)
    ensures
        all_json(views(lines@)) ==> res == Ok::<Vec<String>, Failure>(lines),
        !all_json(views(lines@)) ==> (res matches Err(f) && exists|k: int|
            first_bad_line(views(lines@), k) && bad_line_failure(f, views(lines@)[k])),
        (forall|j: int| 0 <= j < lines@.len() ==> json_value_error(#[trigger] lines@[j]@) is None)
            ==> res == Ok::<Vec<String>, Failure>(lines),
        res matches Err(f) ==> exists|k: int|
            {
                &&& 0 <= k < lines@.len()
                &&& json_value_error(#[trigger] lines@[k]@) is Some
                &&& forall|j: int| 0 <= j < k ==> json_value_error(#[trigger] lines@[j]@) is None
                &&& f.context@ == "Failed to parse cargo clippy JSON line: "@ + lines@[k]@
                &&& opt_view(f.cause) == json_value_error(lines@[k]@)
            },
{
    let ghost v = views(lines@);
    let mut i: usize = 0;
    while i < lines.len()
        invariant
            v == views(lines@),
            i <= lines@.len(),
            forall|j: int| 0 <= j < i ==> json_value_error(#[trigger] v[j]) is None,
        decreases lines@.len() - i,
    {
        match json_error(lines[i].as_str()) {
            Some(e) => {
                let context = joined("Failed to parse cargo clippy JSON line: ", lines[i].as_str());
                let f = Failure { context, cause: Some(e) };
                proof {
                    assert(first_bad_line(v, i as int));
                    assert(v[i as int] == lines@[i as int]@);
                    assert forall|j: int| 0 <= j < i implies json_value_error(
                        #[trigger] lines@[j]@,
                    ) is None by {
                        assert(v[j] == lines@[j]@);
                    }
                }
                return Err(f);
            },
            None => {},
        }
        i = i + 1;
    }
    Ok(lines)
}

/// The arguments of `cargo` for a lint run of every target, with JSON
/// messages.
pub open spec fn clippy_args() -> Seq<Seq<char>> {
    seq!["clippy"@, "--all-targets"@, "--message-format=json"@]
}

/// The arguments of `cargo` for a fix run that may touch files with
/// uncommitted or staged changes.
pub open spec fn fix_args() -> Seq<Seq<char>> {
    seq!["clippy"@, "--fix"@, "--allow-dirty"@, "--allow-staged"@]
}

/// The arguments of `git` that only tell whether the working tree differs
/// from the index.
pub open spec fn quiet_diff_args() -> Seq<Seq<char>> {
    seq!["diff"@, "--quiet"@]
}

/// The arguments of `git` that show the differences.
pub open spec fn diff_args() -> Seq<Seq<char>> {
    seq!["diff"@]
}

/// The lint command, run in `path`.
pub(crate) fn clippy_command(path: String) -> (res: Action)
    ensures
        runs_command(res, "cargo"@, clippy_args(), Some(path@), None),
{
    let mut args: Vec<String> = Vec::new();
    push_arg(&mut args, "clippy");
    push_arg(&mut args, "--all-targets");
    push_arg(&mut args, "--message-format=json");
    proof {
        assert(views(args@) =~= clippy_args());
    }
    Action::Run(CommandSpec { program: "cargo".to_owned(), args, dir: Some(path), timeout_secs: None })
}

impl CargoClippyOutput {
    /// Starts a lint run on the project in `path`.
    pub fn start_clippy(path: String) -> (res: (Stage, Action))
        ensures
            res.0 matches Stage::ClippyScan { path: p, audit: None } && p@ == path@,
            runs_command(res.1, "cargo"@, clippy_args(), Some(path@), None),
            res.1 matches Action::Run(c) && views(c.args@) == seq![
                "clippy"@,
                "--all-targets"@,
                "--message-format=json"@,
            ],
    {
        let act = clippy_command(path.clone());
        (Stage::ClippyScan { path, audit: None }, act)
    }
}

impl CargoClippyFixOutput {
    /// Starts a fix run on the project in `path`.
    pub fn start_fix(path: String) -> (res: (Stage, Action))
        ensures
            res.0 matches Stage::FixScan { path: p } && p@ == path@,
            runs_command(res.1, "cargo"@, fix_args(), Some(path@), None),
            res.1 matches Action::Run(c) && views(c.args@) == seq![
                "clippy"@,
                "--fix"@,
                "--allow-dirty"@,
                "--allow-staged"@,
            ],
    {
        let mut args: Vec<String> = Vec::new();
        push_arg(&mut args, "clippy");
        push_arg(&mut args, "--fix");
        push_arg(&mut args, "--allow-dirty");
        push_arg(&mut args, "--allow-staged");
        proof {
            assert(views(args@) =~= fix_args());
        }
        let command = CommandSpec {
            program: "cargo".to_owned(),
            args,
            dir: Some(path.clone()),
            timeout_secs: None,
        };
        (Stage::FixScan { path }, Action::Run(command))
    }
}

/// The step after the lint command: a failed start or a blank output ends
/// the run with a failure; otherwise each non-blank line of the output,
/// trimmed, is one message, and the run ends with them all, or with a
/// failure on the first line that is not JSON.
pub open spec fn scanned(
    path: Seq<char>,
    audit: Option<CargoAuditOutput>,
    c: CommandEvent,
    next: Stage,
    act: Action,
) -> bool {
    match c {
        CommandEvent::LaunchFailed(cause) => fails_with(
            next,
            act,
            "Failed to run cargo audit in "@ + path,
            Some(cause@),
        ),
        CommandEvent::Finished(out) => {
            let stdout = utf8_lossy(out.stdout@);
            let stderr = utf8_lossy(out.stderr@);
            let lines = non_blank_lines(stdout);
            if is_blank(stdout) {
                fails_with(next, act, "cargo clippy returned empty result. stderr: "@ + stderr, None)
            } else if all_json(lines) {
                &&& next is Finished
                &&& act matches Action::Finish(Ok(rep)) && lint_part(rep, audit) matches Some(r)
                    && views(r.messages@) == lines && r.stderr@ == stderr && r.success == (
                out.exit_code == Some(0i32)) && r.exit_code == out.exit_code
            } else {
                &&& next is Finished
                &&& act matches Action::Finish(Err(f)) && exists|k: int|
                    first_bad_line(lines, k) && bad_line_failure(f, lines[k])
            }
        },
        CommandEvent::TimedOut => false,
    }
}

/// The lint report inside `rep`: `rep` itself when no audit report goes
/// with it, and otherwise the lint part of a combined report whose audit
/// part is `audit`.
pub open spec fn lint_part(rep: Report, audit: Option<CargoAuditOutput>) -> Option<
    CargoClippyOutput,
> {
    match audit {
        None => match rep {
            Report::Clippy(r) => Some(r),
            _ => None,
        },
        Some(a) => match rep {
            Report::RustScan(s) => if s.cargo_audit_output == a {
                Some(s.cargo_clippy_output)
            } else {
                None
            },
            _ => None,
        },
    }
}

/// `r` reports the fix run `fix`, with `changed` and `diff`.
pub open spec fn fix_report(r: CargoClippyFixOutput, fix: FixRun, changed: bool, diff: Seq<char>) -> bool {
    &&& r.success == fix.success
    &&& r.stdout@ == fix.stdout@
    &&& r.stderr@ == fix.stderr@
    &&& r.exit_code == fix.exit_code
    &&& r.changed == changed
    &&& r.diff@ == diff
}

/// The step after `cargo clippy --fix`: a failed start ends the run with a
/// failure; otherwise what it did is kept and `git diff --quiet` runs.
pub open spec fn fix_scanned(path: Seq<char>, c: CommandEvent, next: Stage, act: Action) -> bool {
    match c {
        CommandEvent::LaunchFailed(cause) => fails_with(
            next,
            act,
            "Failed to run cargo clippy in "@ + path,
            Some(cause@),
        ),
        CommandEvent::Finished(out) => {
            &&& next matches Stage::FixCheck { path: p, fix } && p@ == path && fix.success == (
            out.exit_code == Some(0i32)) && fix.stdout@ == utf8_lossy(out.stdout@) && fix.stderr@
                == utf8_lossy(out.stderr@) && fix.exit_code == out.exit_code
            &&& runs_command(act, "git"@, quiet_diff_args(), Some(path), None)
        },
        CommandEvent::TimedOut => false,
    }
}

/// The step after `git diff --quiet`: exit code 0 means nothing changed and
/// ends the run; 1 means something changed, and `git diff` runs; anything
/// else is a failure.
pub open spec fn fix_checked(
    path: Seq<char>,
    fix: FixRun,
    c: CommandEvent,
    next: Stage,
    act: Action,
) -> bool {
    match c {
        CommandEvent::LaunchFailed(cause) => fails_with(
            next,
            act,
            "Failed to run git diff in "@ + path,
            Some(cause@),
        ),
        CommandEvent::Finished(out) => {
            if out.exit_code == Some(0i32) {
                &&& next is Finished
                &&& act matches Action::Finish(Ok(Report::ClippyFix(r))) && fix_report(
                    r,
                    fix,
                    false,
                    Seq::empty(),
                )
            } else if out.exit_code == Some(1i32) {
                &&& next matches Stage::FixDiff { path: p, fix: f } && p@ == path && f == fix
                &&& runs_command(act, "git"@, diff_args(), Some(path), None)
            } else {
                fails_with(
                    next,
                    act,
                    "git diff --quiet ended with error: "@ + utf8_lossy(out.stderr@),
                    None,
                )
            }
        },
        CommandEvent::TimedOut => false,
    }
}

/// The step after `git diff`: the run ends with the fix report, whose diff
/// is what `git diff` printed.
pub open spec fn fix_diffed(
    path: Seq<char>,
    fix: FixRun,
    c: CommandEvent,
    next: Stage,
    act: Action,
) -> bool {
    match c {
        CommandEvent::LaunchFailed(cause) => fails_with(
            next,
            act,
            "Failed to run git diff in "@ + path,
            Some(cause@),
        ),
        CommandEvent::Finished(out) => {
            &&& next is Finished
            &&& act matches Action::Finish(Ok(Report::ClippyFix(r))) && fix_report(
                r,
                fix,
                true,
                utf8_lossy(out.stdout@),
            )
        },
        CommandEvent::TimedOut => false,
    }
}

/// See [`scanned`].
pub(crate) fn after_scan(path: String, audit: Option<CargoAuditOutput>, c: CommandEvent) -> (res: (
    Stage,
    Action,
))
    requires
        !(c is TimedOut),
    ensures
        scanned(path@, audit, c, res.0, res.1),
{
    match c {
        CommandEvent::LaunchFailed(cause) => fail(
            joined("Failed to run cargo audit in ", path.as_str()),
            Some(cause),
        ),
        CommandEvent::Finished(out) => {
            let stdout = lossy_text(&out.stdout);
            let stderr = lossy_text(&out.stderr);
            if blank(stdout.as_str()) {
                return fail(
                    joined("cargo clippy returned empty result. stderr: ", stderr.as_str()),
                    None,
                );
            }
            let lines = non_blank_lines_of(stdout.as_str());
            match check_messages(lines) {
                Ok(messages) => {
                    let success = match out.exit_code {
                        Some(0) => true,
                        _ => false,
                    };
                    let report = CargoClippyOutput {
                        messages,
                        stderr,
                        success,
                        exit_code: out.exit_code,
                    };
                    let rep = match audit {
                        None => Report::Clippy(report),
                        Some(a) => Report::RustScan(
                            ScanRustResult { cargo_audit_output: a, cargo_clippy_output: report },
                        ),
                    };
                    (Stage::Finished, Action::Finish(Ok(rep)))
                },
                Err(f) => (Stage::Finished, Action::Finish(Err(f))),
            }
        },
        // Ruled out by the precondition: this command has no time limit.
        CommandEvent::TimedOut => fail(String::new(), None),
    }
}

/// See [`fix_scanned`].
pub(crate) fn after_fix(path: String, c: CommandEvent) -> (res: (Stage, Action))
    requires
        !(c is TimedOut),
    ensures
        fix_scanned(path@, c, res.0, res.1),
{
    match c {
        CommandEvent::LaunchFailed(cause) => fail(
            joined("Failed to run cargo clippy in ", path.as_str()),
            Some(cause),
        ),
        CommandEvent::Finished(out) => {
            let success = match out.exit_code {
                Some(0) => true,
                _ => false,
            };
            let fix = FixRun {
                success,
                stdout: lossy_text(&out.stdout),
                stderr: lossy_text(&out.stderr),
                exit_code: out.exit_code,
            };
            let mut args: Vec<String> = Vec::new();
            push_arg(&mut args, "diff");
            push_arg(&mut args, "--quiet");
            proof {
                assert(views(args@) =~= quiet_diff_args());
            }
            let command = CommandSpec {
                program: "git".to_owned(),
                args,
                dir: Some(path.clone()),
                timeout_secs: None,
            };
            (Stage::FixCheck { path, fix }, Action::Run(command))
        },
        // Ruled out by the precondition: this command has no time limit.
        CommandEvent::TimedOut => fail(String::new(), None),
    }
}

/// See [`fix_checked`].
pub(crate) fn after_check(path: String, fix: FixRun, c: CommandEvent) -> (res: (Stage, Action))
    requires
        !(c is TimedOut),
    ensures
        fix_checked(path@, fix, c, res.0, res.1),
{
    match c {
        CommandEvent::LaunchFailed(cause) => fail(
            joined("Failed to run git diff in ", path.as_str()),
            Some(cause),
        ),
        CommandEvent::Finished(out) => match out.exit_code {
            Some(0) => {
                let report = CargoClippyFixOutput {
                    success: fix.success,
                    stdout: fix.stdout,
                    stderr: fix.stderr,
                    exit_code: fix.exit_code,
                    changed: false,
                    diff: String::new(),
                };
                (Stage::Finished, Action::Finish(Ok(Report::ClippyFix(report))))
            },
            Some(1) => {
                let mut args: Vec<String> = Vec::new();
                push_arg(&mut args, "diff");
                proof {
                    assert(views(args@) =~= diff_args());
                }
                let command = CommandSpec {
                    program: "git".to_owned(),
                    args,
                    dir: Some(path.clone()),
                    timeout_secs: None,
                };
                (Stage::FixDiff { path, fix }, Action::Run(command))
            },
            _ => {
                let stderr = lossy_text(&out.stderr);
                fail(joined("git diff --quiet ended with error: ", stderr.as_str()), None)
            },
        },
        // Ruled out by the precondition: this command has no time limit.
        CommandEvent::TimedOut => fail(String::new(), None),
    }
}

/// See [`fix_diffed`].
pub(crate) fn after_diff(path: String, fix: FixRun, c: CommandEvent) -> (res: (Stage, Action))
    requires
        !(c is TimedOut),
    ensures
        fix_diffed(path@, fix, c, res.0, res.1),
{
    match c {
        CommandEvent::LaunchFailed(cause) => fail(
            joined("Failed to run git diff in ", path.as_str()),
            Some(cause),
        ),
        CommandEvent::Finished(out) => {
            let report = CargoClippyFixOutput {
                success: fix.success,
                stdout: fix.stdout,
                stderr: fix.stderr,
                exit_code: fix.exit_code,
                changed: true,
                diff: lossy_text(&out.stdout),
            };
            (Stage::Finished, Action::Finish(Ok(Report::ClippyFix(report))))
        },
        // Ruled out by the precondition: this command has no time limit.
        CommandEvent::TimedOut => fail(String::new(), None),
    }
}

} // verus!
