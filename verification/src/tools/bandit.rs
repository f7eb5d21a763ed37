//! Bandit, the security linter for Python: the report it gives and the
//! course of a scan.

use vstd::prelude::*;

use crate::number::{decimal, parse_u64, parsed_u64, push_decimal};
use crate::run::{
    fail, fails_with, finishes_with, joined, lossy_text, opt_view, push_arg, runs_command,
    utf8_lossy, Action, CommandEvent, CommandSpec, Report, Stage,
};
use crate::text::{blank, is_blank, views};

verus! {

/// The time limit of a scan, in seconds, when no valid one is set.
pub const DEFAULT_BANDIT_TIMEOUT_SECONDS: u64 = 60;

/// The CWE entry of an issue.
#[derive(Debug)]
pub struct IssueCwe {
    pub id: i32,
    pub link: String,
}

/// One issue that Bandit found.
#[derive(Debug)]
pub struct Results {
    pub code: String,
    pub filename: String,
    pub issue_confidence: String,
    pub issue_severity: String,
    pub issue_cwe: IssueCwe,
    pub issue_text: String,
    pub line_number: i32,
    pub line_range: Vec<i32>,
    pub more_info: String,
    pub test_name: String,
    pub test_id: String,
}

/// A Bandit report: its errors, when it was generated (`generated_at` in
/// the JSON report), and the issues found.
#[derive(Debug)]
pub struct BanditOutput {
    pub errors: Vec<String>,
    pub time: String,
    pub results: Vec<Results>,
}

/// The time limit of a scan for the `BANDIT_TIMEOUT_SECONDS` setting: the
/// number it holds when that is a whole number above zero, else
/// [`DEFAULT_BANDIT_TIMEOUT_SECONDS`].
pub open spec fn timeout_for(setting: Option<Seq<char>>) -> u64 {
    match setting {
        Some(s) => match parsed_u64(s) {
            Some(n) => if n > 0 {
                n
            } else {
                DEFAULT_BANDIT_TIMEOUT_SECONDS
            },
            None => DEFAULT_BANDIT_TIMEOUT_SECONDS,
        },
        None => DEFAULT_BANDIT_TIMEOUT_SECONDS,
    }
}

/// The Python interpreter for the `BANDIT_PYTHON` setting: the setting
/// itself, or `python`.
pub open spec fn python_for(setting: Option<Seq<char>>) -> Seq<char> {
    match setting {
        Some(p) => p,
        None => "python"@,
    }
}

/// The arguments of the interpreter for a scan of `path`: run the `bandit`
/// module, recursively when `path` is a directory, with a JSON report.
pub open spec fn bandit_args(path: Seq<char>, is_dir: bool) -> Seq<Seq<char>> {
    seq!["-m"@, "bandit"@] + (if is_dir {
        seq!["-r"@]
    } else {
        Seq::empty()
    }) + seq![path, "-f"@, "json"@]
}

/// The time limit of a scan, in seconds, for the value of the
/// `BANDIT_TIMEOUT_SECONDS` setting (`None` when it is not set).
pub fn bandit_timeout(setting: Option<&str>) -> (res: u64)
    ensures
        res == timeout_for(
            match setting {
                Some(s) => Some(s@),
                None => None,
            },
        ),
        res > 0,
{
    match setting {
        Some(s) => match parse_u64(s) {
            Some(n) => if n > 0 {
                n
            } else {
                DEFAULT_BANDIT_TIMEOUT_SECONDS
            },
            None => DEFAULT_BANDIT_TIMEOUT_SECONDS,
        },
        None => DEFAULT_BANDIT_TIMEOUT_SECONDS,
    }
}

impl BanditOutput {
    /// Starts a scan of `path`, given the values of the `BANDIT_PYTHON`
    /// and `BANDIT_TIMEOUT_SECONDS` settings. The first thing to do is to
    /// look at the path.
    pub fn start_scan(path: String, python: Option<String>, timeout: Option<String>) -> (res: (
        Stage,
        Action,
    ))
        ensures
            res.0 matches Stage::BanditPath { path: p, python: q, timeout_secs: t } && p@ == path@
                && q@ == python_for(opt_view(python)) && t == timeout_for(opt_view(timeout)),
            res.1 matches Action::CheckPath(c) && c@ == path@,
            res.0 matches Stage::BanditPath { python: q, .. } && (python matches Some(p) ==> q@
                == p@) && (python is None ==> q@ == "python"@),
    {
        let secs: u64 = match &timeout {
            Some(t) => bandit_timeout(Some(t.as_str())),
            None => bandit_timeout(None),
        };
        let interpreter = match python {
            Some(p) => p,
            None => "python".to_owned(),
        };
        let look = path.clone();
        (Stage::BanditPath { path, python: interpreter, timeout_secs: secs }, Action::CheckPath(look))
    }
}

/// The step after learning whether `path` exists and is a directory: a
/// path that does not exist ends the run; otherwise the scanner runs on it.
pub open spec fn path_checked(
    path: Seq<char>,
    python: Seq<char>,
    secs: u64,
    exists: bool,
    is_dir: bool,
    next: Stage,
    act: Action,
) -> bool {
    if !exists {
        fails_with(next, act, "Path does not exist: "@ + path, None)
    } else {
        &&& next matches Stage::BanditScan { path: p, python: q, timeout_secs: t } && p@ == path
            && q@ == python && t == secs
        &&& runs_command(act, python, bandit_args(path, is_dir), None, Some(secs))
    }
}

/// The step after the scanner command: a time-out, a failed start, exit
/// status 2 or a blank output ends the run with a failure; otherwise the
/// output is to be parsed as the report.
pub open spec fn scanned(
    path: Seq<char>,
    python: Seq<char>,
    secs: u64,
    c: CommandEvent,
    next: Stage,
    act: Action,
) -> bool {
    match c {
        CommandEvent::TimedOut => fails_with(
            next,
            act,
            "Bandit scan timed out after "@ + decimal(secs as nat) + " seconds for path: "@ + path,
            None,
        ),
        CommandEvent::LaunchFailed(cause) => fails_with(
            next,
            act,
            "Failed to run Bandit with `"@ + python
                + " -m bandit`; set BANDIT_PYTHON to the Python executable that has Bandit installed"@,
            Some(cause@),
        ),
        CommandEvent::Finished(out) => {
            let stdout = utf8_lossy(out.stdout@);
            let stderr = utf8_lossy(out.stderr@);
            if out.exit_code == Some(2i32) {
                fails_with(next, act, "Bandit error (exit 2): "@ + stderr, None)
            } else if is_blank(stdout) {
                fails_with(next, act, "Bandit returned an empty result. Error: "@ + stderr, None)
            } else {
                &&& next is BanditReport
                &&& act matches Action::ParseBandit(t) && t@ == stdout
            }
        },
    }
}

/// The step after parsing the report: the report, or a failure that
/// carries the parser's message.
pub open spec fn parsed(p: Result<BanditOutput, String>, next: Stage, act: Action) -> bool {
    match p {
        Ok(o) => finishes_with(next, act, Report::Bandit(o)),
        Err(e) => fails_with(next, act, "Failed to parse Bandit JSON output"@, Some(e@)),
    }
}

/// See [`path_checked`].
pub(crate) fn after_path_check(
    path: String,
    python: String,
    secs: u64,
    exists: bool,
    is_dir: bool,
) -> (res: (Stage, Action))
    ensures
        path_checked(path@, python@, secs, exists, is_dir, res.0, res.1),
{
    if !exists {
        return fail(joined("Path does not exist: ", path.as_str()), None);
    }
    let mut args: Vec<String> = Vec::new();
    push_arg(&mut args, "-m");
    push_arg(&mut args, "bandit");
    if is_dir {
        push_arg(&mut args, "-r");
    }
    push_arg(&mut args, path.as_str());
    push_arg(&mut args, "-f");
    push_arg(&mut args, "json");
    proof {
        assert(views(args@) =~= bandit_args(path@, is_dir));
    }
    let command = CommandSpec {
        program: python.clone(),
        args,
        dir: None,
        timeout_secs: Some(secs),
    };
    (Stage::BanditScan { path, python, timeout_secs: secs }, Action::Run(command))
}

/// See [`scanned`].
pub(crate) fn after_scan(path: String, python: String, secs: u64, c: CommandEvent) -> (res: (
    Stage,
    Action,
))
    ensures
        scanned(path@, python@, secs, c, res.0, res.1),
{
    match c {
        CommandEvent::TimedOut => {
            let mut m = "Bandit scan timed out after ".to_owned();
            push_decimal(&mut m, secs);
            m.append(" seconds for path: ");
            m.append(path.as_str());
            fail(m, None)
        },
        CommandEvent::LaunchFailed(cause) => {
            let mut m = joined("Failed to run Bandit with `", python.as_str());
            m.append(
                " -m bandit`; set BANDIT_PYTHON to the Python executable that has Bandit installed",
            );
            fail(m, Some(cause))
        },
        CommandEvent::Finished(out) => {
            let stdout = lossy_text(&out.stdout);
            let stderr = lossy_text(&out.stderr);
            match out.exit_code {
                Some(2) => {
                    return fail(joined("Bandit error (exit 2): ", stderr.as_str()), None);
                },
                _ => {},
            }
            if blank(stdout.as_str()) {
                fail(joined("Bandit returned an empty result. Error: ", stderr.as_str()), None)
            } else {
                (Stage::BanditReport, Action::ParseBandit(stdout))
            }
        },
    }
}

/// See [`parsed`].
pub(crate) fn after_parse(p: Result<BanditOutput, String>) -> (res: (Stage, Action))
    ensures
        parsed(p, res.0, res.1),
{
    match p {
        Ok(o) => (Stage::Finished, Action::Finish(Ok(Report::Bandit(o)))),
        Err(e) => fail("Failed to parse Bandit JSON output".to_owned(), Some(e)),
    }
}

} // verus!
