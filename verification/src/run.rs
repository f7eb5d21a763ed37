//! The course of one scanner run as a state machine.
//!
//! A run starts at a [`Stage`] together with a first [`Action`]. Whoever
//! drives the run performs the action (inspects a path, runs a command,
//! parses a JSON report), hands the outcome back as an [`Event`], and gets
//! the next stage and action from [`Stage::step`], until the action is
//! [`Action::Finish`]. Every step lowers [`Stage::rank`], so a run ends after
//! at most four steps.

use vstd::prelude::*;

use crate::text::views;
use crate::tools::bandit::{self, BanditOutput};
use crate::tools::cargo_audit::{self, CargoAuditOutput};
use crate::server::ScanRustResult;
use crate::tools::cargo_clippy::{self, CargoClippyFixOutput, CargoClippyOutput, FixRun};

verus! {

/// A name for what `String::from_utf8_lossy` makes of `bytes`: the text
/// they encode as UTF-8, with each invalid sequence replaced by U+FFFD.
pub uninterp spec fn utf8_lossy(bytes: Seq<u8>) -> Seq<char>;

/// Decodes the output of a command. Calls `String::from_utf8_lossy`; its
/// result is taken to be [`utf8_lossy`] of the bytes, and nothing more is
/// claimed of it.
#[verifier::external_body]
pub(crate) fn lossy_text(bytes: &Vec<u8>) -> (res: String)
    ensures
        res@ == utf8_lossy(bytes@),
{
    String::from_utf8_lossy(bytes.as_slice()).into_owned()
}

/// The views of an optional string.
pub open spec fn opt_view(o: Option<String>) -> Option<Seq<char>> {
    match o {
        Some(s) => Some(s@),
        None => None,
    }
}

/// An external command to run: program, arguments, working directory (the
/// caller's when `None`) and a time limit in seconds (none when `None`).
/// The command reads nothing from standard input and is killed when
/// abandoned.
#[derive(Debug)]
pub struct CommandSpec {
    pub program: String,
    pub args: Vec<String>,
    pub dir: Option<String>,
    pub timeout_secs: Option<u64>,
}

/// What a finished command left behind.
#[derive(Debug)]
pub struct CommandOutput {
    /// The exit code; `None` when a signal ended the process.
    pub exit_code: Option<i32>,
    pub stdout: Vec<u8>,
    pub stderr: Vec<u8>,
}

/// The outcome of running a [`CommandSpec`].
#[derive(Debug)]
pub enum CommandEvent {
    /// The command ran to its end.
    Finished(CommandOutput),
    /// The command outlived its time limit.
    TimedOut,
    /// The command could not be started; the text says why.
    LaunchFailed(String),
}

/// Why a run failed: a message and, where there is one, the underlying
/// cause. Shown in full it reads `context: cause`.
#[derive(Debug)]
pub struct Failure {
    pub context: String,
    pub cause: Option<String>,
}

/// The report a successful run gives.
#[derive(Debug)]
pub enum Report {
    Bandit(BanditOutput),
    Audit(CargoAuditOutput),
    Clippy(CargoClippyOutput),
    ClippyFix(CargoClippyFixOutput),
    RustScan(ScanRustResult),
}

/// Where a run stands, with what it has to remember.
#[derive(Debug)]
pub enum Stage {
    /// Bandit: waiting to learn whether the path exists and is a directory.
    BanditPath { path: String, python: String, timeout_secs: u64 },
    /// Bandit: waiting for the scanner command.
    BanditScan { path: String, python: String, timeout_secs: u64 },
    /// Bandit: waiting for its JSON report to be parsed.
    BanditReport,
    /// cargo audit: waiting for the command; a lint run of the project in
    /// `then` follows a successful audit.
    AuditScan { then: Option<String> },
    /// cargo audit: waiting for its JSON report to be parsed.
    AuditReport { then: Option<String> },
    /// cargo clippy: waiting for the command; `audit` is the audit report
    /// that the lint report is to go with, if any.
    ClippyScan { path: String, audit: Option<CargoAuditOutput> },
    /// cargo clippy --fix: waiting for the command.
    FixScan { path: String },
    /// cargo clippy --fix: waiting for `git diff --quiet`.
    FixCheck { path: String, fix: FixRun },
    /// cargo clippy --fix: waiting for `git diff`.
    FixDiff { path: String, fix: FixRun },
    /// The run is over.
    Finished,
}

/// What the driver of a run reports back.
#[derive(Debug)]
pub enum Event {
    /// Whether the path exists, and whether it is a directory.
    PathChecked { exists: bool, is_dir: bool },
    /// How the last command went.
    Command(CommandEvent),
    /// The Bandit report, or the parser's error message.
    BanditParsed(Result<BanditOutput, String>),
    /// The cargo audit report, or the parser's error message.
    AuditParsed(Result<CargoAuditOutput, String>),
}

/// What the driver of a run is to do next.
#[derive(Debug)]
pub enum Action {
    /// Find out whether this path exists and whether it is a directory.
    CheckPath(String),
    /// Run this command.
    Run(CommandSpec),
    /// Parse this text as a Bandit JSON report.
    ParseBandit(String),
    /// Parse this text as a cargo audit JSON report.
    ParseAudit(String),
    /// The run is over, with this result.
    Finish(Result<Report, Failure>),
}

/// `f` says `context`, with cause `cause`.
pub open spec fn is_failure(f: Failure, context: Seq<char>, cause: Option<Seq<char>>) -> bool {
    f.context@ == context && opt_view(f.cause) == cause
}

/// The run is over with a failure that says `context`, with cause `cause`.
pub open spec fn fails_with(
    next: Stage,
    act: Action,
    context: Seq<char>,
    cause: Option<Seq<char>>,
) -> bool {
    &&& next is Finished
    &&& act matches Action::Finish(Err(f)) && is_failure(f, context, cause)
}

/// `act` runs `program` with `args` in `dir`, limited to `timeout` seconds.
pub open spec fn runs_command(
    act: Action,
    program: Seq<char>,
    args: Seq<Seq<char>>,
    dir: Option<Seq<char>>,
    timeout: Option<u64>,
) -> bool {
    act matches Action::Run(c) && c.program@ == program && views(c.args@) == args && opt_view(
        c.dir,
    ) == dir && c.timeout_secs == timeout
}

/// The run is over with `report`.
pub open spec fn finishes_with(next: Stage, act: Action, report: Report) -> bool {
    next is Finished && act == Action::Finish(Ok(report))
}

impl Stage {
    /// How many steps the run may still take at most.
    pub open spec fn rank(self) -> nat {
        match self {
            Stage::BanditPath { .. } => 3,
            Stage::BanditScan { .. } => 2,
            Stage::BanditReport => 1,
            Stage::AuditScan { then } => if then is Some {
                4
            } else {
                2
            },
            Stage::AuditReport { then } => if then is Some {
                3
            } else {
                1
            },
            Stage::ClippyScan { .. } => 1,
            Stage::FixScan { .. } => 3,
            Stage::FixCheck { .. } => 2,
            Stage::FixDiff { .. } => 1,
            Stage::Finished => 0,
        }
    }

    /// Whether `event` answers the action that led to this stage.
    pub open spec fn awaits(self, event: Event) -> bool {
        match self {
            Stage::BanditPath { .. } => event is PathChecked,
            Stage::BanditScan { .. } => event is Command,
            Stage::BanditReport => event is BanditParsed,
            Stage::AuditReport { .. } => event is AuditParsed,
            Stage::AuditScan { .. } | Stage::ClippyScan { .. } | Stage::FixScan { .. } | Stage::FixCheck {
                ..
            } | Stage::FixDiff { .. } => event matches Event::Command(c) && !(c is TimedOut),
            Stage::Finished => false,
        }
    }

    /// Whether `event` answers the action that led to this stage.
    pub fn accepts(&self, event: &Event) -> (res: bool)
        ensures
            res == self.awaits(*event),
    {
        match self {
            Stage::BanditPath { .. } => matches!(event, Event::PathChecked { .. }),
            Stage::BanditScan { .. } => matches!(event, Event::Command(_)),
            Stage::BanditReport => matches!(event, Event::BanditParsed(_)),
            Stage::AuditReport { .. } => matches!(event, Event::AuditParsed(_)),
            Stage::Finished => false,
            _ => match event {
                Event::Command(CommandEvent::TimedOut) => false,
                Event::Command(_) => true,
                _ => false,
            },
        }
    }

    /// The next stage and action after `event` at `self`.
    pub open spec fn step_spec(self, event: Event, next: Stage, act: Action) -> bool {
        match self {
            Stage::BanditPath { path, python, timeout_secs } => match event {
                Event::PathChecked { exists, is_dir } => bandit::path_checked(
                    path@,
                    python@,
                    timeout_secs,
                    exists,
                    is_dir,
                    next,
                    act,
                ),
                _ => false,
            },
            Stage::BanditScan { path, python, timeout_secs } => match event {
                Event::Command(c) => bandit::scanned(path@, python@, timeout_secs, c, next, act),
                _ => false,
            },
            Stage::BanditReport => match event {
                Event::BanditParsed(parsed) => bandit::parsed(parsed, next, act),
                _ => false,
            },
            Stage::AuditScan { then } => match event {
                Event::Command(c) => cargo_audit::scanned(opt_view(then), c, next, act),
                _ => false,
            },
            Stage::AuditReport { then } => match event {
                Event::AuditParsed(parsed) => cargo_audit::parsed(opt_view(then), parsed, next, act),
                _ => false,
            },
            Stage::ClippyScan { path, audit } => match event {
                Event::Command(c) => cargo_clippy::scanned(path@, audit, c, next, act),
                _ => false,
            },
            Stage::FixScan { path } => match event {
                Event::Command(c) => cargo_clippy::fix_scanned(path@, c, next, act),
                _ => false,
            },
            Stage::FixCheck { path, fix } => match event {
                Event::Command(c) => cargo_clippy::fix_checked(path@, fix, c, next, act),
                _ => false,
            },
            Stage::FixDiff { path, fix } => match event {
                Event::Command(c) => cargo_clippy::fix_diffed(path@, fix, c, next, act),
                _ => false,
            },
            Stage::Finished => false,
        }
    }

    /// Takes the run one step further: from this stage and the outcome of
    /// the action that led here to the next stage and action.
    pub fn step(self, event: Event) -> (res: (Stage, Action))
        requires
            self.awaits(event),
        ensures
            self.step_spec(event, res.0, res.1),
            res.0.rank() < self.rank(),
            res.0 is Finished <==> res.1 is Finish,
    {
        match self {
            Stage::BanditPath { path, python, timeout_secs } => match event {
                Event::PathChecked { exists, is_dir } => bandit::after_path_check(
                    path,
                    python,
                    timeout_secs,
                    exists,
                    is_dir,
                ),
                _ => {
                    proof {
                        assert(false);
                    }
                    fail(String::new(), None)
                },
            },
            Stage::BanditScan { path, python, timeout_secs } => match event {
                Event::Command(c) => bandit::after_scan(path, python, timeout_secs, c),
                _ => {
                    proof {
                        assert(false);
                    }
                    fail(String::new(), None)
                },
            },
            Stage::BanditReport => match event {
                Event::BanditParsed(parsed) => bandit::after_parse(parsed),
                _ => {
                    proof {
                        assert(false);
                    }
                    fail(String::new(), None)
                },
            },
            Stage::AuditScan { then } => match event {
                Event::Command(c) => cargo_audit::after_scan(then, c),
                _ => {
                    proof {
                        assert(false);
                    }
                    fail(String::new(), None)
                },
            },
            Stage::AuditReport { then } => match event {
                Event::AuditParsed(parsed) => cargo_audit::after_parse(then, parsed),
                _ => {
                    proof {
                        assert(false);
                    }
                    fail(String::new(), None)
                },
            },
            Stage::ClippyScan { path, audit } => match event {
                Event::Command(c) => cargo_clippy::after_scan(path, audit, c),
                _ => {
                    proof {
                        assert(false);
                    }
                    fail(String::new(), None)
                },
            },
            Stage::FixScan { path } => match event {
                Event::Command(c) => cargo_clippy::after_fix(path, c),
                _ => {
                    proof {
                        assert(false);
                    }
                    fail(String::new(), None)
                },
            },
            Stage::FixCheck { path, fix } => match event {
                Event::Command(c) => cargo_clippy::after_check(path, fix, c),
                _ => {
                    proof {
                        assert(false);
                    }
                    fail(String::new(), None)
                },
            },
            Stage::FixDiff { path, fix } => match event {
                Event::Command(c) => cargo_clippy::after_diff(path, fix, c),
                _ => {
                    proof {
                        assert(false);
                    }
                    fail(String::new(), None)
                },
            },
            Stage::Finished => {
                    proof {
                        assert(false);
                    }
                    fail(String::new(), None)
                },
        }
    }
}

/// Ends the run with a failure.
pub(crate) fn fail(context: String, cause: Option<String>) -> (res: (Stage, Action))
    ensures
        fails_with(res.0, res.1, context@, opt_view(cause)),
{
    (Stage::Finished, Action::Finish(Err(Failure { context, cause })))
}

/// `a` followed by `b`.
pub(crate) fn joined(a: &str, b: &str) -> (res: String)
    ensures
        res@ == a@ + b@,
{
    let mut s = a.to_owned();
    s.append(b);
    s
}

/// Appends an owned copy of `a` to `args`.
pub(crate) fn push_arg(args: &mut Vec<String>, a: &str)
    ensures
        views(final(args)@) == views(old(args)@).push(a@),
{
    args.push(a.to_owned());
    assert(views(args@) =~= views(old(args)@).push(a@));
}

} // verus!
