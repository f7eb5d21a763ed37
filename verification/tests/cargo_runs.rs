use security_code_analisys::run::{Action, CommandEvent, CommandOutput, CommandSpec, Event, Report, Stage};
use security_code_analisys::server::ScanRustResult;
use security_code_analisys::tools::cargo_audit::{CargoAuditOutput, Vulnerabilities};
use security_code_analisys::tools::cargo_clippy::{CargoClippyFixOutput, CargoClippyOutput};

fn finished(code: Option<i32>, stdout: &[u8], stderr: &[u8]) -> Event {
    Event::Command(CommandEvent::Finished(CommandOutput {
        exit_code: code,
        stdout: stdout.to_vec(),
        stderr: stderr.to_vec(),
    }))
}

fn command(action: Action) -> CommandSpec {
    match action {
        Action::Run(c) => c,
        other => panic!("unexpected {:?}", other),
    }
}

fn failure(action: Action) -> (String, Option<String>) {
    match action {
        Action::Finish(Err(f)) => (f.context, f.cause),
        other => panic!("unexpected {:?}", other),
    }
}

fn audit_report() -> CargoAuditOutput {
    CargoAuditOutput {
        vulnerabilities: Vulnerabilities { found: false, count: 0, list: vec![] },
        warnings: "{}".to_string(),
    }
}

#[test]
fn audit_runs_in_the_project() {
    let (stage, action) = CargoAuditOutput::start_audit("/work/p".to_string());
    assert!(matches!(stage, Stage::AuditScan { then: None }));
    let c = command(action);
    assert_eq!(c.program, "cargo");
    assert_eq!(c.args, vec!["audit", "--json"]);
    assert_eq!(c.dir, Some("/work/p".to_string()));
    assert_eq!(c.timeout_secs, None);
    assert!(!stage.accepts(&Event::Command(CommandEvent::TimedOut)));
}

#[test]
fn audit_failures() {
    let (stage, _) = CargoAuditOutput::start_audit("/work/p".to_string());
    let (_, action) = stage.step(Event::Command(CommandEvent::LaunchFailed("program not found".to_string())));
    assert_eq!(failure(action), ("Failed to run cargo audit".to_string(), Some("program not found".to_string())));
    let (stage, _) = CargoAuditOutput::start_audit("/work/p".to_string());
    let (_, action) = stage.step(finished(Some(1), b"\n", b"error: not a cargo project"));
    assert_eq!(failure(action), ("cargo audit returned empty result. stderr: error: not a cargo project".to_string(), None));
    let (stage, _) = CargoAuditOutput::start_audit("/work/p".to_string());
    let (stage, _) = stage.step(finished(Some(0), b"{", b""));
    let (_, action) = stage.step(Event::AuditParsed(Err("EOF while parsing an object at line 1 column 1".to_string())));
    assert_eq!(
        failure(action),
        ("Failed to parse cargo audit JSON output".to_string(), Some("EOF while parsing an object at line 1 column 1".to_string()))
    );
}

#[test]
fn audit_report_finishes_the_run() {
    let (stage, _) = CargoAuditOutput::start_audit("/work/p".to_string());
    let (stage, action) = stage.step(finished(Some(0), b"{\"vulnerabilities\":{}}", b""));
    assert!(matches!(stage, Stage::AuditReport { then: None }));
    match action {
        Action::ParseAudit(t) => assert_eq!(t, "{\"vulnerabilities\":{}}"),
        other => panic!("unexpected {:?}", other),
    }
    let (stage, action) = stage.step(Event::AuditParsed(Ok(audit_report())));
    assert!(matches!(stage, Stage::Finished));
    assert!(matches!(action, Action::Finish(Ok(Report::Audit(_)))));
}

#[test]
fn clippy_messages_are_the_non_blank_lines() {
    let (stage, action) = CargoClippyOutput::start_clippy("/work/p".to_string());
    let c = command(action);
    assert_eq!(c.args, vec!["clippy", "--all-targets", "--message-format=json"]);
    assert_eq!(c.dir, Some("/work/p".to_string()));
    let out = b"{\"reason\":\"compiler-artifact\"}\n\n  {\"reason\":\"build-finished\",\"success\":true}  \r\n";
    let (next, action) = stage.step(finished(Some(0), out, b"    Checking p v0.1.0\n"));
    assert!(matches!(next, Stage::Finished));
    match action {
        Action::Finish(Ok(Report::Clippy(r))) => {
            assert_eq!(
                r.messages,
                vec!["{\"reason\":\"compiler-artifact\"}", "{\"reason\":\"build-finished\",\"success\":true}"]
            );
            assert_eq!(r.stderr, "    Checking p v0.1.0\n");
            assert!(r.success);
            assert_eq!(r.exit_code, Some(0));
        }
        other => panic!("unexpected {:?}", other),
    }
}

#[test]
fn clippy_failure_codes_are_kept() {
    let (stage, _) = CargoClippyOutput::start_clippy("/work/p".to_string());
    let (_, action) = stage.step(finished(Some(101), b"{}", b""));
    match action {
        Action::Finish(Ok(Report::Clippy(r))) => {
            assert!(!r.success);
            assert_eq!(r.exit_code, Some(101));
        }
        other => panic!("unexpected {:?}", other),
    }
    let (stage, _) = CargoClippyOutput::start_clippy("/work/p".to_string());
    let (_, action) = stage.step(finished(None, b"[]", b""));
    match action {
        Action::Finish(Ok(Report::Clippy(r))) => {
            assert!(!r.success);
            assert_eq!(r.exit_code, None);
        }
        other => panic!("unexpected {:?}", other),
    }
}

#[test]
fn clippy_stops_at_the_first_line_that_is_not_json() {
    let (stage, _) = CargoClippyOutput::start_clippy("/work/p".to_string());
    let (_, action) = stage.step(finished(Some(0), b"{}\n warning: oops \n{bad", b""));
    let expected_cause = serde_json::from_str::<serde_json::Value>("warning: oops").unwrap_err().to_string();
    assert_eq!(
        failure(action),
        ("Failed to parse cargo clippy JSON line: warning: oops".to_string(), Some(expected_cause))
    );
}

#[test]
fn clippy_blank_output_and_launch_failure() {
    let (stage, _) = CargoClippyOutput::start_clippy("/work/p".to_string());
    let (_, action) = stage.step(finished(Some(101), b"", b"error: could not find `Cargo.toml`"));
    assert_eq!(
        failure(action),
        ("cargo clippy returned empty result. stderr: error: could not find `Cargo.toml`".to_string(), None)
    );
    let (stage, _) = CargoClippyOutput::start_clippy("/work/p".to_string());
    let (_, action) = stage.step(Event::Command(CommandEvent::LaunchFailed("denied".to_string())));
    assert_eq!(failure(action), ("Failed to run cargo audit in /work/p".to_string(), Some("denied".to_string())));
}

#[test]
fn rust_scan_runs_audit_then_clippy() {
    let (stage, action) = ScanRustResult::start_rust_scan("/work/p".to_string());
    assert_eq!(command(action).args, vec!["audit", "--json"]);
    let (stage, _) = stage.step(finished(Some(0), b"{}", b""));
    assert!(matches!(stage, Stage::AuditReport { then: Some(_) }));
    let (stage, action) = stage.step(Event::AuditParsed(Ok(audit_report())));
    assert!(matches!(stage, Stage::ClippyScan { audit: Some(_), .. }));
    let c = command(action);
    assert_eq!(c.args, vec!["clippy", "--all-targets", "--message-format=json"]);
    assert_eq!(c.dir, Some("/work/p".to_string()));
    let (stage, action) = stage.step(finished(Some(0), b"{\"a\":1}\n", b""));
    assert!(matches!(stage, Stage::Finished));
    match action {
        Action::Finish(Ok(Report::RustScan(s))) => {
            assert_eq!(s.cargo_audit_output.warnings, "{}");
            assert_eq!(s.cargo_clippy_output.messages, vec!["{\"a\":1}"]);
        }
        other => panic!("unexpected {:?}", other),
    }
}

#[test]
fn rust_scan_stops_when_the_audit_fails() {
    let (stage, _) = ScanRustResult::start_rust_scan("/work/p".to_string());
    let (stage, action) = stage.step(finished(Some(1), b"", b"no lock file"));
    assert!(matches!(stage, Stage::Finished));
    assert_eq!(failure(action), ("cargo audit returned empty result. stderr: no lock file".to_string(), None));
}

fn fix_checking() -> Stage {
    let (stage, action) = CargoClippyFixOutput::start_fix("/work/p".to_string());
    let c = command(action);
    assert_eq!(c.program, "cargo");
    assert_eq!(c.args, vec!["clippy", "--fix", "--allow-dirty", "--allow-staged"]);
    let (stage, action) = stage.step(finished(Some(0), b"fixed", b"    Fixed src/lib.rs (1 fix)\n"));
    let c = command(action);
    assert_eq!(c.program, "git");
    assert_eq!(c.args, vec!["diff", "--quiet"]);
    assert_eq!(c.dir, Some("/work/p".to_string()));
    stage
}

#[test]
fn fix_without_changes_has_empty_diff() {
    let (stage, action) = fix_checking().step(finished(Some(0), b"", b""));
    assert!(matches!(stage, Stage::Finished));
    match action {
        Action::Finish(Ok(Report::ClippyFix(r))) => {
            assert!(r.success);
            assert_eq!(r.stdout, "fixed");
            assert_eq!(r.stderr, "    Fixed src/lib.rs (1 fix)\n");
            assert_eq!(r.exit_code, Some(0));
            assert!(!r.changed);
            assert_eq!(r.diff, "");
        }
        other => panic!("unexpected {:?}", other),
    }
}

#[test]
fn fix_with_changes_reports_the_diff() {
    let (stage, action) = fix_checking().step(finished(Some(1), b"", b""));
    assert!(matches!(stage, Stage::FixDiff { .. }));
    let c = command(action);
    assert_eq!(c.program, "git");
    assert_eq!(c.args, vec!["diff"]);
    let (stage, action) = stage.step(finished(Some(0), b"diff --git a/x b/x\n", b""));
    assert!(matches!(stage, Stage::Finished));
    match action {
        Action::Finish(Ok(Report::ClippyFix(r))) => {
            assert!(r.changed);
            assert_eq!(r.diff, "diff --git a/x b/x\n");
            assert_eq!(r.stdout, "fixed");
        }
        other => panic!("unexpected {:?}", other),
    }
}

#[test]
fn fix_git_errors() {
    let (_, action) = fix_checking().step(finished(Some(128), b"", b"fatal: not a git repository"));
    assert_eq!(failure(action), ("git diff --quiet ended with error: fatal: not a git repository".to_string(), None));
    let (_, action) = fix_checking().step(finished(None, b"", b""));
    assert_eq!(failure(action), ("git diff --quiet ended with error: ".to_string(), None));
    let (_, action) = fix_checking().step(Event::Command(CommandEvent::LaunchFailed("no git".to_string())));
    assert_eq!(failure(action), ("Failed to run git diff in /work/p".to_string(), Some("no git".to_string())));
    let (stage, _) = CargoClippyFixOutput::start_fix("/work/p".to_string());
    let (_, action) = stage.step(Event::Command(CommandEvent::LaunchFailed("no cargo".to_string())));
    assert_eq!(failure(action), ("Failed to run cargo clippy in /work/p".to_string(), Some("no cargo".to_string())));
}

#[test]
fn fix_failure_of_clippy_itself_is_reported_not_refused() {
    let (stage, _) = CargoClippyFixOutput::start_fix("/work/p".to_string());
    let (stage, _) = stage.step(finished(Some(101), b"", b"error[E0425]"));
    let (_, action) = stage.step(finished(Some(0), b"", b""));
    match action {
        Action::Finish(Ok(Report::ClippyFix(r))) => {
            assert!(!r.success);
            assert_eq!(r.exit_code, Some(101));
            assert_eq!(r.stderr, "error[E0425]");
        }
        other => panic!("unexpected {:?}", other),
    }
}
