use security_code_analisys::run::{Action, CommandEvent, CommandOutput, Event, Report, Stage};
use security_code_analisys::tools::bandit::{BanditOutput, IssueCwe, Results};

fn start(path: &str) -> Stage {
    let (stage, action) = BanditOutput::start_scan(path.to_string(), None, None);
    match action {
        Action::CheckPath(p) => assert_eq!(p, path),
        other => panic!("unexpected {:?}", other),
    }
    stage
}

fn failure(action: Action) -> (String, Option<String>) {
    match action {
        Action::Finish(Err(f)) => (f.context, f.cause),
        other => panic!("unexpected {:?}", other),
    }
}

fn finished(code: Option<i32>, stdout: &[u8], stderr: &[u8]) -> Event {
    Event::Command(CommandEvent::Finished(CommandOutput {
        exit_code: code,
        stdout: stdout.to_vec(),
        stderr: stderr.to_vec(),
    }))
}

fn scanning(path: &str, is_dir: bool) -> Stage {
    let (stage, _) = start(path).step(Event::PathChecked { exists: true, is_dir });
    stage
}

#[test]
fn settings_choose_interpreter_and_time_limit() {
    let (stage, _) = BanditOutput::start_scan("a.py".to_string(), Some("/usr/bin/python3".to_string()), Some("15".to_string()));
    match stage {
        Stage::BanditPath { path, python, timeout_secs } => {
            assert_eq!(path, "a.py");
            assert_eq!(python, "/usr/bin/python3");
            assert_eq!(timeout_secs, 15);
        }
        other => panic!("unexpected {:?}", other),
    }
    let (stage, _) = BanditOutput::start_scan("a.py".to_string(), None, Some("0".to_string()));
    match stage {
        Stage::BanditPath { python, timeout_secs, .. } => {
            assert_eq!(python, "python");
            assert_eq!(timeout_secs, 60);
        }
        other => panic!("unexpected {:?}", other),
    }
}

#[test]
fn missing_path_is_refused_before_any_command() {
    let stage = start("nowhere/x.py");
    assert!(stage.accepts(&Event::PathChecked { exists: false, is_dir: false }));
    let (next, action) = stage.step(Event::PathChecked { exists: false, is_dir: false });
    assert!(matches!(next, Stage::Finished));
    assert_eq!(failure(action), ("Path does not exist: nowhere/x.py".to_string(), None));
}

#[test]
fn file_and_directory_commands() {
    let (_, action) = start("app.py").step(Event::PathChecked { exists: true, is_dir: false });
    match action {
        Action::Run(c) => {
            assert_eq!(c.program, "python");
            assert_eq!(c.args, vec!["-m", "bandit", "app.py", "-f", "json"]);
            assert_eq!(c.dir, None);
            assert_eq!(c.timeout_secs, Some(60));
        }
        other => panic!("unexpected {:?}", other),
    }
    let (next, action) = start("src").step(Event::PathChecked { exists: true, is_dir: true });
    assert!(matches!(next, Stage::BanditScan { .. }));
    match action {
        Action::Run(c) => assert_eq!(c.args, vec!["-m", "bandit", "-r", "src", "-f", "json"]),
        other => panic!("unexpected {:?}", other),
    }
}

#[test]
fn timeout_and_launch_failures() {
    let (next, action) = scanning("src", true).step(Event::Command(CommandEvent::TimedOut));
    assert!(matches!(next, Stage::Finished));
    assert_eq!(failure(action), ("Bandit scan timed out after 60 seconds for path: src".to_string(), None));
    let (_, action) = scanning("src", true).step(Event::Command(CommandEvent::LaunchFailed("No such file or directory (os error 2)".to_string())));
    assert_eq!(
        failure(action),
        (
            "Failed to run Bandit with `python -m bandit`; set BANDIT_PYTHON to the Python executable that has Bandit installed".to_string(),
            Some("No such file or directory (os error 2)".to_string())
        )
    );
}

#[test]
fn exit_status_two_is_an_error_even_with_output() {
    let (_, action) = scanning("src", true).step(finished(Some(2), b"{\"results\": []}", b"bad config"));
    assert_eq!(failure(action), ("Bandit error (exit 2): bad config".to_string(), None));
}

#[test]
fn blank_output_is_an_error() {
    let (_, action) = scanning("src", true).step(finished(Some(0), b" \n\t", b"\xffoops"));
    assert_eq!(failure(action), ("Bandit returned an empty result. Error: \u{fffd}oops".to_string(), None));
}

#[test]
fn output_goes_to_the_parser_then_finishes() {
    let (next, action) = scanning("src", true).step(finished(Some(1), b" {\"results\": []}\n", b""));
    assert!(matches!(next, Stage::BanditReport));
    match action {
        Action::ParseBandit(text) => assert_eq!(text, " {\"results\": []}\n"),
        other => panic!("unexpected {:?}", other),
    }
    let report = BanditOutput {
        errors: vec![],
        time: "2024-01-01T00:00:00Z".to_string(),
        results: vec![Results {
            code: "yaml.load(f)".to_string(),
            filename: "app.py".to_string(),
            issue_confidence: "HIGH".to_string(),
            issue_severity: "MEDIUM".to_string(),
            issue_cwe: IssueCwe { id: 20, link: "https://cwe.mitre.org/data/definitions/20.html".to_string() },
            issue_text: "Use of unsafe yaml load.".to_string(),
            line_number: 3,
            line_range: vec![3],
            more_info: "https://bandit.readthedocs.io/".to_string(),
            test_name: "yaml_load".to_string(),
            test_id: "B506".to_string(),
        }],
    };
    assert!(next.accepts(&Event::BanditParsed(Err(String::new()))));
    let (done, action) = next.step(Event::BanditParsed(Ok(report)));
    assert!(matches!(done, Stage::Finished));
    match action {
        Action::Finish(Ok(Report::Bandit(r))) => assert_eq!(r.results[0].test_id, "B506"),
        other => panic!("unexpected {:?}", other),
    }
}

#[test]
fn parser_errors_are_reported_with_their_cause() {
    let (next, _) = scanning("src", true).step(finished(Some(0), b"not json", b""));
    let (_, action) = next.step(Event::BanditParsed(Err("expected value at line 1 column 1".to_string())));
    assert_eq!(
        failure(action),
        ("Failed to parse Bandit JSON output".to_string(), Some("expected value at line 1 column 1".to_string()))
    );
}

#[test]
fn events_that_do_not_answer_are_not_accepted() {
    let stage = start("src");
    assert!(!stage.accepts(&Event::Command(CommandEvent::TimedOut)));
    assert!(!stage.accepts(&Event::BanditParsed(Err(String::new()))));
    let scan = scanning("src", false);
    assert!(scan.accepts(&Event::Command(CommandEvent::TimedOut)));
    assert!(!scan.accepts(&Event::PathChecked { exists: true, is_dir: true }));
    assert!(!Stage::Finished.accepts(&Event::PathChecked { exists: true, is_dir: true }));
}
