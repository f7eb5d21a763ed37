use security_code_analisys::server::{CargoTask, ScanParams};

fn params(action: &str) -> ScanParams {
    ScanParams { path: "/tmp/project".to_string(), action: action.to_string() }
}

#[test]
fn fix_and_scan_are_the_tasks() {
    assert_eq!(params("fix").task(), Ok(CargoTask::Fix));
    assert_eq!(params("scan").task(), Ok(CargoTask::Scan));
}

#[test]
fn other_actions_are_refused() {
    assert_eq!(params("lint").task(), Err("Unknown action lint, Use action: fix or scan".to_string()));
    assert_eq!(params("").task(), Err("Unknown action , Use action: fix or scan".to_string()));
    assert_eq!(params("Fix").task(), Err("Unknown action Fix, Use action: fix or scan".to_string()));
}
