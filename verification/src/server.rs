//! The requests the server takes.

use vstd::prelude::*;

use crate::run::{runs_command, Action, Stage};
use crate::text::views;
use crate::tools::cargo_audit::{audit_args, audit_command, CargoAuditOutput};
use crate::tools::cargo_clippy::CargoClippyOutput;

verus! {

/// The parameters of a scan request: the file or directory to scan, and
/// for Rust projects what to do (`scan` or `fix`).
#[derive(Debug)]
pub struct ScanParams {
    pub path: String,
    pub action: String,
}

/// What a request for a Rust project asks for.
#[derive(PartialEq, Eq, Structural, Debug, Clone, Copy)]
pub enum CargoTask {
    /// Apply clippy's fixes and report what changed.
    Fix,
    /// Audit the dependencies and lint the code.
    Scan,
}

/// The message for an action that is neither `fix` nor `scan`.
pub open spec fn unknown_action_message(action: Seq<char>) -> Seq<char> {
    "Unknown action "@ + action + ", Use action: fix or scan"@
}

impl ScanParams {
    /// The task that `action` names; any other action is refused with a
    /// message that names it and the accepted ones.
    pub fn task(&self) -> (res: Result<CargoTask, String>)
        ensures
            self.action@ == "fix"@ ==> res == Ok::<CargoTask, String>(CargoTask::Fix),
            self.action@ == "scan"@ ==> res == Ok::<CargoTask, String>(CargoTask::Scan),
            self.action@ != "fix"@ && self.action@ != "scan"@ ==> (res matches Err(m) && m@
                == unknown_action_message(self.action@)),
    {
        proof {
            reveal_strlit("fix");
            reveal_strlit("scan");
            assert("fix"@.len() != "scan"@.len());
        }
        if self.action == "fix".to_owned() {
            Ok(CargoTask::Fix)
        } else if self.action == "scan".to_owned() {
            Ok(CargoTask::Scan)
        } else {
            let mut m = "Unknown action ".to_owned();
            m.append(self.action.as_str());
            m.append(", Use action: fix or scan");
            Err(m)
        }
    }
}

/// The report of a scan of a Rust project: the audit of its dependencies
/// and the lint of its code.
#[derive(Debug)]
pub struct ScanRustResult {
    pub cargo_audit_output: CargoAuditOutput,
    pub cargo_clippy_output: CargoClippyOutput,
}

impl ScanRustResult {
    /// Starts a scan of the Rust project in `path`: first cargo audit, then,
    /// if the audit succeeds, cargo clippy.
    pub fn start_rust_scan(path: String) -> (res: (Stage, Action))
        ensures
            res.0 matches Stage::AuditScan { then: Some(p) } && p@ == path@,
            runs_command(res.1, "cargo"@, audit_args(), Some(path@), None),
            res.1 matches Action::Run(c) && views(c.args@) == seq!["audit"@, "--json"@],
    {
        let act = audit_command(path.clone());
        (Stage::AuditScan { then: Some(path) }, act)
    }
}

} // verus!
