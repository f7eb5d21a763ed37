//! The scanners: Bandit for Python code, cargo audit and cargo clippy for
//! Rust projects.

pub mod bandit;
pub mod cargo_audit;
pub mod cargo_clippy;
