//! Decision logic of a security scanning server: which external scanner
//! runs with which arguments, how its output is checked, and what is
//! reported back.

pub mod laws;
pub mod number;
pub mod run;
pub mod server;
pub mod text;
pub mod tools;
