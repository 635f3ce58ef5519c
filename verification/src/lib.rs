//! A test-harness execution engine.
//!
//! Given a list of named test cases and a compiled program under test, the
//! harness runs each test case as a subprocess, feeds it a fixture input,
//! compares its output and error streams against golden fixtures, enforces a
//! wall-clock timeout, and reports structured outcomes over a length-prefixed
//! binary message stream.

pub mod config;
pub mod executor;
pub mod preferences;
pub mod protocol;
pub mod test_unit;
pub mod wire;
