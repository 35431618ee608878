//! Decision logic of a container lifecycle shim: where the per-namespace state
//! directory lives, which workload executor runs a process specification, how
//! standard streams are rebound, how a reaped child's status is reported once,
//! and how kill and delete requests are answered.
pub mod chain;
pub mod error;
pub mod exit;
pub mod instance;
pub mod root;
pub mod stdio;
pub mod text;
pub mod workload;
