use vstd::prelude::*;

verus! {

/// Every failure the shim reports, by kind, with an optional message.
#[derive(Debug, Clone, PartialEq, Eq)]
pub enum ShimError {
    /// The root-options file exists but cannot be parsed.
    Config(String),
    /// The root-options file could not be read.
    Resolution(String),
    /// A standard stream or the state directory could not be prepared.
    Io(String),
    /// The container could not be built or launched.
    Start(String),
    /// No persisted record exists for the container.
    NotFound(String),
    /// A request carried a value the shim does not accept.
    InvalidArgument(String),
    /// An executor accepted the workload but could not run it.
    Execution(String),
    /// Every executor of the chain declined the workload.
    NoExecutor,
    /// The signal could not be sent because the container has stopped.
    NotRunning,
    /// The exit status was already published.
    AlreadyPublished,
    /// Waiting for the container's init process failed.
    Reaper(i32),
    /// Any other failure, with its message.
    Others(String),
}

} // verus!
