use vstd::prelude::*;
use crate::error::ShimError;

verus! {

/// A point in time as seconds and nanoseconds since the Unix epoch, in UTC.
#[derive(Debug, Clone, Copy, PartialEq, Eq)]
pub struct Timestamp {
    pub secs: i64,
    pub nanos: u32,
}

/// Relies on `chrono::Utc::now`, read as whole seconds and the nanoseconds
/// past them; nothing is promised of the value.
#[verifier::external_body]
fn now() -> (r: Timestamp) {
    let t = chrono::Utc::now();
    Timestamp { secs: t.timestamp(), nanos: t.timestamp_subsec_nanos() }
}

/// What waiting for the container's init process gave.
pub enum WaitOutcome {
    /// The process exited with this status.
    Exited(i32),
    /// The process was ended by this signal.
    Signaled(i32),
    /// The wait reported some other change of state.
    Other,
    /// The child had already been reaped elsewhere.
    NoChild,
    /// The wait failed with this error number.
    Failed(i32),
}

/// The exit code a wait outcome reports, or the error it stands for.
pub open spec fn exit_code_spec(w: WaitOutcome) -> Result<u32, ShimError> {
    match w {
        WaitOutcome::Exited(s) => Ok(s as u32),
        WaitOutcome::Signaled(sig) => Ok(sig as u32),
        WaitOutcome::Other => Ok(0),
        WaitOutcome::NoChild => Ok(0),
        WaitOutcome::Failed(e) => Err(ShimError::Reaper(e)),
    }
}

/// The exit code of the container's init process: its exit status, the number
/// of the signal that ended it, or zero where it was already reaped elsewhere.
pub fn exit_code(w: WaitOutcome) -> (r: Result<u32, ShimError>)
    ensures
        r == exit_code_spec(w),
{
    match w {
        WaitOutcome::Exited(s) => Ok(s as u32),
        WaitOutcome::Signaled(sig) => Ok(sig as u32),
        WaitOutcome::Other => Ok(0),
        WaitOutcome::NoChild => Ok(0),
        WaitOutcome::Failed(e) => Err(ShimError::Reaper(e)),
    }
}

/// The content of an exit slot after `v` is offered to it: the first value
/// stays, and an empty slot takes `v`.
pub open spec fn publish_spec(s: Option<(u32, Timestamp)>, v: (u32, Timestamp)) -> Option<(u32, Timestamp)> {
    match s {
        Some(w) => Some(w),
        None => Some(v),
    }
}

/// The terminal status of a container, written at most once and read by any
/// number of waiters.
pub struct ExitSlot {
    result: Option<(u32, Timestamp)>,
}

impl View for ExitSlot {
    type V = Option<(u32, Timestamp)>;

    closed spec fn view(&self) -> Option<(u32, Timestamp)> {
        self.result
    }
}

impl ExitSlot {
    /// An empty slot.
    pub fn new() -> (r: ExitSlot)
        ensures
            r@ is None,
    {
        ExitSlot { result: None }
    }

    /// The status, once it is written.
    pub fn get(&self) -> (r: Option<(u32, Timestamp)>)
        ensures
            r == self@,
    {
        self.result
    }

    /// Whether the status is written.
    pub fn is_set(&self) -> (r: bool)
        ensures
            r == self@ is Some,
    {
        self.result.is_some()
    }

    /// Writes the status. A slot already written keeps its status and the call
    /// fails.
    pub fn set_result(&mut self, code: u32, at: Timestamp) -> (r: Result<(), ShimError>)
        ensures
            final(self)@ == publish_spec(old(self)@, (code, at)),
            r is Ok <==> old(self)@ is None,
            r matches Err(e) ==> e is AlreadyPublished,
    {
        if self.result.is_some() {
            return Err(ShimError::AlreadyPublished);
        }
        self.result = Some((code, at));
        Ok(())
    }

    /// Publishes the exit code that a wait outcome gives, stamped with the
    /// current time. A failed wait publishes nothing and is returned.
    pub fn record_exit(&mut self, w: WaitOutcome) -> (r: Result<u32, ShimError>)
        ensures
            match exit_code_spec(w) {
                Err(e) => r == Err::<u32, ShimError>(e) && final(self)@ == old(self)@,
                Ok(c) => match old(self)@ {
                    Some(_) => r matches Err(e) && e is AlreadyPublished && final(self)@ == old(self)@,
                    None => r == Ok::<u32, ShimError>(c) && (final(self)@ matches Some(v) && v.0 == c),
                },
            },
    {
        let code = exit_code(w)?;
        let at = now();
        self.set_result(code, at)?;
        Ok(code)
    }
}

/// A slot holds a status after any offer, an empty one the offered status,
/// and every later offer leaves it: waiters that read the slot before a
/// second offer and after it see the same code and time.
pub proof fn lemma_published_once(s: Option<(u32, Timestamp)>, v: (u32, Timestamp), w: (u32, Timestamp))
    ensures
        publish_spec(s, v) is Some,
        s is None ==> publish_spec(s, v) == Some(v),
        publish_spec(publish_spec(s, v), w) == publish_spec(s, v),
{
}

} // verus!
