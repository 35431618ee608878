use vstd::prelude::*;
use crate::error::ShimError;
use vstd::string::*;
use crate::root::{OptionsSource, determine_rootdir, rootdir_spec, join_spec, join_path};

verus! {

/// Where an instance stands in its lifecycle.
#[derive(Debug, Clone, Copy, PartialEq, Eq, Structural)]
pub enum LifecycleState {
    Created,
    Starting,
    Running,
    Exited,
    Deleted,
}

/// The state of the persisted container record, as read from disk.
#[derive(Debug, Clone, Copy, PartialEq, Eq, Structural)]
pub enum RecordStatus {
    Creating,
    Created,
    Running,
    Stopped,
    Paused,
}

/// What became of an attempt to launch the container.
pub enum LaunchOutcome {
    /// The state root could not be created.
    RootDirFailed(String),
    /// The standard streams could not be bound.
    StdioFailed(ShimError),
    /// The container could not be built or started.
    LaunchFailed(String),
    /// The init process runs under this pid.
    Launched(u32),
}

/// The next step of a delete request.
#[derive(Debug)]
pub enum DeleteStep {
    /// Load the persisted record and tear it down.
    TearDown,
    /// The request is answered with this result.
    Done(Result<(), ShimError>),
}

/// What a look for a persisted record on disk found.
pub enum RecordProbe {
    /// The state root could not be made canonical.
    RootFailed(String),
    /// The record's directory is present, or not.
    Probed(bool),
}

/// The directory of the persisted record of `container_id` under the
/// canonical state root.
pub fn construct_container_root(canonical_root: &str, container_id: &str) -> (r: String)
    ensures
        r@ == join_spec(canonical_root@, container_id@),
{
    join_path(canonical_root, container_id)
}

/// Whether a persisted record exists, or the error of looking for it.
pub fn container_exists(probe: RecordProbe) -> (r: Result<bool, ShimError>)
    ensures
        match probe {
            RecordProbe::RootFailed(m) => r == Err::<bool, ShimError>(ShimError::Others(m)),
            RecordProbe::Probed(b) => r == Ok::<bool, ShimError>(b),
        },
{
    match probe {
        RecordProbe::RootFailed(m) => Err(ShimError::Others(m)),
        RecordProbe::Probed(b) => Ok(b),
    }
}

/// Whether the persisted record of `container_id` can be loaded: it cannot
/// where the state root cannot be resolved or the record is absent.
pub fn load_container(probe: RecordProbe, container_id: &str) -> (r: Result<(), ShimError>)
    ensures
        match probe {
            RecordProbe::RootFailed(m) => r == Err::<(), ShimError>(ShimError::NotFound(m)),
            RecordProbe::Probed(b) => (r is Ok <==> b) && (r matches Err(e) ==> e is NotFound),
        },
{
    match probe {
        RecordProbe::RootFailed(m) => Err(ShimError::NotFound(m)),
        RecordProbe::Probed(true) => Ok(()),
        RecordProbe::Probed(false) => {
            let mut m = "container ".to_owned();
            m.append(container_id);
            m.append(" does not exist.");
            Err(ShimError::NotFound(m))
        },
    }
}

/// Relies on `libc::SIGKILL`, which is 9 on Linux.
#[verifier::external_body]
fn sigkill() -> (r: i32)
    ensures
        r == 9,
{
    libc::SIGKILL
}

/// Relies on `libc::SIGINT`, which is 2 on Linux.
#[verifier::external_body]
fn sigint() -> (r: i32)
    ensures
        r == 2,
{
    libc::SIGINT
}

/// Whether a kill request may carry this signal: only the forceful kill and
/// the interrupt are accepted.
pub open spec fn supported_signal(signal: u32) -> bool {
    signal == 9 || signal == 2
}

/// One container instance of the shim: its identity, the paths it was
/// created with, its state root, and where it stands in its lifecycle.
pub struct MyContainer {
    pub id: String,
    pub stdin: String,
    pub stdout: String,
    pub stderr: String,
    pub bundle: String,
    pub rootdir: String,
    pub state: LifecycleState,
}

impl MyContainer {
    /// A new instance in the created state, whose state root is resolved
    /// from the bundle's root options and the namespace. Construction fails
    /// where the root cannot be resolved.
    pub fn new(
        id: String,
        bundle: String,
        namespace: &str,
        stdin: String,
        stdout: String,
        stderr: String,
        options: OptionsSource,
    ) -> (r: Result<MyContainer, ShimError>)
        ensures
            match rootdir_spec(options, namespace@) {
                Ok(root) => r matches Ok(c) && {
                    &&& c.rootdir@ == root
                    &&& c.id == id
                    &&& c.bundle == bundle
                    &&& c.stdin == stdin
                    &&& c.stdout == stdout
                    &&& c.stderr == stderr
                    &&& c.state == LifecycleState::Created
                },
                Err(e) => r == Err::<MyContainer, ShimError>(e),
            },
    {
        let rootdir = determine_rootdir(options, namespace)?;
        Ok(MyContainer { id, stdin, stdout, stderr, bundle, rootdir, state: LifecycleState::Created })
    }

    /// The lifecycle state.
    pub fn state(&self) -> (r: LifecycleState)
        ensures
            r == self.state,
    {
        self.state
    }

    /// Marks the instance as starting; only a created instance can start.
    pub fn begin_start(&mut self) -> (r: Result<(), ShimError>)
        ensures
            r is Ok <==> old(self).state == LifecycleState::Created,
            r is Ok ==> final(self).state == LifecycleState::Starting,
            r matches Err(e) ==> e is InvalidArgument && final(self).state == old(self).state,
            final(self).rootdir == old(self).rootdir,
            final(self).id == old(self).id,
    {
        if self.state != LifecycleState::Created {
            return Err(ShimError::InvalidArgument("the container was already started".to_string()));
        }
        self.state = LifecycleState::Starting;
        Ok(())
    }

    /// Takes the outcome of a launch: a launched container runs and its pid is
    /// returned; on any failure the instance is back in the created state.
    pub fn finish_start(&mut self, outcome: LaunchOutcome) -> (r: Result<u32, ShimError>)
        ensures
            match outcome {
                LaunchOutcome::Launched(pid) => r == Ok::<u32, ShimError>(pid)
                    && final(self).state == LifecycleState::Running,
                LaunchOutcome::RootDirFailed(m) => r == Err::<u32, ShimError>(ShimError::Io(m))
                    && final(self).state == LifecycleState::Created,
                LaunchOutcome::StdioFailed(e) => r == Err::<u32, ShimError>(e)
                    && final(self).state == LifecycleState::Created,
                LaunchOutcome::LaunchFailed(m) => r == Err::<u32, ShimError>(ShimError::Start(m))
                    && final(self).state == LifecycleState::Created,
            },
            final(self).rootdir == old(self).rootdir,
            final(self).id == old(self).id,
    {
        match outcome {
            LaunchOutcome::Launched(pid) => {
                self.state = LifecycleState::Running;
                Ok(pid)
            },
            LaunchOutcome::RootDirFailed(m) => {
                self.state = LifecycleState::Created;
                Err(ShimError::Io(m))
            },
            LaunchOutcome::StdioFailed(e) => {
                self.state = LifecycleState::Created;
                Err(e)
            },
            LaunchOutcome::LaunchFailed(m) => {
                self.state = LifecycleState::Created;
                Err(ShimError::Start(m))
            },
        }
    }

    /// Marks a running instance as exited; any other state stays.
    pub fn mark_exited(&mut self)
        ensures
            old(self).state == LifecycleState::Running ==> final(self).state
                == LifecycleState::Exited,
            old(self).state != LifecycleState::Running ==> final(self).state
                == old(self).state,
            final(self).rootdir == old(self).rootdir,
            final(self).id == old(self).id,
    {
        if self.state == LifecycleState::Running {
            self.state = LifecycleState::Exited;
        }
    }

    /// The signal number to send for a kill request, or `InvalidArgument`
    /// where the signal is not supported, whatever state the instance is in.
    pub fn kill_signal(&self, signal: u32) -> (r: Result<i32, ShimError>)
        ensures
            r is Ok <==> supported_signal(signal),
            r matches Ok(s) ==> s == signal as i32,
            r matches Err(e) ==> e is InvalidArgument,
    {
        let kill = sigkill();
        let interrupt = sigint();
        if signal != kill as u32 && signal != interrupt as u32 {
            return Err(ShimError::InvalidArgument("only SIGKILL and SIGINT are supported".to_string()));
        }
        Ok(signal as i32)
    }

    /// The error of a kill request whose persisted record could not be loaded.
    pub fn kill_load_failed(&self, message: String) -> (r: ShimError)
        ensures
            r == ShimError::NotFound(message),
    {
        ShimError::NotFound(message)
    }

    /// The answer to a kill request once the signal was sent: success where it
    /// went out; where it did not, "not running" if the record read before
    /// sending shows the container stopped, and the failure otherwise.
    pub fn finish_kill(&self, status: RecordStatus, sent: Result<(), String>) -> (r: Result<
        (),
        ShimError,
    >)
        ensures
            match sent {
                Ok(()) => r is Ok,
                Err(m) => if status == RecordStatus::Stopped {
                    r == Err::<(), ShimError>(ShimError::NotRunning)
                } else {
                    r == Err::<(), ShimError>(ShimError::Others(m))
                },
            },
    {
        match sent {
            Ok(()) => Ok(()),
            Err(m) => {
                if status == RecordStatus::Stopped {
                    Err(ShimError::NotRunning)
                } else {
                    Err(ShimError::Others(m))
                }
            },
        }
    }

    /// The first step of a delete request, given whether a persisted record
    /// exists: where there is none, or the lookup failed, the instance is
    /// deleted at once and the request succeeds.
    pub fn delete_after_lookup(&mut self, exists: Result<bool, ShimError>) -> (r: DeleteStep)
        ensures
            exists == Ok::<bool, ShimError>(true) ==> r == DeleteStep::TearDown && final(self).state
                == old(self).state,
            exists != Ok::<bool, ShimError>(true) ==> r == DeleteStep::Done(Ok(()))
                && final(self).state == LifecycleState::Deleted,
            final(self).rootdir == old(self).rootdir,
            final(self).id == old(self).id,
    {
        match exists {
            Ok(true) => DeleteStep::TearDown,
            _ => {
                self.state = LifecycleState::Deleted;
                DeleteStep::Done(Ok(()))
            },
        }
    }

    /// The last step of a delete request: a failure to load or tear down the
    /// record is dropped, and the request always succeeds.
    pub fn finish_delete(&mut self, torn_down: Result<(), String>) -> (r: Result<(), ShimError>)
        ensures
            r is Ok,
            final(self).state == LifecycleState::Deleted,
            final(self).rootdir == old(self).rootdir,
            final(self).id == old(self).id,
    {
        self.state = LifecycleState::Deleted;
        Ok(())
    }
}

} // verus!
