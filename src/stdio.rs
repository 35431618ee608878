use vstd::prelude::*;
use crate::error::ShimError;

verus! {

/// What became of opening the file a standard stream is to be bound to.
pub enum OpenOutcome {
    /// No path was given: the stream stays as it is.
    Skipped,
    /// The file was opened under this descriptor.
    Opened(i32),
    /// The path does not exist: the stream stays as it is.
    NotFound,
    /// Opening failed otherwise.
    Failed(String),
}

/// The descriptors the three standard streams are to be bound to, where any.
pub struct StdioPlan {
    pub stdin: Option<i32>,
    pub stdout: Option<i32>,
    pub stderr: Option<i32>,
}

/// Which standard stream a file is meant for.
#[derive(Debug, Clone, Copy, PartialEq, Eq, Structural)]
pub enum Stream {
    Stdin,
    Stdout,
    Stderr,
}

/// The descriptor an open outcome gives, or the error it stands for.
pub open spec fn descriptor_spec(o: OpenOutcome) -> Result<Option<i32>, ShimError> {
    match o {
        OpenOutcome::Skipped => Ok(None),
        OpenOutcome::NotFound => Ok(None),
        OpenOutcome::Opened(fd) => Ok(Some(fd)),
        OpenOutcome::Failed(m) => Err(ShimError::Io(m)),
    }
}

/// Whether a path names a file to open: an empty one does not.
pub fn needs_open(path: &str) -> (r: bool)
    ensures
        r == (path@.len() > 0),
{
    path.unicode_len() > 0
}

/// The descriptor to bind a stream to: none where no path was given or the
/// path does not exist, and an error where opening failed otherwise.
pub fn maybe_open_stdio(opened: OpenOutcome) -> (r: Result<Option<i32>, ShimError>)
    ensures
        r == descriptor_spec(opened),
{
    match opened {
        OpenOutcome::Skipped => Ok(None),
        OpenOutcome::NotFound => Ok(None),
        OpenOutcome::Opened(fd) => Ok(Some(fd)),
        OpenOutcome::Failed(m) => Err(ShimError::Io(m)),
    }
}

/// The binding of all three streams, or the error of the first of stdin,
/// stdout and stderr whose file could not be opened.
pub fn plan_stdio(stdin: OpenOutcome, stdout: OpenOutcome, stderr: OpenOutcome) -> (r: Result<
    StdioPlan,
    ShimError,
>)
    ensures
        match (descriptor_spec(stdin), descriptor_spec(stdout), descriptor_spec(stderr)) {
            (Err(e), _, _) => r == Err::<StdioPlan, ShimError>(e),
            (Ok(_), Err(e), _) => r == Err::<StdioPlan, ShimError>(e),
            (Ok(_), Ok(_), Err(e)) => r == Err::<StdioPlan, ShimError>(e),
            (Ok(a), Ok(b), Ok(c)) => r matches Ok(p) && p.stdin == a && p.stdout == b && p.stderr == c,
        },
{
    let a = maybe_open_stdio(stdin)?;
    let b = maybe_open_stdio(stdout)?;
    let c = maybe_open_stdio(stderr)?;
    Ok(StdioPlan { stdin: a, stdout: b, stderr: c })
}

/// The stream swaps a plan asks for, stdin first and stderr last: each pairs
/// the new descriptor with the stream it replaces.
pub open spec fn swaps_spec(p: StdioPlan) -> Seq<(i32, Stream)> {
    let a = match p.stdin {
        Some(fd) => seq![(fd, Stream::Stdin)],
        None => seq![],
    };
    let b = match p.stdout {
        Some(fd) => seq![(fd, Stream::Stdout)],
        None => seq![],
    };
    let c = match p.stderr {
        Some(fd) => seq![(fd, Stream::Stderr)],
        None => seq![],
    };
    a + b + c
}

/// The stream swaps of a plan, in the order they are to be made.
pub fn swaps(p: &StdioPlan) -> (r: Vec<(i32, Stream)>)
    ensures
        r@ == swaps_spec(*p),
{
    let mut r: Vec<(i32, Stream)> = Vec::new();
    if let Some(fd) = p.stdin {
        r.push((fd, Stream::Stdin));
    }
    if let Some(fd) = p.stdout {
        r.push((fd, Stream::Stdout));
    }
    if let Some(fd) = p.stderr {
        r.push((fd, Stream::Stderr));
    }
    assert(r@ =~= swaps_spec(*p));
    r
}

} // verus!
