use vstd::prelude::*;
use crate::error::ShimError;
use crate::text::{lower_of, lowercase};

verus! {

/// One workload executor of the dispatch chain.
pub struct ExecutorEntry {
    /// The name a dispatch annotation selects the executor by.
    pub name: String,
    /// A catch-all executor takes every workload, whatever the annotation says.
    pub catch_all: bool,
}

/// What an executor reported after it was handed the workload.
pub enum RunOutcome {
    /// The workload ran and the executor returned.
    Ran,
    /// The workload ran and the executor ended the process itself, because its
    /// engine does not reliably end it on completion.
    ForciblyTerminated,
    /// The executor's engine found the workload is not its own.
    Declined,
    /// The engine could not locate or construct the workload.
    Failed(String),
}

/// The next thing the chain does.
pub enum Dispatch {
    /// Hand the workload to the executor at this position.
    Invoke(usize),
    /// The executor at this position owns the workload: the chain is done.
    Finished(usize),
    /// The chain stops with this error.
    Stop(ShimError),
}

/// The view of an optional dispatch annotation.
pub open spec fn annotation_view(a: Option<String>) -> Option<Seq<char>> {
    match a {
        Some(s) => Some(s@),
        None => None,
    }
}

/// Whether an executor takes a workload with the annotation `ann`: a missing
/// annotation selects every executor, a present one those whose name it
/// matches without regard to case.
pub open spec fn eligible(e: ExecutorEntry, ann: Option<Seq<char>>) -> bool {
    e.catch_all || match ann {
        None => true,
        Some(a) => lower_of(a) == lower_of(e.name@),
    }
}

/// `i` is the first position at or after `from` whose executor takes the
/// workload.
pub open spec fn is_first_eligible(
    chain: Seq<ExecutorEntry>,
    ann: Option<Seq<char>>,
    from: int,
    i: int,
) -> bool {
    &&& from <= i < chain.len()
    &&& eligible(chain[i], ann)
    &&& forall|j: int| from <= j < i ==> !eligible(#[trigger] chain[j], ann)
}

/// No executor at or after `from` takes the workload.
pub open spec fn none_eligible(chain: Seq<ExecutorEntry>, ann: Option<Seq<char>>, from: int) -> bool {
    forall|j: int| from <= j < chain.len() ==> !eligible(#[trigger] chain[j], ann)
}

/// Whether two lowercased names are the same.
pub fn names_match(lowered_handler: &String, lowered_name: &String) -> (r: bool)
    ensures
        r == (lowered_handler@ == lowered_name@),
{
    lowered_handler.eq(lowered_name)
}

/// Whether `entry` takes a workload whose dispatch annotation is `annotation`.
pub fn can_handle(entry: &ExecutorEntry, annotation: &Option<String>) -> (r: bool)
    ensures
        r == eligible(*entry, annotation_view(*annotation)),
{
    if entry.catch_all {
        return true;
    }
    match annotation {
        None => true,
        Some(handler) => {
            let lowered_handler = lowercase(handler.as_str());
            let lowered_name = lowercase(entry.name.as_str());
            names_match(&lowered_handler, &lowered_name)
        },
    }
}

/// The first executor at or after `from` that takes the workload.
pub fn first_eligible(chain: &Vec<ExecutorEntry>, annotation: &Option<String>, from: usize) -> (r:
    Option<usize>)
    ensures
        r matches Some(i) ==> is_first_eligible(chain@, annotation_view(*annotation), from as int, i as int),
        r is None ==> none_eligible(chain@, annotation_view(*annotation), from as int),
{
    let mut i: usize = from;
    while i < chain.len()
        invariant
            from <= i,
            forall|j: int| from <= j < i && j < chain@.len() ==> !eligible(#[trigger] chain@[j], annotation_view(*annotation)),
        decreases chain@.len() - i,
    {
        if can_handle(&chain[i], annotation) {
            assert(eligible(chain@[i as int], annotation_view(*annotation)));
            return Some(i);
        }
        i = i + 1;
    }
    None
}

/// Where the chain starts: the first executor that takes the workload.
pub fn begin_dispatch(chain: &Vec<ExecutorEntry>, annotation: &Option<String>) -> (r: Dispatch)
    ensures
        r matches Dispatch::Invoke(i) ==> is_first_eligible(chain@, annotation_view(*annotation), 0, i as int),
        r matches Dispatch::Stop(e) ==> e is NoExecutor && none_eligible(chain@, annotation_view(*annotation), 0),
        !(r is Finished),
{
    match first_eligible(chain, annotation, 0) {
        Some(i) => Dispatch::Invoke(i),
        None => Dispatch::Stop(ShimError::NoExecutor),
    }
}

/// What the chain does after the executor at `index` reported `outcome`: an
/// executor that ran keeps the workload, one that declined passes it on to the
/// next one that takes it, and one that failed stops the chain.
pub fn continue_dispatch(
    chain: &Vec<ExecutorEntry>,
    annotation: &Option<String>,
    index: usize,
    outcome: RunOutcome,
) -> (r: Dispatch)
    requires
        index < chain@.len(),
    ensures
        (outcome is Ran || outcome is ForciblyTerminated) ==> r == Dispatch::Finished(index),
        outcome matches RunOutcome::Failed(m) ==> r == Dispatch::Stop(ShimError::Execution(m)),
        outcome is Declined ==> match r {
            Dispatch::Invoke(i) => is_first_eligible(chain@, annotation_view(*annotation), index + 1, i as int),
            Dispatch::Stop(e) => e is NoExecutor && none_eligible(chain@, annotation_view(*annotation), index + 1),
            Dispatch::Finished(_) => false,
        },
{
    match outcome {
        RunOutcome::Ran => Dispatch::Finished(index),
        RunOutcome::ForciblyTerminated => Dispatch::Finished(index),
        RunOutcome::Failed(m) => Dispatch::Stop(ShimError::Execution(m)),
        RunOutcome::Declined => {
            let n = chain.len();
            assert(index + 1 <= n);
            match first_eligible(chain, annotation, index + 1) {
                Some(i) => Dispatch::Invoke(i),
                None => Dispatch::Stop(ShimError::NoExecutor),
            }
        },
    }
}

/// The annotation of a process specification that names the executor meant
/// to run it.
pub const HANDLER_ANNOTATION: &'static str = "youki.wasm.handler";

/// The name of the WasmEdge executor.
pub const WASMEDGE_EXECUTOR_NAME: &'static str = "wasmedge";

/// The name of the native fork and exec executor.
pub const DEFAULT_EXECUTOR_NAME: &'static str = "default";

/// The name of the Wasmer executor.
pub const WASMER_EXECUTOR_NAME: &'static str = "wasmer";

/// The chain the shim launches workloads with: the WasmEdge engine first,
/// then the native executor, which takes whatever is left.
pub fn shim_chain() -> (r: Vec<ExecutorEntry>)
    ensures
        r@.len() == 2,
        r@[0].name@ == WASMEDGE_EXECUTOR_NAME@,
        !r@[0].catch_all,
        r@[1].name@ == DEFAULT_EXECUTOR_NAME@,
        r@[1].catch_all,
{
    let mut r: Vec<ExecutorEntry> = Vec::new();
    r.push(ExecutorEntry { name: WASMEDGE_EXECUTOR_NAME.to_owned(), catch_all: false });
    r.push(ExecutorEntry { name: DEFAULT_EXECUTOR_NAME.to_owned(), catch_all: true });
    r
}

/// The single entry of a chain made of the Wasmer executor alone.
pub fn wasmer_entry() -> (r: ExecutorEntry)
    ensures
        r.name@ == WASMER_EXECUTOR_NAME@,
        !r.catch_all,
{
    ExecutorEntry { name: WASMER_EXECUTOR_NAME.to_owned(), catch_all: false }
}

/// A catch-all executor ends the search: the first executor chosen at or after
/// `from` stands no later than any catch-all one, so the chain never runs out
/// of executors before it.
pub proof fn lemma_catch_all_ends_chain(chain: Seq<ExecutorEntry>, ann: Option<Seq<char>>, from: int, k: int)
    requires
        from <= k < chain.len(),
        chain[k].catch_all,
    ensures
        !none_eligible(chain, ann, from),
        forall|i: int| is_first_eligible(chain, ann, from, i) ==> i <= k,
{
    assert(eligible(chain[k], ann));
}

/// Only the first executor that takes the workload is chosen: no other
/// position is, so later executors are never consulted.
pub proof fn lemma_first_eligible_exclusive(
    chain: Seq<ExecutorEntry>,
    ann: Option<Seq<char>>,
    from: int,
    i: int,
    k: int,
)
    requires
        is_first_eligible(chain, ann, from, i),
        is_first_eligible(chain, ann, from, k),
    ensures
        i == k,
{
    if i < k {
        assert(!eligible(chain[i], ann));
    } else if k < i {
        assert(!eligible(chain[k], ann));
    }
}

} // verus!
