use youki_shim::chain::{
    begin_dispatch, can_handle, continue_dispatch, first_eligible, shim_chain, wasmer_entry,
    Dispatch, ExecutorEntry, RunOutcome,
};
use youki_shim::error::ShimError;
use youki_shim::exit::{exit_code, ExitSlot, Timestamp, WaitOutcome};
use youki_shim::instance::{
    construct_container_root, container_exists, load_container, RecordProbe, DeleteStep, LaunchOutcome, LifecycleState, MyContainer, RecordStatus};
use youki_shim::root::{determine_rootdir, join_path, OptionsSource};
use youki_shim::stdio::{maybe_open_stdio, needs_open, plan_stdio, swaps, OpenOutcome, Stream};
use youki_shim::text::{split_once, strip_separator};
use youki_shim::workload::{get_args, parse_env, prepare_workload};

fn entry(name: &str, catch_all: bool) -> ExecutorEntry {
    ExecutorEntry { name: name.to_string(), catch_all }
}

fn abd_chain() -> Vec<ExecutorEntry> {
    vec![entry("A", false), entry("B", false), entry("Default", true)]
}

fn strings(v: &[&str]) -> Vec<String> {
    v.iter().map(|s| s.to_string()).collect()
}

fn container(options: OptionsSource) -> MyContainer {
    MyContainer::new(
        "c1".to_string(),
        "/bundle".to_string(),
        "k8s.io",
        String::new(),
        String::new(),
        String::new(),
        options,
    )
    .unwrap()
}

#[test]
fn annotation_b_invokes_only_b() {
    let chain = abd_chain();
    let ann = Some("B".to_string());
    assert!(matches!(begin_dispatch(&chain, &ann), Dispatch::Invoke(1)));
    assert!(matches!(continue_dispatch(&chain, &ann, 1, RunOutcome::Ran), Dispatch::Finished(1)));
}

#[test]
fn unknown_annotation_falls_through_to_default() {
    let chain = abd_chain();
    let ann = Some("unknown".to_string());
    assert!(matches!(begin_dispatch(&chain, &ann), Dispatch::Invoke(2)));
}

#[test]
fn no_annotation_invokes_first_executor() {
    let chain = abd_chain();
    assert!(matches!(begin_dispatch(&chain, &None), Dispatch::Invoke(0)));
}

#[test]
fn annotation_matches_without_regard_to_case() {
    let ann = Some("WasMer".to_string());
    assert!(can_handle(&wasmer_entry(), &ann));
    assert!(!can_handle(&wasmer_entry(), &Some("wasmedge".to_string())));
    assert!(can_handle(&entry("a", false), &Some("A".to_string())));
}

#[test]
fn declined_passes_to_next_eligible() {
    let chain = shim_chain();
    assert!(matches!(begin_dispatch(&chain, &None), Dispatch::Invoke(0)));
    assert!(matches!(continue_dispatch(&chain, &None, 0, RunOutcome::Declined), Dispatch::Invoke(1)));
    assert!(matches!(
        continue_dispatch(&chain, &None, 1, RunOutcome::ForciblyTerminated),
        Dispatch::Finished(1)
    ));
}

#[test]
fn failed_engine_stops_chain() {
    let chain = abd_chain();
    let r = continue_dispatch(&chain, &None, 0, RunOutcome::Failed("no module".to_string()));
    assert!(matches!(r, Dispatch::Stop(ShimError::Execution(m)) if m == "no module"));
}

#[test]
fn exhausted_chain_reports_no_executor() {
    let chain = vec![entry("A", false)];
    let ann = Some("B".to_string());
    assert!(matches!(begin_dispatch(&chain, &ann), Dispatch::Stop(ShimError::NoExecutor)));
    assert_eq!(first_eligible(&chain, &ann, 0), None);
    let r = continue_dispatch(&chain, &None, 0, RunOutcome::Declined);
    assert!(matches!(r, Dispatch::Stop(ShimError::NoExecutor)));
}

#[test]
fn env_drops_bad_entries() {
    let env = parse_env(&strings(&["A=1", "BADENTRY", "B=2"]));
    assert_eq!(env, vec![("A".to_string(), "1".to_string()), ("B".to_string(), "2".to_string())]);
}

#[test]
fn env_drops_nul_on_either_side() {
    let env = parse_env(&strings(&["K\0=1", "X=\0", "C=3"]));
    assert_eq!(env, vec![("C".to_string(), "3".to_string())]);
}

#[test]
fn env_splits_at_first_equals_and_trims() {
    let env = parse_env(&strings(&[" PATH = /a=b ", "E="]));
    assert_eq!(
        env,
        vec![("PATH".to_string(), "/a=b".to_string()), ("E".to_string(), String::new())]
    );
    assert!(parse_env(&Vec::new()).is_empty());
}

#[test]
fn split_once_and_strip() {
    assert_eq!(split_once("a=b=c", '='), Some(("a".to_string(), "b=c".to_string())));
    assert_eq!(split_once("abc", '='), None);
    assert_eq!(strip_separator("/app.wasm"), "app.wasm");
    assert_eq!(strip_separator("//x"), "/x");
    assert_eq!(strip_separator("x"), "x");
}

#[test]
fn workload_from_arguments() {
    let w = prepare_workload(strings(&["/hello.wasm", "--flag"]), &strings(&["A=1"])).unwrap();
    assert_eq!(w.program, "hello.wasm");
    assert_eq!(w.args, strings(&["/hello.wasm", "--flag"]));
    assert_eq!(w.env, vec![("A".to_string(), "1".to_string())]);
    assert!(matches!(prepare_workload(Vec::new(), &Vec::new()), Err(ShimError::Execution(_))));
    assert!(get_args(None).is_empty());
    assert_eq!(get_args(Some(strings(&["x"]))), strings(&["x"]));
}

#[test]
fn root_without_options_file() {
    let r = determine_rootdir(OptionsSource::Missing, "default").unwrap();
    assert_eq!(r, "/run/containerd/youki/default");
}

#[test]
fn root_from_options_file() {
    let r = determine_rootdir(OptionsSource::Parsed(Some("/custom".to_string())), "ns").unwrap();
    assert_eq!(r, "/custom/ns");
    let r = determine_rootdir(OptionsSource::Parsed(None), "ns").unwrap();
    assert_eq!(r, "/run/containerd/youki/ns");
}

#[test]
fn root_errors() {
    let r = determine_rootdir(OptionsSource::Malformed("bad json".to_string()), "ns");
    assert_eq!(r, Err(ShimError::Config("bad json".to_string())));
    let r = determine_rootdir(OptionsSource::Unreadable("denied".to_string()), "ns");
    assert_eq!(r, Err(ShimError::Resolution("denied".to_string())));
}

#[test]
fn join_path_cases() {
    assert_eq!(join_path("/a/", "b"), "/a/b");
    assert_eq!(join_path("/a", "/b"), "/b");
    assert_eq!(join_path("", "b"), "b");
}

#[test]
fn stdio_nonexistent_stdout_left_alone() {
    let plan = plan_stdio(OpenOutcome::Opened(7), OpenOutcome::NotFound, OpenOutcome::Skipped).unwrap();
    assert_eq!(plan.stdout, None);
    assert_eq!(plan.stdin, Some(7));
    let s = swaps(&plan);
    assert_eq!(s.len(), 1);
    assert!(matches!(s[0], (7, Stream::Stdin)));
}

#[test]
fn stdio_errors_and_paths() {
    assert!(!needs_open(""));
    assert!(needs_open("/dev/null"));
    let r = maybe_open_stdio(OpenOutcome::Failed("denied".to_string()));
    assert_eq!(r, Err(ShimError::Io("denied".to_string())));
    let r = plan_stdio(
        OpenOutcome::Skipped,
        OpenOutcome::Failed("out".to_string()),
        OpenOutcome::Failed("err".to_string()),
    );
    assert!(matches!(r, Err(ShimError::Io(m)) if m == "out"));
    let plan = plan_stdio(OpenOutcome::Skipped, OpenOutcome::Opened(4), OpenOutcome::Opened(5)).unwrap();
    let s = swaps(&plan);
    assert!(matches!(s[..], [(4, Stream::Stdout), (5, Stream::Stderr)]));
}

#[test]
fn reaper_no_child_is_zero() {
    assert_eq!(exit_code(WaitOutcome::NoChild), Ok(0));
    assert_eq!(exit_code(WaitOutcome::Exited(3)), Ok(3));
    assert_eq!(exit_code(WaitOutcome::Signaled(9)), Ok(9));
    assert_eq!(exit_code(WaitOutcome::Failed(4)), Err(ShimError::Reaper(4)));
}

#[test]
fn exit_slot_written_once() {
    let mut slot = ExitSlot::new();
    assert_eq!(slot.get(), None);
    let t = Timestamp { secs: 1_700_000_000, nanos: 5 };
    assert!(slot.set_result(137, t).is_ok());
    let before = slot.get();
    assert_eq!(
        slot.set_result(1, Timestamp { secs: 2, nanos: 0 }),
        Err(ShimError::AlreadyPublished)
    );
    assert_eq!(slot.get(), before);
    assert_eq!(before, Some((137, t)));
}

#[test]
fn record_exit_publishes_code() {
    let mut slot = ExitSlot::new();
    assert_eq!(slot.record_exit(WaitOutcome::NoChild), Ok(0));
    assert!(slot.is_set());
    assert_eq!(slot.get().unwrap().0, 0);
    assert!(matches!(slot.record_exit(WaitOutcome::Exited(2)), Err(ShimError::AlreadyPublished)));
    let mut empty = ExitSlot::new();
    assert_eq!(empty.record_exit(WaitOutcome::Failed(10)), Err(ShimError::Reaper(10)));
    assert!(!empty.is_set());
}

#[test]
fn delete_never_created_succeeds() {
    let mut c = container(OptionsSource::Missing);
    assert!(matches!(c.delete_after_lookup(Ok(false)), DeleteStep::Done(Ok(()))));
    assert_eq!(c.state(), LifecycleState::Deleted);
    let mut c = container(OptionsSource::Missing);
    assert!(matches!(c.delete_after_lookup(Err(ShimError::Others("gone".to_string()))), DeleteStep::Done(Ok(()))));
}

#[test]
fn delete_swallows_teardown_errors() {
    let mut c = container(OptionsSource::Missing);
    assert!(matches!(c.delete_after_lookup(Ok(true)), DeleteStep::TearDown));
    assert_eq!(c.finish_delete(Err("broken".to_string())), Ok(()));
    assert_eq!(c.state(), LifecycleState::Deleted);
}

#[test]
fn kill_rejects_unsupported_signal_in_every_state() {
    let mut c = container(OptionsSource::Missing);
    assert!(matches!(c.kill_signal(15), Err(ShimError::InvalidArgument(_))));
    c.begin_start().unwrap();
    assert!(matches!(c.kill_signal(1), Err(ShimError::InvalidArgument(_))));
    c.finish_start(LaunchOutcome::Launched(42)).unwrap();
    assert!(matches!(c.kill_signal(15), Err(ShimError::InvalidArgument(_))));
    c.mark_exited();
    assert_eq!(c.state(), LifecycleState::Exited);
    assert!(matches!(c.kill_signal(0), Err(ShimError::InvalidArgument(_))));
    assert_eq!(c.kill_signal(9), Ok(9));
    assert_eq!(c.kill_signal(2), Ok(2));
}

#[test]
fn kill_outcomes() {
    let c = container(OptionsSource::Missing);
    assert_eq!(c.finish_kill(RecordStatus::Running, Ok(())), Ok(()));
    assert_eq!(c.finish_kill(RecordStatus::Stopped, Err("esrch".to_string())), Err(ShimError::NotRunning));
    assert_eq!(
        c.finish_kill(RecordStatus::Running, Err("eperm".to_string())),
        Err(ShimError::Others("eperm".to_string()))
    );
    assert_eq!(c.kill_load_failed("x".to_string()), ShimError::NotFound("x".to_string()));
}

#[test]
fn start_outcomes() {
    let mut c = container(OptionsSource::Parsed(Some("/custom".to_string())));
    assert_eq!(c.rootdir, "/custom/k8s.io");
    assert_eq!(c.state(), LifecycleState::Created);
    c.begin_start().unwrap();
    assert_eq!(c.state(), LifecycleState::Starting);
    assert_eq!(c.finish_start(LaunchOutcome::LaunchFailed("boom".to_string())), Err(ShimError::Start("boom".to_string())));
    assert_eq!(c.state(), LifecycleState::Created);
    c.begin_start().unwrap();
    assert!(matches!(c.begin_start(), Err(ShimError::InvalidArgument(_))));
    assert_eq!(c.finish_start(LaunchOutcome::RootDirFailed("ro".to_string())), Err(ShimError::Io("ro".to_string())));
    c.begin_start().unwrap();
    assert_eq!(c.finish_start(LaunchOutcome::Launched(77)), Ok(77));
    assert_eq!(c.state(), LifecycleState::Running);
    let bad = MyContainer::new(
        "c2".to_string(),
        "/b".to_string(),
        "ns",
        String::new(),
        String::new(),
        String::new(),
        OptionsSource::Malformed("x".to_string()),
    );
    assert!(matches!(bad, Err(ShimError::Config(_))));
}

#[test]
fn record_lookup() {
    assert_eq!(construct_container_root("/run/x", "c1"), "/run/x/c1");
    assert_eq!(container_exists(RecordProbe::Probed(false)), Ok(false));
    assert_eq!(container_exists(RecordProbe::Probed(true)), Ok(true));
    assert_eq!(
        container_exists(RecordProbe::RootFailed("enoent".to_string())),
        Err(ShimError::Others("enoent".to_string()))
    );
    assert_eq!(load_container(RecordProbe::Probed(true), "c1"), Ok(()));
    assert_eq!(
        load_container(RecordProbe::Probed(false), "c1"),
        Err(ShimError::NotFound("container c1 does not exist.".to_string()))
    );
    let mut c = container(OptionsSource::Missing);
    let exists = container_exists(RecordProbe::Probed(false));
    assert!(matches!(c.delete_after_lookup(exists), DeleteStep::Done(Ok(()))));
}
