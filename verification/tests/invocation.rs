use function_executor::driver::{run_insecure, Action, Invocation, Report, Stage, ENTRY_POINT};
use function_executor::error::ErrorKind;
use function_executor::lifecycle::{deinit, init, LifecycleError, Phase, Platform};
use function_executor::loader::{FetchOutcome, NetworkModuleLoader, RequestedModuleKind};
use function_executor::sandbox::{build, Access, CapabilityOverrides};
use function_executor::specifier::{ModuleSpecifier, ResolutionError};

fn ready() -> Platform {
    let mut platform = Platform::new();
    init(&mut platform).unwrap();
    platform
}

fn started(function: &str) -> Invocation {
    run_insecure(&ready(), function, "/srv/functions").unwrap()
}

#[test]
fn entry_point_is_main() {
    assert_eq!(ENTRY_POINT, "main");
}

#[test]
fn scenario_entry_returns_ok() {
    let mut invocation = started("./returns_ok.js");
    assert_eq!(invocation.stage(), Stage::EntryResolved);
    assert_eq!(invocation.main_module().unwrap().as_str(), "file:///srv/functions/returns_ok.js");
    assert_eq!(invocation.action(), Action::Bootstrap);
    assert_eq!(invocation.outcome(), None);
    let expected = [
        (Action::Preload, Stage::RuntimeBootstrapped),
        (Action::Evaluate, Stage::ModulePreloaded),
        (Action::Drain, Stage::ModuleEvaluated),
        (Action::LocateEntry, Stage::EventLoopDrained),
        (Action::MarshalInput, Stage::EntryLocated),
        (Action::Invoke, Stage::InputMarshalled),
        (Action::Await, Stage::FunctionInvoked),
        (Action::MarshalOutput, Stage::ResultAwaited),
        (Action::ReturnOutput, Stage::OutputMarshalled),
    ];
    for (action, stage) in expected {
        assert_eq!(invocation.advance(Report::Done), action);
        assert_eq!(invocation.stage(), stage);
        assert_eq!(invocation.action(), action);
    }
    assert_eq!(invocation.outcome(), Some(Ok(())));
    assert!(invocation.stage().terminal());
    assert_eq!(invocation.advance(Report::Failed), Action::ReturnOutput);
    assert_eq!(invocation.outcome(), Some(Ok(())));
}

fn advance_by(invocation: &mut Invocation, done: usize) {
    for _ in 0..done {
        invocation.advance(Report::Done);
    }
}

#[test]
fn scenario_entry_export_is_missing() {
    let mut invocation = started("./no_main.js");
    advance_by(&mut invocation, 4);
    assert_eq!(invocation.action(), Action::LocateEntry);
    assert_eq!(invocation.advance(Report::Failed), Action::ReportFailure(ErrorKind::Entrypoint));
    assert_eq!(invocation.outcome(), Some(Err(ErrorKind::Entrypoint)));
    assert_eq!(invocation.advance(Report::Done), Action::ReportFailure(ErrorKind::Entrypoint));
}

#[test]
fn scenario_remote_module_is_gone() {
    let mut invocation = started("https://h.example/gone.js");
    let entry = invocation.main_module().unwrap().clone();
    assert_eq!(entry.as_str(), "https://h.example/gone.js");
    assert_eq!(invocation.advance(Report::Done), Action::Preload);
    let loader = NetworkModuleLoader;
    let plan = loader.plan(&entry).unwrap();
    let refused = loader
        .load(
            plan,
            RequestedModuleKind::Unconstrained,
            FetchOutcome::Response { status: 404, final_url: entry, body: Vec::new() },
        )
        .unwrap_err();
    let action = invocation.advance(Report::LoaderFailed(refused.kind()));
    assert_eq!(action, Action::ReportFailure(ErrorKind::Load));
    assert_eq!(invocation.outcome(), Some(Err(ErrorKind::Load)));
    assert_ne!(invocation.outcome(), Some(Err(ErrorKind::Runtime)));
}

#[test]
fn scenario_returned_value_never_settles() {
    let mut invocation = started("./hangs.js");
    advance_by(&mut invocation, 7);
    assert_eq!(invocation.action(), Action::Await);
    assert_eq!(invocation.advance(Report::Unsettled), Action::ReportFailure(ErrorKind::Runtime));
    assert_eq!(invocation.outcome(), Some(Err(ErrorKind::Runtime)));
    assert!(invocation.stage().terminal());
}

#[test]
fn rejected_value_is_a_runtime_error() {
    let mut invocation = started("./rejects.js");
    advance_by(&mut invocation, 7);
    assert_eq!(invocation.advance(Report::Failed), Action::ReportFailure(ErrorKind::Runtime));
}

#[test]
fn every_stage_fails_with_its_own_kind() {
    let kinds = [
        ErrorKind::Runtime,
        ErrorKind::Load,
        ErrorKind::Runtime,
        ErrorKind::Runtime,
        ErrorKind::Entrypoint,
        ErrorKind::Marshal,
        ErrorKind::Runtime,
        ErrorKind::Runtime,
        ErrorKind::Unmarshal,
    ];
    for (done, kind) in kinds.iter().enumerate() {
        let mut invocation = started("./f.js");
        advance_by(&mut invocation, done);
        let action = invocation.advance(Report::Failed);
        if done == 2 {
            assert_eq!(action, Action::Drain);
            assert_eq!(invocation.stage(), Stage::EvaluationFaulted);
            assert_eq!(invocation.outcome(), None);
            assert_eq!(invocation.advance(Report::Done), Action::ReportFailure(ErrorKind::Runtime));
        } else {
            assert_eq!(action, Action::ReportFailure(*kind), "after {} stages", done);
        }
        assert_eq!(invocation.outcome(), Some(Err(*kind)));
    }
}

#[test]
fn failed_evaluation_fails_after_the_drain_whatever_it_reports() {
    for drain in [Report::Done, Report::Failed, Report::Unsettled, Report::LoaderFailed(ErrorKind::Load)] {
        let mut invocation = started("./throws.js");
        advance_by(&mut invocation, 2);
        assert_eq!(invocation.advance(Report::Failed), Action::Drain);
        assert_eq!(invocation.advance(drain), Action::ReportFailure(ErrorKind::Runtime));
    }
}

#[test]
fn loader_failures_keep_their_kind() {
    let cases = [
        (ErrorKind::Resolution, ErrorKind::Resolution),
        (ErrorKind::Load, ErrorKind::Load),
        (ErrorKind::Compile, ErrorKind::Compile),
        (ErrorKind::ModuleKindMismatch, ErrorKind::ModuleKindMismatch),
        (ErrorKind::Entrypoint, ErrorKind::Load),
        (ErrorKind::Marshal, ErrorKind::Load),
        (ErrorKind::Unmarshal, ErrorKind::Load),
        (ErrorKind::Runtime, ErrorKind::Load),
    ];
    for (reported, kept) in cases {
        assert_eq!(
            Stage::RuntimeBootstrapped.step(Report::LoaderFailed(reported)),
            Stage::Failed(kept)
        );
    }
    assert_eq!(Stage::EventLoopDrained.step(Report::LoaderFailed(ErrorKind::Load)), Stage::Failed(ErrorKind::Entrypoint));
    assert_eq!(Stage::RuntimeBootstrapped.step(Report::Unsettled), Stage::Failed(ErrorKind::Load));
}

#[test]
fn unresolved_entry_fails_at_once() {
    let mut invocation = run_insecure(&ready(), "./f.js", "not/absolute").unwrap();
    assert_eq!(invocation.stage(), Stage::Failed(ErrorKind::Resolution));
    assert_eq!(invocation.action(), Action::ReportFailure(ErrorKind::Resolution));
    assert_eq!(invocation.main_module(), None);
    assert_eq!(invocation.outcome(), Some(Err(ErrorKind::Resolution)));
    assert_eq!(invocation.advance(Report::Done), Action::ReportFailure(ErrorKind::Resolution));
    let odd_name = run_insecure(&ready(), "https://exa mple/f.js", "/srv/functions").unwrap();
    assert_eq!(
        odd_name.main_module().unwrap().as_str(),
        "file:///srv/functions/https:/exa%20mple/f.js"
    );
}

#[test]
fn begin_takes_entry_and_overrides() {
    let entry = ModuleSpecifier::parse("file:///srv/f.js");
    let invocation = Invocation::begin(entry, CapabilityOverrides::none());
    assert_eq!(invocation.stage(), Stage::EntryResolved);
    assert_eq!(invocation.capabilities(), &build(CapabilityOverrides::none()));
    let failed = Invocation::begin(Err(ResolutionError::InvalidUrl), CapabilityOverrides::none());
    assert_eq!(failed.stage(), Stage::Failed(ErrorKind::Resolution));
}

#[test]
fn insecure_run_reaches_everything_but_the_network_and_the_timer() {
    let invocation = started("./f.js");
    let capabilities = invocation.capabilities();
    assert_eq!(capabilities.network, Access::Listed(Vec::new()));
    assert!(!capabilities.network.permits("example.com"));
    assert_eq!(capabilities.file_system, Access::Unrestricted);
    assert!(capabilities.file_system.permits("/etc/passwd"));
    assert_eq!(capabilities.environment, Access::Unrestricted);
    assert_eq!(capabilities.process, Access::Unrestricted);
    assert_eq!(capabilities.system_information, Access::Unrestricted);
    assert_eq!(capabilities.foreign_functions, Access::Unrestricted);
    assert!(!capabilities.high_resolution_time);
    assert!(!capabilities.prompt);
}

#[test]
fn nothing_runs_before_init_or_after_deinit() {
    let mut platform = Platform::new();
    assert_eq!(platform.phase(), Phase::Uninitialized);
    assert_eq!(platform.check_ready(), Err(LifecycleError::NotInitialized));
    assert_eq!(
        run_insecure(&platform, "./f.js", "/srv").map(|i| i.stage()),
        Err(LifecycleError::NotInitialized)
    );
    assert_eq!(init(&mut platform), Ok(()));
    assert_eq!(platform.phase(), Phase::Ready);
    assert_eq!(platform.check_ready(), Ok(()));
    assert!(run_insecure(&platform, "./f.js", "/srv").is_ok());
    assert_eq!(deinit(&mut platform), Ok(()));
    assert_eq!(platform.phase(), Phase::Disposed);
    assert_eq!(
        run_insecure(&platform, "./f.js", "/srv").map(|i| i.stage()),
        Err(LifecycleError::Disposed)
    );
}

#[test]
fn init_and_deinit_are_accepted_once() {
    let mut platform = Platform::new();
    assert_eq!(deinit(&mut platform), Err(LifecycleError::NotInitialized));
    assert_eq!(platform.phase(), Phase::Uninitialized);
    assert_eq!(init(&mut platform), Ok(()));
    assert_eq!(init(&mut platform), Err(LifecycleError::AlreadyInitialized));
    assert_eq!(platform.phase(), Phase::Ready);
    assert_eq!(deinit(&mut platform), Ok(()));
    assert_eq!(deinit(&mut platform), Err(LifecycleError::Disposed));
    assert_eq!(init(&mut platform), Err(LifecycleError::Disposed));
    assert_eq!(platform.phase(), Phase::Disposed);
}

#[test]
fn build_denies_what_is_not_asked_for() {
    let descriptor = build(CapabilityOverrides::none());
    assert_eq!(descriptor.network, Access::Denied);
    assert_eq!(descriptor.file_system, Access::Denied);
    assert_eq!(descriptor.environment, Access::Denied);
    assert_eq!(descriptor.process, Access::Denied);
    assert_eq!(descriptor.system_information, Access::Denied);
    assert_eq!(descriptor.foreign_functions, Access::Denied);
    assert!(!descriptor.high_resolution_time);
    assert!(!descriptor.prompt);
    assert!(!descriptor.file_system.permits("/tmp"));
}

#[test]
fn build_takes_each_override_for_its_class_alone() {
    let mut overrides = CapabilityOverrides::none();
    overrides.network = Some(Access::Listed(vec!["api.example".to_string(), "cdn.example".to_string()]));
    overrides.high_resolution_time = Some(true);
    let descriptor = build(overrides);
    assert!(descriptor.network.permits("api.example"));
    assert!(descriptor.network.permits("cdn.example"));
    assert!(!descriptor.network.permits("evil.example"));
    assert!(!descriptor.network.permits(""));
    assert_eq!(descriptor.file_system, Access::Denied);
    assert_eq!(descriptor.environment, Access::Denied);
    assert_eq!(descriptor.process, Access::Denied);
    assert!(descriptor.high_resolution_time);
    assert!(!descriptor.prompt);

    let mut blanket = CapabilityOverrides::insecure();
    blanket.file_system = Some(Access::Denied);
    blanket.foreign_functions = Some(Access::Listed(vec!["/usr/lib/libz.so".to_string()]));
    blanket.high_resolution_time = Some(false);
    let narrowed = build(blanket);
    assert_eq!(narrowed.file_system, Access::Denied);
    assert!(narrowed.foreign_functions.permits("/usr/lib/libz.so"));
    assert!(!narrowed.foreign_functions.permits("/usr/lib/libc.so"));
    assert_eq!(narrowed.system_information, Access::Unrestricted);
    assert_eq!(narrowed.environment, Access::Unrestricted);
    assert_eq!(narrowed.network, Access::Listed(Vec::new()));
    assert!(!narrowed.high_resolution_time);
}

#[test]
fn allow_list_encodes_a_decision_for_the_runtime() {
    assert_eq!(Access::Denied.allow_list(), None);
    assert_eq!(Access::Listed(Vec::new()).allow_list(), None);
    assert_eq!(
        Access::Listed(vec!["a.example".to_string(), "b.example".to_string()]).allow_list(),
        Some(vec!["a.example".to_string(), "b.example".to_string()])
    );
    assert_eq!(Access::Unrestricted.allow_list(), Some(Vec::new()));
    assert_eq!(build(CapabilityOverrides::insecure()).network.allow_list(), None);
}
