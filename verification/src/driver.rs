//! The execution driver: one invocation as a linear run of stages. The host
//! performs the action that the current stage asks for and reports how it
//! went; what happens next is decided here.

use crate::error::ErrorKind;
use crate::lifecycle::{LifecycleError, Platform};
use crate::sandbox::{build, built, CapabilityDescriptor, CapabilityOverrides, DescriptorView};
use crate::specifier::{
    entry_resolution, parsed_url, resolve_entry, specifier_of, ModuleSpecifier, ResolutionError,
};
use vstd::prelude::*;

verus! {

/// The name under which a module exports its entry function.
pub const ENTRY_POINT: &'static str = "main";

/// How far an invocation has come. A stage names what was completed last.
#[derive(Clone, Copy, Debug, PartialEq, Eq, Structural)]
pub enum Stage {
    /// The function reference is resolved to the specifier of the entry module.
    EntryResolved,
    /// A guest runtime exists, bound to the loader and to the capabilities.
    RuntimeBootstrapped,
    /// The module graph is built; no top-level code has run.
    ModulePreloaded,
    /// The top-level code has run.
    ModuleEvaluated,
    /// The top-level code has run and failed. The failure is on record and
    /// ends the invocation once the event loop has been drained.
    EvaluationFaulted,
    /// The event loop has run to quiescence.
    EventLoopDrained,
    /// The entry function was found under its name and can be called.
    EntryLocated,
    /// The input value has its guest representation.
    InputMarshalled,
    /// The entry function has returned.
    FunctionInvoked,
    /// The returned value has settled.
    ResultAwaited,
    /// The output value is in structured data: the invocation has succeeded.
    OutputMarshalled,
    /// The invocation has failed, for good.
    Failed(ErrorKind),
}

/// What the host is to do next.
#[derive(Clone, Copy, Debug, PartialEq, Eq, Structural)]
pub enum Action {
    /// Create the guest runtime for the entry module and the capabilities.
    Bootstrap,
    /// Build the module graph of the entry module, without running it.
    Preload,
    /// Run the top-level code of the entry module.
    Evaluate,
    /// Run the event loop until nothing is pending.
    Drain,
    /// Look the entry function up in the module's exports, under `ENTRY_POINT`.
    LocateEntry,
    /// Convert the input value to its guest representation.
    MarshalInput,
    /// Call the entry function with the input as its only argument.
    Invoke,
    /// Wait for the returned value to settle.
    Await,
    /// Convert the settled value to structured data.
    MarshalOutput,
    /// Hand the output value to the caller.
    ReturnOutput,
    /// Tell the caller that the invocation failed, and at which kind of fault.
    ReportFailure(ErrorKind),
}

/// How the action that was asked for went.
#[derive(Clone, Copy, Debug, PartialEq, Eq, Structural)]
pub enum Report {
    /// It was done.
    Done,
    /// It failed.
    Failed,
    /// It failed in the module loader, with an error of this kind.
    LoaderFailed(ErrorKind),
    /// The event loop came to rest and the awaited value had not settled.
    Unsettled,
}

/// The kind under which a failure of the module loader is reported: its own
/// kind where it is one of the loader's, a load failure otherwise.
pub open spec fn loader_kind(kind: ErrorKind) -> ErrorKind {
    match kind {
        ErrorKind::Resolution => ErrorKind::Resolution,
        ErrorKind::Compile => ErrorKind::Compile,
        ErrorKind::ModuleKindMismatch => ErrorKind::ModuleKindMismatch,
        _ => ErrorKind::Load,
    }
}

impl Stage {
    /// No action follows: the invocation has succeeded or failed.
    pub open spec fn is_terminal(self) -> bool {
        self is OutputMarshalled || self is Failed
    }

    /// The place of the stage in the run. It only ever grows.
    pub open spec fn rank(self) -> nat {
        match self {
            Stage::EntryResolved => 1,
            Stage::RuntimeBootstrapped => 2,
            Stage::ModulePreloaded => 3,
            Stage::ModuleEvaluated => 4,
            Stage::EvaluationFaulted => 4,
            Stage::EventLoopDrained => 5,
            Stage::EntryLocated => 6,
            Stage::InputMarshalled => 7,
            Stage::FunctionInvoked => 8,
            Stage::ResultAwaited => 9,
            Stage::OutputMarshalled => 10,
            Stage::Failed(_) => 11,
        }
    }

    /// What the host is to do at this stage.
    pub open spec fn action(self) -> Action {
        match self {
            Stage::EntryResolved => Action::Bootstrap,
            Stage::RuntimeBootstrapped => Action::Preload,
            Stage::ModulePreloaded => Action::Evaluate,
            Stage::ModuleEvaluated => Action::Drain,
            Stage::EvaluationFaulted => Action::Drain,
            Stage::EventLoopDrained => Action::LocateEntry,
            Stage::EntryLocated => Action::MarshalInput,
            Stage::InputMarshalled => Action::Invoke,
            Stage::FunctionInvoked => Action::Await,
            Stage::ResultAwaited => Action::MarshalOutput,
            Stage::OutputMarshalled => Action::ReturnOutput,
            Stage::Failed(kind) => Action::ReportFailure(kind),
        }
    }

    /// The kind of fault that a failed action of this stage is. Only the
    /// preload passes on what the report says; elsewhere the stage decides.
    pub open spec fn fault(self, report: Report) -> ErrorKind {
        match self {
            Stage::RuntimeBootstrapped => match report {
                Report::LoaderFailed(kind) => loader_kind(kind),
                _ => ErrorKind::Load,
            },
            Stage::EventLoopDrained => ErrorKind::Entrypoint,
            Stage::EntryLocated => ErrorKind::Marshal,
            Stage::ResultAwaited => ErrorKind::Unmarshal,
            _ => ErrorKind::Runtime,
        }
    }

    /// The stage that is reached when the action went well.
    pub open spec fn advanced(self) -> Stage {
        match self {
            Stage::EntryResolved => Stage::RuntimeBootstrapped,
            Stage::RuntimeBootstrapped => Stage::ModulePreloaded,
            Stage::ModulePreloaded => Stage::ModuleEvaluated,
            Stage::ModuleEvaluated => Stage::EventLoopDrained,
            Stage::EvaluationFaulted => Stage::Failed(ErrorKind::Runtime),
            Stage::EventLoopDrained => Stage::EntryLocated,
            Stage::EntryLocated => Stage::InputMarshalled,
            Stage::InputMarshalled => Stage::FunctionInvoked,
            Stage::FunctionInvoked => Stage::ResultAwaited,
            Stage::ResultAwaited => Stage::OutputMarshalled,
            Stage::OutputMarshalled => Stage::OutputMarshalled,
            Stage::Failed(kind) => Stage::Failed(kind),
        }
    }

    /// The stage that follows on a report. A terminal stage stays. A failed
    /// action ends the invocation, with one delay: a failed evaluation is put
    /// on record, and ends the invocation after the drain that follows it.
    pub open spec fn next(self, report: Report) -> Stage {
        if self.is_terminal() || report is Done {
            self.advanced()
        } else if self is ModulePreloaded {
            Stage::EvaluationFaulted
        } else {
            Stage::Failed(self.fault(report))
        }
    }
}

impl Stage {
    /// Whether the invocation is over.
    pub fn terminal(self) -> (over: bool)
        ensures
            over == self.is_terminal(),
    {
        match self {
            Stage::OutputMarshalled | Stage::Failed(_) => true,
            _ => false,
        }
    }

    /// The action of this stage.
    pub fn pending_action(self) -> (action: Action)
        ensures
            action == self.action(),
    {
        match self {
            Stage::EntryResolved => Action::Bootstrap,
            Stage::RuntimeBootstrapped => Action::Preload,
            Stage::ModulePreloaded => Action::Evaluate,
            Stage::ModuleEvaluated | Stage::EvaluationFaulted => Action::Drain,
            Stage::EventLoopDrained => Action::LocateEntry,
            Stage::EntryLocated => Action::MarshalInput,
            Stage::InputMarshalled => Action::Invoke,
            Stage::FunctionInvoked => Action::Await,
            Stage::ResultAwaited => Action::MarshalOutput,
            Stage::OutputMarshalled => Action::ReturnOutput,
            Stage::Failed(kind) => Action::ReportFailure(kind),
        }
    }

    /// The stage that follows on a report.
    pub fn step(self, report: Report) -> (next: Stage)
        ensures
            next == self.next(report),
    {
        let done = match report {
            Report::Done => true,
            _ => false,
        };
        match self {
            Stage::OutputMarshalled => Stage::OutputMarshalled,
            Stage::Failed(kind) => Stage::Failed(kind),
            Stage::EntryResolved => if done {
                Stage::RuntimeBootstrapped
            } else {
                Stage::Failed(ErrorKind::Runtime)
            },
            Stage::RuntimeBootstrapped => match report {
                Report::Done => Stage::ModulePreloaded,
                Report::LoaderFailed(ErrorKind::Resolution) => Stage::Failed(ErrorKind::Resolution),
                Report::LoaderFailed(ErrorKind::Compile) => Stage::Failed(ErrorKind::Compile),
                Report::LoaderFailed(ErrorKind::ModuleKindMismatch) => Stage::Failed(
                    ErrorKind::ModuleKindMismatch,
                ),
                _ => Stage::Failed(ErrorKind::Load),
            },
            Stage::ModulePreloaded => if done {
                Stage::ModuleEvaluated
            } else {
                Stage::EvaluationFaulted
            },
            Stage::ModuleEvaluated => if done {
                Stage::EventLoopDrained
            } else {
                Stage::Failed(ErrorKind::Runtime)
            },
            Stage::EvaluationFaulted => Stage::Failed(ErrorKind::Runtime),
            Stage::EventLoopDrained => if done {
                Stage::EntryLocated
            } else {
                Stage::Failed(ErrorKind::Entrypoint)
            },
            Stage::EntryLocated => if done {
                Stage::InputMarshalled
            } else {
                Stage::Failed(ErrorKind::Marshal)
            },
            Stage::InputMarshalled => if done {
                Stage::FunctionInvoked
            } else {
                Stage::Failed(ErrorKind::Runtime)
            },
            Stage::FunctionInvoked => if done {
                Stage::ResultAwaited
            } else {
                Stage::Failed(ErrorKind::Runtime)
            },
            Stage::ResultAwaited => if done {
                Stage::OutputMarshalled
            } else {
                Stage::Failed(ErrorKind::Unmarshal)
            },
        }
    }
}

/// One invocation: its stage, the entry module, and the capabilities of its
/// guest runtime. It owns all three from its start to its end.
#[derive(Debug)]
pub struct Invocation {
    stage: Stage,
    main_module: Option<ModuleSpecifier>,
    capabilities: CapabilityDescriptor,
}

/// An invocation, as contracts speak of it.
pub struct InvocationView {
    pub stage: Stage,
    pub main_module: Option<Seq<char>>,
    pub capabilities: DescriptorView,
}

impl View for Invocation {
    type V = InvocationView;

    closed spec fn view(&self) -> InvocationView {
        InvocationView {
            stage: self.stage,
            main_module: match self.main_module {
                Some(specifier) => Some(specifier@),
                None => None,
            },
            capabilities: self.capabilities@,
        }
    }
}

/// The invocation that begins with the given resolution of its entry.
pub open spec fn begun(
    entry: Result<Seq<char>, ResolutionError>,
    capabilities: DescriptorView,
) -> InvocationView {
    match entry {
        Ok(specifier) => InvocationView {
            stage: Stage::EntryResolved,
            main_module: Some(specifier),
            capabilities,
        },
        Err(_) => InvocationView {
            stage: Stage::Failed(ErrorKind::Resolution),
            main_module: None,
            capabilities,
        },
    }
}

impl Invocation {
    #[verifier::type_invariant]
    spec fn entry_known(self) -> bool {
        self.main_module is None ==> self.stage == Stage::Failed(ErrorKind::Resolution)
    }

    /// Begins an invocation with the entry that resolution gave and the
    /// capabilities that the overrides stand for.
    pub fn begin(entry: Result<ModuleSpecifier, ResolutionError>, overrides: CapabilityOverrides) -> (
        invocation: Invocation
    )
        ensures
            invocation@ == begun(specifier_of(entry), built(overrides@)),
    {
        let capabilities = build(overrides);
        match entry {
            Ok(specifier) => Invocation {
                stage: Stage::EntryResolved,
                main_module: Some(specifier),
                capabilities,
            },
            Err(_) => Invocation {
                stage: Stage::Failed(ErrorKind::Resolution),
                main_module: None,
                capabilities,
            },
        }
    }

    /// The current stage.
    pub fn stage(&self) -> (stage: Stage)
        ensures
            stage == self@.stage,
    {
        self.stage
    }

    /// What the host is to do now.
    pub fn action(&self) -> (action: Action)
        ensures
            action == self@.stage.action(),
    {
        self.stage.pending_action()
    }

    /// The entry module; there is none only where the reference did not resolve.
    pub fn main_module(&self) -> (specifier: Option<&ModuleSpecifier>)
        ensures
            match specifier {
                Some(found) => self@.main_module == Some(found@),
                None => self@.main_module is None && self@.stage == Stage::Failed(
                    ErrorKind::Resolution,
                ),
            },
    {
        proof {
            use_type_invariant(self);
        }
        match &self.main_module {
            Some(specifier) => Some(specifier),
            None => None,
        }
    }

    /// The capabilities under which the guest runtime runs.
    pub fn capabilities(&self) -> (capabilities: &CapabilityDescriptor)
        ensures
            capabilities@ == self@.capabilities,
    {
        &self.capabilities
    }

    /// How the invocation ended, if it has: `Ok` after the output was
    /// marshalled, the kind of fault after a failure.
    pub fn outcome(&self) -> (outcome: Option<Result<(), ErrorKind>>)
        ensures
            outcome == match self@.stage {
                Stage::OutputMarshalled => Some(Ok::<(), ErrorKind>(())),
                Stage::Failed(kind) => Some(Err::<(), ErrorKind>(kind)),
                _ => None,
            },
    {
        match self.stage {
            Stage::OutputMarshalled => Some(Ok(())),
            Stage::Failed(kind) => Some(Err(kind)),
            _ => None,
        }
    }

    /// Takes the host's report on the action that was asked for, moves to
    /// the stage that follows, and says what to do next. The entry module
    /// and the capabilities stay as they are.
    pub fn advance(&mut self, report: Report) -> (action: Action)
        ensures
            final(self)@.stage == old(self)@.stage.next(report),
            final(self)@.main_module == old(self)@.main_module,
            final(self)@.capabilities == old(self)@.capabilities,
            action == final(self)@.stage.action(),
    {
        proof {
            use_type_invariant(&*self);
        }
        self.stage = self.stage.step(report);
        self.stage.pending_action()
    }
}

/// Begins the invocation of a function that nobody has vetted for security:
/// the reference is resolved against the working directory, and the guest
/// runtime gets everything but the network and the high-resolution timer.
/// Nothing begins unless the platform is set up.
pub fn run_insecure(platform: &Platform, function: &str, working_directory: &str) -> (started:
    Result<Invocation, LifecycleError>)
    ensures
        match started {
            Ok(invocation) => platform@.readiness() is Ok && exists|local: Option<Seq<char>>|
                invocation@ == begun(
                    #[trigger] entry_resolution(parsed_url(function@), local),
                    built(CapabilityOverrides::insecure_view()),
                ),
            Err(error) => platform@.readiness() == Err::<(), LifecycleError>(error),
        },
{
    match platform.check_ready() {
        Err(error) => Err(error),
        Ok(()) => {
            let entry = resolve_entry(function, working_directory);
            Ok(Invocation::begin(entry, CapabilityOverrides::insecure()))
        },
    }
}

/// The stage that a run of reports leads to.
pub open spec fn after_reports(stage: Stage, reports: Seq<Report>) -> Stage
    decreases reports.len(),
{
    if reports.len() == 0 {
        stage
    } else {
        after_reports(stage.next(reports[0]), reports.drop_first())
    }
}

/// The number of actions that lie between a stage and success.
pub open spec fn actions_left(stage: Stage) -> nat {
    (10 - stage.rank()) as nat
}

/// The first `count` reports all say `Done`.
pub open spec fn all_done(reports: Seq<Report>, count: nat) -> bool {
    count <= reports.len() && forall|i: int| 0 <= i < count ==> #[trigger] reports[i] is Done
}

/// There is no way back: a report moves an invocation that is not over to a
/// stage of higher rank, and leaves one that is over where it is.
pub proof fn lemma_no_backward_transition(stage: Stage, report: Report)
    ensures
        !stage.is_terminal() ==> stage.rank() < stage.next(report).rank(),
        stage.is_terminal() ==> stage.next(report) == stage,
{
}

/// Every stage is terminal on failure: an action that did not go well ends
/// the invocation at once, with the fault of its stage. The evaluation is
/// the one stage whose failure waits for the drain, and then ends the
/// invocation whatever the drain reports.
pub proof fn lemma_failure_is_terminal(stage: Stage, report: Report, drain: Report)
    requires
        !stage.is_terminal(),
        !(report is Done),
    ensures
        !(stage is ModulePreloaded) ==> stage.next(report) == Stage::Failed(stage.fault(report)),
        stage is ModulePreloaded ==> stage.next(report).action() == Action::Drain
            && stage.next(report).next(drain) == Stage::Failed(ErrorKind::Runtime),
{
}

/// A stage that is over stays as it is, whatever is reported.
pub proof fn lemma_terminal_stays(stage: Stage, reports: Seq<Report>)
    requires
        stage.is_terminal(),
    ensures
        after_reports(stage, reports) == stage,
    decreases reports.len(),
{
    if reports.len() > 0 {
        lemma_terminal_stays(stage, reports.drop_first());
    }
}

/// No partial result: an invocation succeeds exactly when each of the
/// actions that are left at its stage was reported as done, in their order.
pub proof fn lemma_success_needs_every_stage(stage: Stage, reports: Seq<Report>)
    requires
        !stage.is_terminal(),
    ensures
        after_reports(stage, reports) == Stage::OutputMarshalled <==> !(stage
            is EvaluationFaulted) && all_done(reports, actions_left(stage)),
    decreases reports.len(),
{
    if reports.len() > 0 {
        let next = stage.next(reports[0]);
        let rest = reports.drop_first();
        assert forall|i: int| 0 <= i < rest.len() implies #[trigger] rest[i] == reports[i + 1] by {}
        if next.is_terminal() {
            lemma_terminal_stays(next, rest);
            if all_done(reports, actions_left(stage)) {
                assert(reports[0] is Done);
            }
        } else {
            lemma_success_needs_every_stage(next, rest);
            if next is EvaluationFaulted {
                if all_done(reports, actions_left(stage)) {
                    assert(reports[0] is Done);
                }
            } else {
                assert(reports[0] is Done);
                if all_done(rest, actions_left(next)) {
                    assert forall|i: int| 0 <= i < actions_left(stage) implies #[trigger] reports[i]
                        is Done by {
                        if i > 0 {
                            assert(rest[i - 1] is Done);
                        }
                    }
                }
                if all_done(reports, actions_left(stage)) {
                    assert forall|i: int| 0 <= i < actions_left(next) implies #[trigger] rest[i]
                        is Done by {
                        assert(reports[i + 1] is Done);
                    }
                }
            }
        }
    }
}

/// A value that never settles is a failure of the run, not a wait without
/// end: when the event loop has come to rest and the awaited value is still
/// pending, the invocation fails as a runtime fault.
pub proof fn lemma_unsettled_value_fails()
    ensures
        Stage::FunctionInvoked.next(Report::Unsettled) == Stage::Failed(ErrorKind::Runtime),
{
}

/// A preload that fails in the module loader fails under the loader's kind,
/// and never as a runtime fault.
pub proof fn lemma_loader_fault_is_kept(kind: ErrorKind)
    ensures
        Stage::RuntimeBootstrapped.next(Report::LoaderFailed(kind)) == Stage::Failed(
            loader_kind(kind),
        ),
        loader_kind(kind) != ErrorKind::Runtime,
        kind == ErrorKind::Load ==> loader_kind(kind) == ErrorKind::Load,
{
}

} // verus!
