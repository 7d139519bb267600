//! The process lifecycle: the execution platform is set up once before the
//! first invocation and torn down once after the last.

use vstd::prelude::*;

verus! {

/// Where the process-wide execution platform stands.
#[derive(Clone, Copy, Debug, PartialEq, Eq, Structural)]
pub enum Phase {
    /// Not set up yet.
    Uninitialized,
    /// Set up: invocations may run.
    Ready,
    /// Torn down, for good.
    Disposed,
}

/// Why a lifecycle operation was refused.
#[derive(Clone, Copy, Debug, PartialEq, Eq, Structural)]
pub enum LifecycleError {
    /// The platform is set up already.
    AlreadyInitialized,
    /// The platform has not been set up.
    NotInitialized,
    /// The platform has been torn down.
    Disposed,
}

impl Phase {
    /// How far the platform has come: a phase is never left for an earlier one.
    pub open spec fn rank(self) -> nat {
        match self {
            Phase::Uninitialized => 0,
            Phase::Ready => 1,
            Phase::Disposed => 2,
        }
    }

    /// The phase after `init`, and whether `init` was accepted.
    pub open spec fn after_init(self) -> Result<Phase, LifecycleError> {
        match self {
            Phase::Uninitialized => Ok(Phase::Ready),
            Phase::Ready => Err(LifecycleError::AlreadyInitialized),
            Phase::Disposed => Err(LifecycleError::Disposed),
        }
    }

    /// The phase after `deinit`, and whether `deinit` was accepted.
    pub open spec fn after_deinit(self) -> Result<Phase, LifecycleError> {
        match self {
            Phase::Uninitialized => Err(LifecycleError::NotInitialized),
            Phase::Ready => Ok(Phase::Disposed),
            Phase::Disposed => Err(LifecycleError::Disposed),
        }
    }

    /// Whether an invocation may run, and why not.
    pub open spec fn readiness(self) -> Result<(), LifecycleError> {
        match self {
            Phase::Uninitialized => Err(LifecycleError::NotInitialized),
            Phase::Ready => Ok(()),
            Phase::Disposed => Err(LifecycleError::Disposed),
        }
    }
}

/// The flag that guards the process-wide execution platform.
#[derive(Debug)]
pub struct Platform {
    phase: Phase,
}

impl View for Platform {
    type V = Phase;

    closed spec fn view(&self) -> Phase {
        self.phase
    }
}

impl Platform {
    /// The flag of a process in which nothing has been set up.
    pub fn new() -> (platform: Platform)
        ensures
            platform@ == Phase::Uninitialized,
    {
        Platform { phase: Phase::Uninitialized }
    }

    /// The current phase.
    pub fn phase(&self) -> (phase: Phase)
        ensures
            phase == self@,
    {
        self.phase
    }

    /// Says whether an invocation may run now.
    pub fn check_ready(&self) -> (ready: Result<(), LifecycleError>)
        ensures
            ready == self@.readiness(),
    {
        match self.phase {
            Phase::Uninitialized => Err(LifecycleError::NotInitialized),
            Phase::Ready => Ok(()),
            Phase::Disposed => Err(LifecycleError::Disposed),
        }
    }
}

/// Marks the platform as set up. Accepted once, from the start; the host
/// sets the platform up exactly when this returns `Ok`.
pub fn init(platform: &mut Platform) -> (accepted: Result<(), LifecycleError>)
    ensures
        match accepted {
            Ok(()) => old(platform)@.after_init() == Ok::<Phase, LifecycleError>(final(platform)@),
            Err(error) => old(platform)@.after_init() == Err::<Phase, LifecycleError>(error)
                && final(platform)@ == old(platform)@,
        },
{
    match platform.phase {
        Phase::Uninitialized => {
            platform.phase = Phase::Ready;
            Ok(())
        },
        Phase::Ready => Err(LifecycleError::AlreadyInitialized),
        Phase::Disposed => Err(LifecycleError::Disposed),
    }
}

/// Marks the platform as torn down. Accepted once, while it is set up; the
/// host tears the platform down exactly when this returns `Ok`.
pub fn deinit(platform: &mut Platform) -> (accepted: Result<(), LifecycleError>)
    ensures
        match accepted {
            Ok(()) => old(platform)@.after_deinit() == Ok::<Phase, LifecycleError>(
                final(platform)@,
            ),
            Err(error) => old(platform)@.after_deinit() == Err::<Phase, LifecycleError>(error)
                && final(platform)@ == old(platform)@,
        },
{
    match platform.phase {
        Phase::Uninitialized => Err(LifecycleError::NotInitialized),
        Phase::Ready => {
            platform.phase = Phase::Disposed;
            Ok(())
        },
        Phase::Disposed => Err(LifecycleError::Disposed),
    }
}

/// One lifecycle operation.
pub enum Operation {
    Init,
    Deinit,
}

/// The phase after one operation; a refused operation leaves it as it is.
pub open spec fn after(phase: Phase, operation: Operation) -> Phase {
    let outcome = match operation {
        Operation::Init => phase.after_init(),
        Operation::Deinit => phase.after_deinit(),
    };
    match outcome {
        Ok(next) => next,
        Err(_) => phase,
    }
}

/// Whether the operation is accepted in the phase.
pub open spec fn accepted(phase: Phase, operation: Operation) -> bool {
    match operation {
        Operation::Init => phase.after_init() is Ok,
        Operation::Deinit => phase.after_deinit() is Ok,
    }
}

/// The phase after a run of operations.
pub open spec fn after_all(phase: Phase, operations: Seq<Operation>) -> Phase
    decreases operations.len(),
{
    if operations.len() == 0 {
        phase
    } else {
        after(after_all(phase, operations.drop_last()), operations.last())
    }
}

/// The platform never goes back: whatever is asked of it, its phase is at
/// least what it was.
pub proof fn lemma_phase_never_goes_back(phase: Phase, operations: Seq<Operation>)
    ensures
        phase.rank() <= after_all(phase, operations).rank(),
    decreases operations.len(),
{
    if operations.len() > 0 {
        lemma_phase_never_goes_back(phase, operations.drop_last());
    }
}

/// An accepted operation moves the platform on, so each of the two is
/// accepted at most once in the life of a process: after an accepted `init`
/// no `init` is accepted, and after an accepted `deinit` neither.
pub proof fn lemma_accepted_at_most_once(
    phase: Phase,
    operation: Operation,
    later: Seq<Operation>,
)
    requires
        accepted(phase, operation),
    ensures
        !accepted(after_all(after(phase, operation), later), operation),
        operation is Deinit ==> after_all(after(phase, operation), later).readiness() is Err,
{
    lemma_phase_never_goes_back(after(phase, operation), later);
}

/// Invocations may run between the accepted `init` and the accepted
/// `deinit`, and at no other time.
pub proof fn lemma_ready_only_between(phase: Phase)
    ensures
        phase.readiness() is Ok <==> phase == Phase::Ready,
        phase.readiness() is Ok ==> phase.after_init() is Err && phase.after_deinit() is Ok,
{
}

} // verus!
