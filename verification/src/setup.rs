//! The acquisition of a GPU context and the building of the pipeline.
//!
//! Setup happens once per solver: an adapter is found, a logical device is
//! opened on it, and the kernel is compiled into a pipeline with its
//! binding layout. Each of the three is asked of the platform by the
//! embedding program; what follows from the answer is decided here. A
//! failure ends the setup for good.
use crate::error::{AcquisitionError, SolverError};
use vstd::prelude::*;

verus! {

/// Where the setup of a solver stands.
#[derive(Clone, Copy, Debug, PartialEq, Eq, Structural)]
pub enum SetupPhase {
    /// An adapter is to be requested.
    FindingAdapter,
    /// A logical device is to be requested from the adapter.
    OpeningDevice,
    /// The kernel is to be compiled and the pipeline to be built.
    BuildingPipeline,
    /// Context and pipeline are in place.
    Ready,
    /// There will be no solver.
    Failed(SolverError),
}

/// What the embedding program has to do next.
#[derive(Clone, Copy, Debug, PartialEq, Eq, Structural)]
pub enum SetupAction {
    /// Request an adapter with default options.
    RequestAdapter,
    /// Request a device with no features and the downlevel default limits.
    RequestDevice,
    /// Compile the kernel, declare the binding layout, build the pipeline.
    BuildPipeline,
    /// Nothing: the setup is over.
    Complete,
}

/// What the platform answered.
#[derive(Clone, Copy, Debug, PartialEq, Eq, Structural)]
pub enum SetupEvent {
    /// An adapter is available.
    AdapterFound,
    /// No adapter is available.
    AdapterMissing,
    /// The device and its queue are open.
    DeviceOpened,
    /// The platform refused the device.
    DeviceRefused,
    /// The pipeline is built.
    PipelineBuilt,
    /// The kernel did not compile against its layout.
    KernelRejected,
}

/// The action that a phase asks for.
pub open spec fn setup_action_of(phase: SetupPhase) -> SetupAction {
    match phase {
        SetupPhase::FindingAdapter => SetupAction::RequestAdapter,
        SetupPhase::OpeningDevice => SetupAction::RequestDevice,
        SetupPhase::BuildingPipeline => SetupAction::BuildPipeline,
        SetupPhase::Ready => SetupAction::Complete,
        SetupPhase::Failed(_) => SetupAction::Complete,
    }
}

/// The phase after an answer. An answer to something that was not asked
/// changes nothing.
pub open spec fn setup_step(phase: SetupPhase, event: SetupEvent) -> SetupPhase {
    match (phase, event) {
        (SetupPhase::FindingAdapter, SetupEvent::AdapterFound) => SetupPhase::OpeningDevice,
        (SetupPhase::FindingAdapter, SetupEvent::AdapterMissing) => SetupPhase::Failed(
            SolverError::Acquisition(AcquisitionError::NoAdapter),
        ),
        (SetupPhase::OpeningDevice, SetupEvent::DeviceOpened) => SetupPhase::BuildingPipeline,
        (SetupPhase::OpeningDevice, SetupEvent::DeviceRefused) => SetupPhase::Failed(
            SolverError::Acquisition(AcquisitionError::DeviceRequestFailed),
        ),
        (SetupPhase::BuildingPipeline, SetupEvent::PipelineBuilt) => SetupPhase::Ready,
        (SetupPhase::BuildingPipeline, SetupEvent::KernelRejected) => SetupPhase::Failed(
            SolverError::KernelCompilationFailed,
        ),
        _ => phase,
    }
}

/// The phase after a sequence of answers.
pub open spec fn setup_run(phase: SetupPhase, events: Seq<SetupEvent>) -> SetupPhase
    decreases events.len(),
{
    if events.len() == 0 {
        phase
    } else {
        setup_step(setup_run(phase, events.drop_last()), events.last())
    }
}

/// The setup of one solver.
pub struct Setup {
    phase: SetupPhase,
}

impl View for Setup {
    type V = SetupPhase;

    closed spec fn view(&self) -> SetupPhase {
        self.phase
    }
}

impl Setup {
    /// Starts a setup. Every setup starts alike, whatever was set up
    /// before.
    pub fn begin() -> (setup: Setup)
        ensures
            setup@ == SetupPhase::FindingAdapter,
    {
        Setup { phase: SetupPhase::FindingAdapter }
    }

    /// Where the setup stands.
    pub fn phase(&self) -> (phase: SetupPhase)
        ensures
            phase == self@,
    {
        self.phase
    }

    /// What is to be done next.
    pub fn action(&self) -> (action: SetupAction)
        ensures
            action == setup_action_of(self@),
    {
        match self.phase {
            SetupPhase::FindingAdapter => SetupAction::RequestAdapter,
            SetupPhase::OpeningDevice => SetupAction::RequestDevice,
            SetupPhase::BuildingPipeline => SetupAction::BuildPipeline,
            SetupPhase::Ready => SetupAction::Complete,
            SetupPhase::Failed(_) => SetupAction::Complete,
        }
    }

    /// Takes note of what the platform answered.
    pub fn advance(self, event: SetupEvent) -> (next: Setup)
        ensures
            next@ == setup_step(self@, event),
    {
        let phase = match (self.phase, event) {
            (SetupPhase::FindingAdapter, SetupEvent::AdapterFound) => SetupPhase::OpeningDevice,
            (SetupPhase::FindingAdapter, SetupEvent::AdapterMissing) => SetupPhase::Failed(
                SolverError::Acquisition(AcquisitionError::NoAdapter),
            ),
            (SetupPhase::OpeningDevice, SetupEvent::DeviceOpened) => SetupPhase::BuildingPipeline,
            (SetupPhase::OpeningDevice, SetupEvent::DeviceRefused) => SetupPhase::Failed(
                SolverError::Acquisition(AcquisitionError::DeviceRequestFailed),
            ),
            (SetupPhase::BuildingPipeline, SetupEvent::PipelineBuilt) => SetupPhase::Ready,
            (SetupPhase::BuildingPipeline, SetupEvent::KernelRejected) => SetupPhase::Failed(
                SolverError::KernelCompilationFailed,
            ),
            (phase, _) => phase,
        };
        Setup { phase }
    }

    /// How the setup ended, once it is over.
    pub fn outcome(&self) -> (outcome: Option<Result<(), SolverError>>)
        ensures
            match self@ {
                SetupPhase::Ready => outcome == Some(Ok::<(), SolverError>(())),
                SetupPhase::Failed(error) => outcome == Some(Err::<(), SolverError>(error)),
                _ => outcome is None,
            },
    {
        match self.phase {
            SetupPhase::Ready => Some(Ok(())),
            SetupPhase::Failed(error) => Some(Err(error)),
            _ => None,
        }
    }
}

/// A setup that is over stays as it is: acquisition is not retried.
pub proof fn lemma_setup_is_final(phase: SetupPhase, events: Seq<SetupEvent>)
    requires
        phase is Ready || phase is Failed,
    ensures
        setup_run(phase, events) == phase,
    decreases events.len(),
{
    if events.len() > 0 {
        lemma_setup_is_final(phase, events.drop_last());
    }
}

/// Setup depends on the machine alone. Where the platform has an adapter,
/// opens a device and accepts the kernel, every setup succeeds; where it
/// has no adapter, or refuses the device, every setup fails with the
/// acquisition error that says so, whatever is answered afterwards.
pub proof fn lemma_setup_outcome(later: Seq<SetupEvent>)
    ensures
        setup_run(
            SetupPhase::FindingAdapter,
            seq![SetupEvent::AdapterFound, SetupEvent::DeviceOpened, SetupEvent::PipelineBuilt]
                + later,
        ) == SetupPhase::Ready,
        setup_run(SetupPhase::FindingAdapter, seq![SetupEvent::AdapterMissing] + later)
            == SetupPhase::Failed(SolverError::Acquisition(AcquisitionError::NoAdapter)),
        setup_run(
            SetupPhase::FindingAdapter,
            seq![SetupEvent::AdapterFound, SetupEvent::DeviceRefused] + later,
        ) == SetupPhase::Failed(SolverError::Acquisition(AcquisitionError::DeviceRequestFailed)),
{
    let good = seq![
        SetupEvent::AdapterFound,
        SetupEvent::DeviceOpened,
        SetupEvent::PipelineBuilt,
    ];
    let none = seq![SetupEvent::AdapterMissing];
    let refused = seq![SetupEvent::AdapterFound, SetupEvent::DeviceRefused];
    lemma_setup_run_split(SetupPhase::FindingAdapter, good, later);
    lemma_setup_run_split(SetupPhase::FindingAdapter, none, later);
    lemma_setup_run_split(SetupPhase::FindingAdapter, refused, later);
    assert(setup_run(SetupPhase::FindingAdapter, good) == SetupPhase::Ready) by {
        reveal_with_fuel(setup_run, 4);
        assert(good.drop_last() =~= seq![SetupEvent::AdapterFound, SetupEvent::DeviceOpened]);
        assert(good.drop_last().drop_last() =~= seq![SetupEvent::AdapterFound]);
    }
    assert(setup_run(SetupPhase::FindingAdapter, none) == SetupPhase::Failed(
        SolverError::Acquisition(AcquisitionError::NoAdapter),
    )) by {
        reveal_with_fuel(setup_run, 2);
    }
    assert(setup_run(SetupPhase::FindingAdapter, refused) == SetupPhase::Failed(
        SolverError::Acquisition(AcquisitionError::DeviceRequestFailed),
    )) by {
        reveal_with_fuel(setup_run, 3);
        assert(refused.drop_last() =~= seq![SetupEvent::AdapterFound]);
    }
    lemma_setup_is_final(setup_run(SetupPhase::FindingAdapter, good), later);
    lemma_setup_is_final(setup_run(SetupPhase::FindingAdapter, none), later);
    lemma_setup_is_final(setup_run(SetupPhase::FindingAdapter, refused), later);
}

/// Running through two sequences of answers is running through the first
/// and then through the second.
pub proof fn lemma_setup_run_split(
    phase: SetupPhase,
    first: Seq<SetupEvent>,
    second: Seq<SetupEvent>,
)
    ensures
        setup_run(phase, first + second) == setup_run(setup_run(phase, first), second),
    decreases second.len(),
{
    if second.len() == 0 {
        assert(first + second =~= first);
    } else {
        lemma_setup_run_split(phase, first, second.drop_last());
        assert((first + second).drop_last() =~= first + second.drop_last());
        assert((first + second).last() == second.last());
    }
}

} // verus!
