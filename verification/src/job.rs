//! The life of one job, from the allocation of its buffers to the release
//! of the staging buffer.
//!
//! The device works on its own and answers through callbacks, so a job is
//! a state machine: in every phase it names the one action that the
//! embedding program has to perform on the device, and it moves on when it
//! is told how that action ended. The program never decides anything
//! itself. The order of the phases is the order in which host and device
//! may touch the buffers: the output is copied to the staging buffer in the
//! same submission that computes it, the staging buffer is read only after
//! the device has signalled that it is mapped, and it is unmapped only
//! after the mapped bytes have been copied out.
use crate::error::SolverError;
use crate::layout::{binding_of, size_of, usage_of, BufferRole, BufferUsage, BIND_GROUP};
use crate::layout::{spec_binding_of, spec_size_of, spec_usage_of};
use crate::plan::{refusal, JobPlan};
use crate::records::{cast_words_to_bytes, decode_records, encodes_to, words_of};
use vstd::prelude::*;

verus! {

/// What the mapping callback reported through the rendezvous channel.
#[derive(Clone, Copy, Debug, PartialEq, Eq, Structural)]
pub enum MapSignal {
    /// The staging buffer is mapped.
    Mapped,
    /// The device could not map the staging buffer.
    MapFailed,
    /// The channel was closed before the callback sent anything.
    ChannelClosed,
}

/// Where a job stands.
#[derive(Clone, Copy, Debug, PartialEq, Eq, Structural)]
pub enum Phase {
    /// The buffers are to be created and bound.
    Allocating,
    /// The commands are to be recorded and submitted.
    Submitting,
    /// The mapping of the staging buffer is to be requested.
    Mapping,
    /// The device is to be driven until it is idle.
    Polling,
    /// The signal of the mapping callback is awaited.
    Awaiting,
    /// The staging buffer is mapped; its bytes are to be handed over.
    Reading,
    /// The result is copied out; the staging buffer is to be unmapped.
    Unmapping,
    /// The mapped bytes were unusable; the staging buffer is to be unmapped.
    Discarding,
    /// The job is over and has a result.
    Finished,
    /// The job is over and has none.
    Failed(SolverError),
}

/// What the embedding program has to do next.
#[derive(Clone, Copy, Debug, PartialEq, Eq, Structural)]
pub enum Action {
    /// Create the buffers of the job and bind them.
    AllocateBuffers,
    /// Record the commands of the job and submit them.
    SubmitCommands,
    /// Ask for the staging buffer to be mapped for reading.
    RequestMap,
    /// Block until the device is idle.
    PollDevice,
    /// Wait for the one message of the mapping callback.
    AwaitSignal,
    /// Hand over the mapped bytes, then drop the view.
    ReadView,
    /// Unmap the staging buffer.
    Unmap,
    /// Nothing: the job is over.
    Complete,
}

/// How an action ended.
#[derive(Clone, Copy, Debug)]
pub enum Event<'a> {
    /// All buffers exist and are bound.
    BuffersReady,
    /// The platform refused a buffer.
    BuffersRejected,
    /// The commands are on the queue.
    Submitted,
    /// The mapping callback is registered.
    MapRequested,
    /// The device has finished all submitted work.
    DeviceIdle,
    /// The mapping callback has reported, or never will.
    Signalled(MapSignal),
    /// The bytes of the mapped staging buffer.
    View(&'a [u8]),
    /// The staging buffer is unmapped.
    Unmapped,
}

/// The mathematical model of an event: the same answers, with the mapped
/// bytes as a sequence.
pub enum EventView {
    /// All buffers exist and are bound.
    BuffersReady,
    /// The platform refused a buffer.
    BuffersRejected,
    /// The commands are on the queue.
    Submitted,
    /// The mapping callback is registered.
    MapRequested,
    /// The device has finished all submitted work.
    DeviceIdle,
    /// The mapping callback has reported, or never will.
    Signalled(MapSignal),
    /// The bytes of the mapped staging buffer.
    View(Seq<u8>),
    /// The staging buffer is unmapped.
    Unmapped,
}

impl<'a> View for Event<'a> {
    type V = EventView;

    open spec fn view(&self) -> EventView {
        match *self {
            Event::BuffersReady => EventView::BuffersReady,
            Event::BuffersRejected => EventView::BuffersRejected,
            Event::Submitted => EventView::Submitted,
            Event::MapRequested => EventView::MapRequested,
            Event::DeviceIdle => EventView::DeviceIdle,
            Event::Signalled(signal) => EventView::Signalled(signal),
            Event::View(bytes) => EventView::View(bytes@),
            Event::Unmapped => EventView::Unmapped,
        }
    }
}

/// The mathematical model of a job.
pub struct JobView {
    /// Geometry of the job.
    pub plan: JobPlan,
    /// The samples, each as the bit pattern of its 32-bit value.
    pub samples: Seq<u32>,
    /// Where the job stands.
    pub phase: Phase,
    /// The codes read back so far: all of them, or none.
    pub records: Seq<u32>,
}

impl JobView {
    /// What holds of every job: the plan is that of the samples, and the
    /// job holds either the whole result or nothing of it.
    pub open spec fn wf(self) -> bool {
        &&& self.plan.wf()
        &&& self.samples.len() == self.plan.spec_sample_count()
        &&& if self.phase == Phase::Unmapping || self.phase == Phase::Finished {
            self.records.len() == self.plan.spec_record_count()
        } else {
            self.records.len() == 0
        }
    }

    /// The same job in another phase.
    pub open spec fn at(self, phase: Phase) -> JobView {
        JobView { plan: self.plan, samples: self.samples, phase, records: self.records }
    }

    /// The same job in another phase, holding the given codes.
    pub open spec fn holding(self, phase: Phase, records: Seq<u32>) -> JobView {
        JobView { plan: self.plan, samples: self.samples, phase, records }
    }
}

/// The job that has just been accepted: nothing is allocated and nothing
/// is read.
pub open spec fn start(plan: JobPlan, samples: Seq<u32>) -> JobView {
    JobView { plan, samples, phase: Phase::Allocating, records: Seq::empty() }
}

/// The action that a phase asks for.
pub open spec fn action_of(phase: Phase) -> Action {
    match phase {
        Phase::Allocating => Action::AllocateBuffers,
        Phase::Submitting => Action::SubmitCommands,
        Phase::Mapping => Action::RequestMap,
        Phase::Polling => Action::PollDevice,
        Phase::Awaiting => Action::AwaitSignal,
        Phase::Reading => Action::ReadView,
        Phase::Unmapping => Action::Unmap,
        Phase::Discarding => Action::Unmap,
        Phase::Finished => Action::Complete,
        Phase::Failed(_) => Action::Complete,
    }
}

/// Whether an event tells how the given action ended.
pub open spec fn answers(action: Action, event: EventView) -> bool {
    match action {
        Action::AllocateBuffers => event is BuffersReady || event is BuffersRejected,
        Action::SubmitCommands => event is Submitted,
        Action::RequestMap => event is MapRequested,
        Action::PollDevice => event is DeviceIdle,
        Action::AwaitSignal => event is Signalled,
        Action::ReadView => event is View,
        Action::Unmap => event is Unmapped,
        Action::Complete => false,
    }
}

/// The job after an event, on a host with the given byte order.
///
/// An event that does not answer the pending action leaves the job as it
/// is. Mapped bytes are accepted only in the exact size of the output; a
/// view of any other size yields no result, but the buffer is unmapped all
/// the same.
pub open spec fn step(little: bool, job: JobView, event: EventView) -> JobView {
    match (job.phase, event) {
        (Phase::Allocating, EventView::BuffersReady) => job.at(Phase::Submitting),
        (Phase::Allocating, EventView::BuffersRejected) => job.at(
            Phase::Failed(SolverError::BufferAllocationFailed),
        ),
        (Phase::Submitting, EventView::Submitted) => job.at(Phase::Mapping),
        (Phase::Mapping, EventView::MapRequested) => job.at(Phase::Polling),
        (Phase::Polling, EventView::DeviceIdle) => job.at(Phase::Awaiting),
        (Phase::Awaiting, EventView::Signalled(MapSignal::Mapped)) => job.at(Phase::Reading),
        (Phase::Awaiting, EventView::Signalled(_)) => job.at(
            Phase::Failed(SolverError::ReadbackFailed),
        ),
        (Phase::Reading, EventView::View(bytes)) => if bytes.len()
            == job.plan.spec_output_size() {
            job.holding(Phase::Unmapping, words_of(little, bytes))
        } else {
            job.at(Phase::Discarding)
        },
        (Phase::Unmapping, EventView::Unmapped) => job.at(Phase::Finished),
        (Phase::Discarding, EventView::Unmapped) => job.at(
            Phase::Failed(SolverError::ReadbackFailed),
        ),
        _ => job,
    }
}

/// One buffer that a job asks the platform for.
#[derive(Debug)]
pub struct BufferRequest {
    /// Which buffer of the job this is.
    pub role: BufferRole,
    /// Its size in bytes.
    pub size: u64,
    /// What it is created for.
    pub usage: BufferUsage,
    /// The slot of the bind group that it is bound to, if any.
    pub binding: Option<u32>,
    /// The bytes it is created with; without them the platform zeroes it.
    pub contents: Option<Vec<u8>>,
}

/// Whether a request is the one that a job makes for the given buffer.
///
/// The parameter buffer is created holding the domain width and the sample
/// buffer holding the samples, both in the byte order of the machine; the
/// output and the staging buffer are created empty.
pub open spec fn asks_for(job: JobView, role: BufferRole, request: BufferRequest) -> bool {
    &&& request.role == role
    &&& request.size == spec_size_of(job.plan, role)
    &&& request.usage == spec_usage_of(role)
    &&& request.binding == spec_binding_of(role)
    &&& match role {
        BufferRole::Parameter => request.contents matches Some(bytes) && encodes_to(
            seq![job.plan.spec_domain_width()],
            bytes@,
        ),
        BufferRole::Samples => request.contents matches Some(bytes) && encodes_to(
            job.samples,
            bytes@,
        ),
        BufferRole::Output => request.contents is None,
        BufferRole::Staging => request.contents is None,
    }
}

/// One command of the submission of a job.
#[derive(Clone, Copy, Debug, PartialEq, Eq, Structural)]
pub enum Command {
    /// Select the compute pipeline.
    BindPipeline,
    /// Bind the buffers of the job as the given bind group.
    BindResources { group: u32 },
    /// Run the kernel over a grid of invocations.
    Dispatch { x: u32, y: u32, z: u32 },
    /// Copy the first `size` bytes of the output buffer to the start of the
    /// staging buffer.
    CopyOutputToStaging { size: u64 },
}

impl Command {
    /// Whether the command belongs to the compute pass; the others follow
    /// it on the encoder.
    pub open spec fn spec_in_pass(&self) -> bool {
        !(self is CopyOutputToStaging)
    }

    /// Whether the command belongs to the compute pass.
    #[verifier::when_used_as_spec(spec_in_pass)]
    pub fn in_pass(&self) -> (inside: bool)
        ensures
            inside == self.spec_in_pass(),
    {
        match self {
            Command::CopyOutputToStaging { .. } => false,
            _ => true,
        }
    }
}

/// The commands of a job, in the order in which they are recorded: the
/// pipeline, the resources, one invocation per cell between neighbouring
/// samples, and the copy of the whole output to the staging buffer.
pub open spec fn spec_commands(plan: JobPlan) -> Seq<Command> {
    seq![
        Command::BindPipeline,
        Command::BindResources { group: BIND_GROUP },
        Command::Dispatch { x: plan.spec_grid().0, y: plan.spec_grid().1, z: plan.spec_grid().2 },
        Command::CopyOutputToStaging { size: plan.spec_output_size() },
    ]
}

/// The submission of a job computes a grid that is empty in no direction,
/// inside one compute pass, and then copies the whole output, no more and
/// no less, into a staging buffer of the same size.
pub proof fn lemma_submission(plan: JobPlan)
    requires
        plan.wf(),
    ensures
        spec_commands(plan).len() == 4,
        forall|at: int| 0 <= at < 3 ==> (#[trigger] spec_commands(plan)[at]).spec_in_pass(),
        !spec_commands(plan)[3].spec_in_pass(),
        spec_commands(plan)[2] matches Command::Dispatch { x, y, z } && x >= 1 && y >= 1 && z == 1
            && (x + 1) * (y + 1) == plan.spec_sample_count(),
        spec_commands(plan)[3] == (Command::CopyOutputToStaging {
            size: spec_size_of(plan, BufferRole::Output),
        }),
        spec_size_of(plan, BufferRole::Staging) == spec_size_of(plan, BufferRole::Output),
        spec_size_of(plan, BufferRole::Output) == 4 * plan.spec_record_count(),
{
}

/// One job of a solver.
pub struct Job {
    plan: JobPlan,
    samples: Vec<u32>,
    phase: Phase,
    records: Vec<u32>,
}

impl View for Job {
    type V = JobView;

    closed spec fn view(&self) -> JobView {
        JobView {
            plan: self.plan,
            samples: self.samples@,
            phase: self.phase,
            records: self.records@,
        }
    }
}

impl Job {
    #[verifier::type_invariant]
    spec fn inv(&self) -> bool {
        self@.wf()
    }

    /// Accepts or refuses a grid of samples. An accepted job starts with
    /// the allocation of its buffers; a refused one has touched nothing.
    pub fn prepare(samples: Vec<u32>, domain_width: u32) -> (prepared: Result<Job, SolverError>)
        ensures
            match prepared {
                Ok(job) => {
                    &&& refusal(samples@.len(), domain_width as nat) is None
                    &&& job@.wf()
                    &&& job@ == start(job@.plan, samples@)
                    &&& job@.plan.spec_sample_count() == samples@.len()
                    &&& job@.plan.spec_domain_width() == domain_width
                    &&& job@.plan.spec_domain_height() == samples@.len() / domain_width as nat
                },
                Err(error) => refusal(samples@.len(), domain_width as nat) == Some(error),
            },
    {
        match JobPlan::new(samples.len(), domain_width) {
            Ok(plan) => {
                let job = Job { plan, samples, phase: Phase::Allocating, records: Vec::new() };
                assert(job@.records =~= Seq::<u32>::empty());
                Ok(job)
            },
            Err(error) => Err(error),
        }
    }

    /// Geometry of the job.
    pub fn plan(&self) -> (plan: JobPlan)
        ensures
            plan == self@.plan,
            self@.wf(),
    {
        proof {
            use_type_invariant(self);
        }
        self.plan
    }

    /// Where the job stands.
    pub fn phase(&self) -> (phase: Phase)
        ensures
            phase == self@.phase,
    {
        self.phase
    }

    /// What is to be done next.
    pub fn action(&self) -> (action: Action)
        ensures
            action == action_of(self@.phase),
    {
        match self.phase {
            Phase::Allocating => Action::AllocateBuffers,
            Phase::Submitting => Action::SubmitCommands,
            Phase::Mapping => Action::RequestMap,
            Phase::Polling => Action::PollDevice,
            Phase::Awaiting => Action::AwaitSignal,
            Phase::Reading => Action::ReadView,
            Phase::Unmapping => Action::Unmap,
            Phase::Discarding => Action::Unmap,
            Phase::Finished => Action::Complete,
            Phase::Failed(_) => Action::Complete,
        }
    }

    /// The buffers to create, in the order parameter, samples, output,
    /// staging.
    pub fn buffers(&self) -> (requests: Vec<BufferRequest>)
        ensures
            requests@.len() == 4,
            asks_for(self@, BufferRole::Parameter, requests@[0]),
            asks_for(self@, BufferRole::Samples, requests@[1]),
            asks_for(self@, BufferRole::Output, requests@[2]),
            asks_for(self@, BufferRole::Staging, requests@[3]),
    {
        proof {
            use_type_invariant(self);
        }
        let mut width: Vec<u32> = Vec::new();
        width.push(self.plan.domain_width());
        assert(width@ =~= seq![self.plan.spec_domain_width()]);
        let mut requests: Vec<BufferRequest> = Vec::new();
        requests.push(
            BufferRequest {
                role: BufferRole::Parameter,
                size: size_of(&self.plan, BufferRole::Parameter),
                usage: usage_of(BufferRole::Parameter),
                binding: binding_of(BufferRole::Parameter),
                contents: Some(cast_words_to_bytes(width.as_slice())),
            },
        );
        requests.push(
            BufferRequest {
                role: BufferRole::Samples,
                size: size_of(&self.plan, BufferRole::Samples),
                usage: usage_of(BufferRole::Samples),
                binding: binding_of(BufferRole::Samples),
                contents: Some(cast_words_to_bytes(self.samples.as_slice())),
            },
        );
        requests.push(
            BufferRequest {
                role: BufferRole::Output,
                size: size_of(&self.plan, BufferRole::Output),
                usage: usage_of(BufferRole::Output),
                binding: binding_of(BufferRole::Output),
                contents: None,
            },
        );
        requests.push(
            BufferRequest {
                role: BufferRole::Staging,
                size: size_of(&self.plan, BufferRole::Staging),
                usage: usage_of(BufferRole::Staging),
                binding: binding_of(BufferRole::Staging),
                contents: None,
            },
        );
        requests
    }

    /// The commands to record and submit, in order.
    pub fn commands(&self) -> (commands: Vec<Command>)
        ensures
            commands@ == spec_commands(self@.plan),
    {
        let grid = self.plan.grid();
        let mut commands: Vec<Command> = Vec::new();
        commands.push(Command::BindPipeline);
        commands.push(Command::BindResources { group: BIND_GROUP });
        commands.push(Command::Dispatch { x: grid.0, y: grid.1, z: grid.2 });
        commands.push(Command::CopyOutputToStaging { size: self.plan.output_size() });
        assert(commands@ =~= spec_commands(self@.plan));
        commands
    }

    /// Takes note of how the pending action ended.
    ///
    /// The job moves as [`step`] says, for the byte order of this machine.
    pub fn advance(self, event: Event<'_>) -> (next: Job)
        ensures
            next@ == step(true, self@, event@) || next@ == step(false, self@, event@),
            next@.wf(),
    {
        proof {
            use_type_invariant(&self);
        }
        let Job { plan, samples, phase, records } = self;
        match (phase, event) {
            (Phase::Allocating, Event::BuffersReady) => Job {
                plan,
                samples,
                phase: Phase::Submitting,
                records,
            },
            (Phase::Allocating, Event::BuffersRejected) => Job {
                plan,
                samples,
                phase: Phase::Failed(SolverError::BufferAllocationFailed),
                records,
            },
            (Phase::Submitting, Event::Submitted) => Job {
                plan,
                samples,
                phase: Phase::Mapping,
                records,
            },
            (Phase::Mapping, Event::MapRequested) => Job {
                plan,
                samples,
                phase: Phase::Polling,
                records,
            },
            (Phase::Polling, Event::DeviceIdle) => Job {
                plan,
                samples,
                phase: Phase::Awaiting,
                records,
            },
            (Phase::Awaiting, Event::Signalled(MapSignal::Mapped)) => Job {
                plan,
                samples,
                phase: Phase::Reading,
                records,
            },
            (Phase::Awaiting, Event::Signalled(_)) => Job {
                plan,
                samples,
                phase: Phase::Failed(SolverError::ReadbackFailed),
                records,
            },
            (Phase::Reading, Event::View(bytes)) => match decode_records(
                bytes,
                plan.record_count(),
            ) {
                Some(codes) => Job { plan, samples, phase: Phase::Unmapping, records: codes },
                None => Job { plan, samples, phase: Phase::Discarding, records },
            },
            (Phase::Unmapping, Event::Unmapped) => Job {
                plan,
                samples,
                phase: Phase::Finished,
                records,
            },
            (Phase::Discarding, Event::Unmapped) => Job {
                plan,
                samples,
                phase: Phase::Failed(SolverError::ReadbackFailed),
                records,
            },
            (phase, _) => Job { plan, samples, phase, records },
        }
    }

    /// The result of the job, once it is over: all codes or a failure,
    /// never a part of the codes. A job that is still under way has no
    /// outcome.
    pub fn outcome(self) -> (outcome: Option<Result<Vec<u32>, SolverError>>)
        ensures
            match self@.phase {
                Phase::Finished => outcome matches Some(Ok(codes)) && codes@ == self@.records
                    && codes@.len() == 4 * self@.samples.len(),
                Phase::Failed(error) => outcome == Some(Err::<Vec<u32>, SolverError>(error)),
                _ => outcome is None,
            },
    {
        proof {
            use_type_invariant(&self);
        }
        match self.phase {
            Phase::Finished => Some(Ok(self.records)),
            Phase::Failed(error) => Some(Err(error)),
            _ => None,
        }
    }
}

} // verus!
