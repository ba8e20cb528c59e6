//! What holds of every run of a job, whatever the device answers.
use crate::job::{action_of, answers, start, step, Action, EventView, JobView, MapSignal, Phase};
use crate::plan::JobPlan;
use crate::records::words_of;
use vstd::prelude::*;

verus! {

/// The job after a sequence of events.
pub open spec fn run(little: bool, job: JobView, events: Seq<EventView>) -> JobView
    decreases events.len(),
{
    if events.len() == 0 {
        job
    } else {
        step(little, run(little, job, events.drop_last()), events.last())
    }
}

/// How far a phase is along the way of a job.
pub open spec fn stage(phase: Phase) -> nat {
    match phase {
        Phase::Allocating => 0,
        Phase::Submitting => 1,
        Phase::Mapping => 2,
        Phase::Polling => 3,
        Phase::Awaiting => 4,
        Phase::Reading => 5,
        Phase::Unmapping => 6,
        Phase::Discarding => 6,
        Phase::Finished => 7,
        Phase::Failed(_) => 7,
    }
}

/// Whether a job in this phase is over.
pub open spec fn is_over(phase: Phase) -> bool {
    phase is Finished || phase is Failed
}

/// Whether the event shows mapped bytes of the size of the output that
/// hold the given codes.
pub open spec fn shows(little: bool, plan: JobPlan, event: EventView, records: Seq<u32>) -> bool {
    event matches EventView::View(bytes) && bytes.len() == plan.spec_output_size() && records
        == words_of(little, bytes)
}

/// Whether the codes were decoded from a view of the right size that is
/// among the events.
pub open spec fn read_from(
    little: bool,
    plan: JobPlan,
    events: Seq<EventView>,
    records: Seq<u32>,
) -> bool {
    exists|at: int| 0 <= at < events.len() && shows(little, plan, #[trigger] events[at], records)
}

/// The events of a job that meets no failure, given the bytes that the
/// staging buffer shows once it is mapped.
pub open spec fn whole_run(bytes: Seq<u8>) -> Seq<EventView> {
    seq![
        EventView::BuffersReady,
        EventView::Submitted,
        EventView::MapRequested,
        EventView::DeviceIdle,
        EventView::Signalled(MapSignal::Mapped),
        EventView::View(bytes),
        EventView::Unmapped,
    ]
}

/// A step keeps a job well formed and changes neither its plan nor its
/// samples.
pub proof fn lemma_step_keeps_wf(little: bool, job: JobView, event: EventView)
    requires
        job.wf(),
    ensures
        step(little, job, event).wf(),
        step(little, job, event).plan == job.plan,
        step(little, job, event).samples == job.samples,
{
}

/// A job moves only on the event that answers its pending action, and then
/// to the next stage or to failure: no stage is skipped and none is entered
/// twice. In particular the staging buffer is read only after the signal
/// that it is mapped, and unmapped only after it has been read.
pub proof fn lemma_step_order(little: bool, job: JobView, event: EventView)
    ensures
        ({
            let next = step(little, job, event);
            &&& next == job || (answers(action_of(job.phase), event) && (next.phase is Failed
                || stage(next.phase) == stage(job.phase) + 1))
            &&& action_of(next.phase) == Action::ReadView && job.phase != Phase::Reading
                ==> job.phase == Phase::Awaiting && event == EventView::Signalled(
                MapSignal::Mapped,
            )
            &&& action_of(next.phase) == Action::Unmap && action_of(job.phase) != Action::Unmap
                ==> job.phase == Phase::Reading && event is View
        }),
{
}

/// A job that is over stays as it is: nothing is retried.
pub proof fn lemma_over_is_final(little: bool, job: JobView, events: Seq<EventView>)
    requires
        is_over(job.phase),
    ensures
        run(little, job, events) == job,
    decreases events.len(),
{
    if events.len() > 0 {
        lemma_over_is_final(little, job, events.drop_last());
    }
}

/// A run changes neither the plan nor the samples of a job.
pub proof fn lemma_run_keeps_plan(little: bool, job: JobView, events: Seq<EventView>)
    ensures
        run(little, job, events).plan == job.plan,
        run(little, job, events).samples == job.samples,
    decreases events.len(),
{
    if events.len() > 0 {
        lemma_run_keeps_plan(little, job, events.drop_last());
    }
}

/// Every run keeps a job well formed.
pub proof fn lemma_run_keeps_wf(little: bool, job: JobView, events: Seq<EventView>)
    requires
        job.wf(),
    ensures
        run(little, job, events).wf(),
    decreases events.len(),
{
    if events.len() > 0 {
        lemma_run_keeps_wf(little, job, events.drop_last());
        lemma_step_keeps_wf(little, run(little, job, events.drop_last()), events.last());
    }
}

/// A job that has not failed is no stage further along than events have
/// been handed to it, and no stage further back than it began: a result
/// takes the whole protocol.
pub proof fn lemma_run_order(little: bool, job: JobView, events: Seq<EventView>)
    ensures
        ({
            let end = run(little, job, events);
            !(end.phase is Failed) ==> stage(job.phase) <= stage(end.phase) <= stage(job.phase)
                + events.len()
        }),
    decreases events.len(),
{
    if events.len() > 0 {
        lemma_run_order(little, job, events.drop_last());
        lemma_step_order(little, run(little, job, events.drop_last()), events.last());
    }
}

/// Whenever a job of any accepted grid ends with a result, the result has
/// exactly four codes per sample; and as long as a job has not read the
/// whole output, it holds no code at all.
pub proof fn lemma_result_shape(
    little: bool,
    plan: JobPlan,
    samples: Seq<u32>,
    events: Seq<EventView>,
)
    requires
        plan.wf(),
        samples.len() == plan.spec_sample_count(),
    ensures
        ({
            let end = run(little, start(plan, samples), events);
            &&& end.phase == Phase::Finished ==> end.records.len() == 4 * samples.len()
            &&& end.phase != Phase::Finished && end.phase != Phase::Unmapping
                ==> end.records.len() == 0
        }),
{
    lemma_run_keeps_wf(little, start(plan, samples), events);
    lemma_run_keeps_plan(little, start(plan, samples), events);
}

/// The codes of a result are those of a view that the device showed: they
/// were decoded from mapped bytes of the exact size of the output.
pub proof fn lemma_result_is_read(
    little: bool,
    plan: JobPlan,
    samples: Seq<u32>,
    events: Seq<EventView>,
)
    ensures
        ({
            let end = run(little, start(plan, samples), events);
            end.phase == Phase::Finished || end.phase == Phase::Unmapping ==> read_from(
                little,
                plan,
                events,
                end.records,
            )
        }),
    decreases events.len(),
{
    if events.len() > 0 {
        let earlier = events.drop_last();
        let before = run(little, start(plan, samples), earlier);
        let after = run(little, start(plan, samples), events);
        lemma_result_is_read(little, plan, samples, earlier);
        lemma_run_keeps_plan(little, start(plan, samples), earlier);
        if after.phase == Phase::Finished || after.phase == Phase::Unmapping {
            if before.phase == Phase::Finished || before.phase == Phase::Unmapping {
                let at = choose|at: int|
                    0 <= at < earlier.len() && shows(
                        little,
                        plan,
                        #[trigger] earlier[at],
                        before.records,
                    );
                assert(events[at] == earlier[at]);
                assert(after.records == before.records);
            } else {
                assert(before.phase == Phase::Reading);
                assert(events[events.len() - 1] is View);
            }
        }
    }
}

/// Where the device allocates, runs, maps and shows bytes of the size of
/// the output, the job ends with the codes that those bytes hold.
pub proof fn lemma_whole_run(little: bool, plan: JobPlan, samples: Seq<u32>, bytes: Seq<u8>)
    requires
        bytes.len() == plan.spec_output_size(),
    ensures
        run(little, start(plan, samples), whole_run(bytes)) == start(plan, samples).holding(
            Phase::Finished,
            words_of(little, bytes),
        ),
{
    let job = start(plan, samples);
    let events = whole_run(bytes);
    let e1 = events.drop_last();
    let e2 = e1.drop_last();
    let e3 = e2.drop_last();
    let e4 = e3.drop_last();
    let e5 = e4.drop_last();
    let e6 = e5.drop_last();
    let e7 = e6.drop_last();
    assert(e7.len() == 0);
    assert(run(little, job, e7) == job);
    assert(run(little, job, e6) == job.at(Phase::Submitting));
    assert(run(little, job, e5) == job.at(Phase::Mapping));
    assert(run(little, job, e4) == job.at(Phase::Polling));
    assert(run(little, job, e3) == job.at(Phase::Awaiting));
    assert(run(little, job, e2) == job.at(Phase::Reading));
    assert(run(little, job, e1) == job.holding(Phase::Unmapping, words_of(little, bytes)));
}

} // verus!
