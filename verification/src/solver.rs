//! The solver as its callers see it: something that exists once its setup
//! has succeeded, and that turns grids of samples into jobs.
//!
//! Failures reach the caller as text.
use crate::error::{AcquisitionError, SolverError};
use crate::job::{start, Job, Phase};
use crate::plan::refusal;
use crate::setup::{Setup, SetupPhase};
use vstd::prelude::*;

verus! {

/// What a setup that has not succeeded is short of: the failure it met,
/// or, where it was left unfinished, the thing it had yet to obtain.
pub open spec fn shortfall(phase: SetupPhase) -> SolverError {
    match phase {
        SetupPhase::Failed(error) => error,
        SetupPhase::FindingAdapter => SolverError::Acquisition(AcquisitionError::NoAdapter),
        SetupPhase::OpeningDevice => SolverError::Acquisition(
            AcquisitionError::DeviceRequestFailed,
        ),
        _ => SolverError::KernelCompilationFailed,
    }
}

/// What a job that has not ended with a result is short of: the failure
/// it met, or, where it was left unfinished, the readback.
pub open spec fn setback(phase: Phase) -> SolverError {
    match phase {
        Phase::Failed(error) => error,
        _ => SolverError::ReadbackFailed,
    }
}

/// A solver for the discrete gradient of sampled Morse functions. It
/// stands for a GPU context and a pipeline that are in place; it is shared
/// by all jobs and none of them changes it.
pub struct MorseSmaleSolver {
    setup: Setup,
}

impl MorseSmaleSolver {
    #[verifier::type_invariant]
    spec fn inv(&self) -> bool {
        self.setup@ == SetupPhase::Ready
    }

    /// Creates the solver of a setup. There is a solver exactly when the
    /// setup has succeeded; otherwise the caller is told what it is short
    /// of.
    pub fn new(setup: Setup) -> (created: Result<MorseSmaleSolver, String>)
        ensures
            created is Ok <==> setup@ == SetupPhase::Ready,
            created matches Err(text) ==> text@ == shortfall(setup@).text(),
    {
        match setup.phase() {
            SetupPhase::Ready => Ok(MorseSmaleSolver { setup }),
            SetupPhase::Failed(error) => Err(error.message()),
            SetupPhase::FindingAdapter => Err(
                SolverError::Acquisition(AcquisitionError::NoAdapter).message(),
            ),
            SetupPhase::OpeningDevice => Err(
                SolverError::Acquisition(AcquisitionError::DeviceRequestFailed).message(),
            ),
            SetupPhase::BuildingPipeline => Err(SolverError::KernelCompilationFailed.message()),
        }
    }

    /// Starts a job on a grid of samples, each given as the bit pattern of
    /// its 32-bit value, row after row in rows of `domain_width`. A grid
    /// that is no rectangle of at least two by two samples is refused, and
    /// so is one that is too large to be addressed.
    pub fn with_samples(&self, samples: Vec<u32>, domain_width: u32) -> (started: Result<
        Job,
        String,
    >)
        ensures
            match started {
                Ok(job) => {
                    &&& refusal(samples@.len(), domain_width as nat) is None
                    &&& job@.wf()
                    &&& job@ == start(job@.plan, samples@)
                    &&& job@.plan.spec_sample_count() == samples@.len()
                    &&& job@.plan.spec_domain_width() == domain_width
                    &&& job@.plan.spec_domain_height() == samples@.len() / domain_width as nat
                },
                Err(text) => refusal(samples@.len(), domain_width as nat) matches Some(error)
                    && text@ == error.text(),
            },
    {
        match Job::prepare(samples, domain_width) {
            Ok(job) => Ok(job),
            Err(error) => Err(error.message()),
        }
    }

    /// Takes a job back and returns what it has brought: four codes per
    /// sample where it has finished, and else the text of what it is short
    /// of. No part of a result is ever returned.
    pub fn finish(&self, job: Job) -> (result: Result<Vec<u32>, String>)
        ensures
            result is Ok <==> job@.phase == Phase::Finished,
            result matches Ok(codes) ==> codes@ == job@.records && codes@.len() == 4
                * job@.samples.len(),
            result matches Err(text) ==> text@ == setback(job@.phase).text(),
    {
        match job.outcome() {
            Some(Ok(codes)) => Ok(codes),
            Some(Err(error)) => Err(error.message()),
            None => Err(SolverError::ReadbackFailed.message()),
        }
    }
}

} // verus!
