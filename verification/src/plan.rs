//! The geometry of one job: which sample grids are accepted, and the sizes
//! that follow from an accepted grid.
use crate::error::{InputDefect, SolverError};
use crate::records::{RECORD_WIDTH, WORD_BYTES};
use vstd::prelude::*;

verus! {

/// The reason for which a grid of `sample_count` samples in rows of
/// `domain_width` is refused, or `None` where it is accepted.
///
/// A grid is accepted when it is a full rectangle with at least two columns
/// and two rows, its rows can be counted in a dispatch dimension, and its
/// output can be sized in a buffer address.
pub open spec fn refusal(sample_count: nat, domain_width: nat) -> Option<SolverError> {
    if domain_width < 2 {
        Some(SolverError::MalformedInput(InputDefect::WidthTooSmall))
    } else if sample_count % domain_width != 0 {
        Some(SolverError::MalformedInput(InputDefect::NotRectangular))
    } else if sample_count / domain_width < 2 {
        Some(SolverError::MalformedInput(InputDefect::TooFewRows))
    } else if sample_count / domain_width > u32::MAX {
        Some(SolverError::MalformedInput(InputDefect::TooManyRows))
    } else if sample_count * RECORD_WIDTH * WORD_BYTES > u64::MAX {
        Some(SolverError::BufferAllocationFailed)
    } else {
        None
    }
}

/// The geometry of an accepted job.
#[derive(Clone, Copy, Debug)]
pub struct JobPlan {
    samples: u64,
    width: u32,
    height: u32,
}

impl JobPlan {
    /// Number of samples in the grid.
    pub closed spec fn spec_sample_count(&self) -> u64 {
        self.samples
    }

    /// Number of samples in one row.
    pub closed spec fn spec_domain_width(&self) -> u32 {
        self.width
    }

    /// Number of rows.
    pub closed spec fn spec_domain_height(&self) -> u32 {
        self.height
    }

    /// What holds of every plan: the grid is a rectangle of at least two by
    /// two samples whose output fits a buffer address.
    pub open spec fn wf(&self) -> bool {
        &&& self.spec_domain_width() >= 2
        &&& self.spec_domain_height() >= 2
        &&& self.spec_sample_count() == self.spec_domain_width() * self.spec_domain_height()
        &&& self.spec_sample_count() * RECORD_WIDTH * WORD_BYTES <= u64::MAX
    }

    #[verifier::type_invariant]
    spec fn inv(&self) -> bool {
        self.wf()
    }

    /// The dispatch grid: one invocation per cell between neighbouring
    /// samples, in a single layer.
    pub open spec fn spec_grid(&self) -> (u32, u32, u32) {
        (
            (self.spec_domain_width() - 1) as u32,
            (self.spec_domain_height() - 1) as u32,
            1u32,
        )
    }

    /// Size in bytes of the sample buffer.
    pub open spec fn spec_input_size(&self) -> u64 {
        (self.spec_sample_count() * WORD_BYTES) as u64
    }

    /// Number of codes in the result.
    pub open spec fn spec_record_count(&self) -> u64 {
        (self.spec_sample_count() * RECORD_WIDTH) as u64
    }

    /// Size in bytes of the output buffer, and of the staging buffer.
    pub open spec fn spec_output_size(&self) -> u64 {
        (self.spec_sample_count() * RECORD_WIDTH * WORD_BYTES) as u64
    }

    /// Checks a grid and, where it is accepted, fixes its geometry.
    pub fn new(sample_count: usize, domain_width: u32) -> (planned: Result<JobPlan, SolverError>)
        ensures
            match planned {
                Ok(plan) => {
                    &&& refusal(sample_count as nat, domain_width as nat) is None
                    &&& plan.wf()
                    &&& plan.spec_sample_count() == sample_count
                    &&& plan.spec_domain_width() == domain_width
                    &&& plan.spec_domain_height() == sample_count as nat / domain_width as nat
                },
                Err(error) => refusal(sample_count as nat, domain_width as nat) == Some(error),
            },
    {
        let samples: u64 = sample_count as u64;
        let width: u64 = domain_width as u64;
        if width < 2 {
            return Err(SolverError::MalformedInput(InputDefect::WidthTooSmall));
        }
        if samples % width != 0 {
            return Err(SolverError::MalformedInput(InputDefect::NotRectangular));
        }
        let rows: u64 = samples / width;
        if rows < 2 {
            return Err(SolverError::MalformedInput(InputDefect::TooFewRows));
        }
        if rows > u32::MAX as u64 {
            return Err(SolverError::MalformedInput(InputDefect::TooManyRows));
        }
        if samples > u64::MAX / (RECORD_WIDTH * WORD_BYTES) {
            return Err(SolverError::BufferAllocationFailed);
        }
        assert(samples == width * rows) by (nonlinear_arith)
            requires
                width > 0,
                samples % width == 0,
                rows == samples / width,
        ;
        Ok(JobPlan { samples, width: domain_width, height: rows as u32 })
    }

    /// Number of samples in the grid.
    #[verifier::when_used_as_spec(spec_sample_count)]
    pub fn sample_count(&self) -> (count: u64)
        ensures
            count == self.spec_sample_count(),
            self.wf(),
    {
        proof {
            use_type_invariant(self);
        }
        self.samples
    }

    /// Number of samples in one row.
    #[verifier::when_used_as_spec(spec_domain_width)]
    pub fn domain_width(&self) -> (width: u32)
        ensures
            width == self.spec_domain_width(),
            self.wf(),
    {
        proof {
            use_type_invariant(self);
        }
        self.width
    }

    /// Number of rows.
    #[verifier::when_used_as_spec(spec_domain_height)]
    pub fn domain_height(&self) -> (height: u32)
        ensures
            height == self.spec_domain_height(),
            self.wf(),
    {
        proof {
            use_type_invariant(self);
        }
        self.height
    }

    /// The dispatch grid of the job.
    #[verifier::when_used_as_spec(spec_grid)]
    pub fn grid(&self) -> (grid: (u32, u32, u32))
        ensures
            grid == self.spec_grid(),
            grid.0 == self.spec_domain_width() - 1,
            grid.1 == self.spec_domain_height() - 1,
            grid.2 == 1,
    {
        proof {
            use_type_invariant(self);
        }
        (self.width - 1, self.height - 1, 1)
    }

    /// Size in bytes of the sample buffer.
    #[verifier::when_used_as_spec(spec_input_size)]
    pub fn input_size(&self) -> (size: u64)
        ensures
            size == self.spec_input_size(),
            size == 4 * self.spec_sample_count(),
    {
        proof {
            use_type_invariant(self);
        }
        self.samples * WORD_BYTES
    }

    /// Number of codes in the result.
    #[verifier::when_used_as_spec(spec_record_count)]
    pub fn record_count(&self) -> (count: u64)
        ensures
            count == self.spec_record_count(),
            count == 4 * self.spec_sample_count(),
    {
        proof {
            use_type_invariant(self);
        }
        self.samples * RECORD_WIDTH
    }

    /// Size in bytes of the output buffer, and of the staging buffer.
    #[verifier::when_used_as_spec(spec_output_size)]
    pub fn output_size(&self) -> (size: u64)
        ensures
            size == self.spec_output_size(),
            size == 16 * self.spec_sample_count(),
    {
        proof {
            use_type_invariant(self);
        }
        self.samples * RECORD_WIDTH * WORD_BYTES
    }
}

} // verus!
