//! What can go wrong, and how it is told to the caller.
//!
//! Failures while a solver is being set up end the setup; failures of one
//! job end that job only. Nothing is retried here.
use vstd::prelude::*;
use vstd::string::*;

verus! {

/// Why no GPU context could be acquired.
#[derive(Clone, Copy, Debug, PartialEq, Eq, Structural)]
pub enum AcquisitionError {
    /// The platform offered no adapter.
    NoAdapter,
    /// The adapter refused to open a logical device.
    DeviceRequestFailed,
}

/// Why a sample grid is not accepted.
#[derive(Clone, Copy, Debug, PartialEq, Eq, Structural)]
pub enum InputDefect {
    /// The domain width is below 2.
    WidthTooSmall,
    /// The domain width does not divide the number of samples.
    NotRectangular,
    /// The grid has fewer than 2 rows.
    TooFewRows,
    /// The number of rows does not fit a dispatch dimension.
    TooManyRows,
}

/// Every failure that a solver reports.
#[derive(Clone, Copy, Debug, PartialEq, Eq, Structural)]
pub enum SolverError {
    /// No GPU context; the solver was not created.
    Acquisition(AcquisitionError),
    /// The kernel did not compile; the solver was not created.
    KernelCompilationFailed,
    /// The job was refused before anything was allocated.
    MalformedInput(InputDefect),
    /// The buffers of the job could not be created.
    BufferAllocationFailed,
    /// The staging buffer could not be mapped or read.
    ReadbackFailed,
}

impl SolverError {
    /// The text shown to the caller for this failure.
    pub open spec fn text(self) -> Seq<char> {
        match self {
            SolverError::Acquisition(AcquisitionError::NoAdapter) =>
                "Failed to instantiate adapter. Cannot access the GPU."@,
            SolverError::Acquisition(AcquisitionError::DeviceRequestFailed) =>
                "Failed to instantiate device. Cannot access the GPU."@,
            SolverError::KernelCompilationFailed => "Failed to compile the compute kernel."@,
            SolverError::MalformedInput(InputDefect::WidthTooSmall) =>
                "The domain width must be at least 2."@,
            SolverError::MalformedInput(InputDefect::NotRectangular) =>
                "The domain width must evenly divide the number of samples."@,
            SolverError::MalformedInput(InputDefect::TooFewRows) =>
                "The domain must have at least 2 rows."@,
            SolverError::MalformedInput(InputDefect::TooManyRows) =>
                "The domain has more rows than one dispatch can cover."@,
            SolverError::BufferAllocationFailed => "Failed to allocate the buffers of the job."@,
            SolverError::ReadbackFailed => "Could not successfully read the result"@,
        }
    }

    /// Whether the failure belongs to setup and leaves no solver behind.
    pub open spec fn ends_setup(self) -> bool {
        self is Acquisition || self is KernelCompilationFailed
    }

    /// Renders the failure as the text that callers receive.
    pub fn message(&self) -> (text: String)
        ensures
            text@ == self.text(),
    {
        match self {
            SolverError::Acquisition(AcquisitionError::NoAdapter) => String::from_str(
                "Failed to instantiate adapter. Cannot access the GPU.",
            ),
            SolverError::Acquisition(AcquisitionError::DeviceRequestFailed) => String::from_str(
                "Failed to instantiate device. Cannot access the GPU.",
            ),
            SolverError::KernelCompilationFailed => String::from_str(
                "Failed to compile the compute kernel.",
            ),
            SolverError::MalformedInput(InputDefect::WidthTooSmall) => String::from_str(
                "The domain width must be at least 2.",
            ),
            SolverError::MalformedInput(InputDefect::NotRectangular) => String::from_str(
                "The domain width must evenly divide the number of samples.",
            ),
            SolverError::MalformedInput(InputDefect::TooFewRows) => String::from_str(
                "The domain must have at least 2 rows.",
            ),
            SolverError::MalformedInput(InputDefect::TooManyRows) => String::from_str(
                "The domain has more rows than one dispatch can cover.",
            ),
            SolverError::BufferAllocationFailed => String::from_str(
                "Failed to allocate the buffers of the job.",
            ),
            SolverError::ReadbackFailed => String::from_str(
                "Could not successfully read the result",
            ),
        }
    }
}

} // verus!
