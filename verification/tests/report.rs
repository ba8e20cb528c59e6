use fast_morse_smale_2d::error::{AcquisitionError, InputDefect, SolverError};
use fast_morse_smale_2d::report::{format_steps, label_of};

#[test]
fn codes_are_shown_in_decimal() {
    assert_eq!(label_of(0), "0");
    assert_eq!(label_of(7), "7");
    assert_eq!(label_of(10), "10");
    assert_eq!(label_of(1234567890), "1234567890");
    assert_eq!(label_of(4294967294), "4294967294");
    for code in [0u32, 9, 10, 99, 100, 101, 65535, 65536, 1 << 31] {
        assert_eq!(label_of(code), code.to_string());
    }
}

#[test]
fn marker_is_shown_by_name() {
    assert_eq!(label_of(0xFFFF_FFFF), "OVERFLOW");
}

#[test]
fn result_is_shown_in_one_line() {
    assert_eq!(format_steps(&[]), "Steps: []");
    assert_eq!(format_steps(&[5]), "Steps: [5]");
    assert_eq!(format_steps(&[1, 2, 3, 4]), "Steps: [1, 2, 3, 4]");
    assert_eq!(
        format_steps(&[1, 0xFFFF_FFFF, 0, 4294967294]),
        "Steps: [1, OVERFLOW, 0, 4294967294]"
    );
}

#[test]
fn every_failure_has_its_text() {
    assert_eq!(
        SolverError::Acquisition(AcquisitionError::NoAdapter).message(),
        "Failed to instantiate adapter. Cannot access the GPU."
    );
    assert_eq!(
        SolverError::Acquisition(AcquisitionError::DeviceRequestFailed).message(),
        "Failed to instantiate device. Cannot access the GPU."
    );
    assert_eq!(
        SolverError::KernelCompilationFailed.message(),
        "Failed to compile the compute kernel."
    );
    assert_eq!(
        SolverError::MalformedInput(InputDefect::WidthTooSmall).message(),
        "The domain width must be at least 2."
    );
    assert_eq!(
        SolverError::MalformedInput(InputDefect::NotRectangular).message(),
        "The domain width must evenly divide the number of samples."
    );
    assert_eq!(
        SolverError::MalformedInput(InputDefect::TooFewRows).message(),
        "The domain must have at least 2 rows."
    );
    assert_eq!(
        SolverError::MalformedInput(InputDefect::TooManyRows).message(),
        "The domain has more rows than one dispatch can cover."
    );
    assert_eq!(
        SolverError::BufferAllocationFailed.message(),
        "Failed to allocate the buffers of the job."
    );
    assert_eq!(
        SolverError::ReadbackFailed.message(),
        "Could not successfully read the result"
    );
}
