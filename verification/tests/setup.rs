use fast_morse_smale_2d::error::{AcquisitionError, SolverError};
use fast_morse_smale_2d::setup::{Setup, SetupAction, SetupEvent, SetupPhase};

fn after(events: &[SetupEvent]) -> Setup {
    let mut setup = Setup::begin();
    for event in events {
        setup = setup.advance(*event);
    }
    setup
}

#[test]
fn usable_machine_completes_setup() {
    let solver = after(&[
        SetupEvent::AdapterFound,
        SetupEvent::DeviceOpened,
        SetupEvent::PipelineBuilt,
    ])
    .outcome()
    .unwrap();
    assert!(solver.is_ok());
}

#[test]
fn setup_asks_for_adapter_device_and_pipeline_in_turn() {
    let setup = Setup::begin();
    assert_eq!(setup.phase(), SetupPhase::FindingAdapter);
    assert_eq!(setup.action(), SetupAction::RequestAdapter);
    assert_eq!(setup.outcome(), None);
    let setup = setup.advance(SetupEvent::AdapterFound);
    assert_eq!(setup.phase(), SetupPhase::OpeningDevice);
    assert_eq!(setup.action(), SetupAction::RequestDevice);
    assert_eq!(setup.outcome(), None);
    let setup = setup.advance(SetupEvent::DeviceOpened);
    assert_eq!(setup.phase(), SetupPhase::BuildingPipeline);
    assert_eq!(setup.action(), SetupAction::BuildPipeline);
    assert_eq!(setup.outcome(), None);
    let setup = setup.advance(SetupEvent::PipelineBuilt);
    assert_eq!(setup.phase(), SetupPhase::Ready);
    assert_eq!(setup.action(), SetupAction::Complete);
    assert_eq!(setup.outcome(), Some(Ok(())));
}

#[test]
fn missing_adapter_fails_the_setup() {
    let setup = after(&[SetupEvent::AdapterMissing]);
    assert_eq!(setup.action(), SetupAction::Complete);
    assert_eq!(
        setup.outcome(),
        Some(Err(SolverError::Acquisition(AcquisitionError::NoAdapter)))
    );
}

#[test]
fn refused_device_fails_the_setup() {
    let setup = after(&[SetupEvent::AdapterFound, SetupEvent::DeviceRefused]);
    assert_eq!(setup.action(), SetupAction::Complete);
    assert_eq!(
        setup.outcome(),
        Some(Err(SolverError::Acquisition(AcquisitionError::DeviceRequestFailed)))
    );
}

#[test]
fn rejected_kernel_fails_the_setup() {
    let setup = after(&[
        SetupEvent::AdapterFound,
        SetupEvent::DeviceOpened,
        SetupEvent::KernelRejected,
    ]);
    assert_eq!(setup.outcome(), Some(Err(SolverError::KernelCompilationFailed)));
}

#[test]
fn setup_is_the_same_every_time() {
    let usable = [
        SetupEvent::AdapterFound,
        SetupEvent::DeviceOpened,
        SetupEvent::PipelineBuilt,
    ];
    for _ in 0..5 {
        assert_eq!(after(&usable).outcome(), Some(Ok(())));
        assert_eq!(
            after(&[SetupEvent::AdapterMissing]).outcome(),
            Some(Err(SolverError::Acquisition(AcquisitionError::NoAdapter)))
        );
    }
}

#[test]
fn failed_setup_is_not_retried() {
    let setup = after(&[
        SetupEvent::AdapterMissing,
        SetupEvent::AdapterFound,
        SetupEvent::DeviceOpened,
        SetupEvent::PipelineBuilt,
    ]);
    assert_eq!(
        setup.phase(),
        SetupPhase::Failed(SolverError::Acquisition(AcquisitionError::NoAdapter))
    );
}

#[test]
fn answers_out_of_turn_change_nothing() {
    let setup = after(&[SetupEvent::DeviceOpened, SetupEvent::PipelineBuilt]);
    assert_eq!(setup.phase(), SetupPhase::FindingAdapter);
    let setup = after(&[SetupEvent::AdapterFound, SetupEvent::PipelineBuilt]);
    assert_eq!(setup.phase(), SetupPhase::OpeningDevice);
    let setup = after(&[
        SetupEvent::AdapterFound,
        SetupEvent::DeviceOpened,
        SetupEvent::PipelineBuilt,
        SetupEvent::KernelRejected,
        SetupEvent::AdapterMissing,
    ]);
    assert_eq!(setup.phase(), SetupPhase::Ready);
}
