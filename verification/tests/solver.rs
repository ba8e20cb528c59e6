use fast_morse_smale_2d::job::{Action, Event, Job, MapSignal};
use fast_morse_smale_2d::setup::{Setup, SetupEvent};
use fast_morse_smale_2d::MorseSmaleSolver;

/// The setup on a machine that grants everything.
fn usable() -> Setup {
    Setup::begin()
        .advance(SetupEvent::AdapterFound)
        .advance(SetupEvent::DeviceOpened)
        .advance(SetupEvent::PipelineBuilt)
}

fn floats(values: &[f32]) -> Vec<u32> {
    values.iter().map(|value| value.to_bits()).collect()
}

fn shown(codes: &[u32]) -> Vec<u8> {
    let mut bytes = Vec::new();
    for code in codes {
        bytes.extend_from_slice(&code.to_ne_bytes());
    }
    bytes
}

/// Answers every action as a device without faults does, showing `view`
/// when the staging buffer is read.
fn device(mut job: Job, view: &[u8]) -> Job {
    loop {
        let event = match job.action() {
            Action::AllocateBuffers => Event::BuffersReady,
            Action::SubmitCommands => Event::Submitted,
            Action::RequestMap => Event::MapRequested,
            Action::PollDevice => Event::DeviceIdle,
            Action::AwaitSignal => Event::Signalled(MapSignal::Mapped),
            Action::ReadView => Event::View(view),
            Action::Unmap => Event::Unmapped,
            Action::Complete => return job,
        };
        job = job.advance(event);
    }
}

#[test]
fn construction_is_ok() {
    let solver = MorseSmaleSolver::new(usable());
    assert!(solver.is_ok());
}

#[test]
fn running_is_ok() {
    let samples = floats(&[1., 2., 3., 4.]);
    let solver = MorseSmaleSolver::new(usable()).unwrap();
    let job = solver.with_samples(samples, 2).unwrap();
    let result = solver.finish(device(job, &[0u8; 64]));
    assert!(result.is_ok());
}

#[test]
fn simple_correctness() {
    let samples = floats(&[1., 2., 3., 4.]);
    let solver = MorseSmaleSolver::new(usable()).unwrap();
    let job = solver.with_samples(samples, 2).unwrap();
    let view = shown(&[1, 2, 3, 4, 0, 0, 0, 0, 0, 0, 0, 0, 0, 0, 0, 0]);
    let solution = solver.finish(device(job, &view)).unwrap();
    assert_eq!(
        solution,
        vec![1, 2, 3, 4, 0, 0, 0, 0, 0, 0, 0, 0, 0, 0, 0, 0]
    );
}

#[test]
fn million_stress() {
    let samples = floats(&vec![1.0; 1_000_000]);
    let solver = MorseSmaleSolver::new(usable()).unwrap();
    let job = solver.with_samples(samples, 1000).unwrap();
    let result = solver.finish(device(job, &vec![0u8; 16_000_000]));
    assert!(result.is_ok());
    assert_eq!(result.unwrap().len(), 4_000_000);
}

#[test]
fn construction_succeeds_every_time_on_a_usable_machine() {
    for _ in 0..10 {
        assert!(MorseSmaleSolver::new(usable()).is_ok());
    }
}

#[test]
fn construction_fails_every_time_without_an_adapter() {
    for _ in 0..10 {
        let setup = Setup::begin().advance(SetupEvent::AdapterMissing);
        assert_eq!(
            MorseSmaleSolver::new(setup).err(),
            Some("Failed to instantiate adapter. Cannot access the GPU.".to_string())
        );
    }
}

#[test]
fn construction_fails_when_the_device_is_refused() {
    let setup = Setup::begin()
        .advance(SetupEvent::AdapterFound)
        .advance(SetupEvent::DeviceRefused);
    assert_eq!(
        MorseSmaleSolver::new(setup).err(),
        Some("Failed to instantiate device. Cannot access the GPU.".to_string())
    );
}

#[test]
fn construction_fails_when_the_kernel_is_rejected() {
    let setup = Setup::begin()
        .advance(SetupEvent::AdapterFound)
        .advance(SetupEvent::DeviceOpened)
        .advance(SetupEvent::KernelRejected);
    assert_eq!(
        MorseSmaleSolver::new(setup).err(),
        Some("Failed to compile the compute kernel.".to_string())
    );
}

#[test]
fn unfinished_setup_gives_no_solver() {
    assert_eq!(
        MorseSmaleSolver::new(Setup::begin()).err(),
        Some("Failed to instantiate adapter. Cannot access the GPU.".to_string())
    );
    assert_eq!(
        MorseSmaleSolver::new(Setup::begin().advance(SetupEvent::AdapterFound)).err(),
        Some("Failed to instantiate device. Cannot access the GPU.".to_string())
    );
    let building = Setup::begin()
        .advance(SetupEvent::AdapterFound)
        .advance(SetupEvent::DeviceOpened);
    assert_eq!(
        MorseSmaleSolver::new(building).err(),
        Some("Failed to compile the compute kernel.".to_string())
    );
}

#[test]
fn malformed_input_is_rejected_with_its_reason() {
    let solver = MorseSmaleSolver::new(usable()).unwrap();
    let refused = |count: usize, width: u32| solver.with_samples(vec![0u32; count], width).err();
    assert_eq!(refused(4, 1), Some("The domain width must be at least 2.".to_string()));
    assert_eq!(refused(4, 0), Some("The domain width must be at least 2.".to_string()));
    assert_eq!(
        refused(5, 2),
        Some("The domain width must evenly divide the number of samples.".to_string())
    );
    assert_eq!(refused(2, 2), Some("The domain must have at least 2 rows.".to_string()));
    assert_eq!(refused(0, 2), Some("The domain must have at least 2 rows.".to_string()));
    assert_eq!(refused(4, 2), None);
}

#[test]
fn solver_stays_usable_after_a_failed_job() {
    let solver = MorseSmaleSolver::new(usable()).unwrap();
    assert!(solver.with_samples(vec![0u32; 5], 2).is_err());
    let rejected = solver.with_samples(vec![0u32; 4], 2).unwrap().advance(Event::BuffersRejected);
    assert_eq!(
        solver.finish(rejected),
        Err("Failed to allocate the buffers of the job.".to_string())
    );
    let job = solver.with_samples(vec![0u32; 4], 2).unwrap();
    assert_eq!(solver.finish(device(job, &[0u8; 64])), Ok(vec![0u32; 16]));
}

#[test]
fn failed_readback_is_told_in_words() {
    let solver = MorseSmaleSolver::new(usable()).unwrap();
    for signal in [MapSignal::MapFailed, MapSignal::ChannelClosed] {
        let job = solver
            .with_samples(vec![0u32; 4], 2)
            .unwrap()
            .advance(Event::BuffersReady)
            .advance(Event::Submitted)
            .advance(Event::MapRequested)
            .advance(Event::DeviceIdle)
            .advance(Event::Signalled(signal));
        assert_eq!(
            solver.finish(job),
            Err("Could not successfully read the result".to_string())
        );
    }
}

#[test]
fn unfinished_job_has_no_result() {
    let solver = MorseSmaleSolver::new(usable()).unwrap();
    let view = [0u8; 64];
    let events = [
        Event::BuffersReady,
        Event::Submitted,
        Event::MapRequested,
        Event::DeviceIdle,
        Event::Signalled(MapSignal::Mapped),
        Event::View(&view),
    ];
    for taken in 0..=events.len() {
        let mut job = solver.with_samples(vec![0u32; 4], 2).unwrap();
        for event in &events[..taken] {
            job = job.advance(*event);
        }
        assert_eq!(
            solver.finish(job),
            Err("Could not successfully read the result".to_string())
        );
    }
}

#[test]
fn overflow_marker_reaches_the_caller() {
    let solver = MorseSmaleSolver::new(usable()).unwrap();
    let job = solver.with_samples(vec![0u32; 4], 2).unwrap();
    let mut view = vec![0u8; 64];
    for byte in &mut view[20..24] {
        *byte = 0xFF;
    }
    let codes = solver.finish(device(job, &view)).unwrap();
    for (slot, code) in codes.iter().enumerate() {
        assert_eq!(*code, if slot == 5 { 0xFFFF_FFFF } else { 0 });
    }
}
