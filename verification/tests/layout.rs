use fast_morse_smale_2d::layout::{
    binding_of, entry_point, kernel_layout, size_of, usage_of, BindingKind, BufferRole, BIND_GROUP,
};
use fast_morse_smale_2d::plan::JobPlan;

const ROLES: [BufferRole; 4] = [
    BufferRole::Parameter,
    BufferRole::Samples,
    BufferRole::Output,
    BufferRole::Staging,
];

#[test]
fn kernel_has_one_entry_point_and_three_slots() {
    assert_eq!(entry_point(), "compute_gradient");
    assert_eq!(BIND_GROUP, 0);
    let slots = kernel_layout();
    assert_eq!(slots.len(), 3);
    assert_eq!((slots[0].index, slots[0].kind, slots[0].min_size), (0, BindingKind::Uniform, Some(4)));
    assert_eq!(
        (slots[1].index, slots[1].kind, slots[1].min_size),
        (1, BindingKind::ReadOnlyStorage, None)
    );
    assert_eq!(
        (slots[2].index, slots[2].kind, slots[2].min_size),
        (2, BindingKind::ReadWriteStorage, None)
    );
}

#[test]
fn every_slot_is_served_by_one_fitting_buffer() {
    let plan = JobPlan::new(6, 3).unwrap();
    for slot in kernel_layout() {
        let serving: Vec<BufferRole> =
            ROLES.iter().copied().filter(|role| binding_of(*role) == Some(slot.index)).collect();
        assert_eq!(serving.len(), 1);
        let usage = usage_of(serving[0]);
        match slot.kind {
            BindingKind::Uniform => assert!(usage.uniform),
            BindingKind::ReadOnlyStorage => assert!(usage.storage),
            BindingKind::ReadWriteStorage => assert!(usage.storage),
        }
        if let Some(least) = slot.min_size {
            assert!(size_of(&plan, serving[0]) >= least);
        }
    }
}

#[test]
fn only_the_staging_buffer_is_mapped() {
    for role in ROLES {
        assert_eq!(usage_of(role).map_read, role == BufferRole::Staging);
        assert_eq!(usage_of(role).copy_source, role == BufferRole::Output);
    }
    assert_eq!(binding_of(BufferRole::Staging), None);
    assert!(usage_of(BufferRole::Staging).copy_target);
}

#[test]
fn buffer_sizes_follow_the_plan() {
    let plan = JobPlan::new(1_000_000, 1000).unwrap();
    assert_eq!(size_of(&plan, BufferRole::Parameter), 4);
    assert_eq!(size_of(&plan, BufferRole::Samples), 4_000_000);
    assert_eq!(size_of(&plan, BufferRole::Output), 16_000_000);
    assert_eq!(size_of(&plan, BufferRole::Staging), 16_000_000);
}
