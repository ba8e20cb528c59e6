//! The binding contract of the kernel, and the buffers of a job that meet it.
//!
//! The kernel has one entry point and reads its resources from one bind
//! group of three slots. A job owns four buffers: the three that the kernel
//! sees, and a staging buffer through which the output reaches the host.
use crate::plan::JobPlan;
use crate::records::WORD_BYTES;
use vstd::prelude::*;

verus! {

/// Index of the bind group that carries all resources of the kernel.
pub const BIND_GROUP: u32 = 0;

/// How the kernel accesses the buffer bound to a slot.
#[derive(Clone, Copy, Debug, PartialEq, Eq, Structural)]
pub enum BindingKind {
    /// A uniform value, read by every invocation.
    Uniform,
    /// A storage array that the kernel only reads.
    ReadOnlyStorage,
    /// A storage array that the kernel reads and writes.
    ReadWriteStorage,
}

/// One slot of the bind group.
#[derive(Clone, Copy, Debug)]
pub struct BindingSlot {
    /// Index of the slot in the group.
    pub index: u32,
    /// Access of the kernel to the slot.
    pub kind: BindingKind,
    /// Least size in bytes of a buffer bound here, where one is declared.
    pub min_size: Option<u64>,
}

/// The buffers of one job.
#[derive(Clone, Copy, Debug, PartialEq, Eq, Structural)]
pub enum BufferRole {
    /// Holds the domain width.
    Parameter,
    /// Holds the samples.
    Samples,
    /// Receives one record per sample from the kernel.
    Output,
    /// Mirrors the output for the host.
    Staging,
}

/// What a buffer may be used for.
#[derive(Clone, Copy, Debug, PartialEq, Eq, Structural)]
pub struct BufferUsage {
    /// Bound as a uniform.
    pub uniform: bool,
    /// Bound as a storage array.
    pub storage: bool,
    /// Source of a copy.
    pub copy_source: bool,
    /// Destination of a copy.
    pub copy_target: bool,
    /// Mapped for reading by the host.
    pub map_read: bool,
}

/// The three slots that the kernel declares, in order.
pub open spec fn spec_kernel_layout() -> Seq<BindingSlot> {
    seq![
        BindingSlot { index: 0, kind: BindingKind::Uniform, min_size: Some(WORD_BYTES) },
        BindingSlot { index: 1, kind: BindingKind::ReadOnlyStorage, min_size: None },
        BindingSlot { index: 2, kind: BindingKind::ReadWriteStorage, min_size: None },
    ]
}

/// The uses that each buffer of a job is created for.
pub open spec fn spec_usage_of(role: BufferRole) -> BufferUsage {
    match role {
        BufferRole::Parameter => BufferUsage {
            uniform: true,
            storage: false,
            copy_source: false,
            copy_target: true,
            map_read: false,
        },
        BufferRole::Samples => BufferUsage {
            uniform: false,
            storage: true,
            copy_source: false,
            copy_target: false,
            map_read: false,
        },
        BufferRole::Output => BufferUsage {
            uniform: false,
            storage: true,
            copy_source: true,
            copy_target: true,
            map_read: false,
        },
        BufferRole::Staging => BufferUsage {
            uniform: false,
            storage: false,
            copy_source: false,
            copy_target: true,
            map_read: true,
        },
    }
}

/// The slot that each buffer of a job is bound to; the staging buffer is
/// bound nowhere.
pub open spec fn spec_binding_of(role: BufferRole) -> Option<u32> {
    match role {
        BufferRole::Parameter => Some(0u32),
        BufferRole::Samples => Some(1u32),
        BufferRole::Output => Some(2u32),
        BufferRole::Staging => None,
    }
}

/// Size in bytes of each buffer of a job.
pub open spec fn spec_size_of(plan: JobPlan, role: BufferRole) -> u64 {
    match role {
        BufferRole::Parameter => WORD_BYTES,
        BufferRole::Samples => plan.spec_input_size(),
        BufferRole::Output => plan.spec_output_size(),
        BufferRole::Staging => plan.spec_output_size(),
    }
}

/// Whether a buffer with the given uses may be bound to a slot of the
/// given kind.
pub open spec fn admits(kind: BindingKind, usage: BufferUsage) -> bool {
    match kind {
        BindingKind::Uniform => usage.uniform,
        BindingKind::ReadOnlyStorage => usage.storage,
        BindingKind::ReadWriteStorage => usage.storage,
    }
}

/// Name of the entry point of the kernel.
pub fn entry_point() -> (name: &'static str)
    ensures
        name@ == "compute_gradient"@,
{
    "compute_gradient"
}

/// The slots of the bind group, as the pipeline declares them.
pub fn kernel_layout() -> (slots: Vec<BindingSlot>)
    ensures
        slots@ == spec_kernel_layout(),
{
    let mut slots: Vec<BindingSlot> = Vec::new();
    slots.push(BindingSlot { index: 0, kind: BindingKind::Uniform, min_size: Some(WORD_BYTES) });
    slots.push(BindingSlot { index: 1, kind: BindingKind::ReadOnlyStorage, min_size: None });
    slots.push(BindingSlot { index: 2, kind: BindingKind::ReadWriteStorage, min_size: None });
    assert(slots@ =~= spec_kernel_layout());
    slots
}

/// The uses that a buffer of a job is created for.
#[verifier::when_used_as_spec(spec_usage_of)]
pub fn usage_of(role: BufferRole) -> (usage: BufferUsage)
    ensures
        usage == spec_usage_of(role),
{
    match role {
        BufferRole::Parameter => BufferUsage {
            uniform: true,
            storage: false,
            copy_source: false,
            copy_target: true,
            map_read: false,
        },
        BufferRole::Samples => BufferUsage {
            uniform: false,
            storage: true,
            copy_source: false,
            copy_target: false,
            map_read: false,
        },
        BufferRole::Output => BufferUsage {
            uniform: false,
            storage: true,
            copy_source: true,
            copy_target: true,
            map_read: false,
        },
        BufferRole::Staging => BufferUsage {
            uniform: false,
            storage: false,
            copy_source: false,
            copy_target: true,
            map_read: true,
        },
    }
}

/// The slot that a buffer of a job is bound to.
#[verifier::when_used_as_spec(spec_binding_of)]
pub fn binding_of(role: BufferRole) -> (slot: Option<u32>)
    ensures
        slot == spec_binding_of(role),
{
    match role {
        BufferRole::Parameter => Some(0),
        BufferRole::Samples => Some(1),
        BufferRole::Output => Some(2),
        BufferRole::Staging => None,
    }
}

/// Size in bytes of a buffer of a job.
pub fn size_of(plan: &JobPlan, role: BufferRole) -> (size: u64)
    ensures
        size == spec_size_of(*plan, role),
{
    match role {
        BufferRole::Parameter => WORD_BYTES,
        BufferRole::Samples => plan.input_size(),
        BufferRole::Output => plan.output_size(),
        BufferRole::Staging => plan.output_size(),
    }
}

/// Every buffer that a job binds fits the slot it is bound to: the slot
/// exists under that index, admits the uses of the buffer, and asks for no
/// more bytes than the buffer has.
pub proof fn lemma_buffers_fit_layout(plan: JobPlan, role: BufferRole)
    requires
        plan.wf(),
    ensures
        match spec_binding_of(role) {
            Some(slot) => {
                &&& slot < spec_kernel_layout().len()
                &&& spec_kernel_layout()[slot as int].index == slot
                &&& admits(spec_kernel_layout()[slot as int].kind, spec_usage_of(role))
                &&& match spec_kernel_layout()[slot as int].min_size {
                    Some(least) => least <= spec_size_of(plan, role),
                    None => true,
                }
            },
            None => role == BufferRole::Staging,
        },
{
}

/// Every slot of the kernel is served by exactly one buffer of a job.
pub proof fn lemma_layout_is_covered(slot: int)
    requires
        0 <= slot < spec_kernel_layout().len(),
    ensures
        exists|role: BufferRole| spec_binding_of(role) == Some(slot as u32),
        forall|first: BufferRole, second: BufferRole|
            spec_binding_of(first) == Some(slot as u32) && spec_binding_of(second) == Some(
                slot as u32,
            ) ==> first == second,
{
    if slot == 0 {
        assert(spec_binding_of(BufferRole::Parameter) == Some(0u32));
    } else if slot == 1 {
        assert(spec_binding_of(BufferRole::Samples) == Some(1u32));
    } else {
        assert(spec_binding_of(BufferRole::Output) == Some(2u32));
    }
}

/// The staging buffer is the only one that the host may map, and the kernel
/// cannot reach it; the output buffer is the only one a copy may read.
pub proof fn lemma_host_access(role: BufferRole)
    ensures
        spec_usage_of(role).map_read <==> role == BufferRole::Staging,
        spec_usage_of(role).map_read ==> spec_usage_of(role).copy_target && !spec_usage_of(
            role,
        ).storage && !spec_usage_of(role).uniform,
        spec_usage_of(role).copy_source <==> role == BufferRole::Output,
{
}

} // verus!
