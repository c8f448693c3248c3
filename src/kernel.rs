//! The binding and launch protocol of one job: which buffers the kernel
//! sees, in which order and with which access, and how it is launched.
use vstd::layout::size_of;
use vstd::prelude::*;

use crate::worker::{GpuWork, GpuWorkType, Vec3};

verus! {

/// How the kernel may access a bound buffer.
#[derive(Debug, Clone, Copy, PartialEq, Eq, Structural)]
pub enum BufferUsage {
    ReadOnly,
    ReadWrite,
}

/// Which buffer a binding slot holds.
#[derive(Debug, Clone, Copy, PartialEq, Eq, Structural)]
pub enum BufferSource {
    /// The input buffer at this index of the work item.
    Input(usize),
    /// The single output buffer.
    Output,
}

/// One slot of the kernel's binding set.
#[derive(Debug, Clone, Copy, PartialEq, Eq, Structural)]
pub struct Binding {
    pub source: BufferSource,
    pub usage: BufferUsage,
}

/// Everything the device needs, besides the program and the data, to run
/// one job.
#[derive(Debug)]
pub struct KernelPlan {
    /// The binding set, slot by slot.
    pub bindings: Vec<Binding>,
    /// The kernel entry point every program exposes.
    pub entry_point: String,
    /// Elements in the output buffer.
    pub output_len: u64,
    /// Bytes in the output buffer.
    pub output_bytes: u64,
    /// Thread groups launched along x, y and z.
    pub groups: (u32, u32, u32),
}

/// The job cannot be planned.
#[derive(Debug, Clone, Copy, PartialEq, Eq, Structural)]
pub enum PlanError {
    /// The output buffer's size in bytes does not fit in a `u64`.
    OutputTooLarge,
}

/// The binding in slot `i` for a job with `n` input buffers: the inputs in
/// their order, read-only, then the output, read-write.
pub open spec fn binding_at(n: nat, i: int) -> Binding {
    if i < n {
        Binding { source: BufferSource::Input(i as usize), usage: BufferUsage::ReadOnly }
    } else {
        Binding { source: BufferSource::Output, usage: BufferUsage::ReadWrite }
    }
}

/// The whole binding set for a job with `n` input buffers.
pub open spec fn binding_set(n: nat) -> Seq<Binding> {
    Seq::new(n + 1, |i: int| binding_at(n, i))
}

/// Bytes taken by `len` elements of type `T`.
pub open spec fn buffer_bytes<T>(len: u64) -> int {
    len * size_of::<T>()
}

/// The name of the entry point every compute program exposes.
pub open spec fn entry_point_name() -> Seq<char> {
    seq!['m', 'a', 'i', 'n']
}

/// What a plan for `n` inputs, `output_len` output elements of
/// `output_bytes` bytes in all, launched in `shape`, holds.
pub open spec fn plan_matches(
    plan: KernelPlan,
    n: nat,
    output_len: u64,
    output_bytes: int,
    shape: Vec3,
) -> bool {
    &&& plan.bindings@ == binding_set(n)
    &&& plan.entry_point@ == entry_point_name()
    &&& plan.output_len == output_len
    &&& plan.output_bytes == output_bytes
    &&& plan.groups == (shape.x as u32, shape.y as u32, shape.z as u32)
}

/// Plans a job with `n_inputs` input buffers and an output of `output_len`
/// elements of `elem_bytes` bytes each, launched in `shape`. It fails only
/// when the output buffer would be too large to address.
pub fn plan_launch(n_inputs: usize, output_len: u64, elem_bytes: u64, shape: Vec3) -> (r: Result<
    KernelPlan,
    PlanError,
>)
    ensures
        r is Ok <==> output_len * elem_bytes <= u64::MAX,
        r is Err ==> r == Err::<KernelPlan, PlanError>(PlanError::OutputTooLarge),
        r matches Ok(plan) ==> plan_matches(
            plan,
            n_inputs as nat,
            output_len,
            output_len * elem_bytes,
            shape,
        ),
{
    let output_bytes = match output_len.checked_mul(elem_bytes) {
        Some(b) => b,
        None => {
            return Err(PlanError::OutputTooLarge);
        },
    };
    let mut bindings: Vec<Binding> = Vec::new();
    let mut i: usize = 0;
    while i < n_inputs
        invariant
            i <= n_inputs,
            bindings@ == binding_set(n_inputs as nat).take(i as int),
        decreases n_inputs - i,
    {
        bindings.push(Binding { source: BufferSource::Input(i), usage: BufferUsage::ReadOnly });
        i = i + 1;
    }
    bindings.push(Binding { source: BufferSource::Output, usage: BufferUsage::ReadWrite });
    assert(bindings@ =~= binding_set(n_inputs as nat));
    let entry_point = "main".to_owned();
    proof {
        reveal_strlit("main");
    }
    let groups = (shape.x as u32, shape.y as u32, shape.z as u32);
    let plan = KernelPlan { bindings, entry_point, output_len, output_bytes, groups };
    assert(plan.entry_point@ == entry_point_name());
    Ok(plan)
}

/// Plans the binding set and the launch of `work`. It fails only when the
/// output buffer would be too large to address.
pub fn kernel_plan<T: GpuWorkType>(work: &GpuWork<T>) -> (r: Result<KernelPlan, PlanError>)
    ensures
        r is Ok <==> buffer_bytes::<T>(work.out_data_len) <= u64::MAX,
        r is Err ==> r == Err::<KernelPlan, PlanError>(PlanError::OutputTooLarge),
        r matches Ok(plan) ==> plan_matches(
            plan,
            work.work_data@.len(),
            work.out_data_len,
            buffer_bytes::<T>(work.out_data_len),
            work.work_size,
        ),
{
    let width = core::mem::size_of::<T>() as u64;
    plan_launch(work.work_data.len(), work.out_data_len, width, work.work_size)
}

} // verus!
