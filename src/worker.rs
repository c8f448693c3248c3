//! The work item: which compute program to run, on which input buffers,
//! how many output elements to expect, and the thread-group shape.
use vstd::prelude::*;

verus! {

/// Element types that a compute job may carry: the fixed-width integers.
pub trait GpuWorkType {}

impl GpuWorkType for u8 {}

impl GpuWorkType for u16 {}

impl GpuWorkType for u32 {}

impl GpuWorkType for u64 {}

impl GpuWorkType for i8 {}

impl GpuWorkType for i16 {}

impl GpuWorkType for i32 {}

impl GpuWorkType for i64 {}

/// Thread-group dimensions of a kernel launch.
#[derive(Debug, Clone, Copy, PartialEq, Eq, Structural)]
pub struct Vec3 {
    pub x: u16,
    pub y: u16,
    pub z: u16,
}

impl Default for Vec3 {
    /// The widest shape along x, one group along y and z.
    fn default() -> (r: Self)
        ensures
            r.x == u16::MAX,
            r.y == 1,
            r.z == 1,
    {
        Vec3 { x: u16::MAX, y: 1, z: 1 }
    }
}

/// One compute job over elements of type `T`.
#[derive(Debug)]
pub struct GpuWork<T> where T: GpuWorkType {
    /// Identifies the compute program to load.
    pub file_name: String,
    /// The input buffers, bound in this order.
    pub work_data: Vec<Vec<T>>,
    /// How many elements the program writes to its output buffer.
    pub out_data_len: u64,
    /// Thread groups along each axis.
    pub work_size: Vec3,
}

} // verus!
