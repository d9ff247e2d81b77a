//! Per-frame dispatch decisions: what the two GPU stages are told to
//! do once a presentable frame target has been acquired.

use vstd::prelude::*;

use crate::cache::BindingCache;
use crate::store::total_of;

verus! {

/// Size in bytes of the shared output buffer that the compute stage
/// writes and the render stage reads: a fixed capacity for the maximum
/// expected vertex data, one cell per voxel of a 16-cubed chunk.
pub const VERTEX_BUFFER_SIZE: u64 = 16 * 16 * 16;

/// Something that can drive one frame: acquire a target, run the
/// compute and render stages, and present. Implemented by the
/// unverified device layer.
pub trait Render {
    fn render(&mut self);
}

/// The fixed decisions for one frame's two dispatches: the compute
/// stage's workgroup shape and the render stage's vertex count.
#[derive(Debug, Clone, Copy, PartialEq, Eq, Structural)]
pub struct FramePlan {
    /// Compute workgroups along x: always 1.
    pub workgroups_x: u32,
    /// Compute workgroups along y: always 6, one row per direction, so
    /// each direction's face sub-range is expanded independently.
    pub workgroups_y: u32,
    /// Compute workgroups along z: always 1.
    pub workgroups_z: u32,
    /// How many vertices the render stage draws: one per descriptor,
    /// derived from the store each frame, never a hardcoded constant.
    pub draw_vertex_count: u32,
}

/// Decides one frame. `acquired` reports whether the presentable
/// frame target was obtained: on failure the frame is skipped — a
/// recoverable frame-skip, never a panic — and retried on the next
/// drive cycle. On success the plan dispatches one workgroup row per
/// direction and draws exactly one vertex per stored descriptor.
pub fn plan_frame(acquired: bool, cache: &BindingCache) -> (p: Option<FramePlan>)
    requires
        total_of(cache.seqs()) <= u32::MAX,
    ensures
        acquired <==> p is Some,
        p matches Some(plan) ==> plan.workgroups_x == 1 && plan.workgroups_y == 6
            && plan.workgroups_z == 1 && plan.draw_vertex_count == total_of(cache.seqs()),
{
    if acquired {
        Some(
            FramePlan {
                workgroups_x: 1,
                workgroups_y: 6,
                workgroups_z: 1,
                draw_vertex_count: cache.total_count(),
            },
        )
    } else {
        None
    }
}

} // verus!
