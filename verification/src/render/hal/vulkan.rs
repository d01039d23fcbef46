//! The Vulkan-shaped backend: per-frame-slot resources and the calls that
//! drive them.

use vstd::prelude::*;

pub mod bootstrap;
pub mod command_list;
pub mod descriptor_set;
pub mod frame_loop;
pub mod image;
pub mod native;
pub mod physical_device;
pub mod pipeline;
pub mod renderer;
pub mod shader;
pub mod sync;

verus! {

/// Number of frames that may be in flight at once; every per-frame resource
/// exists once per slot.
pub const FRAME_OVERLAP: usize = 2;

/// The slot that follows `slot` in the ring of frame slots.
pub open spec fn spec_next_slot(slot: int) -> int {
    (slot + 1) % (FRAME_OVERLAP as int)
}

/// Advances a slot index by one position in the ring.
pub fn next_slot(slot: usize) -> (next: usize)
    requires
        slot < FRAME_OVERLAP,
    ensures
        next < FRAME_OVERLAP,
        next as int == spec_next_slot(slot as int),
{
    (slot + 1) % FRAME_OVERLAP
}

} // verus!
