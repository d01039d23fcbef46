//! Per-frame-slot synchronisation objects: fences order the GPU before the
//! CPU, semaphores order GPU work among itself.

use vstd::prelude::*;

use crate::render::hal::vulkan::native::{ResetFence, WaitForFence, WAIT_TIMEOUT_NS};
use crate::render::hal::vulkan::renderer::Renderer;
use crate::render::hal::vulkan::FRAME_OVERLAP;
use crate::render::hal::{FenceCreateInfo, SemaphoreCreateInfo};

verus! {

/// Bit of a fence's creation flags: the fence starts out signalled.
pub const FENCE_CREATE_SIGNALED: u32 = 0x1;

/// One native semaphore per frame slot.
pub struct Semaphore {
    semaphores: [u64; FRAME_OVERLAP],
}

impl Semaphore {
    /// The native semaphores, by frame slot.
    pub closed spec fn handles(&self) -> Seq<u64> {
        self.semaphores@
    }

    /// Takes over the native semaphores that were created for it, one per
    /// frame slot.
    pub fn new(semaphores: [u64; FRAME_OVERLAP], create_info: &SemaphoreCreateInfo) -> (semaphore:
        Self)
        ensures
            semaphore.handles() == semaphores@,
    {
        Semaphore { semaphores }
    }

    /// The native semaphore of the current frame slot.
    pub fn get_raw(&self, renderer: &Renderer) -> (raw: u64)
        ensures
            raw == self.handles()[renderer.spec_current_frame() as int],
    {
        let frame = renderer.current_frame();
        self.semaphores[frame]
    }

    /// The native semaphores, by frame slot, for their destruction.
    pub fn into_raw(self) -> (semaphores: [u64; FRAME_OVERLAP])
        ensures
            semaphores@ == self.handles(),
    {
        self.semaphores
    }
}

/// One native fence per frame slot.
pub struct Fence {
    fences: [u64; FRAME_OVERLAP],
}

impl Fence {
    /// The native fences, by frame slot.
    pub closed spec fn handles(&self) -> Seq<u64> {
        self.fences@
    }

    /// The creation flags of each native fence: it starts out signalled, so
    /// that the first wait on a slot returns at once.
    pub fn create_flags(create_info: &FenceCreateInfo) -> (flags: u32)
        ensures
            flags == FENCE_CREATE_SIGNALED,
    {
        FENCE_CREATE_SIGNALED
    }

    /// Takes over the native fences that were created for it, one per frame
    /// slot.
    pub fn new(fences: [u64; FRAME_OVERLAP], create_info: &FenceCreateInfo) -> (fence: Self)
        ensures
            fence.handles() == fences@,
    {
        Fence { fences }
    }

    /// The native fence of the current frame slot.
    pub fn get_raw(&self, renderer: &Renderer) -> (raw: u64)
        ensures
            raw == self.handles()[renderer.spec_current_frame() as int],
    {
        let frame = renderer.current_frame();
        self.fences[frame]
    }

    /// The wait of the CPU on the fence of the current frame slot, bounded by
    /// one second.
    pub fn wait(&self, renderer: &Renderer) -> (call: WaitForFence)
        ensures
            call == (WaitForFence {
                fence: self.handles()[renderer.spec_current_frame() as int],
                wait_all: true,
                timeout: WAIT_TIMEOUT_NS,
            }),
    {
        WaitForFence { fence: self.get_raw(renderer), wait_all: true, timeout: WAIT_TIMEOUT_NS }
    }

    /// The reset of the fence of the current frame slot.
    pub fn reset(&self, renderer: &Renderer) -> (call: ResetFence)
        ensures
            call == (ResetFence { fence: self.handles()[renderer.spec_current_frame() as int] }),
    {
        ResetFence { fence: self.get_raw(renderer) }
    }

    /// The native fences, by frame slot, for their destruction.
    pub fn into_raw(self) -> (fences: [u64; FRAME_OVERLAP])
        ensures
            fences@ == self.handles(),
    {
        self.fences
    }
}

} // verus!
