//! The device context: the native handles of one device and the single piece
//! of state that changes from frame to frame.

use vstd::prelude::*;
use vstd::string::*;

use crate::render::hal::vulkan::command_list::CommandList;
use crate::render::hal::vulkan::native::{
    AcquireNextImage, Extent2D, PipelineStageFlags2, QueuePresent, QueueSubmit,
    SemaphoreSubmitInfo, NULL_HANDLE, PIPELINE_STAGE_2_ALL_COMMANDS, WAIT_TIMEOUT_NS,
};
use crate::render::hal::vulkan::sync::{Fence, Semaphore};
use crate::render::hal::vulkan::{next_slot, spec_next_slot, FRAME_OVERLAP};
use crate::render::hal::{Error, RendererCreateInfo};

verus! {

/// The native objects that the device bootstrap hands to the device context.
pub struct DeviceHandles {
    pub instance: u64,
    pub debug_callback: u64,
    pub physical_device: u64,
    pub present_family_idx: u32,
    pub graphics_family_idx: u32,
    pub present_queue: u64,
    pub graphics_queue: u64,
    pub surface: u64,
    pub swapchain: u64,
    pub swapchain_images: Vec<u64>,
    pub swapchain_imageviews: Vec<u64>,
    pub device: u64,
    pub command_pool: u64,
    pub descriptor_pool: u64,
}

impl DeviceHandles {
    /// A swapchain has at least one image, and one view per image.
    pub open spec fn valid(&self) -> bool {
        &&& self.swapchain_images@.len() > 0
        &&& self.swapchain_imageviews@.len() == self.swapchain_images@.len()
    }
}

/// The device context.
pub struct Renderer {
    handles: DeviceHandles,
    extent: Extent2D,
    frame_number: usize,
    swapchain_image_idx: u32,
}

impl Renderer {
    /// The native objects of the device.
    pub closed spec fn spec_handles(&self) -> DeviceHandles {
        self.handles
    }

    /// Size of the presentable images.
    pub closed spec fn spec_extent(&self) -> Extent2D {
        self.extent
    }

    /// The current frame slot.
    pub closed spec fn spec_current_frame(&self) -> usize {
        self.frame_number
    }

    /// Index of the presentable image that was acquired last.
    pub closed spec fn spec_swapchain_image_idx(&self) -> u32 {
        self.swapchain_image_idx
    }

    /// What holds of every device context.
    pub open spec fn wf(&self) -> bool {
        &&& self.spec_handles().valid()
        &&& self.spec_current_frame() < FRAME_OVERLAP
        &&& (self.spec_swapchain_image_idx() as int) < self.spec_handles().swapchain_images@.len()
    }

    #[verifier::type_invariant]
    spec fn inv(&self) -> bool {
        self.wf()
    }

    /// Message of the error for a swapchain without images.
    pub open spec fn no_images_message() -> Seq<char> {
        "Swapchain has no images"@
    }

    /// Message of the error for a swapchain whose views do not match its images.
    pub open spec fn view_count_message() -> Seq<char> {
        "Swapchain image views do not match the swapchain images"@
    }

    /// Message of the error for an acquired image index outside the swapchain.
    pub open spec fn image_index_message() -> Seq<char> {
        "Acquired image index is outside the swapchain"@
    }

    /// Builds the device context around the native objects of a device.
    ///
    /// The context starts in frame slot 0 with image index 0. It is refused
    /// when the swapchain has no image or not one view per image.
    pub fn new(handles: DeviceHandles, info: &RendererCreateInfo) -> (result: Result<Renderer, Error>)
        ensures
            match result {
                Ok(renderer) => {
                    &&& handles.valid()
                    &&& renderer.wf()
                    &&& renderer.spec_handles() == handles
                    &&& renderer.spec_extent() == (Extent2D {
                        width: info.window_size.0,
                        height: info.window_size.1,
                    })
                    &&& renderer.spec_current_frame() == 0
                    &&& renderer.spec_swapchain_image_idx() == 0
                },
                Err(error) => {
                    &&& !handles.valid()
                    &&& error.message() == if handles.swapchain_images@.len() == 0 {
                        Self::no_images_message()
                    } else {
                        Self::view_count_message()
                    }
                },
            },
    {
        if handles.swapchain_images.len() == 0 {
            return Err(Error::Backend(String::from_str("Swapchain has no images")));
        }
        if handles.swapchain_imageviews.len() != handles.swapchain_images.len() {
            return Err(
                Error::Backend(
                    String::from_str("Swapchain image views do not match the swapchain images"),
                ),
            );
        }
        let extent = Extent2D { width: info.window_size.0, height: info.window_size.1 };
        Ok(Renderer { handles, extent, frame_number: 0, swapchain_image_idx: 0 })
    }

    /// The native objects of the device.
    pub fn handles(&self) -> (handles: &DeviceHandles)
        ensures
            *handles == self.spec_handles(),
            handles.valid(),
    {
        proof {
            use_type_invariant(self);
        }
        &self.handles
    }

    /// Size of the presentable images.
    pub fn extent(&self) -> (extent: Extent2D)
        ensures
            extent == self.spec_extent(),
    {
        self.extent
    }

    /// The current frame slot.
    #[verifier::when_used_as_spec(spec_current_frame)]
    pub fn current_frame(&self) -> (slot: usize)
        ensures
            slot == self.spec_current_frame(),
            slot < FRAME_OVERLAP,
    {
        proof {
            use_type_invariant(self);
        }
        self.frame_number
    }

    /// Index of the presentable image that was acquired last.
    pub fn swapchain_image_idx(&self) -> (idx: u32)
        ensures
            idx == self.spec_swapchain_image_idx(),
            (idx as int) < self.spec_handles().swapchain_images@.len(),
    {
        proof {
            use_type_invariant(self);
        }
        self.swapchain_image_idx
    }

    /// The request for the next presentable image: the GPU signals the
    /// semaphore of the current frame slot when the image is ready, the CPU
    /// waits no longer than one second, and no fence is involved.
    pub fn start_frame(&self, signal_semaphore: &Semaphore) -> (call: AcquireNextImage)
        ensures
            call == (AcquireNextImage {
                swapchain: self.spec_handles().swapchain,
                timeout: WAIT_TIMEOUT_NS,
                semaphore: signal_semaphore.handles()[self.spec_current_frame() as int],
                fence: NULL_HANDLE,
            }),
    {
        AcquireNextImage {
            swapchain: self.handles.swapchain,
            timeout: WAIT_TIMEOUT_NS,
            semaphore: signal_semaphore.get_raw(self),
            fence: NULL_HANDLE,
        }
    }

    /// Takes the outcome of the request of [`Renderer::start_frame`]: the
    /// index of the acquired image, or the result code of the failed call.
    ///
    /// The index is stored when it names an image of the swapchain. A failed
    /// call, or an index outside the swapchain, is an error and changes
    /// nothing.
    pub fn image_acquired(&mut self, outcome: Result<u32, i32>) -> (result: Result<(), Error>)
        ensures
            final(self).wf(),
            final(self).spec_handles() == old(self).spec_handles(),
            final(self).spec_extent() == old(self).spec_extent(),
            final(self).spec_current_frame() == old(self).spec_current_frame(),
            match outcome {
                Ok(idx) => if (idx as int) < old(self).spec_handles().swapchain_images@.len() {
                    &&& result is Ok
                    &&& final(self).spec_swapchain_image_idx() == idx
                } else {
                    &&& result matches Err(error)
                    &&& error.message() == Self::image_index_message()
                    &&& final(self).spec_swapchain_image_idx() == old(
                        self,
                    ).spec_swapchain_image_idx()
                },
                Err(code) => {
                    &&& result matches Err(error)
                    &&& error.message() == Error::vk_message(code)
                    &&& final(self).spec_swapchain_image_idx() == old(
                        self,
                    ).spec_swapchain_image_idx()
                },
            },
    {
        proof {
            use_type_invariant(&*self);
        }
        match outcome {
            Ok(idx) => {
                if (idx as usize) < self.handles.swapchain_images.len() {
                    self.swapchain_image_idx = idx;
                    Ok(())
                } else {
                    Err(
                        Error::Backend(
                            String::from_str("Acquired image index is outside the swapchain"),
                        ),
                    )
                }
            },
            Err(code) => Err(Error::from_vk_result(code)),
        }
    }

    /// The presentable image that was acquired last.
    pub fn get_current_swapchain_img(&self) -> (image: u64)
        ensures
            image == self.spec_handles().swapchain_images@[self.spec_swapchain_image_idx() as int],
    {
        proof {
            use_type_invariant(self);
        }
        self.handles.swapchain_images[self.swapchain_image_idx as usize]
    }

    /// How a semaphore enters a submission: its native semaphore of the
    /// current frame slot, at every command of the queue.
    pub open spec fn spec_semaphore_submit_info(
        &self,
        semaphore: &Semaphore,
    ) -> SemaphoreSubmitInfo {
        SemaphoreSubmitInfo {
            semaphore: semaphore.handles()[self.spec_current_frame() as int],
            value: 1,
            stage_mask: PipelineStageFlags2 { bits: PIPELINE_STAGE_2_ALL_COMMANDS },
            device_index: 0,
        }
    }

    /// How a semaphore enters a submission.
    pub fn semaphore_submit_info(&self, semaphore: &Semaphore) -> (info: SemaphoreSubmitInfo)
        ensures
            info == self.spec_semaphore_submit_info(semaphore),
    {
        SemaphoreSubmitInfo {
            semaphore: semaphore.get_raw(self),
            value: 1,
            stage_mask: PipelineStageFlags2 { bits: PIPELINE_STAGE_2_ALL_COMMANDS },
            device_index: 0,
        }
    }

    /// How each semaphore of `semaphores` enters a submission, in order.
    fn semaphore_submit_infos(&self, semaphores: &[&Semaphore]) -> (infos: Vec<SemaphoreSubmitInfo>)
        ensures
            infos@.len() == semaphores@.len(),
            forall|i: int|
                0 <= i < infos@.len() ==> infos@[i] == self.spec_semaphore_submit_info(
                    #[trigger] semaphores@[i],
                ),
    {
        let mut infos: Vec<SemaphoreSubmitInfo> = Vec::new();
        let mut i: usize = 0;
        while i < semaphores.len()
            invariant
                i <= semaphores@.len(),
                infos@.len() == i,
                forall|k: int|
                    0 <= k < i ==> infos@[k] == self.spec_semaphore_submit_info(
                        #[trigger] semaphores@[k],
                    ),
            decreases semaphores@.len() - i,
        {
            infos.push(self.semaphore_submit_info(semaphores[i]));
            i += 1;
        }
        infos
    }

    /// The submission of the command buffer that `command_list` has for the
    /// current frame slot to the graphics queue.
    ///
    /// Every semaphore and the fence enter with their native object of the
    /// current frame slot: the GPU waits for each of `wait_semaphores` before
    /// it starts, and signals each of `signal_semaphores` and `signal_fence`
    /// when it has finished.
    pub fn submit(
        &self,
        command_list: &CommandList,
        wait_semaphores: &[&Semaphore],
        signal_semaphores: &[&Semaphore],
        signal_fence: &Fence,
    ) -> (call: QueueSubmit)
        ensures
            call.queue == self.spec_handles().graphics_queue,
            call.command_buffer == command_list.spec_current(self),
            call.device_mask == 0,
            call.fence == signal_fence.handles()[self.spec_current_frame() as int],
            call.wait_semaphore_infos@.len() == wait_semaphores@.len(),
            forall|i: int|
                0 <= i < wait_semaphores@.len() ==> call.wait_semaphore_infos@[i]
                    == self.spec_semaphore_submit_info(#[trigger] wait_semaphores@[i]),
            call.signal_semaphore_infos@.len() == signal_semaphores@.len(),
            forall|i: int|
                0 <= i < signal_semaphores@.len() ==> call.signal_semaphore_infos@[i]
                    == self.spec_semaphore_submit_info(#[trigger] signal_semaphores@[i]),
    {
        QueueSubmit {
            queue: self.handles.graphics_queue,
            wait_semaphore_infos: self.semaphore_submit_infos(wait_semaphores),
            signal_semaphore_infos: self.semaphore_submit_infos(signal_semaphores),
            command_buffer: command_list.get_current(self),
            device_mask: 0,
            fence: signal_fence.get_raw(self),
        }
    }

    /// The request to present the image that was acquired last, gated on the
    /// semaphore of the frame slot that ends; the context then moves on to the
    /// next frame slot.
    ///
    /// The slot advances whether or not the native call will succeed: nothing
    /// else ever changes it.
    pub fn present(&mut self, wait_semaphore: &Semaphore) -> (call: QueuePresent)
        ensures
            call == (QueuePresent {
                queue: old(self).spec_handles().graphics_queue,
                swapchain: old(self).spec_handles().swapchain,
                wait_semaphore: wait_semaphore.handles()[old(self).spec_current_frame() as int],
                image_index: old(self).spec_swapchain_image_idx(),
            }),
            final(self).wf(),
            final(self).spec_current_frame() as int == spec_next_slot(
                old(self).spec_current_frame() as int,
            ),
            final(self).spec_handles() == old(self).spec_handles(),
            final(self).spec_extent() == old(self).spec_extent(),
            final(self).spec_swapchain_image_idx() == old(self).spec_swapchain_image_idx(),
    {
        proof {
            use_type_invariant(&*self);
        }
        let call = QueuePresent {
            queue: self.handles.graphics_queue,
            swapchain: self.handles.swapchain,
            wait_semaphore: wait_semaphore.get_raw(self),
            image_index: self.swapchain_image_idx,
        };
        self.frame_number = next_slot(self.frame_number);
        call
    }

    /// Ends the life of the device context. The calls destroy what it owns,
    /// in this order: once the device is idle, everything is destroyed in the
    /// reverse of the order in which it was created.
    pub fn teardown(self) -> (calls: Vec<TeardownCall>)
        ensures
            calls@ == spec_teardown(self.spec_handles()),
    {
        let mut calls: Vec<TeardownCall> = Vec::new();
        calls.push(TeardownCall::DeviceWaitIdle);
        calls.push(TeardownCall::DestroyDescriptorPool { pool: self.handles.descriptor_pool });
        calls.push(TeardownCall::DestroyAllocator);
        calls.push(TeardownCall::DestroyCommandPool { pool: self.handles.command_pool });
        let ghost head = calls@;
        let mut i: usize = 0;
        while i < self.handles.swapchain_imageviews.len()
            invariant
                i <= self.handles.swapchain_imageviews@.len(),
                calls@ == head + spec_destroy_views(
                    self.handles.swapchain_imageviews@.subrange(0, i as int),
                ),
            decreases self.handles.swapchain_imageviews@.len() - i,
        {
            calls.push(
                TeardownCall::DestroyImageView { image_view: self.handles.swapchain_imageviews[i] },
            );
            i += 1;
        }
        calls.push(TeardownCall::DestroySwapchain { swapchain: self.handles.swapchain });
        calls.push(TeardownCall::DestroyDevice { device: self.handles.device });
        calls.push(TeardownCall::DestroySurface { surface: self.handles.surface });
        calls.push(
            TeardownCall::DestroyDebugMessenger { messenger: self.handles.debug_callback },
        );
        calls.push(TeardownCall::DestroyInstance { instance: self.handles.instance });
        calls
    }
}

/// A call of the teardown of a device context.
#[derive(Clone, Copy, Debug, PartialEq, Eq, Structural)]
pub enum TeardownCall {
    /// Block until the GPU has finished all submitted work.
    DeviceWaitIdle,
    DestroyDescriptorPool { pool: u64 },
    /// Destroy the memory allocator of the device.
    DestroyAllocator,
    DestroyCommandPool { pool: u64 },
    DestroyImageView { image_view: u64 },
    DestroySwapchain { swapchain: u64 },
    DestroyDevice { device: u64 },
    DestroySurface { surface: u64 },
    DestroyDebugMessenger { messenger: u64 },
    DestroyInstance { instance: u64 },
}

/// The destruction of each of `views`, in order.
pub open spec fn spec_destroy_views(views: Seq<u64>) -> Seq<TeardownCall> {
    Seq::new(views.len(), |i: int| TeardownCall::DestroyImageView { image_view: views[i] })
}

/// The teardown of a device context with the native objects `handles`.
pub open spec fn spec_teardown(handles: DeviceHandles) -> Seq<TeardownCall> {
    seq![
        TeardownCall::DeviceWaitIdle,
        TeardownCall::DestroyDescriptorPool { pool: handles.descriptor_pool },
        TeardownCall::DestroyAllocator,
        TeardownCall::DestroyCommandPool { pool: handles.command_pool },
    ] + spec_destroy_views(handles.swapchain_imageviews@) + seq![
        TeardownCall::DestroySwapchain { swapchain: handles.swapchain },
        TeardownCall::DestroyDevice { device: handles.device },
        TeardownCall::DestroySurface { surface: handles.surface },
        TeardownCall::DestroyDebugMessenger { messenger: handles.debug_callback },
        TeardownCall::DestroyInstance { instance: handles.instance },
    ]
}

/// Whether `call` destroys something that was created from the device.
pub open spec fn consumes_device(call: TeardownCall) -> bool {
    call is DestroyDescriptorPool || call is DestroyAllocator || call is DestroyCommandPool
        || call is DestroyImageView || call is DestroySwapchain
}

/// The teardown waits for the GPU before anything else, destroys everything
/// that was created from the device before the device, and the device before
/// what the device was created from.
pub proof fn lemma_teardown_order(handles: DeviceHandles)
    ensures
        ({
            let calls = spec_teardown(handles);
            let device = 5 + handles.swapchain_imageviews@.len() as int;
            &&& calls.len() == 9 + handles.swapchain_imageviews@.len()
            &&& calls[0] == TeardownCall::DeviceWaitIdle
            &&& calls[device] == (TeardownCall::DestroyDevice { device: handles.device })
            &&& forall|i: int| 0 < i < device ==> consumes_device(#[trigger] calls[i])
            &&& forall|i: int| device <= i < calls.len() ==> !consumes_device(#[trigger] calls[i])
            &&& calls[calls.len() - 1] == (TeardownCall::DestroyInstance {
                instance: handles.instance,
            })
        }),
{
}

/// Something that happens to a device context in the course of a frame.
pub enum FrameEvent {
    /// The outcome of a request for the next presentable image arrived.
    ImageAcquired { outcome: Result<u32, i32> },
    /// A present was requested.
    Present,
}

/// The frame slot of a device context that was in frame slot `start` before
/// `events` happened to it, one after the other.
pub open spec fn slot_after(start: int, events: Seq<FrameEvent>) -> int
    decreases events.len(),
{
    if events.len() == 0 {
        start
    } else {
        let before = slot_after(start, events.drop_last());
        match events.last() {
            FrameEvent::Present => spec_next_slot(before),
            FrameEvent::ImageAcquired { .. } => before,
        }
    }
}

/// The number of presents among `events`.
pub open spec fn presents(events: Seq<FrameEvent>) -> nat
    decreases events.len(),
{
    if events.len() == 0 {
        0
    } else {
        presents(events.drop_last()) + if events.last() is Present {
            1nat
        } else {
            0nat
        }
    }
}

/// The frame slot depends on nothing but the number of presents: each
/// present advances it by one position in the ring, and whatever happens in
/// between leaves it alone. A device context that starts in frame slot 0 is
/// in frame slot `N mod FRAME_OVERLAP` after `N` presents.
pub proof fn lemma_slot_counts_presents(start: int, events: Seq<FrameEvent>)
    requires
        0 <= start < FRAME_OVERLAP,
    ensures
        0 <= slot_after(start, events) < FRAME_OVERLAP,
        slot_after(start, events) == (start + presents(events)) % (FRAME_OVERLAP as int),
        start == 0 ==> slot_after(start, events) == presents(events) % (FRAME_OVERLAP as nat),
    decreases events.len(),
{
    if events.len() > 0 {
        lemma_slot_counts_presents(start, events.drop_last());
    }
}

} // verus!
