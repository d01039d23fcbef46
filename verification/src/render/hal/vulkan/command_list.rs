//! Command lists: the recorder of GPU work for the current frame slot, and
//! the keeper of what that work refers to.

use std::sync::Arc;
use vstd::prelude::*;

use crate::render::hal::vulkan::descriptor_set::DescriptorSet;
use crate::render::hal::vulkan::frame_loop::slot_of_frame;
use crate::render::hal::vulkan::image::Texture;
use crate::render::hal::vulkan::native::{
    AccessFlags2, ClearColor, Command, CommandBufferCall, Extent2D, Filter, ImageAspectFlags,
    ImageBlit, ImageLayout, ImageMemoryBarrier, ImageSubresourceLayers, ImageSubresourceRange,
    Offset3D, PipelineBindPoint, PipelineStageFlags2, ACCESS_2_MEMORY_READ,
    ACCESS_2_MEMORY_WRITE, IMAGE_ASPECT_COLOR, IMAGE_ASPECT_DEPTH, PIPELINE_STAGE_2_ALL_COMMANDS,
    REMAINING_ARRAY_LAYERS, REMAINING_MIP_LEVELS,
};
use crate::render::hal::vulkan::pipeline::{ComputePipeline, PipelineLayout};
use crate::render::hal::vulkan::renderer::Renderer;
use crate::render::hal::vulkan::FRAME_OVERLAP;
use crate::render::hal::CommandListCreateInfo;

verus! {

/// Level of the command buffers of a command list: primary.
pub const COMMAND_BUFFER_LEVEL_PRIMARY: i32 = 0;

/// Request for the command buffers of a command list.
#[derive(Clone, Copy, Debug, PartialEq, Eq, Structural)]
pub struct CommandBufferAllocateInfo {
    pub command_pool: u64,
    pub level: i32,
    pub command_buffer_count: u32,
}

/// Where the command buffer of one frame slot stands.
#[derive(Clone, Copy, Debug, PartialEq, Eq, Structural)]
pub enum RecordingState {
    /// Nothing is recorded.
    Idle,
    /// Commands are being recorded.
    Recording,
    /// Recording has ended; the buffer can be submitted.
    Ready,
}

/// A shared object that recorded commands refer to.
pub enum Resource {
    ComputePipeline(Arc<ComputePipeline>),
    PipelineLayout(Arc<PipelineLayout>),
    DescriptorSet(Arc<DescriptorSet>),
}

/// A command list as a mathematical value.
pub struct CommandListView {
    /// The native command buffers, by frame slot.
    pub command_buffers: Seq<u64>,
    /// Where each command buffer stands, by frame slot.
    pub states: Seq<RecordingState>,
    /// Every object that was bound into the list, oldest first.
    pub retained: Seq<Resource>,
}

impl CommandListView {
    /// What holds of every command list: it has one command buffer, and one
    /// state, for each frame slot.
    pub open spec fn wf(self) -> bool {
        &&& self.command_buffers.len() == FRAME_OVERLAP
        &&& self.states.len() == FRAME_OVERLAP
    }

    /// The list with the command buffer of `slot` in state `state`.
    pub open spec fn with_state(self, slot: int, state: RecordingState) -> CommandListView {
        CommandListView { states: self.states.update(slot, state), ..self }
    }

    /// The list after a reset in frame slot `slot`: from any state, the
    /// command buffer of the slot is idle.
    pub open spec fn reset(self, slot: int) -> CommandListView {
        self.with_state(slot, RecordingState::Idle)
    }

    /// The list after recording was started in frame slot `slot`.
    pub open spec fn begin(self, slot: int) -> CommandListView {
        self.with_state(slot, RecordingState::Recording)
    }

    /// The list after recording was ended in frame slot `slot`: a recording
    /// command buffer is ready, any other stays as it is.
    pub open spec fn end(self, slot: int) -> CommandListView {
        if self.states[slot] == RecordingState::Recording {
            self.with_state(slot, RecordingState::Ready)
        } else {
            self
        }
    }

    /// The list after `resource` was bound into it.
    pub open spec fn retain(self, resource: Resource) -> CommandListView {
        CommandListView { retained: self.retained.push(resource), ..self }
    }
}

/// The signed corner coordinate of an unsigned size: the same 32 bits, read
/// as a two's-complement number.
pub open spec fn spec_offset_of_size(size: u32) -> i32 {
    if size <= i32::MAX {
        size as i32
    } else {
        (size - 0x1_0000_0000) as i32
    }
}

/// The signed corner coordinate of an unsigned size.
#[verifier::when_used_as_spec(spec_offset_of_size)]
pub fn offset_of_size(size: u32) -> (offset: i32)
    ensures
        offset == spec_offset_of_size(size),
{
    if size <= 0x7fff_ffff {
        size as i32
    } else {
        ((size - 0x8000_0000) as i32) + i32::MIN
    }
}

/// The whole of an image, in the given aspects: every mip level and every
/// array layer.
pub open spec fn spec_subresource_range(aspect_mask: ImageAspectFlags) -> ImageSubresourceRange {
    ImageSubresourceRange {
        aspect_mask,
        base_mip_level: 0,
        level_count: REMAINING_MIP_LEVELS,
        base_array_layer: 0,
        layer_count: REMAINING_ARRAY_LAYERS,
    }
}

/// The aspect that a barrier into `new_layout` covers: depth for the layout
/// of depth attachments, colour for every other layout.
pub open spec fn spec_barrier_aspect(new_layout: ImageLayout) -> ImageAspectFlags {
    if new_layout == ImageLayout::DepthAttachmentOptimal {
        ImageAspectFlags { bits: IMAGE_ASPECT_DEPTH }
    } else {
        ImageAspectFlags { bits: IMAGE_ASPECT_COLOR }
    }
}

/// The barrier that takes `image` from `old_layout` to `new_layout`.
///
/// It is as conservative as a barrier can be: both of its sides cover every
/// command of the queue and every read and write of memory, so whatever was
/// recorded before it has finished, with its memory accesses, before anything
/// recorded after it starts to read or write.
pub open spec fn spec_layout_transition(
    image: u64,
    old_layout: ImageLayout,
    new_layout: ImageLayout,
) -> ImageMemoryBarrier {
    ImageMemoryBarrier {
        src_stage_mask: PipelineStageFlags2 { bits: PIPELINE_STAGE_2_ALL_COMMANDS },
        src_access_mask: AccessFlags2 { bits: ACCESS_2_MEMORY_WRITE | ACCESS_2_MEMORY_READ },
        dst_stage_mask: PipelineStageFlags2 { bits: PIPELINE_STAGE_2_ALL_COMMANDS },
        dst_access_mask: AccessFlags2 { bits: ACCESS_2_MEMORY_WRITE | ACCESS_2_MEMORY_READ },
        old_layout,
        new_layout,
        subresource_range: spec_subresource_range(spec_barrier_aspect(new_layout)),
        image,
    }
}

/// The first mip level and the first array layer of the colour aspect.
pub open spec fn spec_color_layer() -> ImageSubresourceLayers {
    ImageSubresourceLayers {
        aspect_mask: ImageAspectFlags { bits: IMAGE_ASPECT_COLOR },
        mip_level: 0,
        base_array_layer: 0,
        layer_count: 1,
    }
}

/// The scaled copy of the region of `source` that spans `src_size` from the
/// origin onto the region of `dest` that spans `dst_size` from the origin,
/// with linear filtering. The source is in the transfer-source layout, the
/// destination in the transfer-destination layout.
pub open spec fn spec_image_copy(
    source: u64,
    dest: u64,
    src_size: Extent2D,
    dst_size: Extent2D,
) -> ImageBlit {
    ImageBlit {
        src_image: source,
        src_image_layout: ImageLayout::TransferSrcOptimal,
        dst_image: dest,
        dst_image_layout: ImageLayout::TransferDstOptimal,
        filter: Filter::Linear,
        src_subresource: spec_color_layer(),
        src_offset_min: Offset3D { x: 0, y: 0, z: 0 },
        src_offset_max: Offset3D {
            x: spec_offset_of_size(src_size.width),
            y: spec_offset_of_size(src_size.height),
            z: 1,
        },
        dst_subresource: spec_color_layer(),
        dst_offset_min: Offset3D { x: 0, y: 0, z: 0 },
        dst_offset_max: Offset3D {
            x: spec_offset_of_size(dst_size.width),
            y: spec_offset_of_size(dst_size.height),
            z: 1,
        },
    }
}

/// The command `command` on the command buffer `command_buffer`.
pub open spec fn on_buffer(command_buffer: u64, command: Command) -> CommandBufferCall {
    CommandBufferCall { command_buffer, command }
}

/// The recorder of GPU work: one command buffer per frame slot, and the
/// objects that were bound into it.
pub struct CommandList {
    command_buffers: [u64; FRAME_OVERLAP],
    states: [RecordingState; FRAME_OVERLAP],
    owned_resources: Vec<Resource>,
}

impl View for CommandList {
    type V = CommandListView;

    closed spec fn view(&self) -> CommandListView {
        CommandListView {
            command_buffers: self.command_buffers@,
            states: self.states@,
            retained: self.owned_resources@,
        }
    }
}

impl CommandList {
    /// What holds of every command list: it has one command buffer, and one
    /// state, for each frame slot.
    pub open spec fn wf(&self) -> bool {
        self@.wf()
    }

    #[verifier::type_invariant]
    spec fn inv(&self) -> bool {
        self.wf()
    }

    /// The command buffer of the frame slot that is current in `renderer`.
    pub open spec fn spec_current(&self, renderer: &Renderer) -> u64 {
        self@.command_buffers[renderer.spec_current_frame() as int]
    }

    /// Where the command buffer of the frame slot that is current in
    /// `renderer` stands.
    pub open spec fn spec_state(&self, renderer: &Renderer) -> RecordingState {
        self@.states[renderer.spec_current_frame() as int]
    }

    /// The request for the command buffers of a command list: primary
    /// buffers from the command pool of the device, one per frame slot.
    pub fn allocate_info(renderer: &Renderer, info: &CommandListCreateInfo) -> (request:
        CommandBufferAllocateInfo)
        ensures
            request == (CommandBufferAllocateInfo {
                command_pool: renderer.spec_handles().command_pool,
                level: COMMAND_BUFFER_LEVEL_PRIMARY,
                command_buffer_count: FRAME_OVERLAP as u32,
            }),
    {
        CommandBufferAllocateInfo {
            command_pool: renderer.handles().command_pool,
            level: COMMAND_BUFFER_LEVEL_PRIMARY,
            command_buffer_count: FRAME_OVERLAP as u32,
        }
    }

    /// Takes over the command buffers that were allocated for it, one per
    /// frame slot. Every buffer is idle and nothing is retained.
    pub fn new(command_buffers: [u64; FRAME_OVERLAP], info: CommandListCreateInfo) -> (list: Self)
        ensures
            list.wf(),
            list@.command_buffers == command_buffers@,
            list@.states == Seq::new(FRAME_OVERLAP as nat, |i: int| RecordingState::Idle),
            list@.retained == Seq::<Resource>::empty(),
    {
        let states = [RecordingState::Idle;FRAME_OVERLAP];
        let list = CommandList { command_buffers, states, owned_resources: Vec::new() };
        list
    }

    /// The command buffer of the current frame slot.
    pub fn get_current(&self, renderer: &Renderer) -> (command_buffer: u64)
        ensures
            self.wf(),
            command_buffer == self.spec_current(renderer),
    {
        let frame = renderer.current_frame();
        self.command_buffers[frame]
    }

    /// Where the command buffer of the current frame slot stands.
    pub fn state(&self, renderer: &Renderer) -> (state: RecordingState)
        ensures
            self.wf(),
            state == self.spec_state(renderer),
    {
        let frame = renderer.current_frame();
        self.states[frame]
    }

    /// The objects that were bound into the list, oldest first.
    pub fn owned_resources(&self) -> (retained: &Vec<Resource>)
        ensures
            retained@ == self@.retained,
    {
        &self.owned_resources
    }

    /// Discards what the command buffer of the current frame slot holds: from
    /// any state it is idle again. The command buffers of the other frame
    /// slots stay as they are, and so does what the list retains.
    pub fn reset(&mut self, renderer: &Renderer) -> (call: CommandBufferCall)
        ensures
            call == on_buffer(old(self).spec_current(renderer), Command::Reset),
            old(self).wf(),
            final(self).wf(),
            final(self)@ == old(self)@.reset(renderer.spec_current_frame() as int),
            final(self).spec_state(renderer) == RecordingState::Idle,
            forall|slot: int|
                0 <= slot < FRAME_OVERLAP && slot != renderer.spec_current_frame()
                    ==> final(self)@.states[slot] == old(self)@.states[slot],
    {
        let frame = renderer.current_frame();
        self.states[frame] = RecordingState::Idle;
        CommandBufferCall { command_buffer: self.command_buffers[frame], command: Command::Reset }
    }

    /// Starts recording into the command buffer of the current frame slot,
    /// which must not be recording already: it is recording then. The command
    /// buffers of the other frame slots stay as they are, and so does what
    /// the list retains.
    pub fn begin(&mut self, renderer: &Renderer) -> (call: CommandBufferCall)
        requires
            old(self).spec_state(renderer) != RecordingState::Recording,
        ensures
            call == on_buffer(old(self).spec_current(renderer), Command::Begin),
            old(self).wf(),
            final(self).wf(),
            final(self)@ == old(self)@.begin(renderer.spec_current_frame() as int),
            final(self).spec_state(renderer) == RecordingState::Recording,
            forall|slot: int|
                0 <= slot < FRAME_OVERLAP && slot != renderer.spec_current_frame()
                    ==> final(self)@.states[slot] == old(self)@.states[slot],
    {
        let frame = renderer.current_frame();
        self.states[frame] = RecordingState::Recording;
        CommandBufferCall { command_buffer: self.command_buffers[frame], command: Command::Begin }
    }

    /// Ends recording into the command buffer of the current frame slot: a
    /// command buffer that was recording is ready then, any other stays in
    /// its state. The command buffers of the other frame slots stay as they
    /// are, and so does what the list retains.
    pub fn end(&mut self, renderer: &Renderer) -> (call: CommandBufferCall)
        ensures
            call == on_buffer(old(self).spec_current(renderer), Command::End),
            old(self).wf(),
            final(self).wf(),
            final(self)@ == old(self)@.end(renderer.spec_current_frame() as int),
            final(self).spec_state(renderer) == if old(self).spec_state(renderer)
                == RecordingState::Recording {
                RecordingState::Ready
            } else {
                old(self).spec_state(renderer)
            },
            forall|slot: int|
                0 <= slot < FRAME_OVERLAP && slot != renderer.spec_current_frame()
                    ==> final(self)@.states[slot] == old(self)@.states[slot],
    {
        let frame = renderer.current_frame();
        if self.states[frame] == RecordingState::Recording {
            self.states[frame] = RecordingState::Ready;
        }
        CommandBufferCall { command_buffer: self.command_buffers[frame], command: Command::End }
    }

    /// The whole of an image, in the given aspects.
    pub fn subresource_range(aspect_mask: ImageAspectFlags) -> (range: ImageSubresourceRange)
        ensures
            range == spec_subresource_range(aspect_mask),
    {
        ImageSubresourceRange {
            aspect_mask,
            base_mip_level: 0,
            level_count: REMAINING_MIP_LEVELS,
            base_array_layer: 0,
            layer_count: REMAINING_ARRAY_LAYERS,
        }
    }

    /// Records the barrier that takes `image` from `old_layout` to
    /// `new_layout`.
    ///
    /// The barrier covers the depth aspect if and only if `new_layout` is the
    /// layout of depth attachments, and the colour aspect otherwise. Nothing
    /// checks that the image is in `old_layout`.
    pub fn transition_image_layout(
        &self,
        renderer: &Renderer,
        image: u64,
        old_layout: ImageLayout,
        new_layout: ImageLayout,
    ) -> (call: CommandBufferCall)
        ensures
            call == on_buffer(
                self.spec_current(renderer),
                Command::PipelineBarrier {
                    barrier: spec_layout_transition(image, old_layout, new_layout),
                },
            ),
            call.command matches Command::PipelineBarrier { barrier } && {
                &&& (barrier.subresource_range.aspect_mask.bits == IMAGE_ASPECT_DEPTH) == (
                new_layout == ImageLayout::DepthAttachmentOptimal)
                &&& (barrier.subresource_range.aspect_mask.bits == IMAGE_ASPECT_COLOR) == (
                new_layout != ImageLayout::DepthAttachmentOptimal)
            },
    {
        let aspect_mask = if new_layout == ImageLayout::DepthAttachmentOptimal {
            ImageAspectFlags { bits: IMAGE_ASPECT_DEPTH }
        } else {
            ImageAspectFlags { bits: IMAGE_ASPECT_COLOR }
        };
        let barrier = ImageMemoryBarrier {
            src_stage_mask: PipelineStageFlags2 { bits: PIPELINE_STAGE_2_ALL_COMMANDS },
            src_access_mask: AccessFlags2 { bits: ACCESS_2_MEMORY_WRITE | ACCESS_2_MEMORY_READ },
            dst_stage_mask: PipelineStageFlags2 { bits: PIPELINE_STAGE_2_ALL_COMMANDS },
            dst_access_mask: AccessFlags2 { bits: ACCESS_2_MEMORY_WRITE | ACCESS_2_MEMORY_READ },
            old_layout,
            new_layout,
            subresource_range: Self::subresource_range(aspect_mask),
            image,
        };
        CommandBufferCall {
            command_buffer: self.get_current(renderer),
            command: Command::PipelineBarrier { barrier },
        }
    }

    /// Records the barrier that takes the image of `texture` from
    /// `old_layout` to `new_layout`.
    pub fn transition_texture_layout<A>(
        &self,
        renderer: &Renderer,
        texture: &Texture<A>,
        old_layout: ImageLayout,
        new_layout: ImageLayout,
    ) -> (call: CommandBufferCall)
        ensures
            call == on_buffer(
                self.spec_current(renderer),
                Command::PipelineBarrier {
                    barrier: spec_layout_transition(texture.image, old_layout, new_layout),
                },
            ),
    {
        self.transition_image_layout(renderer, texture.image, old_layout, new_layout)
    }

    /// Records the scaled copy of `source` onto `dest`.
    pub fn copy_image_to_image(
        &self,
        renderer: &Renderer,
        source: u64,
        dest: u64,
        src_size: Extent2D,
        dst_size: Extent2D,
    ) -> (call: CommandBufferCall)
        ensures
            call == on_buffer(
                self.spec_current(renderer),
                Command::BlitImage { blit: spec_image_copy(source, dest, src_size, dst_size) },
            ),
    {
        let layer = ImageSubresourceLayers {
            aspect_mask: ImageAspectFlags { bits: IMAGE_ASPECT_COLOR },
            mip_level: 0,
            base_array_layer: 0,
            layer_count: 1,
        };
        let blit = ImageBlit {
            src_image: source,
            src_image_layout: ImageLayout::TransferSrcOptimal,
            dst_image: dest,
            dst_image_layout: ImageLayout::TransferDstOptimal,
            filter: Filter::Linear,
            src_subresource: layer,
            src_offset_min: Offset3D { x: 0, y: 0, z: 0 },
            src_offset_max: Offset3D {
                x: offset_of_size(src_size.width),
                y: offset_of_size(src_size.height),
                z: 1,
            },
            dst_subresource: layer,
            dst_offset_min: Offset3D { x: 0, y: 0, z: 0 },
            dst_offset_max: Offset3D {
                x: offset_of_size(dst_size.width),
                y: offset_of_size(dst_size.height),
                z: 1,
            },
        };
        CommandBufferCall {
            command_buffer: self.get_current(renderer),
            command: Command::BlitImage { blit },
        }
    }

    /// The calls that bring `texture`, which is in the general layout, onto
    /// the presentable image that was acquired last, and make that image
    /// presentable.
    pub open spec fn spec_copy_to_framebuffer(
        command_buffer: u64,
        texture_image: u64,
        framebuffer: u64,
        extent: Extent2D,
    ) -> Seq<CommandBufferCall> {
        seq![
            on_buffer(
                command_buffer,
                Command::PipelineBarrier {
                    barrier: spec_layout_transition(
                        texture_image,
                        ImageLayout::General,
                        ImageLayout::TransferSrcOptimal,
                    ),
                },
            ),
            on_buffer(
                command_buffer,
                Command::PipelineBarrier {
                    barrier: spec_layout_transition(
                        framebuffer,
                        ImageLayout::Undefined,
                        ImageLayout::TransferDstOptimal,
                    ),
                },
            ),
            on_buffer(
                command_buffer,
                Command::BlitImage {
                    blit: spec_image_copy(texture_image, framebuffer, extent, extent),
                },
            ),
            on_buffer(
                command_buffer,
                Command::PipelineBarrier {
                    barrier: spec_layout_transition(
                        framebuffer,
                        ImageLayout::TransferDstOptimal,
                        ImageLayout::PresentSrc,
                    ),
                },
            ),
        ]
    }

    /// Records the copy of `texture` onto the presentable image that was
    /// acquired last: the texture goes from the general layout to the
    /// transfer-source layout, the presentable image from an undefined layout
    /// to the transfer-destination layout; the region of the window's size is
    /// copied; the presentable image goes to the present layout.
    pub fn copy_to_framebuffer<A>(&self, renderer: &Renderer, texture: &Texture<A>) -> (calls: Vec<
        CommandBufferCall,
    >)
        ensures
            calls@ == Self::spec_copy_to_framebuffer(
                self.spec_current(renderer),
                texture.image,
                renderer.spec_handles().swapchain_images@[renderer.spec_swapchain_image_idx() as int],
                renderer.spec_extent(),
            ),
    {
        let framebuffer = renderer.get_current_swapchain_img();
        let extent = renderer.extent();
        let mut calls: Vec<CommandBufferCall> = Vec::new();
        calls.push(
            self.transition_image_layout(
                renderer,
                texture.image,
                ImageLayout::General,
                ImageLayout::TransferSrcOptimal,
            ),
        );
        calls.push(
            self.transition_image_layout(
                renderer,
                framebuffer,
                ImageLayout::Undefined,
                ImageLayout::TransferDstOptimal,
            ),
        );
        calls.push(self.copy_image_to_image(renderer, texture.image, framebuffer, extent, extent));
        calls.push(
            self.transition_image_layout(
                renderer,
                framebuffer,
                ImageLayout::TransferDstOptimal,
                ImageLayout::PresentSrc,
            ),
        );
        calls
    }

    /// The calls that fill `image` with one colour.
    pub open spec fn spec_flash_screen(command_buffer: u64, image: u64, color: ClearColor) -> Seq<
        CommandBufferCall,
    > {
        seq![
            on_buffer(
                command_buffer,
                Command::PipelineBarrier {
                    barrier: spec_layout_transition(
                        image,
                        ImageLayout::Undefined,
                        ImageLayout::General,
                    ),
                },
            ),
            on_buffer(
                command_buffer,
                Command::ClearColorImage {
                    image,
                    image_layout: ImageLayout::General,
                    color,
                    range: spec_subresource_range(ImageAspectFlags { bits: IMAGE_ASPECT_COLOR }),
                },
            ),
        ]
    }

    /// Records the filling of `image` with `color`: the image goes from an
    /// undefined layout to the general layout, and the whole of its colour
    /// aspect is cleared.
    pub fn flash_screen(&self, renderer: &Renderer, image: u64, color: ClearColor) -> (calls: Vec<
        CommandBufferCall,
    >)
        ensures
            calls@ == Self::spec_flash_screen(self.spec_current(renderer), image, color),
    {
        let mut calls: Vec<CommandBufferCall> = Vec::new();
        calls.push(
            self.transition_image_layout(
                renderer,
                image,
                ImageLayout::Undefined,
                ImageLayout::General,
            ),
        );
        calls.push(
            CommandBufferCall {
                command_buffer: self.get_current(renderer),
                command: Command::ClearColorImage {
                    image,
                    image_layout: ImageLayout::General,
                    color,
                    range: Self::subresource_range(ImageAspectFlags { bits: IMAGE_ASPECT_COLOR }),
                },
            },
        );
        calls
    }

    /// Adds `resource` to what the list retains, after everything that it
    /// retains already.
    fn retain(&mut self, resource: Resource)
        ensures
            final(self).wf(),
            final(self)@ == old(self)@.retain(resource),
    {
        let mut retained: Vec<Resource> = Vec::new();
        std::mem::swap(&mut self.owned_resources, &mut retained);
        retained.push(resource);
        std::mem::swap(&mut self.owned_resources, &mut retained);
    }

    /// Records the binding of `pipeline` as the compute pipeline, and keeps
    /// `pipeline` for as long as the list exists.
    pub fn bind_compute_pipeline(&mut self, renderer: &Renderer, pipeline: Arc<ComputePipeline>) -> (call:
        CommandBufferCall)
        ensures
            call == on_buffer(
                old(self).spec_current(renderer),
                Command::BindPipeline {
                    pipeline_bind_point: PipelineBindPoint::Compute,
                    pipeline: pipeline.spec_handle(),
                },
            ),
            old(self).wf(),
            final(self).wf(),
            final(self)@ == old(self)@.retain(Resource::ComputePipeline(pipeline)),
    {
        let call = CommandBufferCall {
            command_buffer: self.get_current(renderer),
            command: Command::BindPipeline {
                pipeline_bind_point: PipelineBindPoint::Compute,
                pipeline: pipeline.handle(),
            },
        };
        self.retain(Resource::ComputePipeline(pipeline));
        call
    }

    /// Records the binding of the native set that `descriptor_set` has for
    /// the current frame slot as set 0 of compute pipelines with layout
    /// `pipeline_layout`, and keeps both for as long as the list exists.
    pub fn bind_descriptor_set(
        &mut self,
        renderer: &Renderer,
        pipeline_layout: Arc<PipelineLayout>,
        descriptor_set: Arc<DescriptorSet>,
    ) -> (call: CommandBufferCall)
        ensures
            call == on_buffer(
                old(self).spec_current(renderer),
                Command::BindDescriptorSet {
                    bind_point: PipelineBindPoint::Compute,
                    pipeline_layout: pipeline_layout.spec_handle(),
                    first_set: 0,
                    descriptor_set: descriptor_set.handles()[renderer.spec_current_frame() as int],
                },
            ),
            old(self).wf(),
            final(self).wf(),
            final(self)@ == old(self)@.retain(Resource::PipelineLayout(pipeline_layout)).retain(
                Resource::DescriptorSet(descriptor_set),
            ),
    {
        let call = CommandBufferCall {
            command_buffer: self.get_current(renderer),
            command: Command::BindDescriptorSet {
                bind_point: PipelineBindPoint::Compute,
                pipeline_layout: pipeline_layout.handle(),
                first_set: 0,
                descriptor_set: descriptor_set.get_current(renderer),
            },
        };
        self.retain(Resource::PipelineLayout(pipeline_layout));
        self.retain(Resource::DescriptorSet(descriptor_set));
        call
    }

    /// Records a compute dispatch over a grid of `x` by `y` by `z` work
    /// groups. The grid is not held against the limits of the device.
    pub fn dispatch_compute_pipeline(&self, renderer: &Renderer, x: u32, y: u32, z: u32) -> (call:
        CommandBufferCall)
        ensures
            call == on_buffer(self.spec_current(renderer), Command::Dispatch { x, y, z }),
    {
        CommandBufferCall {
            command_buffer: self.get_current(renderer),
            command: Command::Dispatch { x, y, z },
        }
    }
}

/// Something that changes a command list.
pub enum ListEvent {
    /// The command buffer of frame slot `slot` was reset.
    Reset { slot: int },
    /// Recording into the command buffer of frame slot `slot` was started.
    Begin { slot: int },
    /// Recording into the command buffer of frame slot `slot` was ended.
    End { slot: int },
    /// `resource` was bound.
    Bind { resource: Resource },
}

/// The command list `list` after `events` happened to it, one after the other.
pub open spec fn list_after(list: CommandListView, events: Seq<ListEvent>) -> CommandListView
    decreases events.len(),
{
    if events.len() == 0 {
        list
    } else {
        let before = list_after(list, events.drop_last());
        match events.last() {
            ListEvent::Reset { slot } => before.reset(slot),
            ListEvent::Begin { slot } => before.begin(slot),
            ListEvent::End { slot } => before.end(slot),
            ListEvent::Bind { resource } => before.retain(resource),
        }
    }
}

/// A command list never lets go of what was bound into it: whatever happens
/// to the list, everything that it retained before is still retained, in the
/// same place. A shared object that was bound therefore lives at least as
/// long as the list, whoever else gives it up.
pub proof fn lemma_retained_is_kept(list: CommandListView, events: Seq<ListEvent>)
    ensures
        list_after(list, events).command_buffers == list.command_buffers,
        list_after(list, events).retained.len() >= list.retained.len(),
        forall|i: int|
            0 <= i < list.retained.len() ==> list_after(list, events).retained[i]
                == #[trigger] list.retained[i],
    decreases events.len(),
{
    if events.len() > 0 {
        lemma_retained_is_kept(list, events.drop_last());
    }
}

/// A bound object is retained from the moment it is bound: it is the last
/// entry right after the binding, and stays where it is through whatever
/// happens to the list afterwards.
pub proof fn lemma_bound_is_retained(
    list: CommandListView,
    resource: Resource,
    events: Seq<ListEvent>,
)
    ensures
        list_after(list.retain(resource), events).retained.len() > list.retained.len(),
        list_after(list.retain(resource), events).retained[list.retained.len() as int] == resource,
{
    lemma_retained_is_kept(list.retain(resource), events);
    assert(list.retain(resource).retained[list.retained.len() as int] == resource);
}

/// Command buffers come round with the frame slots: the command buffer that
/// a frame records into is the one that was recorded into `FRAME_OVERLAP`
/// frames earlier, whatever happened to the list in between.
pub proof fn lemma_command_buffer_comes_round(
    list: CommandListView,
    events: Seq<ListEvent>,
    frame: nat,
)
    requires
        frame >= FRAME_OVERLAP,
    ensures
        list_after(list, events).command_buffers[slot_of_frame(frame)]
            == list.command_buffers[slot_of_frame((frame - FRAME_OVERLAP) as nat)],
{
    lemma_retained_is_kept(list, events);
}

/// Whether `command` finds every image that it touches in the layout that
/// it names, where `layouts` tells the layout that each image is in. A
/// barrier may also leave an undefined layout, whatever layout the image is
/// in: it then gives up what the image holds.
pub open spec fn finds_layouts(layouts: Map<u64, ImageLayout>, command: Command) -> bool {
    match command {
        Command::PipelineBarrier { barrier } => barrier.old_layout == ImageLayout::Undefined || (
        layouts.dom().contains(barrier.image) && layouts[barrier.image] == barrier.old_layout),
        Command::BlitImage { blit } => {
            &&& layouts.dom().contains(blit.src_image)
            &&& layouts[blit.src_image] == blit.src_image_layout
            &&& layouts.dom().contains(blit.dst_image)
            &&& layouts[blit.dst_image] == blit.dst_image_layout
        },
        Command::ClearColorImage { image, image_layout, .. } => layouts.dom().contains(image)
            && layouts[image] == image_layout,
        _ => true,
    }
}

/// The layout that each image is in after `command`: a barrier takes its
/// image into its new layout, and no other command changes a layout.
pub open spec fn layouts_after(layouts: Map<u64, ImageLayout>, command: Command) -> Map<
    u64,
    ImageLayout,
> {
    match command {
        Command::PipelineBarrier { barrier } => layouts.insert(barrier.image, barrier.new_layout),
        _ => layouts,
    }
}

/// The layout that each image is in after `calls`, one after the other.
pub open spec fn layouts_after_all(
    layouts: Map<u64, ImageLayout>,
    calls: Seq<CommandBufferCall>,
) -> Map<u64, ImageLayout>
    decreases calls.len(),
{
    if calls.len() == 0 {
        layouts
    } else {
        layouts_after(layouts_after_all(layouts, calls.drop_last()), calls.last().command)
    }
}

/// Whether each of `calls`, one after the other, finds every image that it
/// touches in the layout that it names.
pub open spec fn all_find_layouts(
    layouts: Map<u64, ImageLayout>,
    calls: Seq<CommandBufferCall>,
) -> bool
    decreases calls.len(),
{
    calls.len() == 0 || (all_find_layouts(layouts, calls.drop_last()) && finds_layouts(
        layouts_after_all(layouts, calls.drop_last()),
        calls.last().command,
    ))
}

/// The copy onto the presentable image is consistent in its layouts: with
/// the texture in the general layout, every barrier and the copy find their
/// images in the layouts that they name; afterwards the presentable image is
/// in the present layout and the texture in the transfer-source layout, and
/// no other image has changed its layout.
pub proof fn lemma_copy_to_framebuffer_layouts(
    layouts: Map<u64, ImageLayout>,
    command_buffer: u64,
    texture_image: u64,
    framebuffer: u64,
    extent: Extent2D,
)
    requires
        texture_image != framebuffer,
        layouts.dom().contains(texture_image),
        layouts[texture_image] == ImageLayout::General,
    ensures
        ({
            let calls = CommandList::spec_copy_to_framebuffer(
                command_buffer,
                texture_image,
                framebuffer,
                extent,
            );
            &&& all_find_layouts(layouts, calls)
            &&& layouts_after_all(layouts, calls) == layouts.insert(
                texture_image,
                ImageLayout::TransferSrcOptimal,
            ).insert(framebuffer, ImageLayout::PresentSrc)
        }),
{
    let calls = CommandList::spec_copy_to_framebuffer(
        command_buffer,
        texture_image,
        framebuffer,
        extent,
    );
    reveal_with_fuel(layouts_after_all, 5);
    reveal_with_fuel(all_find_layouts, 5);
    assert(layouts_after_all(layouts, calls) =~= layouts.insert(
        texture_image,
        ImageLayout::TransferSrcOptimal,
    ).insert(framebuffer, ImageLayout::PresentSrc));
}

/// The filling of an image is consistent in its layouts: whatever layout the
/// image is in, the barrier and the clear find it in the layouts that they
/// name; afterwards the image is in the general layout, and no other image
/// has changed its layout.
pub proof fn lemma_flash_screen_layouts(
    layouts: Map<u64, ImageLayout>,
    command_buffer: u64,
    image: u64,
    color: ClearColor,
)
    ensures
        ({
            let calls = CommandList::spec_flash_screen(command_buffer, image, color);
            &&& all_find_layouts(layouts, calls)
            &&& layouts_after_all(layouts, calls) == layouts.insert(image, ImageLayout::General)
        }),
{
    reveal_with_fuel(layouts_after_all, 3);
    reveal_with_fuel(all_find_layouts, 3);
}

} // verus!
