//! Plain-value descriptions of the native objects and calls of the GPU API.
//!
//! Handles are the 64-bit values of the native API; enumerations carry the
//! API's numbering through `as_raw`, and flag sets carry its bit assignment.

use vstd::prelude::*;

verus! {

/// The null handle of the native API.
pub const NULL_HANDLE: u64 = 0;

/// Timeout, in nanoseconds, of every bounded wait of the layer (one second).
pub const WAIT_TIMEOUT_NS: u64 = 1_000_000_000;

/// "All remaining mip levels" in a subresource range.
pub const REMAINING_MIP_LEVELS: u32 = 0xffff_ffff;

/// "All remaining array layers" in a subresource range.
pub const REMAINING_ARRAY_LAYERS: u32 = 0xffff_ffff;

/// Access mode of an image; it is changed by a barrier and never implicitly.
#[derive(Clone, Copy, Debug, PartialEq, Eq, Structural)]
pub enum ImageLayout {
    Undefined,
    General,
    ColorAttachmentOptimal,
    DepthStencilAttachmentOptimal,
    DepthStencilReadOnlyOptimal,
    ShaderReadOnlyOptimal,
    TransferSrcOptimal,
    TransferDstOptimal,
    Preinitialized,
    DepthReadOnlyStencilAttachmentOptimal,
    DepthAttachmentStencilReadOnlyOptimal,
    DepthAttachmentOptimal,
    DepthReadOnlyOptimal,
    StencilAttachmentOptimal,
    StencilReadOnlyOptimal,
    ReadOnlyOptimal,
    AttachmentOptimal,
    PresentSrc,
    VideoDecodeDst,
    VideoDecodeSrc,
    VideoDecodeDpb,
    SharedPresent,
    FragmentDensityMapOptimal,
    FragmentShadingRateAttachmentOptimal,
    RenderingLocalRead,
    VideoEncodeDst,
    VideoEncodeSrc,
    VideoEncodeDpb,
    AttachmentFeedbackLoopOptimal,
}

impl ImageLayout {
    /// The number of the layout in the native API.
    pub open spec fn spec_as_raw(self) -> i32 {
        match self {
            ImageLayout::Undefined => 0,
            ImageLayout::General => 1,
            ImageLayout::ColorAttachmentOptimal => 2,
            ImageLayout::DepthStencilAttachmentOptimal => 3,
            ImageLayout::DepthStencilReadOnlyOptimal => 4,
            ImageLayout::ShaderReadOnlyOptimal => 5,
            ImageLayout::TransferSrcOptimal => 6,
            ImageLayout::TransferDstOptimal => 7,
            ImageLayout::Preinitialized => 8,
            ImageLayout::DepthReadOnlyStencilAttachmentOptimal => 1_000_117_000,
            ImageLayout::DepthAttachmentStencilReadOnlyOptimal => 1_000_117_001,
            ImageLayout::DepthAttachmentOptimal => 1_000_241_000,
            ImageLayout::DepthReadOnlyOptimal => 1_000_241_001,
            ImageLayout::StencilAttachmentOptimal => 1_000_241_002,
            ImageLayout::StencilReadOnlyOptimal => 1_000_241_003,
            ImageLayout::ReadOnlyOptimal => 1_000_314_000,
            ImageLayout::AttachmentOptimal => 1_000_314_001,
            ImageLayout::PresentSrc => 1_000_001_002,
            ImageLayout::VideoDecodeDst => 1_000_024_000,
            ImageLayout::VideoDecodeSrc => 1_000_024_001,
            ImageLayout::VideoDecodeDpb => 1_000_024_002,
            ImageLayout::SharedPresent => 1_000_111_000,
            ImageLayout::FragmentDensityMapOptimal => 1_000_218_000,
            ImageLayout::FragmentShadingRateAttachmentOptimal => 1_000_164_003,
            ImageLayout::RenderingLocalRead => 1_000_232_000,
            ImageLayout::VideoEncodeDst => 1_000_299_000,
            ImageLayout::VideoEncodeSrc => 1_000_299_001,
            ImageLayout::VideoEncodeDpb => 1_000_299_002,
            ImageLayout::AttachmentFeedbackLoopOptimal => 1_000_339_000,
        }
    }

    /// The number of the layout in the native API.
    #[verifier::when_used_as_spec(spec_as_raw)]
    pub fn as_raw(self) -> (raw: i32)
        ensures
            raw == self.spec_as_raw(),
    {
        match self {
            ImageLayout::Undefined => 0,
            ImageLayout::General => 1,
            ImageLayout::ColorAttachmentOptimal => 2,
            ImageLayout::DepthStencilAttachmentOptimal => 3,
            ImageLayout::DepthStencilReadOnlyOptimal => 4,
            ImageLayout::ShaderReadOnlyOptimal => 5,
            ImageLayout::TransferSrcOptimal => 6,
            ImageLayout::TransferDstOptimal => 7,
            ImageLayout::Preinitialized => 8,
            ImageLayout::DepthReadOnlyStencilAttachmentOptimal => 1_000_117_000,
            ImageLayout::DepthAttachmentStencilReadOnlyOptimal => 1_000_117_001,
            ImageLayout::DepthAttachmentOptimal => 1_000_241_000,
            ImageLayout::DepthReadOnlyOptimal => 1_000_241_001,
            ImageLayout::StencilAttachmentOptimal => 1_000_241_002,
            ImageLayout::StencilReadOnlyOptimal => 1_000_241_003,
            ImageLayout::ReadOnlyOptimal => 1_000_314_000,
            ImageLayout::AttachmentOptimal => 1_000_314_001,
            ImageLayout::PresentSrc => 1_000_001_002,
            ImageLayout::VideoDecodeDst => 1_000_024_000,
            ImageLayout::VideoDecodeSrc => 1_000_024_001,
            ImageLayout::VideoDecodeDpb => 1_000_024_002,
            ImageLayout::SharedPresent => 1_000_111_000,
            ImageLayout::FragmentDensityMapOptimal => 1_000_218_000,
            ImageLayout::FragmentShadingRateAttachmentOptimal => 1_000_164_003,
            ImageLayout::RenderingLocalRead => 1_000_232_000,
            ImageLayout::VideoEncodeDst => 1_000_299_000,
            ImageLayout::VideoEncodeSrc => 1_000_299_001,
            ImageLayout::VideoEncodeDpb => 1_000_299_002,
            ImageLayout::AttachmentFeedbackLoopOptimal => 1_000_339_000,
        }
    }

    /// Distinct layouts have distinct numbers.
    pub proof fn lemma_as_raw_injective(a: ImageLayout, b: ImageLayout)
        requires
            a.spec_as_raw() == b.spec_as_raw(),
        ensures
            a == b,
    {
    }
}

/// Parts of an image that a barrier, a view or a copy refers to (a bit set).
#[derive(Clone, Copy, Debug, PartialEq, Eq, Structural)]
pub struct ImageAspectFlags {
    pub bits: u32,
}

/// Bit of the colour aspect.
pub const IMAGE_ASPECT_COLOR: u32 = 0x1;

/// Bit of the depth aspect.
pub const IMAGE_ASPECT_DEPTH: u32 = 0x2;

/// Pipeline stages of a synchronisation scope (a bit set).
#[derive(Clone, Copy, Debug, PartialEq, Eq, Structural)]
pub struct PipelineStageFlags2 {
    pub bits: u64,
}

/// Bit that stands for every command of the queue.
pub const PIPELINE_STAGE_2_ALL_COMMANDS: u64 = 0x1_0000;

/// Memory accesses of a synchronisation scope (a bit set).
#[derive(Clone, Copy, Debug, PartialEq, Eq, Structural)]
pub struct AccessFlags2 {
    pub bits: u64,
}

/// Bit of every read access.
pub const ACCESS_2_MEMORY_READ: u64 = 0x8000;

/// Bit of every write access.
pub const ACCESS_2_MEMORY_WRITE: u64 = 0x1_0000;

/// Shader stages in the native bit assignment (a bit set).
#[derive(Clone, Copy, Debug, PartialEq, Eq, Structural)]
pub struct ShaderStageFlags {
    pub bits: u32,
}

/// Bit of the vertex stage.
pub const SHADER_STAGE_VERTEX: u32 = 0x1;

/// Bit of the fragment stage.
pub const SHADER_STAGE_FRAGMENT: u32 = 0x10;

/// Bit of the compute stage.
pub const SHADER_STAGE_COMPUTE: u32 = 0x20;

/// Intended uses of an image (a bit set).
#[derive(Clone, Copy, Debug, PartialEq, Eq, Structural)]
pub struct ImageUsageFlags {
    pub bits: u32,
}

/// Bit: source of a transfer.
pub const IMAGE_USAGE_TRANSFER_SRC: u32 = 0x1;

/// Bit: destination of a transfer.
pub const IMAGE_USAGE_TRANSFER_DST: u32 = 0x2;

/// Bit: written or read by a shader as a storage image.
pub const IMAGE_USAGE_STORAGE: u32 = 0x8;

/// Bit: colour attachment.
pub const IMAGE_USAGE_COLOR_ATTACHMENT: u32 = 0x10;

/// Texel format, by its number in the native API.
#[derive(Clone, Copy, Debug, PartialEq, Eq, Structural)]
pub struct Format {
    pub raw: i32,
}

/// 8-bit BGRA, unsigned normalised: the format of the presentable images.
pub const FORMAT_B8G8R8A8_UNORM: i32 = 44;

/// 16-bit RGBA, signed float.
pub const FORMAT_R16G16B16A16_SFLOAT: i32 = 97;

/// Kind of resource behind a descriptor.
#[derive(Clone, Copy, Debug, PartialEq, Eq, Structural)]
pub enum DescriptorType {
    Sampler,
    SampledImage,
    StorageImage,
    UniformBuffer,
    StorageBuffer,
}

impl DescriptorType {
    /// The number of the descriptor type in the native API.
    pub open spec fn spec_as_raw(self) -> i32 {
        match self {
            DescriptorType::Sampler => 0,
            DescriptorType::SampledImage => 2,
            DescriptorType::StorageImage => 3,
            DescriptorType::UniformBuffer => 6,
            DescriptorType::StorageBuffer => 7,
        }
    }

    /// The number of the descriptor type in the native API.
    #[verifier::when_used_as_spec(spec_as_raw)]
    pub fn as_raw(self) -> (raw: i32)
        ensures
            raw == self.spec_as_raw(),
    {
        match self {
            DescriptorType::Sampler => 0,
            DescriptorType::SampledImage => 2,
            DescriptorType::StorageImage => 3,
            DescriptorType::UniformBuffer => 6,
            DescriptorType::StorageBuffer => 7,
        }
    }
}

/// Filter of a scaled copy.
#[derive(Clone, Copy, Debug, PartialEq, Eq, Structural)]
pub enum Filter {
    Nearest,
    Linear,
}

impl Filter {
    /// The number of the filter in the native API.
    pub open spec fn spec_as_raw(self) -> i32 {
        match self {
            Filter::Nearest => 0,
            Filter::Linear => 1,
        }
    }

    /// The number of the filter in the native API.
    #[verifier::when_used_as_spec(spec_as_raw)]
    pub fn as_raw(self) -> (raw: i32)
        ensures
            raw == self.spec_as_raw(),
    {
        match self {
            Filter::Nearest => 0,
            Filter::Linear => 1,
        }
    }
}

/// Kind of pipeline that a bind command addresses.
#[derive(Clone, Copy, Debug, PartialEq, Eq, Structural)]
pub enum PipelineBindPoint {
    Graphics,
    Compute,
}

impl PipelineBindPoint {
    /// The number of the bind point in the native API.
    pub open spec fn spec_as_raw(self) -> i32 {
        match self {
            PipelineBindPoint::Graphics => 0,
            PipelineBindPoint::Compute => 1,
        }
    }

    /// The number of the bind point in the native API.
    #[verifier::when_used_as_spec(spec_as_raw)]
    pub fn as_raw(self) -> (raw: i32)
        ensures
            raw == self.spec_as_raw(),
    {
        match self {
            PipelineBindPoint::Graphics => 0,
            PipelineBindPoint::Compute => 1,
        }
    }
}

/// Width and height of a two-dimensional region.
#[derive(Clone, Copy, Debug, PartialEq, Eq, Structural)]
pub struct Extent2D {
    pub width: u32,
    pub height: u32,
}

/// Width, height and depth of a three-dimensional region.
#[derive(Clone, Copy, Debug, PartialEq, Eq, Structural)]
pub struct Extent3D {
    pub width: u32,
    pub height: u32,
    pub depth: u32,
}

/// A corner of a three-dimensional region.
#[derive(Clone, Copy, Debug, PartialEq, Eq, Structural)]
pub struct Offset3D {
    pub x: i32,
    pub y: i32,
    pub z: i32,
}

/// Mip levels and array layers of an image that a barrier or a view covers.
#[derive(Clone, Copy, Debug, PartialEq, Eq, Structural)]
pub struct ImageSubresourceRange {
    pub aspect_mask: ImageAspectFlags,
    pub base_mip_level: u32,
    pub level_count: u32,
    pub base_array_layer: u32,
    pub layer_count: u32,
}

/// One mip level and a run of array layers that a copy reads or writes.
#[derive(Clone, Copy, Debug, PartialEq, Eq, Structural)]
pub struct ImageSubresourceLayers {
    pub aspect_mask: ImageAspectFlags,
    pub mip_level: u32,
    pub base_array_layer: u32,
    pub layer_count: u32,
}

/// A memory barrier on one image, with a change of layout.
#[derive(Clone, Copy, Debug, PartialEq, Eq, Structural)]
pub struct ImageMemoryBarrier {
    pub src_stage_mask: PipelineStageFlags2,
    pub src_access_mask: AccessFlags2,
    pub dst_stage_mask: PipelineStageFlags2,
    pub dst_access_mask: AccessFlags2,
    pub old_layout: ImageLayout,
    pub new_layout: ImageLayout,
    pub subresource_range: ImageSubresourceRange,
    pub image: u64,
}

/// A scaled copy of one region of an image into one region of another.
#[derive(Clone, Copy, Debug, PartialEq, Eq, Structural)]
pub struct ImageBlit {
    pub src_image: u64,
    pub src_image_layout: ImageLayout,
    pub dst_image: u64,
    pub dst_image_layout: ImageLayout,
    pub filter: Filter,
    pub src_subresource: ImageSubresourceLayers,
    pub src_offset_min: Offset3D,
    pub src_offset_max: Offset3D,
    pub dst_subresource: ImageSubresourceLayers,
    pub dst_offset_min: Offset3D,
    pub dst_offset_max: Offset3D,
}

/// A clear colour; each channel is the bit pattern of an IEEE-754
/// single-precision number.
#[derive(Clone, Copy, Debug, PartialEq, Eq, Structural)]
pub struct ClearColor {
    pub red: u32,
    pub green: u32,
    pub blue: u32,
    pub alpha: u32,
}

/// A call on a command buffer.
#[derive(Clone, Copy, Debug, PartialEq, Eq, Structural)]
pub enum Command {
    /// Discard what the buffer holds.
    Reset,
    /// Start recording.
    Begin,
    /// Stop recording.
    End,
    /// Record a barrier on one image.
    PipelineBarrier { barrier: ImageMemoryBarrier },
    /// Record a scaled copy of one region.
    BlitImage { blit: ImageBlit },
    /// Record a clear of an image, which is in layout `image_layout`, to one colour.
    ClearColorImage {
        image: u64,
        image_layout: ImageLayout,
        color: ClearColor,
        range: ImageSubresourceRange,
    },
    /// Record the binding of a pipeline.
    BindPipeline { pipeline_bind_point: PipelineBindPoint, pipeline: u64 },
    /// Record the binding of one descriptor set, without dynamic offsets.
    BindDescriptorSet {
        bind_point: PipelineBindPoint,
        pipeline_layout: u64,
        first_set: u32,
        descriptor_set: u64,
    },
    /// Record a compute dispatch over a grid of work groups.
    Dispatch { x: u32, y: u32, z: u32 },
}

/// A command together with the command buffer that it is issued on.
#[derive(Clone, Copy, Debug, PartialEq, Eq, Structural)]
pub struct CommandBufferCall {
    pub command_buffer: u64,
    pub command: Command,
}

/// Request for the next presentable image of a swapchain.
#[derive(Clone, Copy, Debug, PartialEq, Eq, Structural)]
pub struct AcquireNextImage {
    pub swapchain: u64,
    pub timeout: u64,
    pub semaphore: u64,
    pub fence: u64,
}

/// One semaphore of a queue submission, waited on or signalled.
#[derive(Clone, Copy, Debug, PartialEq, Eq, Structural)]
pub struct SemaphoreSubmitInfo {
    pub semaphore: u64,
    pub value: u64,
    pub stage_mask: PipelineStageFlags2,
    pub device_index: u32,
}

/// One submission of one command buffer to a queue.
#[derive(Debug)]
pub struct QueueSubmit {
    pub queue: u64,
    pub wait_semaphore_infos: Vec<SemaphoreSubmitInfo>,
    pub signal_semaphore_infos: Vec<SemaphoreSubmitInfo>,
    pub command_buffer: u64,
    pub device_mask: u32,
    pub fence: u64,
}

/// Request to present one image of one swapchain, gated on one semaphore.
#[derive(Clone, Copy, Debug, PartialEq, Eq, Structural)]
pub struct QueuePresent {
    pub queue: u64,
    pub swapchain: u64,
    pub wait_semaphore: u64,
    pub image_index: u32,
}

/// A bounded wait of the CPU on one fence.
#[derive(Clone, Copy, Debug, PartialEq, Eq, Structural)]
pub struct WaitForFence {
    pub fence: u64,
    pub wait_all: bool,
    pub timeout: u64,
}

/// Return of one fence to the unsignalled state.
#[derive(Clone, Copy, Debug, PartialEq, Eq, Structural)]
pub struct ResetFence {
    pub fence: u64,
}

/// Dimensionality of an image.
#[derive(Clone, Copy, Debug, PartialEq, Eq, Structural)]
pub enum ImageType {
    Type1D,
    Type2D,
    Type3D,
}

impl ImageType {
    /// The number of the image type in the native API.
    pub open spec fn spec_as_raw(self) -> i32 {
        match self {
            ImageType::Type1D => 0,
            ImageType::Type2D => 1,
            ImageType::Type3D => 2,
        }
    }

    /// The number of the image type in the native API.
    #[verifier::when_used_as_spec(spec_as_raw)]
    pub fn as_raw(self) -> (raw: i32)
        ensures
            raw == self.spec_as_raw(),
    {
        match self {
            ImageType::Type1D => 0,
            ImageType::Type2D => 1,
            ImageType::Type3D => 2,
        }
    }
}

/// Dimensionality of an image view.
#[derive(Clone, Copy, Debug, PartialEq, Eq, Structural)]
pub enum ImageViewType {
    Type1D,
    Type2D,
    Type3D,
}

impl ImageViewType {
    /// The number of the view type in the native API.
    pub open spec fn spec_as_raw(self) -> i32 {
        match self {
            ImageViewType::Type1D => 0,
            ImageViewType::Type2D => 1,
            ImageViewType::Type3D => 2,
        }
    }

    /// The number of the view type in the native API.
    #[verifier::when_used_as_spec(spec_as_raw)]
    pub fn as_raw(self) -> (raw: i32)
        ensures
            raw == self.spec_as_raw(),
    {
        match self {
            ImageViewType::Type1D => 0,
            ImageViewType::Type2D => 1,
            ImageViewType::Type3D => 2,
        }
    }
}

/// Arrangement of the texels of an image in memory.
#[derive(Clone, Copy, Debug, PartialEq, Eq, Structural)]
pub enum ImageTiling {
    Optimal,
    Linear,
}

impl ImageTiling {
    /// The number of the tiling in the native API.
    pub open spec fn spec_as_raw(self) -> i32 {
        match self {
            ImageTiling::Optimal => 0,
            ImageTiling::Linear => 1,
        }
    }

    /// The number of the tiling in the native API.
    #[verifier::when_used_as_spec(spec_as_raw)]
    pub fn as_raw(self) -> (raw: i32)
        ensures
            raw == self.spec_as_raw(),
    {
        match self {
            ImageTiling::Optimal => 0,
            ImageTiling::Linear => 1,
        }
    }
}

/// Bit of the sample counts: one sample per texel.
pub const SAMPLE_COUNT_1: u32 = 0x1;

/// Properties of device memory (a bit set).
#[derive(Clone, Copy, Debug, PartialEq, Eq, Structural)]
pub struct MemoryPropertyFlags {
    pub bits: u32,
}

/// Bit: the memory is local to the device.
pub const MEMORY_PROPERTY_DEVICE_LOCAL: u32 = 0x1;

/// Where the memory allocator should place an allocation.
#[derive(Clone, Copy, Debug, PartialEq, Eq, Structural)]
pub enum MemoryUsage {
    Auto,
    AutoPreferDevice,
    AutoPreferHost,
}

/// What the memory allocator is asked for.
#[derive(Clone, Copy, Debug, PartialEq, Eq, Structural)]
pub struct AllocationCreateInfo {
    pub usage: MemoryUsage,
    pub required_flags: MemoryPropertyFlags,
}

/// Description of an image to create.
#[derive(Clone, Copy, Debug, PartialEq, Eq, Structural)]
pub struct ImageCreateInfo {
    pub image_type: ImageType,
    pub format: Format,
    pub extent: Extent3D,
    pub mip_levels: u32,
    pub array_layers: u32,
    pub samples: u32,
    pub tiling: ImageTiling,
    pub usage: ImageUsageFlags,
}

/// Description of an image view to create.
#[derive(Clone, Copy, Debug, PartialEq, Eq, Structural)]
pub struct ImageViewCreateInfo {
    pub image: u64,
    pub view_type: ImageViewType,
    pub format: Format,
    pub subresource_range: ImageSubresourceRange,
}

/// Destruction of an image view.
#[derive(Clone, Copy, Debug, PartialEq, Eq, Structural)]
pub struct DestroyImageView {
    pub image_view: u64,
}

/// Destruction of an image together with the allocation behind it.
pub struct DestroyImage<A> {
    pub image: u64,
    pub allocation: A,
}

/// One entry of a native descriptor set layout.
#[derive(Clone, Copy, Debug, PartialEq, Eq, Structural)]
pub struct DescriptorSetLayoutBinding {
    pub binding: u32,
    pub descriptor_type: DescriptorType,
    pub descriptor_count: u32,
    pub stage_flags: ShaderStageFlags,
}

/// Request for descriptor sets from a pool, one per entry of `set_layouts`.
#[derive(Debug)]
pub struct DescriptorSetAllocateInfo {
    pub descriptor_pool: u64,
    pub set_layouts: Vec<u64>,
}

/// Update of one binding of one descriptor set with one image.
#[derive(Clone, Copy, Debug, PartialEq, Eq, Structural)]
pub struct WriteDescriptorSet {
    pub dst_set: u64,
    pub dst_binding: u32,
    pub descriptor_count: u32,
    pub descriptor_type: DescriptorType,
    pub image_view: u64,
    pub image_layout: ImageLayout,
}

/// Return of descriptor sets to their pool.
#[derive(Debug)]
pub struct FreeDescriptorSets {
    pub descriptor_pool: u64,
    pub descriptor_sets: Vec<u64>,
}

} // verus!
