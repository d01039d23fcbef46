//! The configuration of the native objects that the device bootstrap creates
//! before there is a device context.

use vstd::prelude::*;
use vstd::string::*;

use crate::render::hal::vulkan::native::{
    DescriptorType, Extent2D, Format, ImageAspectFlags, ImageSubresourceRange, ImageUsageFlags,
    ImageViewCreateInfo, ImageViewType, FORMAT_B8G8R8A8_UNORM, IMAGE_ASPECT_COLOR,
    IMAGE_USAGE_COLOR_ATTACHMENT, IMAGE_USAGE_TRANSFER_DST,
};
use crate::render::hal::vulkan::physical_device::get_required_device_extensions;
use crate::render::hal::vulkan::physical_device::swapchain_extension;
use crate::render::hal::RendererCreateInfo;

verus! {

/// The packed number of version `major.minor.patch` of variant `variant`.
pub open spec fn spec_make_api_version(variant: u32, major: u32, minor: u32, patch: u32) -> u32 {
    (variant << 29) | (major << 22) | (minor << 12) | patch
}

/// `ash::vk::make_api_version` packs the four parts of a version into one
/// number: the variant from bit 29, the major version from bit 22, the minor
/// version from bit 12, the patch from bit 0. Bits that are shifted out of the
/// number are lost.
///
/// Trusted: this is the expression by which the binding defines the function.
pub assume_specification[ ash::vk::make_api_version ](
    variant: u32,
    major: u32,
    minor: u32,
    patch: u32,
) -> (version: u32)
    ensures
        version == spec_make_api_version(variant, major, minor, patch),
;

/// Name of the instance extension for debug messages.
pub open spec fn debug_utils_extension() -> Seq<char> {
    "VK_EXT_debug_utils"@
}

/// The name of the debug-utils extension, `ash::ext::debug_utils::NAME`.
///
/// Trusted: the binding defines the name as the constant `VK_EXT_debug_utils`.
#[verifier::external_body]
fn debug_utils_extension_name() -> (name: String)
    ensures
        name@ == debug_utils_extension(),
{
    ash::ext::debug_utils::NAME.to_string_lossy().into_owned()
}

/// How the application presents itself to the native API.
#[derive(Debug)]
pub struct ApplicationInfo {
    pub application_name: String,
    pub application_version: u32,
    pub engine_name: String,
    pub engine_version: u32,
    pub api_version: u32,
}

/// How the application presents itself: application and engine are at
/// version 1.0.0, and version 1.3.0 of the native API is asked for.
pub fn application_info() -> (info: ApplicationInfo)
    ensures
        info.application_name@ == "Patoka App"@,
        info.application_version == spec_make_api_version(0, 1, 0, 0),
        info.application_version == 0x40_0000,
        info.engine_name@ == "Patoka Engine"@,
        info.engine_version == spec_make_api_version(0, 1, 0, 0),
        info.engine_version == 0x40_0000,
        info.api_version == spec_make_api_version(0, 1, 3, 0),
        info.api_version == 0x40_3000,
{
    proof {
        lemma_versions();
    }
    ApplicationInfo {
        application_name: String::from_str("Patoka App"),
        application_version: ash::vk::make_api_version(0, 1, 0, 0),
        engine_name: String::from_str("Patoka Engine"),
        engine_version: ash::vk::make_api_version(0, 1, 0, 0),
        api_version: ash::vk::make_api_version(0, 1, 3, 0),
    }
}

/// The packed numbers of versions 1.0.0 and 1.3.0.
proof fn lemma_versions()
    ensures
        spec_make_api_version(0, 1, 0, 0) == 0x40_0000,
        spec_make_api_version(0, 1, 3, 0) == 0x40_3000,
{
    assert((0u32 << 29) | (1u32 << 22) | (0u32 << 12) | 0u32 == 0x40_0000u32) by (bit_vector);
    assert((0u32 << 29) | (1u32 << 22) | (3u32 << 12) | 0u32 == 0x40_3000u32) by (bit_vector);
}

/// The instance layers that are switched on: the validation layer.
pub fn get_enabled_layers() -> (layers: Vec<String>)
    ensures
        layers@.len() == 1,
        layers@[0]@ == "VK_LAYER_KHRONOS_validation"@,
{
    let mut layers: Vec<String> = Vec::new();
    layers.push(String::from_str("VK_LAYER_KHRONOS_validation"));
    layers
}

/// The instance extensions that are switched on: those that the window
/// system requires, in their order, and then the debug-utils extension.
pub fn get_enabled_extensions(required: Vec<String>) -> (extensions: Vec<String>)
    ensures
        extensions@.len() == required@.len() + 1,
        forall|i: int| 0 <= i < required@.len() ==> extensions@[i] == required@[i],
        extensions@[required@.len() as int]@ == debug_utils_extension(),
{
    let mut extensions = required;
    extensions.push(debug_utils_extension_name());
    extensions
}

/// Bit of the severities of debug messages: informational.
pub const DEBUG_SEVERITY_INFO: u32 = 0x10;

/// Bit of the severities of debug messages: warning.
pub const DEBUG_SEVERITY_WARNING: u32 = 0x100;

/// Bit of the severities of debug messages: error.
pub const DEBUG_SEVERITY_ERROR: u32 = 0x1000;

/// Bit of the kinds of debug messages: general.
pub const DEBUG_TYPE_GENERAL: u32 = 0x1;

/// Bit of the kinds of debug messages: validation.
pub const DEBUG_TYPE_VALIDATION: u32 = 0x2;

/// Bit of the kinds of debug messages: performance.
pub const DEBUG_TYPE_PERFORMANCE: u32 = 0x4;

/// Which debug messages are reported.
#[derive(Clone, Copy, Debug, PartialEq, Eq, Structural)]
pub struct DebugMessengerCreateInfo {
    pub message_severity: u32,
    pub message_type: u32,
}

/// Which debug messages are reported: errors, warnings and information, of
/// every kind.
pub fn debug_messenger_create_info() -> (info: DebugMessengerCreateInfo)
    ensures
        info == (DebugMessengerCreateInfo {
            message_severity: DEBUG_SEVERITY_ERROR | DEBUG_SEVERITY_WARNING | DEBUG_SEVERITY_INFO,
            message_type: DEBUG_TYPE_GENERAL | DEBUG_TYPE_VALIDATION | DEBUG_TYPE_PERFORMANCE,
        }),
{
    DebugMessengerCreateInfo {
        message_severity: DEBUG_SEVERITY_ERROR | DEBUG_SEVERITY_WARNING | DEBUG_SEVERITY_INFO,
        message_type: DEBUG_TYPE_GENERAL | DEBUG_TYPE_VALIDATION | DEBUG_TYPE_PERFORMANCE,
    }
}

/// The features that are switched on when the device is created.
#[derive(Clone, Copy, Debug, PartialEq, Eq, Structural)]
pub struct EnabledFeatures {
    pub shader_clip_distance: bool,
    pub descriptor_indexing: bool,
    pub buffer_device_address: bool,
    pub synchronization2: bool,
    pub dynamic_rendering: bool,
}

/// Description of the device to create.
#[derive(Debug)]
pub struct DeviceCreateInfo {
    /// The queue families of which one queue each is created, at the highest
    /// priority; no family occurs twice.
    pub queue_family_indices: Vec<u32>,
    pub enabled_extension_names: Vec<String>,
    pub features: EnabledFeatures,
}

/// The queue families of which the device gets a queue: the graphics family
/// and then the present family, or the one family that is both.
pub open spec fn spec_queue_family_indices(graphics_family_idx: u32, present_family_idx: u32) -> Seq<
    u32,
> {
    if graphics_family_idx == present_family_idx {
        seq![graphics_family_idx]
    } else {
        seq![graphics_family_idx, present_family_idx]
    }
}

/// The device to create: with one queue of the graphics family and one of
/// the present family, in this order, or with one queue of the family that
/// is both; with the swapchain extension and with every feature that the
/// renderer uses. No queue family is named twice.
pub fn device_create_info(graphics_family_idx: u32, present_family_idx: u32) -> (info:
    DeviceCreateInfo)
    ensures
        info.queue_family_indices@ == spec_queue_family_indices(
            graphics_family_idx,
            present_family_idx,
        ),
        info.enabled_extension_names@.len() == 1,
        info.enabled_extension_names@[0]@ == swapchain_extension(),
        info.features == (EnabledFeatures {
            shader_clip_distance: true,
            descriptor_indexing: true,
            buffer_device_address: true,
            synchronization2: true,
            dynamic_rendering: true,
        }),
{
    let mut queue_family_indices: Vec<u32> = Vec::new();
    queue_family_indices.push(graphics_family_idx);
    if present_family_idx != graphics_family_idx {
        queue_family_indices.push(present_family_idx);
    }
    DeviceCreateInfo {
        queue_family_indices,
        enabled_extension_names: get_required_device_extensions(),
        features: EnabledFeatures {
            shader_clip_distance: true,
            descriptor_indexing: true,
            buffer_device_address: true,
            synchronization2: true,
            dynamic_rendering: true,
        },
    }
}

/// Colour space of the presentable images: sRGB, non-linear.
pub const COLOR_SPACE_SRGB_NONLINEAR: i32 = 0;

/// Sharing mode of the presentable images: one queue family at a time.
pub const SHARING_MODE_EXCLUSIVE: i32 = 0;

/// Bit of the alpha compositing modes: the alpha channel is ignored.
pub const COMPOSITE_ALPHA_OPAQUE: u32 = 0x1;

/// Present mode: first in, first out, in step with the display.
pub const PRESENT_MODE_FIFO: i32 = 2;

/// Bit of the surface transforms: none.
pub const SURFACE_TRANSFORM_IDENTITY: u32 = 0x1;

/// Description of the swapchain to create.
#[derive(Clone, Copy, Debug, PartialEq, Eq, Structural)]
pub struct SwapchainCreateInfo {
    pub surface: u64,
    pub min_image_count: u32,
    pub image_color_space: i32,
    pub image_format: Format,
    pub image_extent: Extent2D,
    pub image_usage: ImageUsageFlags,
    pub image_sharing_mode: i32,
    pub composite_alpha: u32,
    pub present_mode: i32,
    pub pre_transform: u32,
    pub clipped: bool,
    pub image_array_layers: u32,
}

/// The swapchain of `surface`: at least three images of the size of the
/// window, in 8-bit BGRA, which are rendered to and copied to.
pub fn swapchain_create_info(surface: u64, info: &RendererCreateInfo) -> (swapchain:
    SwapchainCreateInfo)
    ensures
        swapchain == (SwapchainCreateInfo {
            surface,
            min_image_count: 3,
            image_color_space: COLOR_SPACE_SRGB_NONLINEAR,
            image_format: Format { raw: FORMAT_B8G8R8A8_UNORM },
            image_extent: Extent2D { width: info.window_size.0, height: info.window_size.1 },
            image_usage: ImageUsageFlags {
                bits: IMAGE_USAGE_COLOR_ATTACHMENT | IMAGE_USAGE_TRANSFER_DST,
            },
            image_sharing_mode: SHARING_MODE_EXCLUSIVE,
            composite_alpha: COMPOSITE_ALPHA_OPAQUE,
            present_mode: PRESENT_MODE_FIFO,
            pre_transform: SURFACE_TRANSFORM_IDENTITY,
            clipped: true,
            image_array_layers: 1,
        }),
{
    SwapchainCreateInfo {
        surface,
        min_image_count: 3,
        image_color_space: COLOR_SPACE_SRGB_NONLINEAR,
        image_format: Format { raw: FORMAT_B8G8R8A8_UNORM },
        image_extent: Extent2D { width: info.window_size.0, height: info.window_size.1 },
        image_usage: ImageUsageFlags {
            bits: IMAGE_USAGE_COLOR_ATTACHMENT | IMAGE_USAGE_TRANSFER_DST,
        },
        image_sharing_mode: SHARING_MODE_EXCLUSIVE,
        composite_alpha: COMPOSITE_ALPHA_OPAQUE,
        present_mode: PRESENT_MODE_FIFO,
        pre_transform: SURFACE_TRANSFORM_IDENTITY,
        clipped: true,
        image_array_layers: 1,
    }
}

/// The two-dimensional view of the first `mip_levels` mip levels and the
/// first array layer of `image`, in the given aspects.
pub open spec fn spec_image_view(
    image: u64,
    mip_levels: u32,
    format: Format,
    aspect_mask: ImageAspectFlags,
) -> ImageViewCreateInfo {
    ImageViewCreateInfo {
        image,
        view_type: ImageViewType::Type2D,
        format,
        subresource_range: ImageSubresourceRange {
            aspect_mask,
            base_mip_level: 0,
            level_count: mip_levels,
            base_array_layer: 0,
            layer_count: 1,
        },
    }
}

/// The two-dimensional view of the first `mip_levels` mip levels and the
/// first array layer of `image`, in the given aspects.
pub fn create_image_view(
    image: u64,
    mip_levels: u32,
    format: Format,
    aspect_mask: ImageAspectFlags,
) -> (info: ImageViewCreateInfo)
    ensures
        info == spec_image_view(image, mip_levels, format, aspect_mask),
{
    ImageViewCreateInfo {
        image,
        view_type: ImageViewType::Type2D,
        format,
        subresource_range: ImageSubresourceRange {
            aspect_mask,
            base_mip_level: 0,
            level_count: mip_levels,
            base_array_layer: 0,
            layer_count: 1,
        },
    }
}

/// The views of the presentable images: for each image, in order, the view
/// of the first mip level of its colour aspect.
pub fn create_swapchain_image_views(swapchain_images: &Vec<u64>, format: Format) -> (views: Vec<
    ImageViewCreateInfo,
>)
    ensures
        views@.len() == swapchain_images@.len(),
        forall|i: int|
            0 <= i < views@.len() ==> views@[i] == spec_image_view(
                #[trigger] swapchain_images@[i],
                1,
                format,
                ImageAspectFlags { bits: IMAGE_ASPECT_COLOR },
            ),
{
    let mut views: Vec<ImageViewCreateInfo> = Vec::new();
    let mut i: usize = 0;
    while i < swapchain_images.len()
        invariant
            i <= swapchain_images@.len(),
            views@.len() == i,
            forall|k: int|
                0 <= k < i ==> views@[k] == spec_image_view(
                    #[trigger] swapchain_images@[k],
                    1,
                    format,
                    ImageAspectFlags { bits: IMAGE_ASPECT_COLOR },
                ),
        decreases swapchain_images@.len() - i,
    {
        views.push(
            create_image_view(
                swapchain_images[i],
                1,
                format,
                ImageAspectFlags { bits: IMAGE_ASPECT_COLOR },
            ),
        );
        i += 1;
    }
    views
}

/// Bit of a command pool's creation flags: its command buffers can be reset
/// one by one.
pub const COMMAND_POOL_RESET_COMMAND_BUFFER: u32 = 0x2;

/// Description of the command pool to create.
#[derive(Clone, Copy, Debug, PartialEq, Eq, Structural)]
pub struct CommandPoolCreateInfo {
    pub flags: u32,
    pub queue_family_index: u32,
}

/// The command pool: for the graphics family, with command buffers that can
/// be reset one by one.
pub fn command_pool_create_info(graphics_family_idx: u32) -> (info: CommandPoolCreateInfo)
    ensures
        info == (CommandPoolCreateInfo {
            flags: COMMAND_POOL_RESET_COMMAND_BUFFER,
            queue_family_index: graphics_family_idx,
        }),
{
    CommandPoolCreateInfo {
        flags: COMMAND_POOL_RESET_COMMAND_BUFFER,
        queue_family_index: graphics_family_idx,
    }
}

/// Bit of a descriptor pool's creation flags: its sets can be freed one by
/// one.
pub const DESCRIPTOR_POOL_FREE_DESCRIPTOR_SET: u32 = 0x1;

/// Number of descriptors of each kind in the descriptor pool.
pub const DESCRIPTORS_PER_TYPE: u32 = 4096;

/// Number of descriptor sets in the descriptor pool.
pub const MAX_DESCRIPTOR_SETS: u32 = 1000;

/// How many descriptors of one kind a descriptor pool holds.
#[derive(Clone, Copy, Debug, PartialEq, Eq, Structural)]
pub struct DescriptorPoolSize {
    pub ty: DescriptorType,
    pub descriptor_count: u32,
}

/// Description of the descriptor pool to create.
#[derive(Debug)]
pub struct DescriptorPoolCreateInfo {
    pub pool_sizes: Vec<DescriptorPoolSize>,
    pub max_sets: u32,
    pub flags: u32,
}

/// The kinds of descriptors of the descriptor pool, with their numbers.
pub open spec fn spec_pool_sizes() -> Seq<DescriptorPoolSize> {
    seq![
        DescriptorPoolSize {
            ty: DescriptorType::UniformBuffer,
            descriptor_count: DESCRIPTORS_PER_TYPE,
        },
        DescriptorPoolSize {
            ty: DescriptorType::StorageBuffer,
            descriptor_count: DESCRIPTORS_PER_TYPE,
        },
        DescriptorPoolSize {
            ty: DescriptorType::SampledImage,
            descriptor_count: DESCRIPTORS_PER_TYPE,
        },
        DescriptorPoolSize { ty: DescriptorType::Sampler, descriptor_count: DESCRIPTORS_PER_TYPE },
    ]
}

/// The descriptor pool: a thousand sets, which can be freed one by one, with
/// 4096 descriptors each of uniform buffers, storage buffers, sampled images
/// and samplers.
pub fn descriptor_pool_create_info() -> (info: DescriptorPoolCreateInfo)
    ensures
        info.pool_sizes@ == spec_pool_sizes(),
        info.max_sets == MAX_DESCRIPTOR_SETS,
        info.flags == DESCRIPTOR_POOL_FREE_DESCRIPTOR_SET,
{
    let mut pool_sizes: Vec<DescriptorPoolSize> = Vec::new();
    pool_sizes.push(
        DescriptorPoolSize {
            ty: DescriptorType::UniformBuffer,
            descriptor_count: DESCRIPTORS_PER_TYPE,
        },
    );
    pool_sizes.push(
        DescriptorPoolSize {
            ty: DescriptorType::StorageBuffer,
            descriptor_count: DESCRIPTORS_PER_TYPE,
        },
    );
    pool_sizes.push(
        DescriptorPoolSize {
            ty: DescriptorType::SampledImage,
            descriptor_count: DESCRIPTORS_PER_TYPE,
        },
    );
    pool_sizes.push(
        DescriptorPoolSize { ty: DescriptorType::Sampler, descriptor_count: DESCRIPTORS_PER_TYPE },
    );
    DescriptorPoolCreateInfo {
        pool_sizes,
        max_sets: MAX_DESCRIPTOR_SETS,
        flags: DESCRIPTOR_POOL_FREE_DESCRIPTOR_SET,
    }
}

} // verus!
