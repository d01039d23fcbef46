//! The numbering of the native API, held against the Vulkan binding.

use patoka::render::hal::vulkan::command_list::COMMAND_BUFFER_LEVEL_PRIMARY;
use patoka::render::hal::vulkan::image::{Framebuffer, Image, Texture};
use patoka::render::hal::vulkan::native::{
    AllocationCreateInfo, DescriptorType, Extent3D, Filter, Format, ImageAspectFlags,
    ImageCreateInfo, ImageLayout, ImageSubresourceRange, ImageTiling, ImageType, ImageUsageFlags,
    ImageViewCreateInfo, ImageViewType, MemoryPropertyFlags, MemoryUsage, PipelineBindPoint,
    ACCESS_2_MEMORY_READ, ACCESS_2_MEMORY_WRITE, FORMAT_B8G8R8A8_UNORM,
    FORMAT_R16G16B16A16_SFLOAT, IMAGE_ASPECT_COLOR, IMAGE_ASPECT_DEPTH,
    IMAGE_USAGE_COLOR_ATTACHMENT, IMAGE_USAGE_STORAGE, IMAGE_USAGE_TRANSFER_DST,
    IMAGE_USAGE_TRANSFER_SRC, MEMORY_PROPERTY_DEVICE_LOCAL, NULL_HANDLE,
    PIPELINE_STAGE_2_ALL_COMMANDS, REMAINING_ARRAY_LAYERS, REMAINING_MIP_LEVELS, SAMPLE_COUNT_1,
    SHADER_STAGE_COMPUTE, SHADER_STAGE_FRAGMENT, SHADER_STAGE_VERTEX, WAIT_TIMEOUT_NS,
};
use patoka::render::hal::vulkan::sync::FENCE_CREATE_SIGNALED;

use ash::vk;
use ash::vk::Handle;

#[test]
fn image_layouts_have_the_numbers_of_the_binding() {
    let pairs = [
        (ImageLayout::Undefined, vk::ImageLayout::UNDEFINED),
        (ImageLayout::General, vk::ImageLayout::GENERAL),
        (ImageLayout::ColorAttachmentOptimal, vk::ImageLayout::COLOR_ATTACHMENT_OPTIMAL),
        (
            ImageLayout::DepthStencilAttachmentOptimal,
            vk::ImageLayout::DEPTH_STENCIL_ATTACHMENT_OPTIMAL,
        ),
        (
            ImageLayout::DepthStencilReadOnlyOptimal,
            vk::ImageLayout::DEPTH_STENCIL_READ_ONLY_OPTIMAL,
        ),
        (ImageLayout::ShaderReadOnlyOptimal, vk::ImageLayout::SHADER_READ_ONLY_OPTIMAL),
        (ImageLayout::TransferSrcOptimal, vk::ImageLayout::TRANSFER_SRC_OPTIMAL),
        (ImageLayout::TransferDstOptimal, vk::ImageLayout::TRANSFER_DST_OPTIMAL),
        (ImageLayout::Preinitialized, vk::ImageLayout::PREINITIALIZED),
        (
            ImageLayout::DepthReadOnlyStencilAttachmentOptimal,
            vk::ImageLayout::DEPTH_READ_ONLY_STENCIL_ATTACHMENT_OPTIMAL,
        ),
        (
            ImageLayout::DepthAttachmentStencilReadOnlyOptimal,
            vk::ImageLayout::DEPTH_ATTACHMENT_STENCIL_READ_ONLY_OPTIMAL,
        ),
        (ImageLayout::DepthAttachmentOptimal, vk::ImageLayout::DEPTH_ATTACHMENT_OPTIMAL),
        (ImageLayout::DepthReadOnlyOptimal, vk::ImageLayout::DEPTH_READ_ONLY_OPTIMAL),
        (ImageLayout::StencilAttachmentOptimal, vk::ImageLayout::STENCIL_ATTACHMENT_OPTIMAL),
        (ImageLayout::StencilReadOnlyOptimal, vk::ImageLayout::STENCIL_READ_ONLY_OPTIMAL),
        (ImageLayout::ReadOnlyOptimal, vk::ImageLayout::READ_ONLY_OPTIMAL),
        (ImageLayout::AttachmentOptimal, vk::ImageLayout::ATTACHMENT_OPTIMAL),
        (ImageLayout::PresentSrc, vk::ImageLayout::PRESENT_SRC_KHR),
        (ImageLayout::VideoDecodeDst, vk::ImageLayout::VIDEO_DECODE_DST_KHR),
        (ImageLayout::VideoDecodeSrc, vk::ImageLayout::VIDEO_DECODE_SRC_KHR),
        (ImageLayout::VideoDecodeDpb, vk::ImageLayout::VIDEO_DECODE_DPB_KHR),
        (ImageLayout::SharedPresent, vk::ImageLayout::SHARED_PRESENT_KHR),
        (ImageLayout::FragmentDensityMapOptimal, vk::ImageLayout::FRAGMENT_DENSITY_MAP_OPTIMAL_EXT),
        (
            ImageLayout::FragmentShadingRateAttachmentOptimal,
            vk::ImageLayout::FRAGMENT_SHADING_RATE_ATTACHMENT_OPTIMAL_KHR,
        ),
        (ImageLayout::RenderingLocalRead, vk::ImageLayout::RENDERING_LOCAL_READ_KHR),
        (ImageLayout::VideoEncodeDst, vk::ImageLayout::VIDEO_ENCODE_DST_KHR),
        (ImageLayout::VideoEncodeSrc, vk::ImageLayout::VIDEO_ENCODE_SRC_KHR),
        (ImageLayout::VideoEncodeDpb, vk::ImageLayout::VIDEO_ENCODE_DPB_KHR),
        (
            ImageLayout::AttachmentFeedbackLoopOptimal,
            vk::ImageLayout::ATTACHMENT_FEEDBACK_LOOP_OPTIMAL_EXT,
        ),
    ];
    for (ours, theirs) in pairs {
        assert_eq!(ours.as_raw(), theirs.as_raw());
        assert_eq!(vk::ImageLayout::from_raw(ours.as_raw()), theirs);
    }
    for (at, (a, _)) in pairs.iter().enumerate() {
        for (b, _) in pairs.iter().skip(at + 1) {
            assert_ne!(a.as_raw(), b.as_raw());
        }
    }
    assert_eq!(ImageLayout::DepthAttachmentOptimal.as_raw(), 1_000_241_000);
    assert_eq!(ImageLayout::PresentSrc.as_raw(), 1_000_001_002);
}

#[test]
fn small_enumerations_have_the_numbers_of_the_binding() {
    assert_eq!(DescriptorType::Sampler.as_raw(), vk::DescriptorType::SAMPLER.as_raw());
    assert_eq!(DescriptorType::SampledImage.as_raw(), vk::DescriptorType::SAMPLED_IMAGE.as_raw());
    assert_eq!(DescriptorType::StorageImage.as_raw(), vk::DescriptorType::STORAGE_IMAGE.as_raw());
    assert_eq!(DescriptorType::UniformBuffer.as_raw(), vk::DescriptorType::UNIFORM_BUFFER.as_raw());
    assert_eq!(DescriptorType::StorageBuffer.as_raw(), vk::DescriptorType::STORAGE_BUFFER.as_raw());
    assert_eq!(Filter::Nearest.as_raw(), vk::Filter::NEAREST.as_raw());
    assert_eq!(Filter::Linear.as_raw(), vk::Filter::LINEAR.as_raw());
    assert_eq!(PipelineBindPoint::Graphics.as_raw(), vk::PipelineBindPoint::GRAPHICS.as_raw());
    assert_eq!(PipelineBindPoint::Compute.as_raw(), vk::PipelineBindPoint::COMPUTE.as_raw());
    assert_eq!(ImageType::Type1D.as_raw(), vk::ImageType::TYPE_1D.as_raw());
    assert_eq!(ImageType::Type2D.as_raw(), vk::ImageType::TYPE_2D.as_raw());
    assert_eq!(ImageType::Type3D.as_raw(), vk::ImageType::TYPE_3D.as_raw());
    assert_eq!(ImageViewType::Type1D.as_raw(), vk::ImageViewType::TYPE_1D.as_raw());
    assert_eq!(ImageViewType::Type2D.as_raw(), vk::ImageViewType::TYPE_2D.as_raw());
    assert_eq!(ImageViewType::Type3D.as_raw(), vk::ImageViewType::TYPE_3D.as_raw());
    assert_eq!(ImageTiling::Optimal.as_raw(), vk::ImageTiling::OPTIMAL.as_raw());
    assert_eq!(ImageTiling::Linear.as_raw(), vk::ImageTiling::LINEAR.as_raw());
    assert_eq!(COMMAND_BUFFER_LEVEL_PRIMARY, vk::CommandBufferLevel::PRIMARY.as_raw());
}

#[test]
fn flag_bits_are_those_of_the_binding() {
    assert_eq!(IMAGE_ASPECT_COLOR, vk::ImageAspectFlags::COLOR.as_raw());
    assert_eq!(IMAGE_ASPECT_DEPTH, vk::ImageAspectFlags::DEPTH.as_raw());
    assert_eq!(PIPELINE_STAGE_2_ALL_COMMANDS, vk::PipelineStageFlags2::ALL_COMMANDS.as_raw());
    assert_eq!(ACCESS_2_MEMORY_READ, vk::AccessFlags2::MEMORY_READ.as_raw());
    assert_eq!(ACCESS_2_MEMORY_WRITE, vk::AccessFlags2::MEMORY_WRITE.as_raw());
    assert_eq!(SHADER_STAGE_VERTEX, vk::ShaderStageFlags::VERTEX.as_raw());
    assert_eq!(SHADER_STAGE_FRAGMENT, vk::ShaderStageFlags::FRAGMENT.as_raw());
    assert_eq!(SHADER_STAGE_COMPUTE, vk::ShaderStageFlags::COMPUTE.as_raw());
    assert_eq!(IMAGE_USAGE_TRANSFER_SRC, vk::ImageUsageFlags::TRANSFER_SRC.as_raw());
    assert_eq!(IMAGE_USAGE_TRANSFER_DST, vk::ImageUsageFlags::TRANSFER_DST.as_raw());
    assert_eq!(IMAGE_USAGE_STORAGE, vk::ImageUsageFlags::STORAGE.as_raw());
    assert_eq!(IMAGE_USAGE_COLOR_ATTACHMENT, vk::ImageUsageFlags::COLOR_ATTACHMENT.as_raw());
    assert_eq!(SAMPLE_COUNT_1, vk::SampleCountFlags::TYPE_1.as_raw());
    assert_eq!(MEMORY_PROPERTY_DEVICE_LOCAL, vk::MemoryPropertyFlags::DEVICE_LOCAL.as_raw());
    assert_eq!(FENCE_CREATE_SIGNALED, vk::FenceCreateFlags::SIGNALED.as_raw());
}

#[test]
fn constants_are_those_of_the_binding() {
    assert_eq!(REMAINING_MIP_LEVELS, vk::REMAINING_MIP_LEVELS);
    assert_eq!(REMAINING_ARRAY_LAYERS, vk::REMAINING_ARRAY_LAYERS);
    assert_eq!(FORMAT_B8G8R8A8_UNORM, vk::Format::B8G8R8A8_UNORM.as_raw());
    assert_eq!(FORMAT_R16G16B16A16_SFLOAT, vk::Format::R16G16B16A16_SFLOAT.as_raw());
    assert_eq!(NULL_HANDLE, vk::Fence::null().as_raw());
    assert_eq!(WAIT_TIMEOUT_NS, 1_000_000_000);
}

#[test]
fn texture_image_is_two_dimensional_and_optimal() {
    let format = Format { raw: FORMAT_R16G16B16A16_SFLOAT };
    let extent = Extent3D { width: 800, height: 600, depth: 1 };
    let usage = ImageUsageFlags {
        bits: IMAGE_USAGE_TRANSFER_SRC
            | IMAGE_USAGE_TRANSFER_DST
            | IMAGE_USAGE_STORAGE
            | IMAGE_USAGE_COLOR_ATTACHMENT,
    };
    assert_eq!(
        Texture::<()>::image_create_info(format, extent, usage),
        ImageCreateInfo {
            image_type: ImageType::Type2D,
            format,
            extent,
            mip_levels: 1,
            array_layers: 1,
            samples: 1,
            tiling: ImageTiling::Optimal,
            usage,
        }
    );
}

#[test]
fn texture_memory_is_local_to_the_device() {
    assert_eq!(
        Texture::<()>::allocation_create_info(),
        AllocationCreateInfo {
            usage: MemoryUsage::AutoPreferDevice,
            required_flags: MemoryPropertyFlags { bits: 1 },
        }
    );
}

#[test]
fn texture_view_covers_the_first_level_and_layer() {
    let format = Format { raw: FORMAT_R16G16B16A16_SFLOAT };
    let aspect = ImageAspectFlags { bits: IMAGE_ASPECT_COLOR };
    assert_eq!(
        Texture::<()>::image_view_create_info(600, format, aspect),
        ImageViewCreateInfo {
            image: 600,
            view_type: ImageViewType::Type2D,
            format,
            subresource_range: ImageSubresourceRange {
                aspect_mask: aspect,
                base_mip_level: 0,
                level_count: 1,
                base_array_layer: 0,
                layer_count: 1,
            },
        }
    );
}

#[test]
fn texture_is_destroyed_view_first_with_its_allocation() {
    let format = Format { raw: FORMAT_R16G16B16A16_SFLOAT };
    let extent = Extent3D { width: 800, height: 600, depth: 1 };
    let texture = Texture::new(600, 601, String::from("allocation"), extent, format);
    assert_eq!(texture.image, 600);
    assert_eq!(texture.image_view, 601);
    assert_eq!(texture.extent, extent);
    assert_eq!(texture.format, format);
    assert_eq!(texture.get_image(), 600);
    assert_eq!(texture.get_image_view(), 601);
    let (first, second) = texture.destroy();
    assert_eq!(first.image_view, 601);
    assert_eq!(second.image, 600);
    assert_eq!(second.allocation, "allocation");
}

#[test]
fn framebuffer_hands_out_its_image_and_view() {
    let framebuffer = Framebuffer { image_view: 201, image: 101, idx: 1 };
    assert_eq!(framebuffer.get_image(), 101);
    assert_eq!(framebuffer.get_image_view(), 201);
    assert_eq!(framebuffer.idx, 1);
}
