//! Images: textures that own their memory, and the presentable images that
//! are borrowed from the swapchain.

use vstd::prelude::*;

use crate::render::hal::vulkan::native::{
    AllocationCreateInfo, DestroyImage, DestroyImageView, Extent3D, Format, ImageAspectFlags,
    ImageCreateInfo, ImageSubresourceRange, ImageTiling, ImageType, ImageUsageFlags,
    ImageViewCreateInfo, ImageViewType, MemoryPropertyFlags, MemoryUsage,
    MEMORY_PROPERTY_DEVICE_LOCAL, SAMPLE_COUNT_1,
};

verus! {

/// Anything that can be looked at through an image view.
pub trait Image {
    /// The native image view.
    spec fn image_view_handle(&self) -> u64;

    /// The native image.
    spec fn image_handle(&self) -> u64;

    /// The native image view.
    fn get_image_view(&self) -> (image_view: u64)
        ensures
            image_view == self.image_view_handle(),
    ;

    /// The native image.
    fn get_image(&self) -> (image: u64)
        ensures
            image == self.image_handle(),
    ;
}

/// A presentable image of the swapchain; the swapchain owns it.
#[derive(Clone, Copy, Debug, PartialEq, Eq, Structural)]
pub struct Framebuffer {
    pub image_view: u64,
    pub image: u64,
    pub idx: u32,
}

impl Image for Framebuffer {
    open spec fn image_view_handle(&self) -> u64 {
        self.image_view
    }

    open spec fn image_handle(&self) -> u64 {
        self.image
    }

    fn get_image_view(&self) -> (image_view: u64) {
        self.image_view
    }

    fn get_image(&self) -> (image: u64) {
        self.image
    }
}

/// An image with its view and the memory allocation behind it, of type `A`.
pub struct Texture<A> {
    pub image: u64,
    pub image_view: u64,
    pub allocation: A,
    pub extent: Extent3D,
    pub format: Format,
}

impl<A> Image for Texture<A> {
    open spec fn image_view_handle(&self) -> u64 {
        self.image_view
    }

    open spec fn image_handle(&self) -> u64 {
        self.image
    }

    fn get_image_view(&self) -> (image_view: u64) {
        self.image_view
    }

    fn get_image(&self) -> (image: u64) {
        self.image
    }
}

impl<A> Texture<A> {
    /// The image behind a texture: two-dimensional, with one mip level, one
    /// array layer and one sample per texel, in optimal tiling.
    pub fn image_create_info(format: Format, extent: Extent3D, usage: ImageUsageFlags) -> (info:
        ImageCreateInfo)
        ensures
            info == (ImageCreateInfo {
                image_type: ImageType::Type2D,
                format,
                extent,
                mip_levels: 1,
                array_layers: 1,
                samples: SAMPLE_COUNT_1,
                tiling: ImageTiling::Optimal,
                usage,
            }),
    {
        ImageCreateInfo {
            image_type: ImageType::Type2D,
            format,
            extent,
            mip_levels: 1,
            array_layers: 1,
            samples: SAMPLE_COUNT_1,
            tiling: ImageTiling::Optimal,
            usage,
        }
    }

    /// The memory behind a texture: local to the device, and placed by the
    /// allocator with a preference for device memory.
    pub fn allocation_create_info() -> (info: AllocationCreateInfo)
        ensures
            info == (AllocationCreateInfo {
                usage: MemoryUsage::AutoPreferDevice,
                required_flags: MemoryPropertyFlags { bits: MEMORY_PROPERTY_DEVICE_LOCAL },
            }),
    {
        AllocationCreateInfo {
            usage: MemoryUsage::AutoPreferDevice,
            required_flags: MemoryPropertyFlags { bits: MEMORY_PROPERTY_DEVICE_LOCAL },
        }
    }

    /// The view of a texture's image: two-dimensional, over the first mip
    /// level and the first array layer of the given aspects.
    pub fn image_view_create_info(image: u64, format: Format, aspect_flags: ImageAspectFlags) -> (info:
        ImageViewCreateInfo)
        ensures
            info == (ImageViewCreateInfo {
                image,
                view_type: ImageViewType::Type2D,
                format,
                subresource_range: ImageSubresourceRange {
                    aspect_mask: aspect_flags,
                    base_mip_level: 0,
                    level_count: 1,
                    base_array_layer: 0,
                    layer_count: 1,
                },
            }),
    {
        ImageViewCreateInfo {
            image,
            view_type: ImageViewType::Type2D,
            format,
            subresource_range: ImageSubresourceRange {
                aspect_mask: aspect_flags,
                base_mip_level: 0,
                level_count: 1,
                base_array_layer: 0,
                layer_count: 1,
            },
        }
    }

    /// Takes over an image, its view and its allocation.
    pub fn new(image: u64, image_view: u64, allocation: A, extent: Extent3D, format: Format) -> (texture:
        Self)
        ensures
            texture.image == image,
            texture.image_view == image_view,
            texture.allocation == allocation,
            texture.extent == extent,
            texture.format == format,
    {
        Texture { image, image_view, allocation, extent, format }
    }

    /// Gives the texture up. Two calls destroy it, in this order: first the
    /// view, then the image together with its allocation.
    pub fn destroy(self) -> (calls: (DestroyImageView, DestroyImage<A>))
        ensures
            calls.0.image_view == self.image_view,
            calls.1.image == self.image,
            calls.1.allocation == self.allocation,
    {
        (
            DestroyImageView { image_view: self.image_view },
            DestroyImage { image: self.image, allocation: self.allocation },
        )
    }
}

} // verus!
