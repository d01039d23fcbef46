//! Descriptor set layouts and descriptor sets.

use std::collections::HashMap;
use std::sync::Arc;

use patoka::render::hal::vulkan::descriptor_set::{
    convert_binding_type, convert_shader_stage, DescriptorSet, DescriptorSetLayout,
};
use patoka::render::hal::vulkan::image::Texture;
use patoka::render::hal::vulkan::native::{
    DescriptorSetLayoutBinding, DescriptorType, Extent3D, Format, ImageLayout, ShaderStageFlags,
    WriteDescriptorSet,
};
use patoka::render::hal::vulkan::renderer::{DeviceHandles, Renderer};
use patoka::render::hal::vulkan::sync::Semaphore;
use patoka::render::hal::{
    BindingType, DescriptorSetBinding, DescriptorSetLayoutCreateInfo, Error, RendererCreateInfo,
    SemaphoreCreateInfo, ShaderStages, STAGE_COMPUTE, STAGE_FRAGMENT, STAGE_VERTEX,
};

fn renderer() -> Renderer {
    let handles = DeviceHandles {
        instance: 1,
        debug_callback: 2,
        physical_device: 3,
        present_family_idx: 1,
        graphics_family_idx: 0,
        present_queue: 4,
        graphics_queue: 5,
        surface: 6,
        swapchain: 7,
        swapchain_images: vec![100, 101, 102],
        swapchain_imageviews: vec![200, 201, 202],
        device: 8,
        command_pool: 9,
        descriptor_pool: 10,
    };
    let info = RendererCreateInfo { title: String::from("Patoka Game"), window_size: (800, 600) };
    Renderer::new(handles, &info).expect("a swapchain with three images is accepted")
}

fn texture(image: u64, image_view: u64) -> Texture<u8> {
    Texture::new(
        image,
        image_view,
        0u8,
        Extent3D { width: 800, height: 600, depth: 1 },
        Format { raw: 97 },
    )
}

fn empty_layout(handle: u64) -> Arc<DescriptorSetLayout> {
    DescriptorSetLayout::new(handle, DescriptorSetLayoutCreateInfo { bindings: vec![] })
}

/// Applies a write to a stand-in for what the descriptor sets refer to.
fn apply(bound: &mut HashMap<(u64, u32), u64>, write: WriteDescriptorSet) {
    bound.insert((write.dst_set, write.dst_binding), write.image_view);
}

#[test]
fn binding_types_map_to_native_descriptor_types() {
    assert_eq!(convert_binding_type(BindingType::UniformBuffer), DescriptorType::UniformBuffer);
    assert_eq!(convert_binding_type(BindingType::StorageBuffer), DescriptorType::StorageBuffer);
    assert_eq!(convert_binding_type(BindingType::Texture), DescriptorType::StorageImage);
    assert_eq!(convert_binding_type(BindingType::Sampler), DescriptorType::Sampler);
    assert_eq!(
        convert_binding_type(BindingType::UniformBuffer).as_raw(),
        ash::vk::DescriptorType::UNIFORM_BUFFER.as_raw()
    );
    assert_eq!(
        convert_binding_type(BindingType::StorageBuffer).as_raw(),
        ash::vk::DescriptorType::STORAGE_BUFFER.as_raw()
    );
    assert_eq!(
        convert_binding_type(BindingType::Texture).as_raw(),
        ash::vk::DescriptorType::STORAGE_IMAGE.as_raw()
    );
    assert_eq!(
        convert_binding_type(BindingType::Sampler).as_raw(),
        ash::vk::DescriptorType::SAMPLER.as_raw()
    );
}

#[test]
fn shader_stages_map_to_native_stage_bits() {
    let vertex = ash::vk::ShaderStageFlags::VERTEX;
    let fragment = ash::vk::ShaderStageFlags::FRAGMENT;
    let compute = ash::vk::ShaderStageFlags::COMPUTE;
    for bits in 0u8..=255 {
        let mut expected = ash::vk::ShaderStageFlags::empty();
        if bits & 0x1 != 0 {
            expected |= vertex;
        }
        if bits & 0x2 != 0 {
            expected |= fragment;
        }
        if bits & 0x4 != 0 {
            expected |= compute;
        }
        assert_eq!(convert_shader_stage(ShaderStages { bits }).bits, expected.as_raw());
    }
    assert_eq!(convert_shader_stage(ShaderStages::empty()), ShaderStageFlags { bits: 0 });
    assert_eq!(convert_shader_stage(ShaderStages::vertex()), ShaderStageFlags { bits: 0x1 });
    assert_eq!(convert_shader_stage(ShaderStages::fragment()), ShaderStageFlags { bits: 0x10 });
    assert_eq!(convert_shader_stage(ShaderStages::compute()), ShaderStageFlags { bits: 0x20 });
    assert_eq!(
        convert_shader_stage(ShaderStages::vertex().union(ShaderStages::compute())),
        ShaderStageFlags { bits: 0x21 }
    );
}

#[test]
fn shader_stage_sets_contain_and_unite() {
    assert_eq!(ShaderStages::vertex().bits, STAGE_VERTEX);
    assert_eq!(ShaderStages::fragment().bits, STAGE_FRAGMENT);
    assert_eq!(ShaderStages::compute().bits, STAGE_COMPUTE);
    assert_eq!((STAGE_VERTEX, STAGE_FRAGMENT, STAGE_COMPUTE), (0x1, 0x2, 0x4));
    let both = ShaderStages::vertex().union(ShaderStages::fragment());
    assert_eq!(both.bits, 0x3);
    assert!(both.contains(ShaderStages::vertex()));
    assert!(both.contains(ShaderStages::fragment()));
    assert!(both.contains(both));
    assert!(both.contains(ShaderStages::empty()));
    assert!(!both.contains(ShaderStages::compute()));
    assert!(!ShaderStages::vertex().contains(both));
    assert!(ShaderStages::empty().contains(ShaderStages::empty()));
}

#[test]
fn layout_bindings_follow_the_schema() {
    let info = DescriptorSetLayoutCreateInfo {
        bindings: vec![
            DescriptorSetBinding {
                stage: ShaderStages::compute(),
                typ: BindingType::Texture,
                binding: 0,
            },
            DescriptorSetBinding {
                stage: ShaderStages::vertex().union(ShaderStages::fragment()),
                typ: BindingType::UniformBuffer,
                binding: 7,
            },
            DescriptorSetBinding {
                stage: ShaderStages::empty(),
                typ: BindingType::Sampler,
                binding: u32::MAX,
            },
        ],
    };
    assert_eq!(
        DescriptorSetLayout::layout_bindings(&info),
        vec![
            DescriptorSetLayoutBinding {
                binding: 0,
                descriptor_type: DescriptorType::StorageImage,
                descriptor_count: 1,
                stage_flags: ShaderStageFlags { bits: 0x20 },
            },
            DescriptorSetLayoutBinding {
                binding: 7,
                descriptor_type: DescriptorType::UniformBuffer,
                descriptor_count: 1,
                stage_flags: ShaderStageFlags { bits: 0x11 },
            },
            DescriptorSetLayoutBinding {
                binding: u32::MAX,
                descriptor_type: DescriptorType::Sampler,
                descriptor_count: 1,
                stage_flags: ShaderStageFlags { bits: 0 },
            },
        ]
    );
    assert!(DescriptorSetLayout::layout_bindings(&DescriptorSetLayoutCreateInfo {
        bindings: vec![]
    })
    .is_empty());
    let layout = DescriptorSetLayout::new(310, info);
    assert_eq!(layout.handle(), 310);
    assert_eq!(layout.bindings().len(), 3);
    assert_eq!(layout.bindings()[1].binding, 7);
}

#[test]
fn sets_are_asked_for_once_per_slot() {
    let renderer = renderer();
    let layout = empty_layout(310);
    let info = DescriptorSet::allocate_info(&renderer, &layout);
    assert_eq!(info.descriptor_pool, 10);
    assert_eq!(info.set_layouts, vec![310, 310]);
}

#[test]
fn sets_that_share_a_native_set_are_refused() {
    match DescriptorSet::new([400, 400], empty_layout(310)) {
        Ok(_) => panic!("two slots with one native set were accepted"),
        Err(Error::Backend(text)) => {
            assert_eq!(text, "Descriptor sets of different frame slots share a native set")
        }
    }
    assert!(DescriptorSet::new([400, 401], empty_layout(310)).is_ok());
}

#[test]
fn descriptor_set_resolves_to_the_current_slot() {
    let mut renderer = renderer();
    let layout = empty_layout(310);
    let set = DescriptorSet::new([400, 401], layout.clone()).expect("the sets are distinct");
    let semaphore = Semaphore::new([40, 41], &SemaphoreCreateInfo {});
    assert!(Arc::ptr_eq(set.layout(), &layout));
    assert_eq!(set.get_current(&renderer), 400);
    renderer.present(&semaphore);
    assert_eq!(set.get_current(&renderer), 401);
    renderer.present(&semaphore);
    assert_eq!(set.get_current(&renderer), 400);
    let free = set.free_info(&renderer);
    assert_eq!(free.descriptor_pool, 10);
    assert_eq!(free.descriptor_sets, vec![400, 401]);
}

#[test]
fn write_texture_addresses_the_set_of_the_current_slot() {
    let mut renderer = renderer();
    let set = DescriptorSet::new([400, 401], empty_layout(310)).expect("the sets are distinct");
    let semaphore = Semaphore::new([40, 41], &SemaphoreCreateInfo {});
    let texture = texture(600, 601);
    assert_eq!(
        set.write_texture(&renderer, 3, &texture),
        WriteDescriptorSet {
            dst_set: 400,
            dst_binding: 3,
            descriptor_count: 1,
            descriptor_type: DescriptorType::StorageImage,
            image_view: 601,
            image_layout: ImageLayout::General,
        }
    );
    renderer.present(&semaphore);
    assert_eq!(set.write_texture(&renderer, 3, &texture).dst_set, 401);
}

#[test]
fn write_in_slot_zero_leaves_slot_one_unchanged() {
    let mut renderer = renderer();
    let set = DescriptorSet::new([400, 401], empty_layout(310)).expect("the sets are distinct");
    let semaphore = Semaphore::new([40, 41], &SemaphoreCreateInfo {});
    let first = texture(600, 601);
    let second = texture(700, 701);
    let mut bound: HashMap<(u64, u32), u64> = HashMap::new();

    renderer.present(&semaphore);
    assert_eq!(renderer.current_frame(), 1);
    apply(&mut bound, set.write_texture(&renderer, 0, &first));
    apply(&mut bound, set.write_texture(&renderer, 1, &first));
    renderer.present(&semaphore);
    assert_eq!(renderer.current_frame(), 0);
    let slot_one_before: Vec<((u64, u32), u64)> =
        bound.iter().filter(|(key, _)| key.0 == 401).map(|(key, view)| (*key, *view)).collect();
    assert_eq!(slot_one_before.len(), 2);

    apply(&mut bound, set.write_texture(&renderer, 0, &second));
    apply(&mut bound, set.write_texture(&renderer, 1, &second));
    apply(&mut bound, set.write_texture(&renderer, 2, &second));

    for (key, view) in slot_one_before {
        assert_eq!(bound.get(&key), Some(&view));
    }
    assert_eq!(bound.iter().filter(|(key, _)| key.0 == 401).count(), 2);
    assert_eq!(bound.get(&(400, 0)), Some(&701));
    assert_eq!(bound.get(&(401, 0)), Some(&601));
    assert_eq!(bound.get(&(401, 2)), None);
}
