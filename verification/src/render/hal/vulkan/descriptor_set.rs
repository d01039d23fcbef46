//! Descriptor set layouts and descriptor sets.
//!
//! A descriptor set exists once per frame slot, so that a write for the frame
//! being recorded never touches what the GPU still reads for the frame before.

use std::sync::Arc;
use vstd::prelude::*;
use vstd::string::*;

use crate::render::hal::vulkan::image::Texture;
use crate::render::hal::vulkan::native::{
    DescriptorSetAllocateInfo, DescriptorSetLayoutBinding, DescriptorType, FreeDescriptorSets,
    ImageLayout, ShaderStageFlags, WriteDescriptorSet, SHADER_STAGE_COMPUTE,
    SHADER_STAGE_FRAGMENT, SHADER_STAGE_VERTEX,
};
use crate::render::hal::vulkan::renderer::Renderer;
use crate::render::hal::vulkan::FRAME_OVERLAP;
use crate::render::hal::{
    BindingType, DescriptorSetBinding, DescriptorSetLayoutCreateInfo, Error, ShaderStages,
    STAGE_COMPUTE, STAGE_FRAGMENT, STAGE_VERTEX,
};

verus! {

/// The native descriptor type of a kind of binding.
pub open spec fn spec_convert_binding_type(binding: BindingType) -> DescriptorType {
    match binding {
        BindingType::UniformBuffer => DescriptorType::UniformBuffer,
        BindingType::StorageBuffer => DescriptorType::StorageBuffer,
        BindingType::Texture => DescriptorType::StorageImage,
        BindingType::Sampler => DescriptorType::Sampler,
    }
}

/// The native descriptor type of a kind of binding.
#[verifier::when_used_as_spec(spec_convert_binding_type)]
pub fn convert_binding_type(binding: BindingType) -> (descriptor_type: DescriptorType)
    ensures
        descriptor_type == spec_convert_binding_type(binding),
{
    match binding {
        BindingType::UniformBuffer => DescriptorType::UniformBuffer,
        BindingType::StorageBuffer => DescriptorType::StorageBuffer,
        BindingType::Texture => DescriptorType::StorageImage,
        BindingType::Sampler => DescriptorType::Sampler,
    }
}

/// The native stage mask of a set of stages: the native bit of each stage of
/// the set, and no other bit.
pub open spec fn spec_convert_shader_stage(stage: ShaderStages) -> ShaderStageFlags {
    ShaderStageFlags {
        bits: (if stage.bits & STAGE_VERTEX == STAGE_VERTEX {
            SHADER_STAGE_VERTEX
        } else {
            0u32
        }) | (if stage.bits & STAGE_FRAGMENT == STAGE_FRAGMENT {
            SHADER_STAGE_FRAGMENT
        } else {
            0u32
        }) | (if stage.bits & STAGE_COMPUTE == STAGE_COMPUTE {
            SHADER_STAGE_COMPUTE
        } else {
            0u32
        }),
    }
}

/// The native stage mask of a set of stages.
///
/// A native stage bit is set exactly when the stage is in the set, and no
/// other native bit is set.
#[verifier::when_used_as_spec(spec_convert_shader_stage)]
pub fn convert_shader_stage(stage: ShaderStages) -> (flags: ShaderStageFlags)
    ensures
        flags == spec_convert_shader_stage(stage),
        (flags.bits & SHADER_STAGE_VERTEX != 0) == stage.spec_contains(
            ShaderStages { bits: STAGE_VERTEX },
        ),
        (flags.bits & SHADER_STAGE_FRAGMENT != 0) == stage.spec_contains(
            ShaderStages { bits: STAGE_FRAGMENT },
        ),
        (flags.bits & SHADER_STAGE_COMPUTE != 0) == stage.spec_contains(
            ShaderStages { bits: STAGE_COMPUTE },
        ),
        flags.bits & !(SHADER_STAGE_VERTEX | SHADER_STAGE_FRAGMENT | SHADER_STAGE_COMPUTE) == 0,
{
    let vertex: u32 = if stage.contains(ShaderStages::vertex()) {
        SHADER_STAGE_VERTEX
    } else {
        0
    };
    let fragment: u32 = if stage.contains(ShaderStages::fragment()) {
        SHADER_STAGE_FRAGMENT
    } else {
        0
    };
    let compute: u32 = if stage.contains(ShaderStages::compute()) {
        SHADER_STAGE_COMPUTE
    } else {
        0
    };
    let bits: u32 = vertex | fragment | compute;
    assert((bits & 0x1 != 0) == (vertex == 0x1) && (bits & 0x10 != 0) == (fragment == 0x10) && (bits
        & 0x20 != 0) == (compute == 0x20) && bits & !(0x1u32 | 0x10u32 | 0x20u32) == 0)
        by (bit_vector)
        requires
            bits == vertex | fragment | compute,
            vertex == 0 || vertex == 0x1,
            fragment == 0 || fragment == 0x10,
            compute == 0 || compute == 0x20,
    ;
    ShaderStageFlags { bits }
}

/// The native form of one entry of a binding schema: one descriptor of the
/// entry's kind at the entry's index, visible to the entry's stages.
pub open spec fn spec_layout_binding(binding: DescriptorSetBinding) -> DescriptorSetLayoutBinding {
    DescriptorSetLayoutBinding {
        binding: binding.binding,
        descriptor_type: spec_convert_binding_type(binding.typ),
        descriptor_count: 1,
        stage_flags: spec_convert_shader_stage(binding.stage),
    }
}

/// An immutable binding schema.
pub struct DescriptorSetLayout {
    layout: u64,
    bindings: Vec<DescriptorSetBinding>,
}

impl DescriptorSetLayout {
    /// The native layout.
    pub closed spec fn spec_handle(&self) -> u64 {
        self.layout
    }

    /// The schema: the bindings that the layout was created with, in order.
    pub closed spec fn spec_bindings(&self) -> Seq<DescriptorSetBinding> {
        self.bindings@
    }

    /// The native entries of a schema, one for each binding and in the same
    /// order. The native layout is created from them, with no creation flag.
    pub fn layout_bindings(create_info: &DescriptorSetLayoutCreateInfo) -> (native: Vec<
        DescriptorSetLayoutBinding,
    >)
        ensures
            native@.len() == create_info.bindings@.len(),
            forall|i: int|
                0 <= i < native@.len() ==> native@[i] == spec_layout_binding(
                    #[trigger] create_info.bindings@[i],
                ),
    {
        let mut native: Vec<DescriptorSetLayoutBinding> = Vec::new();
        let mut i: usize = 0;
        while i < create_info.bindings.len()
            invariant
                i <= create_info.bindings@.len(),
                native@.len() == i,
                forall|k: int|
                    0 <= k < i ==> native@[k] == spec_layout_binding(
                        #[trigger] create_info.bindings@[k],
                    ),
            decreases create_info.bindings@.len() - i,
        {
            let b = &create_info.bindings[i];
            native.push(
                DescriptorSetLayoutBinding {
                    binding: b.binding,
                    descriptor_type: convert_binding_type(b.typ),
                    descriptor_count: 1,
                    stage_flags: convert_shader_stage(b.stage),
                },
            );
            i += 1;
        }
        native
    }

    /// Takes over the native layout that was created for the schema of
    /// `create_info`.
    pub fn new(layout: u64, create_info: DescriptorSetLayoutCreateInfo) -> (created: Arc<Self>)
        ensures
            created.spec_handle() == layout,
            created.spec_bindings() == create_info.bindings@,
    {
        Arc::new(DescriptorSetLayout { layout, bindings: create_info.bindings })
    }

    /// The native layout.
    #[verifier::when_used_as_spec(spec_handle)]
    pub fn handle(&self) -> (layout: u64)
        ensures
            layout == self.spec_handle(),
    {
        self.layout
    }

    /// The schema.
    pub fn bindings(&self) -> (bindings: &Vec<DescriptorSetBinding>)
        ensures
            bindings@ == self.spec_bindings(),
    {
        &self.bindings
    }
}

/// Whether no two entries of `handles` are equal.
pub open spec fn pairwise_distinct(handles: Seq<u64>) -> bool {
    forall|i: int, j: int| 0 <= i < j < handles.len() ==> handles[i] != handles[j]
}

/// A live binding of resources to the bindings of a layout: one native
/// descriptor set per frame slot.
pub struct DescriptorSet {
    descriptor_sets: [u64; FRAME_OVERLAP],
    layout: Arc<DescriptorSetLayout>,
}

impl DescriptorSet {
    /// The native descriptor sets, by frame slot.
    pub closed spec fn handles(&self) -> Seq<u64> {
        self.descriptor_sets@
    }

    /// The layout that the sets were allocated against.
    pub closed spec fn spec_layout(&self) -> DescriptorSetLayout {
        *self.layout
    }

    /// What holds of every descriptor set: there is one native set per frame
    /// slot, and no two slots share one.
    pub open spec fn wf(&self) -> bool {
        &&& self.handles().len() == FRAME_OVERLAP
        &&& pairwise_distinct(self.handles())
    }

    #[verifier::type_invariant]
    spec fn inv(&self) -> bool {
        self.wf()
    }

    /// Message of the error for frame slots that share a native set.
    pub open spec fn shared_set_message() -> Seq<char> {
        "Descriptor sets of different frame slots share a native set"@
    }

    /// The request for the native sets: from the descriptor pool of the
    /// device, one set of the given layout for each frame slot.
    pub fn allocate_info(renderer: &Renderer, layout: &DescriptorSetLayout) -> (info:
        DescriptorSetAllocateInfo)
        ensures
            info.descriptor_pool == renderer.spec_handles().descriptor_pool,
            info.set_layouts@ == Seq::new(FRAME_OVERLAP as nat, |i: int| layout.spec_handle()),
    {
        let mut set_layouts: Vec<u64> = Vec::new();
        let mut i: usize = 0;
        while i < FRAME_OVERLAP
            invariant
                i <= FRAME_OVERLAP,
                set_layouts@ == Seq::new(i as nat, |k: int| layout.spec_handle()),
            decreases FRAME_OVERLAP - i,
        {
            set_layouts.push(layout.handle());
            i += 1;
        }
        DescriptorSetAllocateInfo {
            descriptor_pool: renderer.handles().descriptor_pool,
            set_layouts,
        }
    }

    /// Takes over the native sets that were allocated for it, one per frame
    /// slot. They are refused when two frame slots would share a native set.
    pub fn new(descriptor_sets: [u64; FRAME_OVERLAP], layout: Arc<DescriptorSetLayout>) -> (result:
        Result<Arc<Self>, Error>)
        ensures
            match result {
                Ok(created) => {
                    &&& pairwise_distinct(descriptor_sets@)
                    &&& created.wf()
                    &&& created.handles() == descriptor_sets@
                    &&& created.spec_layout() == *layout
                },
                Err(error) => {
                    &&& !pairwise_distinct(descriptor_sets@)
                    &&& error.message() == Self::shared_set_message()
                },
            },
    {
        let mut i: usize = 0;
        while i < FRAME_OVERLAP
            invariant
                i <= FRAME_OVERLAP,
                descriptor_sets@.len() == FRAME_OVERLAP,
                forall|a: int, b: int|
                    0 <= a < b < descriptor_sets@.len() && a < i ==> descriptor_sets@[a]
                        != descriptor_sets@[b],
            decreases FRAME_OVERLAP - i,
        {
            let mut j: usize = i + 1;
            while j < FRAME_OVERLAP
                invariant
                    i < j <= FRAME_OVERLAP,
                    descriptor_sets@.len() == FRAME_OVERLAP,
                    forall|b: int| i < b < j ==> descriptor_sets@[i as int] != descriptor_sets@[b],
                decreases FRAME_OVERLAP - j,
            {
                if descriptor_sets[i] == descriptor_sets[j] {
                    return Err(
                        Error::Backend(
                            String::from_str(
                                "Descriptor sets of different frame slots share a native set",
                            ),
                        ),
                    );
                }
                j += 1;
            }
            i += 1;
        }
        Ok(Arc::new(DescriptorSet { descriptor_sets, layout }))
    }

    /// The native descriptor set of the current frame slot.
    pub fn get_current(&self, renderer: &Renderer) -> (set: u64)
        ensures
            set == self.handles()[renderer.spec_current_frame() as int],
    {
        self.descriptor_sets[renderer.current_frame()]
    }

    /// The layout that the sets were allocated against.
    pub fn layout(&self) -> (layout: &Arc<DescriptorSetLayout>)
        ensures
            **layout == self.spec_layout(),
    {
        &self.layout
    }

    /// The write that makes `binding` of frame slot `slot` refer to the image
    /// view `image_view` as a storage image in the general layout.
    pub open spec fn spec_write_texture(&self, slot: int, binding: u32, image_view: u64) -> WriteDescriptorSet {
        WriteDescriptorSet {
            dst_set: self.handles()[slot],
            dst_binding: binding,
            descriptor_count: 1,
            descriptor_type: DescriptorType::StorageImage,
            image_view,
            image_layout: ImageLayout::General,
        }
    }

    /// The write that makes `binding` refer to `texture`, in the native set
    /// of the current frame slot and in no other.
    pub fn write_texture<A>(&self, renderer: &Renderer, binding: u32, texture: &Texture<A>) -> (write:
        WriteDescriptorSet)
        ensures
            write == self.spec_write_texture(
                renderer.spec_current_frame() as int,
                binding,
                texture.image_view,
            ),
    {
        WriteDescriptorSet {
            dst_set: self.get_current(renderer),
            dst_binding: binding,
            descriptor_count: 1,
            descriptor_type: DescriptorType::StorageImage,
            image_view: texture.image_view,
            image_layout: ImageLayout::General,
        }
    }

    /// The return of the native sets of all frame slots to the descriptor
    /// pool of the device, which ends the life of the descriptor set.
    pub fn free_info(&self, renderer: &Renderer) -> (info: FreeDescriptorSets)
        ensures
            info.descriptor_pool == renderer.spec_handles().descriptor_pool,
            info.descriptor_sets@ == self.handles(),
    {
        let mut descriptor_sets: Vec<u64> = Vec::new();
        let mut i: usize = 0;
        while i < FRAME_OVERLAP
            invariant
                i <= FRAME_OVERLAP,
                self.descriptor_sets@.len() == FRAME_OVERLAP,
                descriptor_sets@ == self.descriptor_sets@.subrange(0, i as int),
            decreases FRAME_OVERLAP - i,
        {
            descriptor_sets.push(self.descriptor_sets[i]);
            i += 1;
        }
        FreeDescriptorSets { descriptor_pool: renderer.handles().descriptor_pool, descriptor_sets }
    }
}

/// What the descriptor sets of a device refer to: the image view behind each
/// binding of each native set that was written.
pub open spec fn apply_write(
    bound: Map<(u64, u32), u64>,
    write: WriteDescriptorSet,
) -> Map<(u64, u32), u64> {
    bound.insert((write.dst_set, write.dst_binding), write.image_view)
}

/// Frame slots are isolated from one another: a texture written into a
/// descriptor set while one frame slot is current changes no binding of the
/// native set of any other frame slot.
pub proof fn lemma_write_texture_isolates_slots(
    set: DescriptorSet,
    slot: int,
    other: int,
    binding: u32,
    image_view: u64,
    bound: Map<(u64, u32), u64>,
    other_binding: u32,
)
    requires
        set.wf(),
        0 <= slot < FRAME_OVERLAP,
        0 <= other < FRAME_OVERLAP,
        slot != other,
    ensures
        ({
            let after = apply_write(bound, set.spec_write_texture(slot, binding, image_view));
            let key = (set.handles()[other], other_binding);
            &&& after.dom().contains(key) == bound.dom().contains(key)
            &&& after[key] == bound[key]
            &&& after[(set.handles()[slot], binding)] == image_view
        }),
{
}

} // verus!
