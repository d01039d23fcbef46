//! Pipeline layouts and compute pipelines.
//!
//! A pipeline shares the ownership of its layout and of its shader, and a
//! layout that of its descriptor set layouts: none of them goes away while
//! something built from it exists.

use std::sync::Arc;
use vstd::prelude::*;
use vstd::string::*;

use crate::render::hal::vulkan::descriptor_set::DescriptorSetLayout;
use crate::render::hal::vulkan::native::{ShaderStageFlags, SHADER_STAGE_COMPUTE};
use crate::render::hal::vulkan::shader::Shader;
use crate::render::hal::{ComputePipelineCreateInfo, PipelineLayoutCreateInfo};

verus! {

/// The descriptor set layouts that the pipelines of a layout are used with.
pub struct PipelineLayout {
    layout: u64,
    descriptor_sets: Vec<Arc<DescriptorSetLayout>>,
}

impl PipelineLayout {
    /// The native pipeline layout.
    pub closed spec fn spec_handle(&self) -> u64 {
        self.layout
    }

    /// The descriptor set layouts that the pipeline layout keeps alive.
    pub closed spec fn spec_descriptor_sets(&self) -> Seq<Arc<DescriptorSetLayout>> {
        self.descriptor_sets@
    }

    /// The native descriptor set layouts that the native pipeline layout is
    /// created from: those of `create_info`, in order.
    pub fn set_layouts(create_info: &PipelineLayoutCreateInfo) -> (layouts: Vec<u64>)
        ensures
            layouts@.len() == create_info.sets@.len(),
            forall|i: int|
                0 <= i < layouts@.len() ==> layouts@[i] == (#[trigger] create_info.sets@[i]).spec_handle(),
    {
        let mut layouts: Vec<u64> = Vec::new();
        let mut i: usize = 0;
        while i < create_info.sets.len()
            invariant
                i <= create_info.sets@.len(),
                layouts@.len() == i,
                forall|k: int|
                    0 <= k < i ==> layouts@[k] == (#[trigger] create_info.sets@[k]).spec_handle(),
            decreases create_info.sets@.len() - i,
        {
            layouts.push(create_info.sets[i].handle());
            i += 1;
        }
        layouts
    }

    /// Takes over the native pipeline layout that was created for
    /// `create_info`, and keeps the descriptor set layouts of `create_info`.
    pub fn new(layout: u64, create_info: PipelineLayoutCreateInfo) -> (created: Arc<Self>)
        ensures
            created.spec_handle() == layout,
            created.spec_descriptor_sets() == create_info.sets@,
    {
        Arc::new(PipelineLayout { layout, descriptor_sets: create_info.sets })
    }

    /// The native pipeline layout.
    #[verifier::when_used_as_spec(spec_handle)]
    pub fn handle(&self) -> (layout: u64)
        ensures
            layout == self.spec_handle(),
    {
        self.layout
    }
}

/// What the native compute pipeline of a description is created from.
#[derive(Debug)]
pub struct ComputeStage {
    pub stage: ShaderStageFlags,
    pub module: u64,
    pub name: &'static str,
    pub layout: u64,
}

/// A compute pipeline.
pub struct ComputePipeline {
    pipeline: u64,
    layout: Arc<PipelineLayout>,
    shader: Arc<Shader>,
}

impl ComputePipeline {
    /// The native pipeline.
    pub closed spec fn spec_handle(&self) -> u64 {
        self.pipeline
    }

    /// The pipeline layout that the pipeline keeps alive.
    pub closed spec fn spec_layout(&self) -> PipelineLayout {
        *self.layout
    }

    /// The shader that the pipeline keeps alive.
    pub closed spec fn spec_shader(&self) -> Shader {
        *self.shader
    }

    /// What the native pipeline is created from: the compute stage of the
    /// shader of `create_info`, entered at its entry point, with its layout.
    pub fn stage(create_info: &ComputePipelineCreateInfo) -> (stage: ComputeStage)
        ensures
            stage.stage == (ShaderStageFlags { bits: SHADER_STAGE_COMPUTE }),
            stage.module == create_info.shader.spec_handle(),
            stage.name@ == create_info.entrypoint@,
            stage.layout == create_info.pipeline_layout.spec_handle(),
    {
        ComputeStage {
            stage: ShaderStageFlags { bits: SHADER_STAGE_COMPUTE },
            module: create_info.shader.handle(),
            name: create_info.entrypoint,
            layout: create_info.pipeline_layout.handle(),
        }
    }

    /// Takes over the native pipeline that was created for `create_info`, and
    /// keeps the layout and the shader of `create_info`.
    pub fn new(pipeline: u64, create_info: ComputePipelineCreateInfo) -> (created: Arc<Self>)
        ensures
            created.spec_handle() == pipeline,
            created.spec_layout() == *create_info.pipeline_layout,
            created.spec_shader() == *create_info.shader,
    {
        Arc::new(
            ComputePipeline {
                pipeline,
                layout: create_info.pipeline_layout,
                shader: create_info.shader,
            },
        )
    }

    /// The native pipeline.
    #[verifier::when_used_as_spec(spec_handle)]
    pub fn handle(&self) -> (pipeline: u64)
        ensures
            pipeline == self.spec_handle(),
    {
        self.pipeline
    }
}

} // verus!
