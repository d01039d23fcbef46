//! Backend-independent configuration objects and the error type of the layer.

use std::sync::Arc;
use vstd::prelude::*;
use vstd::string::*;

use crate::render::hal::vulkan::descriptor_set::DescriptorSetLayout;
use crate::render::hal::vulkan::pipeline::PipelineLayout;
use crate::render::hal::vulkan::shader::Shader;

pub mod vulkan;

verus! {

/// The text that the Vulkan binding prints for the result code `code`.
pub uninterp spec fn vk_result_text(code: i32) -> Seq<char>;

/// Formats a Vulkan result code with `ash::vk::Result`'s `Display` impl.
///
/// Trusted: the text depends on the code alone, so it is given the name
/// [`vk_result_text`]; nothing else is claimed of it.
#[verifier::external_body]
fn describe_vk_result(code: i32) -> (text: String)
    ensures
        text@ == vk_result_text(code),
{
    format!("{}", ash::vk::Result::from_raw(code))
}

/// The single failure kind of the layer: a native call or the windowing
/// system reported a failure, described by a human-readable message.
#[derive(Debug)]
pub enum Error {
    Backend(String),
}

impl Error {
    /// The message carried by the error.
    pub open spec fn message(&self) -> Seq<char> {
        match self {
            Error::Backend(msg) => msg@,
        }
    }

    /// Message of a failed Vulkan call that the binding describes as
    /// `description`.
    pub open spec fn vk_description_message(description: Seq<char>) -> Seq<char> {
        "Vulkan error: "@ + description
    }

    /// Message of a failed Vulkan call with result code `code`.
    pub open spec fn vk_message(code: i32) -> Seq<char> {
        Error::vk_description_message(vk_result_text(code))
    }

    /// Message of a failure reported by the operating system's windowing layer.
    pub open spec fn os_message(description: Seq<char>) -> Seq<char> {
        "OS error: "@ + description
    }

    /// Message of a window or display handle that could not be obtained.
    pub open spec fn handle_message(description: Seq<char>) -> Seq<char> {
        "Invalid handle: "@ + description
    }

    /// The message, as an owned string.
    pub fn to_string(&self) -> (text: String)
        ensures
            text@ == self.message(),
    {
        match self {
            Error::Backend(msg) => msg.clone(),
        }
    }

    /// Wraps the description of a failed Vulkan call.
    pub fn from_vk_description(description: &str) -> (error: Error)
        ensures
            error.message() == Error::vk_description_message(description@),
    {
        Error::Backend(String::from_str("Vulkan error: ").concat(description))
    }

    /// Wraps the result code of a failed Vulkan call, described as the
    /// binding describes it.
    pub fn from_vk_result(code: i32) -> (error: Error)
        ensures
            error.message() == Error::vk_message(code),
    {
        let text = describe_vk_result(code);
        Error::from_vk_description(text.as_str())
    }

    /// Takes the outcome of a native call that returns nothing: success, or
    /// the result code of the failure. Every failure is an error; nothing is
    /// tried again.
    pub fn from_outcome(outcome: Result<(), i32>) -> (result: Result<(), Error>)
        ensures
            match outcome {
                Ok(()) => result is Ok,
                Err(code) => result matches Err(error) && error.message() == Error::vk_message(
                    code,
                ),
            },
    {
        match outcome {
            Ok(()) => Ok(()),
            Err(code) => Err(Error::from_vk_result(code)),
        }
    }

    /// Wraps a failure of the operating system's windowing layer.
    pub fn from_os_error(description: &str) -> (error: Error)
        ensures
            error.message() == Error::os_message(description@),
    {
        Error::Backend(String::from_str("OS error: ").concat(description))
    }

    /// Wraps a failure to obtain a window or display handle.
    pub fn from_handle_error(description: &str) -> (error: Error)
        ensures
            error.message() == Error::handle_message(description@),
    {
        Error::Backend(String::from_str("Invalid handle: ").concat(description))
    }
}

/// Options of the device context.
pub struct RendererCreateInfo {
    /// Title of the window that the renderer presents to.
    pub title: String,
    /// Width and height of the window, which are those of the presentable images.
    pub window_size: (u32, u32),
}

/// Options of a command list; there are none.
pub struct CommandListCreateInfo {}

/// Options of a semaphore; there are none.
pub struct SemaphoreCreateInfo {}

/// Options of a fence; there are none.
pub struct FenceCreateInfo {}

/// Kind of resource that a binding of a descriptor set refers to.
#[derive(Clone, Copy, Debug, PartialEq, Eq, Structural)]
pub enum BindingType {
    UniformBuffer,
    StorageBuffer,
    Texture,
    Sampler,
}

/// Bit of the vertex stage in [`ShaderStages`].
pub const STAGE_VERTEX: u8 = 0x1;

/// Bit of the fragment stage in [`ShaderStages`].
pub const STAGE_FRAGMENT: u8 = 0x2;

/// Bit of the compute stage in [`ShaderStages`].
pub const STAGE_COMPUTE: u8 = 0x4;

/// A set of shader stages, one bit per stage.
#[derive(Clone, Copy, Debug, PartialEq, Eq, Structural)]
pub struct ShaderStages {
    pub bits: u8,
}

impl ShaderStages {
    /// Whether every stage of `other` is in `self`.
    pub open spec fn spec_contains(self, other: ShaderStages) -> bool {
        self.bits & other.bits == other.bits
    }

    /// The stages that are in `self` or in `other`.
    pub open spec fn spec_union(self, other: ShaderStages) -> ShaderStages {
        ShaderStages { bits: self.bits | other.bits }
    }

    /// No stage.
    pub fn empty() -> (stages: ShaderStages)
        ensures
            stages.bits == 0,
    {
        ShaderStages { bits: 0 }
    }

    /// The vertex stage alone.
    pub fn vertex() -> (stages: ShaderStages)
        ensures
            stages.bits == STAGE_VERTEX,
    {
        ShaderStages { bits: STAGE_VERTEX }
    }

    /// The fragment stage alone.
    pub fn fragment() -> (stages: ShaderStages)
        ensures
            stages.bits == STAGE_FRAGMENT,
    {
        ShaderStages { bits: STAGE_FRAGMENT }
    }

    /// The compute stage alone.
    pub fn compute() -> (stages: ShaderStages)
        ensures
            stages.bits == STAGE_COMPUTE,
    {
        ShaderStages { bits: STAGE_COMPUTE }
    }

    /// Whether every stage of `other` is in `self`.
    #[verifier::when_used_as_spec(spec_contains)]
    pub fn contains(self, other: ShaderStages) -> (found: bool)
        ensures
            found == self.spec_contains(other),
    {
        self.bits & other.bits == other.bits
    }

    /// The stages that are in `self` or in `other`.
    #[verifier::when_used_as_spec(spec_union)]
    pub fn union(self, other: ShaderStages) -> (both: ShaderStages)
        ensures
            both == self.spec_union(other),
    {
        ShaderStages { bits: self.bits | other.bits }
    }
}

/// One entry of a descriptor set layout.
#[derive(Clone, Copy, Debug, PartialEq, Eq, Structural)]
pub struct DescriptorSetBinding {
    pub typ: BindingType,
    pub binding: u32,
    pub stage: ShaderStages,
}

/// The binding schema of a descriptor set layout.
pub struct DescriptorSetLayoutCreateInfo {
    pub bindings: Vec<DescriptorSetBinding>,
}

/// Pre-compiled shader code, as 32-bit words.
pub struct ShaderCreateInfo {
    pub code: &'static [u32],
}

/// The descriptor set layouts of a pipeline layout, in set order.
pub struct PipelineLayoutCreateInfo {
    pub sets: Vec<Arc<DescriptorSetLayout>>,
}

/// What a compute pipeline is built from.
pub struct ComputePipelineCreateInfo {
    pub shader: Arc<Shader>,
    pub pipeline_layout: Arc<PipelineLayout>,
    /// Name of the function of the shader at which execution starts.
    pub entrypoint: &'static str,
}

} // verus!
