//! Shader modules.

use std::sync::Arc;
use vstd::prelude::*;

use crate::render::hal::ShaderCreateInfo;

verus! {

/// A compiled shader module.
pub struct Shader {
    shader: u64,
}

impl Shader {
    /// The native shader module.
    pub closed spec fn spec_handle(&self) -> u64 {
        self.shader
    }

    /// Takes over the native shader module that was created from the code of
    /// `create_info`.
    pub fn new(shader: u64, create_info: ShaderCreateInfo) -> (created: Arc<Self>)
        ensures
            created.spec_handle() == shader,
    {
        Arc::new(Shader { shader })
    }

    /// The native shader module.
    #[verifier::when_used_as_spec(spec_handle)]
    pub fn handle(&self) -> (shader: u64)
        ensures
            shader == self.spec_handle(),
    {
        self.shader
    }
}

} // verus!
