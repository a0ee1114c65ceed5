//! Shader programs.

use crate::gpu::{GpuContext, ShaderId};
use std::rc::Rc;
use vstd::prelude::*;

verus! {

/// Shader source an entity supplies, together with the bind-group indices
/// the source text was generated against.  The indices must agree with the
/// pipeline layout the shader is used with; the loading protocol threads the
/// resolved indices into the entity's shader generation to keep them in step.
pub struct ShaderSource {
    pub source: String,
    pub group_model: u32,
    pub group_entity: u32,
}

/// A compiled shader program: a reference to its module.
pub struct ShaderProgram {
    pub module: ShaderId,
}

impl ShaderProgram {
    pub open spec fn wf(self, ctx: GpuContext) -> bool {
        ctx.shader_valid(self.module)
    }
}

/// A fragment-stage shader reference.
pub struct FragmentShader {
    pub shader_program: Rc<ShaderProgram>,
}

impl FragmentShader {
    pub open spec fn spec_program(self) -> ShaderProgram {
        *self.shader_program
    }

    pub fn new(shader_program: Rc<ShaderProgram>) -> (r: FragmentShader)
        ensures
            r.spec_program() == *shader_program,
    {
        FragmentShader { shader_program }
    }

    pub fn program(&self) -> (r: &Rc<ShaderProgram>)
        ensures
            **r == self.spec_program(),
    {
        &self.shader_program
    }
}

} // verus!
