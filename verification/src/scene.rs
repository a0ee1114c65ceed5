//! Scene objects: the render-time record of one instantiated entity.

use crate::gpu::{BindGroupId, BufferId, GpuContext, PipelineId};
use crate::handle::Handle;
use crate::model::ModelData;
use std::rc::Rc;
use vstd::prelude::*;

verus! {

/// Handle of a scene object in the manager's arena.
pub type SceneObjectHandle = Handle;

/// Byte length of a four-by-four single-precision transform matrix.
pub const TRANSFORM_BYTES: usize = 64;

/// Byte `i` of the identity transform matrix: sixteen little-endian
/// single-precision elements, one where row equals column, zero elsewhere.
pub open spec fn spec_identity_transform_byte(i: int) -> u8 {
    if i % 4 == 2 && (i / 4) % 5 == 0 {
        0x80
    } else if i % 4 == 3 && (i / 4) % 5 == 0 {
        0x3f
    } else {
        0
    }
}

/// Builds the identity transform as raw uniform bytes.
pub fn identity_transform_bytes() -> (r: Vec<u8>)
    ensures
        r@.len() == TRANSFORM_BYTES,
        forall|i: int| 0 <= i < r@.len() ==> r@[i] == spec_identity_transform_byte(i),
{
    let mut r: Vec<u8> = Vec::new();
    let mut i: usize = 0;
    while i < TRANSFORM_BYTES
        invariant
            i <= TRANSFORM_BYTES,
            r@.len() == i,
            forall|j: int| 0 <= j < i ==> r@[j] == spec_identity_transform_byte(j),
        decreases TRANSFORM_BYTES - i,
    {
        let element: usize = i / 4;
        let b: u8 = if element % 5 == 0 {
            if i % 4 == 2 {
                0x80
            } else if i % 4 == 3 {
                0x3f
            } else {
                0
            }
        } else {
            0
        };
        r.push(b);
        i = i + 1;
    }
    r
}

/// The render-time state of one instantiated entity: its shared geometry and
/// pipeline, its own transform uniform, and its bind groups.
///
/// `entity_bindgroup` is present exactly when the entity kind's binding
/// manifest is non-empty.
pub struct SceneObject {
    pub name: String,
    pub model_data: Rc<ModelData>,
    pub pipeline_ref: Option<PipelineId>,
    pub sceneobject_bindgroup: BindGroupId,
    pub entity_bindgroup: Option<BindGroupId>,
    /// CPU-side copy of the object's transform matrix, uploaded every frame.
    pub transform: Vec<u8>,
    pub transform_buffer: BufferId,
    pub model_matrix_changed: bool,
}

impl SceneObject {
    /// Every id the object holds is live and its transform has uniform size.
    pub open spec fn wf(self, ctx: GpuContext) -> bool {
        &&& self.model_data.wf(ctx)
        &&& match self.pipeline_ref {
            Some(p) => ctx.pipeline_valid(p),
            None => true,
        }
        &&& ctx.bind_group_valid(self.sceneobject_bindgroup)
        &&& match self.entity_bindgroup {
            Some(bg) => ctx.bind_group_valid(bg),
            None => true,
        }
        &&& ctx.buffer_valid(self.transform_buffer)
        &&& self.transform@.len() == TRANSFORM_BYTES
    }

    pub fn get_name(&self) -> (r: &String)
        ensures
            r == &self.name,
    {
        &self.name
    }

    pub fn transform_ref(&self) -> (r: &Vec<u8>)
        ensures
            r == &self.transform,
    {
        &self.transform
    }

    /// Replaces the object's transform; the new bytes reach the GPU on the
    /// next frame.
    pub fn set_transform(&mut self, transform: Vec<u8>)
        requires
            transform@.len() == TRANSFORM_BYTES,
        ensures
            *final(self) == (SceneObject { transform, model_matrix_changed: true, ..*old(self) }),
    {
        self.transform = transform;
        self.model_matrix_changed = true;
    }
}

} // verus!
