//! Fixed bind-group slots shared by every pipeline.

use vstd::prelude::*;

verus! {

/// Bindings shared by all shaders and governed by the render manager,
/// such as the frame time and the camera's projection-view matrix.
pub const BINDGROUP_GLOBAL: u32 = 0;

/// Bindings owned by one scene object, such as its model matrix.
pub const BINDGROUP_SCENEOBJECT: u32 = 1;

} // verus!
