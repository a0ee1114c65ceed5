//! The frame command stream.
//!
//! A call to `RenderManager::render` decides the whole frame and returns it
//! as a sequence of commands; the host program plays the sequence against the
//! real device, queue and surface in order.  Everything observable about a
//! frame — what is bound at which slot, what is written, how many draw calls
//! are issued and in which order — is fixed by this sequence.

use crate::gpu::{BindGroupId, BufferId, PipelineId, TextureId};
use vstd::prelude::*;

verus! {

/// An RGBA clear colour with eight bits per channel.
#[derive(Clone, Copy, PartialEq, Eq, Structural, Debug)]
pub struct Color {
    pub r: u8,
    pub g: u8,
    pub b: u8,
    pub a: u8,
}

impl Color {
    pub fn black() -> (c: Color)
        ensures
            c == (Color { r: 0, g: 0, b: 0, a: 255 }),
    {
        Color { r: 0, g: 0, b: 0, a: 255 }
    }

    pub fn transparent() -> (c: Color)
        ensures
            c == (Color { r: 0, g: 0, b: 0, a: 0 }),
    {
        Color { r: 0, g: 0, b: 0, a: 0 }
    }
}

/// One step of a frame, in the order the host must play it.
#[derive(PartialEq, Eq, Debug)]
pub enum RenderCommand {
    /// Begin a render pass onto the surface, clearing it.
    BeginSurfacePass { clear: Color },
    /// Begin a render pass onto a texture, clearing it.
    BeginTexturePass { texture: TextureId, clear: Color },
    /// End the current render pass.
    EndPass,
    /// Bind a bind group at a slot of the current pass.
    SetBindGroup { slot: u32, group: BindGroupId },
    /// Bind a vertex buffer.
    SetVertexBuffer { buffer: BufferId },
    /// Select a render pipeline.
    SetPipeline { pipeline: PipelineId },
    /// Upload the manager's current frame time into its uniform buffer.
    WriteTimeBuffer { buffer: BufferId },
    /// Upload the object's current transform into its uniform buffer.
    WriteTransform { buffer: BufferId, object: crate::handle::Handle },
    /// Upload the camera's projection-view matrix combined with the object's
    /// current transform into a buffer.  The combination is the host's: it
    /// owns the camera.
    WriteProjected { buffer: BufferId, object: crate::handle::Handle },
    /// Rasterise prepared text into the current texture pass.
    DrawText { text: String },
    /// Draw a contiguous vertex range with the bound pipeline.
    Draw { start: u32, end: u32 },
    /// Submit the recorded frame and present the surface.
    Present,
}

} // verus!
