//! A device-level model of the GPU backend state.
//!
//! The real device, queue and surface live outside this library (they are
//! frame-synchronous collaborators reached only through the host program).
//! Here every GPU object is a record in an arena-of-resources, addressed by a
//! lightweight integer id issued in creation order.  The host program mirrors
//! the stores one-to-one onto real GPU objects, so everything the render
//! logic decides — which layouts a pipeline stacks, which entries a bind
//! group carries, when the surface is reconfigured — is decided, and proved,
//! here.

use crate::binding::{BindGroupEntry, BindingResource, LayoutEntry};
use crate::vertex::VertexLayout;
use vstd::prelude::*;

verus! {

/// Identifies a buffer in [`GpuContext::buffers`].
#[derive(Clone, Copy, PartialEq, Eq, Structural, Debug)]
pub struct BufferId(pub usize);

/// Identifies a shader module in [`GpuContext::shaders`].
#[derive(Clone, Copy, PartialEq, Eq, Structural, Debug)]
pub struct ShaderId(pub usize);

/// Identifies a bind-group layout in [`GpuContext::layouts`].
#[derive(Clone, Copy, PartialEq, Eq, Structural, Debug)]
pub struct LayoutId(pub usize);

/// Identifies a bind group in [`GpuContext::bind_groups`].
#[derive(Clone, Copy, PartialEq, Eq, Structural, Debug)]
pub struct BindGroupId(pub usize);

/// Identifies a render pipeline in [`GpuContext::pipelines`].
#[derive(Clone, Copy, PartialEq, Eq, Structural, Debug)]
pub struct PipelineId(pub usize);

/// Identifies a texture in [`GpuContext::textures`].
#[derive(Clone, Copy, PartialEq, Eq, Structural, Debug)]
pub struct TextureId(pub usize);

/// Identifies a sampler in [`GpuContext::samplers`].
#[derive(Clone, Copy, PartialEq, Eq, Structural, Debug)]
pub struct SamplerId(pub usize);

/// What a buffer is used for.
#[derive(Clone, Copy, PartialEq, Eq, Structural, Debug)]
pub enum BufferKind {
    Vertex,
    Index,
    Uniform,
}

/// A created buffer: its usage and its initial contents.
pub struct BufferRec {
    pub kind: BufferKind,
    pub contents: Vec<u8>,
}

/// A compiled shader module: its source text and the bind-group indices the
/// source was generated for (zero where the module binds no such group).
pub struct ShaderRec {
    pub source: String,
    pub group_model: u32,
    pub group_entity: u32,
}

/// A created bind-group layout.
pub struct LayoutRec {
    pub label: String,
    pub entries: Vec<LayoutEntry>,
}

/// A created bind group: the layout it was built against and its entries.
pub struct BindGroupRec {
    pub label: String,
    pub layout: LayoutId,
    pub entries: Vec<BindGroupEntry>,
}

/// Primitive topology of a pipeline.
#[derive(Clone, Copy, PartialEq, Eq, Structural, Debug)]
pub enum PrimitiveTopology {
    PointList,
    LineList,
    LineStrip,
    TriangleList,
    TriangleStrip,
}

/// Triangle winding order taken as front-facing.
#[derive(Clone, Copy, PartialEq, Eq, Structural, Debug)]
pub enum FrontFace {
    Ccw,
    Cw,
}

/// Primitive-assembly state of a pipeline.
#[derive(Clone, Copy, PartialEq, Eq, Structural, Debug)]
pub struct PipelineState {
    pub topology: PrimitiveTopology,
    pub front_face: FrontFace,
}

impl PipelineState {
    /// Triangle list with counter-clockwise front faces.
    pub fn basic() -> (r: PipelineState)
        ensures
            r == (PipelineState {
                topology: PrimitiveTopology::TriangleList,
                front_face: FrontFace::Ccw,
            }),
    {
        PipelineState { topology: PrimitiveTopology::TriangleList, front_face: FrontFace::Ccw }
    }
}

/// A created render pipeline: its shader, the bind-group layouts of its
/// pipeline layout in slot order, the vertex layout it consumes and its
/// fixed-function state.
pub struct PipelineRec {
    pub label: String,
    pub shader: ShaderId,
    pub bg_layouts: Vec<LayoutId>,
    pub vertex_layout: VertexLayout,
    pub primitive: PipelineState,
    pub depth_stencil: bool,
}

/// A created texture.  `rgba` holds the uploaded pixels of a texture filled
/// at creation; a render-target texture starts blank.
pub struct TextureRec {
    pub width: u32,
    pub height: u32,
    pub rgba: Option<Vec<u8>>,
    pub render_target: bool,
}

/// A created sampler.
pub struct SamplerRec {
    pub label: String,
}

/// The modelled GPU backend state: the surface configuration, the deferred
/// resize flag and the arenas of created resources.
pub struct GpuContext {
    /// Requested surface width, in pixels (applied to the surface lazily).
    pub width: u32,
    /// Requested surface height, in pixels.
    pub height: u32,
    /// Width the surface is actually configured to.
    pub surface_width: u32,
    /// Height the surface is actually configured to.
    pub surface_height: u32,
    /// A resize arrived and the surface was not reconfigured yet.
    pub resized: bool,
    pub buffers: Vec<BufferRec>,
    pub shaders: Vec<ShaderRec>,
    pub layouts: Vec<LayoutRec>,
    pub bind_groups: Vec<BindGroupRec>,
    pub pipelines: Vec<PipelineRec>,
    pub textures: Vec<TextureRec>,
    pub samplers: Vec<SamplerRec>,
}

impl GpuContext {
    pub open spec fn buffer_valid(self, id: BufferId) -> bool {
        id.0 < self.buffers@.len()
    }

    pub open spec fn shader_valid(self, id: ShaderId) -> bool {
        id.0 < self.shaders@.len()
    }

    pub open spec fn layout_valid(self, id: LayoutId) -> bool {
        id.0 < self.layouts@.len()
    }

    pub open spec fn bind_group_valid(self, id: BindGroupId) -> bool {
        id.0 < self.bind_groups@.len()
    }

    pub open spec fn pipeline_valid(self, id: PipelineId) -> bool {
        id.0 < self.pipelines@.len()
    }

    pub open spec fn texture_valid(self, id: TextureId) -> bool {
        id.0 < self.textures@.len()
    }

    pub open spec fn sampler_valid(self, id: SamplerId) -> bool {
        id.0 < self.samplers@.len()
    }

    pub open spec fn resource_valid(self, r: BindingResource) -> bool {
        match r {
            BindingResource::Buffer(b) => self.buffer_valid(b),
            BindingResource::TextureView(t) => self.texture_valid(t),
            BindingResource::Sampler(s) => self.sampler_valid(s),
        }
    }

    /// Every id held by a stored record refers to a record created earlier.
    pub open spec fn wf(self) -> bool {
        &&& forall|i: int|
            0 <= i < self.bind_groups@.len() ==> self.layout_valid(
                (#[trigger] self.bind_groups@[i]).layout,
            ) && forall|j: int|
                0 <= j < self.bind_groups@[i].entries@.len() ==> self.resource_valid(
                    (#[trigger] self.bind_groups@[i].entries@[j]).resource,
                )
        &&& forall|i: int|
            0 <= i < self.pipelines@.len() ==> self.shader_valid(
                (#[trigger] self.pipelines@[i]).shader,
            ) && forall|j: int|
                0 <= j < self.pipelines@[i].bg_layouts@.len() ==> self.layout_valid(
                    #[trigger] self.pipelines@[i].bg_layouts@[j],
                )
    }

    /// `self` carries every resource of `prior`, unchanged, possibly followed
    /// by newer ones.
    pub open spec fn store_extends(self, prior: Self) -> bool {
        &&& prior.buffers@.is_prefix_of(self.buffers@)
        &&& prior.shaders@.is_prefix_of(self.shaders@)
        &&& prior.layouts@.is_prefix_of(self.layouts@)
        &&& prior.bind_groups@.is_prefix_of(self.bind_groups@)
        &&& prior.pipelines@.is_prefix_of(self.pipelines@)
        &&& prior.textures@.is_prefix_of(self.textures@)
        &&& prior.samplers@.is_prefix_of(self.samplers@)
    }

    /// `self` carries every resource of `prior`, unchanged, possibly followed
    /// by newer ones, and the surface state is untouched.
    pub open spec fn grows(self, prior: Self) -> bool {
        &&& self.store_extends(prior)
        &&& self.width == prior.width
        &&& self.height == prior.height
        &&& self.surface_width == prior.surface_width
        &&& self.surface_height == prior.surface_height
        &&& self.resized == prior.resized
    }

    /// A fresh context: no resources, surface configured to the given size.
    pub fn new(width: u32, height: u32) -> (ctx: GpuContext)
        ensures
            ctx == (GpuContext {
                width,
                height,
                surface_width: width,
                surface_height: height,
                resized: false,
                buffers: ctx.buffers,
                shaders: ctx.shaders,
                layouts: ctx.layouts,
                bind_groups: ctx.bind_groups,
                pipelines: ctx.pipelines,
                textures: ctx.textures,
                samplers: ctx.samplers,
            }),
            ctx.buffers@.len() == 0,
            ctx.shaders@.len() == 0,
            ctx.layouts@.len() == 0,
            ctx.bind_groups@.len() == 0,
            ctx.pipelines@.len() == 0,
            ctx.textures@.len() == 0,
            ctx.samplers@.len() == 0,
            ctx.wf(),
    {
        GpuContext {
            width,
            height,
            surface_width: width,
            surface_height: height,
            resized: false,
            buffers: Vec::new(),
            shaders: Vec::new(),
            layouts: Vec::new(),
            bind_groups: Vec::new(),
            pipelines: Vec::new(),
            textures: Vec::new(),
            samplers: Vec::new(),
        }
    }

    /// Records a resize request without touching the surface: the new size
    /// becomes the wanted configuration and the dirty flag is raised, but the
    /// surface keeps its old configuration until the next frame begins.
    pub fn set_resize(&mut self, width: u32, height: u32)
        ensures
            *final(self) == (GpuContext {
                width,
                height,
                resized: true,
                ..*old(self)
            }),
    {
        self.width = width;
        self.height = height;
        self.resized = true;
    }

    /// Applies a deferred resize, if one is pending, by reconfiguring the
    /// surface to the wanted size.  Safe to call at the start of every frame.
    pub fn update_resize(&mut self)
        ensures
            *final(self) == (GpuContext {
                surface_width: if old(self).resized {
                    old(self).width
                } else {
                    old(self).surface_width
                },
                surface_height: if old(self).resized {
                    old(self).height
                } else {
                    old(self).surface_height
                },
                resized: false,
                ..*old(self)
            }),
    {
        if self.resized {
            self.surface_width = self.width;
            self.surface_height = self.height;
            self.resized = false;
        }
    }

    /// Creates a buffer with the given usage and initial contents.
    pub fn create_buffer(&mut self, kind: BufferKind, contents: Vec<u8>) -> (id: BufferId)
        ensures
            id.0 == old(self).buffers@.len(),
            *final(self) == (GpuContext { buffers: final(self).buffers, ..*old(self) }),
            final(self).buffers@ == old(self).buffers@.push(BufferRec { kind, contents: contents }),
            final(self).grows(*old(self)),
            old(self).wf() ==> final(self).wf(),
    {
        let id = BufferId(self.buffers.len());
        let ghost prior = *self;
        self.buffers.push(BufferRec { kind, contents });
        proof {
            grows_after_push(*self, prior);
        }
        id
    }

    /// Compiles a shader module from source.  The recorded group indices are
    /// the ones the source text was generated against.
    pub fn create_shader_module(
        &mut self,
        source: String,
        group_model: u32,
        group_entity: u32,
    ) -> (id: ShaderId)
        ensures
            id.0 == old(self).shaders@.len(),
            *final(self) == (GpuContext { shaders: final(self).shaders, ..*old(self) }),
            final(self).shaders@ == old(self).shaders@.push(
                ShaderRec { source, group_model, group_entity },
            ),
            final(self).grows(*old(self)),
            old(self).wf() ==> final(self).wf(),
    {
        let id = ShaderId(self.shaders.len());
        let ghost prior = *self;
        self.shaders.push(ShaderRec { source, group_model, group_entity });
        proof {
            grows_after_push(*self, prior);
        }
        id
    }

    /// Creates a bind-group layout with the given entries.
    pub fn create_bind_group_layout(&mut self, label: String, entries: Vec<LayoutEntry>) -> (id:
        LayoutId)
        ensures
            id.0 == old(self).layouts@.len(),
            *final(self) == (GpuContext { layouts: final(self).layouts, ..*old(self) }),
            final(self).layouts@ == old(self).layouts@.push(LayoutRec { label, entries: entries }),
            final(self).grows(*old(self)),
            old(self).wf() ==> final(self).wf(),
    {
        let id = LayoutId(self.layouts.len());
        let ghost prior = *self;
        self.layouts.push(LayoutRec { label, entries });
        proof {
            grows_after_push(*self, prior);
        }
        id
    }

    /// Creates a bind group against an existing layout.  Every entry must
    /// name a live resource.
    pub fn create_bind_group(
        &mut self,
        label: String,
        layout: LayoutId,
        entries: Vec<BindGroupEntry>,
    ) -> (id: BindGroupId)
        requires
            old(self).layout_valid(layout),
            forall|j: int|
                0 <= j < entries@.len() ==> old(self).resource_valid(
                    (#[trigger] entries@[j]).resource,
                ),
        ensures
            id.0 == old(self).bind_groups@.len(),
            *final(self) == (GpuContext { bind_groups: final(self).bind_groups, ..*old(self) }),
            final(self).bind_groups@ == old(self).bind_groups@.push(
                BindGroupRec { label, layout, entries: entries },
            ),
            final(self).grows(*old(self)),
            old(self).wf() ==> final(self).wf(),
    {
        let id = BindGroupId(self.bind_groups.len());
        let ghost prior = *self;
        self.bind_groups.push(BindGroupRec { label, layout, entries });
        proof {
            grows_after_push(*self, prior);
        }
        id
    }

    /// Creates a render pipeline over an existing shader and layout stack.
    pub fn create_render_pipeline(
        &mut self,
        label: String,
        shader: ShaderId,
        bg_layouts: Vec<LayoutId>,
        vertex_layout: VertexLayout,
        primitive: PipelineState,
        depth_stencil: bool,
    ) -> (id: PipelineId)
        requires
            old(self).shader_valid(shader),
            forall|j: int| 0 <= j < bg_layouts@.len() ==> old(self).layout_valid(
                #[trigger] bg_layouts@[j],
            ),
        ensures
            id.0 == old(self).pipelines@.len(),
            *final(self) == (GpuContext { pipelines: final(self).pipelines, ..*old(self) }),
            final(self).pipelines@ == old(self).pipelines@.push(
                PipelineRec {
                    label,
                    shader,
                    bg_layouts: bg_layouts,
                    vertex_layout,
                    primitive,
                    depth_stencil,
                },
            ),
            final(self).grows(*old(self)),
            old(self).wf() ==> final(self).wf(),
    {
        let id = PipelineId(self.pipelines.len());
        let ghost prior = *self;
        self.pipelines.push(
            PipelineRec { label, shader, bg_layouts, vertex_layout, primitive, depth_stencil },
        );
        proof {
            grows_after_push(*self, prior);
        }
        id
    }

    /// Creates a texture and uploads its pixels.
    pub fn create_texture(&mut self, width: u32, height: u32, rgba: Vec<u8>) -> (id: TextureId)
        requires
            rgba@.len() == 4 * width * height,
        ensures
            id.0 == old(self).textures@.len(),
            *final(self) == (GpuContext { textures: final(self).textures, ..*old(self) }),
            final(self).textures@ == old(self).textures@.push(
                TextureRec { width, height, rgba: Some(rgba), render_target: false },
            ),
            final(self).grows(*old(self)),
            old(self).wf() ==> final(self).wf(),
    {
        let id = TextureId(self.textures.len());
        let ghost prior = *self;
        self.textures.push(TextureRec { width, height, rgba: Some(rgba), render_target: false });
        proof {
            grows_after_push(*self, prior);
        }
        id
    }

    /// Creates a blank texture that render passes can draw into.
    pub fn create_render_target(&mut self, width: u32, height: u32) -> (id: TextureId)
        ensures
            id.0 == old(self).textures@.len(),
            *final(self) == (GpuContext { textures: final(self).textures, ..*old(self) }),
            final(self).textures@ == old(self).textures@.push(
                TextureRec { width, height, rgba: None, render_target: true },
            ),
            final(self).grows(*old(self)),
            old(self).wf() ==> final(self).wf(),
    {
        let id = TextureId(self.textures.len());
        let ghost prior = *self;
        self.textures.push(TextureRec { width, height, rgba: None, render_target: true });
        proof {
            grows_after_push(*self, prior);
        }
        id
    }

    /// Creates a sampler.
    pub fn create_sampler(&mut self, label: String) -> (id: SamplerId)
        ensures
            id.0 == old(self).samplers@.len(),
            *final(self) == (GpuContext { samplers: final(self).samplers, ..*old(self) }),
            final(self).samplers@ == old(self).samplers@.push(SamplerRec { label }),
            final(self).grows(*old(self)),
            old(self).wf() ==> final(self).wf(),
    {
        let id = SamplerId(self.samplers.len());
        let ghost prior = *self;
        self.samplers.push(SamplerRec { label });
        proof {
            grows_after_push(*self, prior);
        }
        id
    }
}

/// A context with the same stores extends them trivially.
pub proof fn lemma_store_extends_reflexive(c1: GpuContext, c2: GpuContext)
    requires
        c2.buffers == c1.buffers,
        c2.shaders == c1.shaders,
        c2.layouts == c1.layouts,
        c2.bind_groups == c1.bind_groups,
        c2.pipelines == c1.pipelines,
        c2.textures == c1.textures,
        c2.samplers == c1.samplers,
    ensures
        c2.store_extends(c1),
        c1.wf() ==> c2.wf(),
{
    assert(c1.buffers@.is_prefix_of(c2.buffers@)) by {
        assert(c2.buffers@.take(c1.buffers@.len() as int) =~= c1.buffers@);
    }
    assert(c1.shaders@.is_prefix_of(c2.shaders@)) by {
        assert(c2.shaders@.take(c1.shaders@.len() as int) =~= c1.shaders@);
    }
    assert(c1.layouts@.is_prefix_of(c2.layouts@)) by {
        assert(c2.layouts@.take(c1.layouts@.len() as int) =~= c1.layouts@);
    }
    assert(c1.bind_groups@.is_prefix_of(c2.bind_groups@)) by {
        assert(c2.bind_groups@.take(c1.bind_groups@.len() as int) =~= c1.bind_groups@);
    }
    assert(c1.pipelines@.is_prefix_of(c2.pipelines@)) by {
        assert(c2.pipelines@.take(c1.pipelines@.len() as int) =~= c1.pipelines@);
    }
    assert(c1.textures@.is_prefix_of(c2.textures@)) by {
        assert(c2.textures@.take(c1.textures@.len() as int) =~= c1.textures@);
    }
    assert(c1.samplers@.is_prefix_of(c2.samplers@)) by {
        assert(c2.samplers@.take(c1.samplers@.len() as int) =~= c1.samplers@);
    }
    if c1.wf() {
        assert(c2.wf());
    }
}

proof fn grows_after_push(c2: GpuContext, c1: GpuContext)
    requires
        c1.buffers@.is_prefix_of(c2.buffers@),
        c1.shaders@.is_prefix_of(c2.shaders@),
        c1.layouts@.is_prefix_of(c2.layouts@),
        c1.bind_groups@.is_prefix_of(c2.bind_groups@),
        c1.pipelines@.is_prefix_of(c2.pipelines@),
        c1.textures@.is_prefix_of(c2.textures@),
        c1.samplers@.is_prefix_of(c2.samplers@),
        c2.width == c1.width,
        c2.height == c1.height,
        c2.surface_width == c1.surface_width,
        c2.surface_height == c1.surface_height,
        c2.resized == c1.resized,
    ensures
        c2.grows(c1),
{
}

} // verus!
