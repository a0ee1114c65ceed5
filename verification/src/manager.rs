//! The render manager: entity registration, object spawning and the
//! per-frame render pass.
//!
//! The manager owns the modelled GPU state, the name-keyed resource caches,
//! the scene-object arena and the scene queue.  Registering an entity kind
//! builds and caches its pipeline, layouts and shader; spawning produces a
//! scene object against the cached resources; `render` walks the scene queue
//! in insertion order and returns the frame's command stream.
//!
//! Bind-group slots are assigned positionally: global at slot zero, scene
//! object at slot one, then the model bind group and the entity bind group,
//! in that order, each taking the next slot only when present.  The same
//! assignment is used when the pipeline layout is assembled, when the shader
//! source is generated, and when the frame binds the groups, so the three
//! always agree.

use crate::bindgroups::{BINDGROUP_GLOBAL, BINDGROUP_SCENEOBJECT};
use crate::binding::{
    resource_matches_kind, BindGroupEntry, Binder, BindingKind, BindingResource, LayoutEntry,
    Visibility,
};
use crate::entity::{Entity, NamedEntity};
use crate::commands::{Color, RenderCommand};
use crate::coords::{spec_window_to_world, spec_world_to_window, Coord};
use crate::gpu::{
    BindGroupId, BufferId, BufferKind, GpuContext, LayoutId, PipelineId, PipelineState, ShaderId,
};
use crate::handle::{Arena, Handle};
use crate::model::ModelData;
use crate::resource::ResourceCache;
use crate::scene::{identity_transform_bytes, SceneObject, SceneObjectHandle, TRANSFORM_BYTES};
use crate::shader::{ShaderProgram, ShaderSource};
use crate::texture::{DynamicTexture, DynamicTextureHandle, TextureSampler};
use std::rc::Rc;
use vstd::prelude::*;

verus! {

/// Copies a byte vector.
pub fn clone_bytes(v: &Vec<u8>) -> (r: Vec<u8>)
    ensures
        r@ == v@,
{
    let mut r: Vec<u8> = Vec::new();
    let mut i: usize = 0;
    while i < v.len()
        invariant
            i <= v@.len(),
            r@ == v@.take(i as int),
        decreases v@.len() - i,
    {
        r.push(v[i]);
        proof {
            assert(r@ =~= v@.take(i + 1 as int));
        }
        i = i + 1;
    }
    proof {
        assert(v@.take(v@.len() as int) =~= v@);
    }
    r
}

/// The fallback shader: transforms position-colour vertices by the global
/// projection-view matrix and passes the colour through.
pub fn default_shader_source() -> String {
    String::from_str(
        "
        @group(0) @binding(0)
        var<uniform> pvm: mat4x4<f32>;
        @group(0) @binding(1)
        var<uniform> time: f32;

        @group(1) @binding(0)
        var<uniform> model_mat: mat4x4<f32>;

        struct ColorVertexInput {
            @location(0) pos: vec4<f32>,
            @location(1) color: vec4<f32>,
        }

        struct ColorVertexOutput {
            @builtin(position) pos: vec4<f32>,
            @location(0) color: vec4<f32>,
        }

        @vertex
        fn vs_main(i: ColorVertexInput) -> ColorVertexOutput {
            var o: ColorVertexOutput;
            o.color = i.color;
            o.pos = pvm * vec4<f32>(i.pos.x, i.pos.y + (sin(time) * 0.1), i.pos.z, i.pos.w);
            return o;
        }

        @fragment
        fn fs_main(iv: ColorVertexOutput) -> @location(0) vec4<f32> {
            return vec4<f32>(iv.color.x, iv.color.y, iv.color.z, iv.color.w);
        }
        ",
    )
}

/// Every cached resource is live in `ctx`.
pub open spec fn caches_wf(
    ctx: GpuContext,
    models: Map<Seq<char>, Rc<ModelData>>,
    shaders: Map<Seq<char>, Rc<ShaderProgram>>,
    pipelines: Map<Seq<char>, PipelineId>,
    entity_layouts: Map<Seq<char>, LayoutId>,
    samplers: Map<Seq<char>, Rc<TextureSampler>>,
) -> bool {
    &&& forall|n: Seq<char>| #[trigger] models.contains_key(n) ==> models[n].wf(ctx)
    &&& forall|n: Seq<char>| #[trigger] shaders.contains_key(n) ==> shaders[n].wf(ctx)
    &&& forall|n: Seq<char>| #[trigger] pipelines.contains_key(n) ==> ctx.pipeline_valid(
        pipelines[n],
    )
    &&& forall|n: Seq<char>| #[trigger] entity_layouts.contains_key(n) ==> ctx.layout_valid(
        entity_layouts[n],
    )
    &&& forall|n: Seq<char>| #[trigger] samplers.contains_key(n) ==> samplers[n].wf(ctx)
}

/// Every live scene object is well formed and every queued handle is live.
pub open spec fn scene_wf(
    ctx: GpuContext,
    objects: Arena<SceneObject>,
    queue: Seq<Handle>,
) -> bool {
    &&& forall|h: Handle| #[trigger] objects.valid(h) ==> objects.at(h).wf(ctx)
    &&& forall|i: int| 0 <= i < queue.len() ==> objects.valid(#[trigger] queue[i])
}

/// Every live dynamic texture is well formed.
pub open spec fn dyn_wf(ctx: GpuContext, dyns: Arena<DynamicTexture>) -> bool {
    forall|h: Handle| #[trigger] dyns.valid(h) ==> dyns.at(h).wf(ctx)
}

proof fn lemma_model_wf_grows(m: ModelData, c1: GpuContext, c2: GpuContext)
    requires
        m.wf(c1),
        c2.store_extends(c1),
    ensures
        m.wf(c2),
{
}

proof fn lemma_object_wf_grows(o: SceneObject, c1: GpuContext, c2: GpuContext)
    requires
        o.wf(c1),
        c2.store_extends(c1),
    ensures
        o.wf(c2),
{
}

proof fn lemma_caches_wf_grows(
    c1: GpuContext,
    c2: GpuContext,
    models: Map<Seq<char>, Rc<ModelData>>,
    shaders: Map<Seq<char>, Rc<ShaderProgram>>,
    pipelines: Map<Seq<char>, PipelineId>,
    entity_layouts: Map<Seq<char>, LayoutId>,
    samplers: Map<Seq<char>, Rc<TextureSampler>>,
)
    requires
        caches_wf(c1, models, shaders, pipelines, entity_layouts, samplers),
        c2.store_extends(c1),
    ensures
        caches_wf(c2, models, shaders, pipelines, entity_layouts, samplers),
{
    assert forall|n: Seq<char>| #[trigger] models.contains_key(n) implies models[n].wf(c2) by {
        lemma_model_wf_grows(*models[n], c1, c2);
    }
}

proof fn lemma_scene_wf_grows(
    c1: GpuContext,
    c2: GpuContext,
    objects: Arena<SceneObject>,
    queue: Seq<Handle>,
)
    requires
        scene_wf(c1, objects, queue),
        c2.store_extends(c1),
    ensures
        scene_wf(c2, objects, queue),
{
    assert forall|h: Handle| #[trigger] objects.valid(h) implies objects.at(h).wf(c2) by {
        lemma_object_wf_grows(objects.at(h), c1, c2);
    }
}

proof fn lemma_dyn_wf_grows(c1: GpuContext, c2: GpuContext, dyns: Arena<DynamicTexture>)
    requires
        dyn_wf(c1, dyns),
        c2.store_extends(c1),
    ensures
        dyn_wf(c2, dyns),
{
    assert forall|h: Handle| #[trigger] dyns.valid(h) implies dyns.at(h).wf(c2) by {
        dyns.at(h).lemma_wf_grows(c1, c2);
    }
}

/// The bind-group index the model group receives at registration: slot two
/// when the model carries its own bind group, the unused sentinel zero
/// otherwise.
pub open spec fn spec_group_model_index(m: ModelData) -> u32 {
    if m.model_bindgroup is Some {
        2
    } else {
        0
    }
}

/// The bind-group index the entity group receives at registration: the slot
/// after the model group when the kind's manifest is non-empty, the unused
/// sentinel zero otherwise.  Absent groups consume no slot.
pub open spec fn spec_group_entity_index(m: ModelData, manifest_len: nat) -> u32 {
    if manifest_len > 0 {
        if m.model_bindgroup is Some {
            3
        } else {
            2
        }
    } else {
        0
    }
}

/// The bind-group layouts of a kind's pipeline, in fixed slot order: global,
/// scene object, then the model layout and the entity layout, each present
/// exactly when its group is.
pub open spec fn spec_layout_stack(
    global: LayoutId,
    sceneobj: LayoutId,
    m: ModelData,
    entity_layout: Option<LayoutId>,
) -> Seq<LayoutId> {
    seq![global, sceneobj] + (match m.model_bindgroup {
        Some(mb) => seq![mb.bg_layout],
        None => Seq::empty(),
    }) + (match entity_layout {
        Some(l) => seq![l],
        None => Seq::empty(),
    })
}

/// The slot the entity bind group is bound at: the next slot after the model
/// bind group when that exists, directly after the scene-object slot
/// otherwise.  Absent optional groups consume no slot.
pub open spec fn spec_entity_slot(obj: SceneObject) -> u32 {
    if obj.model_data.model_bindgroup is Some {
        3
    } else {
        2
    }
}

/// The draw tail of one object's command block: per vertex-range group, one
/// upload of the combined matrix and one draw call, in group order.
pub open spec fn spec_group_commands(
    h: SceneObjectHandle,
    obj: SceneObject,
    pvm: BufferId,
    n: int,
) -> Seq<RenderCommand>
    decreases n,
{
    if n <= 0 {
        Seq::empty()
    } else {
        spec_group_commands(h, obj, pvm, n - 1) + seq![
            RenderCommand::WriteProjected { buffer: pvm, object: h },
            RenderCommand::Draw {
                start: obj.model_data.groups@[n - 1].start,
                end: obj.model_data.groups@[n - 1].end,
            },
        ]
    }
}

/// One object's command block: upload its transform, bind the scene-object
/// group at slot one, bind the model and entity groups positionally when
/// present, bind the vertex buffer, select the pipeline (the manager's
/// default where the entity registered none), then draw every group.
pub open spec fn spec_object_commands(
    h: SceneObjectHandle,
    obj: SceneObject,
    default_pipeline: PipelineId,
    pvm: BufferId,
) -> Seq<RenderCommand> {
    seq![
        RenderCommand::WriteTransform { buffer: obj.transform_buffer, object: h },
        RenderCommand::SetBindGroup {
            slot: BINDGROUP_SCENEOBJECT,
            group: obj.sceneobject_bindgroup,
        },
    ] + (match obj.model_data.model_bindgroup {
        Some(mb) => seq![RenderCommand::SetBindGroup { slot: 2, group: mb.bindgroup }],
        None => Seq::empty(),
    }) + (match obj.entity_bindgroup {
        Some(ebg) => seq![
            RenderCommand::SetBindGroup { slot: spec_entity_slot(obj), group: ebg },
        ],
        None => Seq::empty(),
    }) + seq![
        RenderCommand::SetVertexBuffer { buffer: obj.model_data.vertex_buffer.buffer },
        RenderCommand::SetPipeline {
            pipeline: match obj.pipeline_ref {
                Some(p) => p,
                None => default_pipeline,
            },
        },
    ] + spec_group_commands(h, obj, pvm, obj.model_data.groups@.len() as int)
}

/// The command blocks of the first `n` queued objects, in queue order.
pub open spec fn spec_queue_commands(
    objects: Arena<SceneObject>,
    queue: Seq<Handle>,
    default_pipeline: PipelineId,
    pvm: BufferId,
    n: int,
) -> Seq<RenderCommand>
    decreases n,
{
    if n <= 0 {
        Seq::empty()
    } else {
        spec_queue_commands(objects, queue, default_pipeline, pvm, n - 1)
            + spec_object_commands(queue[n - 1], objects.at(queue[n - 1]), default_pipeline, pvm)
    }
}

/// The re-render passes of the queued dynamic textures, most recently queued
/// first; stale handles contribute nothing.
pub open spec fn spec_dyn_commands(
    dyns: Arena<DynamicTexture>,
    queue: Seq<Handle>,
) -> Seq<RenderCommand>
    decreases queue.len(),
{
    if queue.len() == 0 {
        Seq::empty()
    } else {
        (if dyns.valid(queue.last()) {
            dyns.at(queue.last()).spec_render_commands()
        } else {
            Seq::empty()
        }) + spec_dyn_commands(dyns, queue.drop_last())
    }
}

/// What registering a kind guarantees about the GPU records it created:
/// the shader the kind supplied was compiled against exactly the positional
/// group indices that the presence of the model and entity groups
/// determines, and the pipeline the kind supplied stacks exactly the global,
/// scene-object, model (when present) and entity (when the manifest is
/// non-empty) layouts, over the shader cached under the kind's shader name.
/// This is the registration half of the lockstep between shader `@group`
/// indices and the slots the frame binds.
pub open spec fn registered_kind_wired<E: Entity + NamedEntity>(cur: RenderManager) -> bool {
    let m = *cur.models()[E::spec_model_name()];
    let entity_layout = if E::spec_bindings().len() > 0 {
        Some(cur.entity_layouts()[E::spec_bindings_name()])
    } else {
        None
    };
    &&& (E::spec_provides_shader() ==> ({
        let sid = cur.shaders()[E::spec_shader_name()].module;
        &&& cur.ctx.shader_valid(sid)
        &&& cur.ctx.shaders@[sid.0 as int].group_model == spec_group_model_index(m)
        &&& cur.ctx.shaders@[sid.0 as int].group_entity == spec_group_entity_index(
            m,
            E::spec_bindings().len(),
        )
    }))
    &&& (E::spec_provides_pipeline() ==> ({
        let pid = cur.pipelines()[E::spec_pipeline_name()];
        &&& cur.ctx.pipeline_valid(pid)
        &&& cur.ctx.pipelines@[pid.0 as int].bg_layouts@ == spec_layout_stack(
            cur.global_layout(),
            cur.sceneobj_layout(),
            m,
            entity_layout,
        )
        &&& cur.ctx.pipelines@[pid.0 as int].shader == cur.shaders()[
            E::spec_shader_name()
        ].module
    }))
}

/// What spawning an entity kind guarantees about the manager's new state:
/// the freshly queued object carries the kind's cached model and pipeline,
/// and its entity bind group exists exactly when the kind's manifest is
/// non-empty, with one entry per binder at the binder's declared slot,
/// built against the kind's cached layout.
pub open spec fn spawned_entity_object<E: Entity + NamedEntity>(
    cur: RenderManager,
    prior: RenderManager,
    name: Seq<char>,
) -> bool {
    let h = cur.queue().last();
    &&& cur.object_valid(h)
    &&& !prior.object_valid(h)
    &&& cur.object_at(h).name@ == name
    &&& cur.object_at(h).model_data == prior.models()[E::spec_model_name()]
    &&& cur.object_at(h).pipeline_ref == Some(prior.pipelines()[E::spec_pipeline_name()])
    &&& (cur.object_at(h).entity_bindgroup is Some <==> E::spec_bindings().len() > 0)
    &&& (E::spec_bindings().len() > 0 ==> {
        let bg = cur.object_at(h).entity_bindgroup->Some_0;
        &&& cur.ctx.bind_group_valid(bg)
        &&& cur.ctx.bind_groups@[bg.0 as int].layout == prior.entity_layouts()[
            E::spec_bindings_name()
        ]
        &&& cur.ctx.bind_groups@[bg.0 as int].entries@.len() == E::spec_bindings().len()
        &&& forall|j: int|
            0 <= j < E::spec_bindings().len() ==> (#[trigger] cur.ctx.bind_groups@[
                bg.0 as int
            ].entries@[j]).binding == E::spec_bindings()[j].binding
    })
}

/// Evaluates every binder of an entity's manifest against a live instance.
fn entity_binding_entries<E: Entity>(
    ctx: &GpuContext,
    e: &E,
    binders: &Vec<Binder>,
) -> (r: Vec<BindGroupEntry>)
    requires
        e.wf(*ctx),
        binders@ == E::spec_bindings(),
    ensures
        r@.len() == E::spec_bindings().len(),
        forall|j: int|
            0 <= j < r@.len() ==> (#[trigger] r@[j]).binding == E::spec_bindings()[j].binding
                && ctx.resource_valid(r@[j].resource)
                && resource_matches_kind(r@[j].resource, E::spec_bindings()[j].kind),
{
    let mut r: Vec<BindGroupEntry> = Vec::new();
    let mut i: usize = 0;
    while i < binders.len()
        invariant
            i <= binders@.len(),
            binders@ == E::spec_bindings(),
            e.wf(*ctx),
            r@.len() == i,
            forall|j: int|
                0 <= j < i ==> (#[trigger] r@[j]).binding == E::spec_bindings()[j].binding
                    && ctx.resource_valid(r@[j].resource)
                    && resource_matches_kind(r@[j].resource, E::spec_bindings()[j].kind),
        decreases binders@.len() - i,
    {
        let resource = e.binding_resource(ctx, i);
        r.push(binders[i].get_binding_entry(resource));
        i = i + 1;
    }
    r
}

/// The render-loop orchestrator: owns the GPU model, the caches and the
/// scene.
pub struct RenderManager {
    /// The modelled GPU backend state.
    pub ctx: GpuContext,
    /// The fallback pipeline used by entities that register none.
    pub default_pipeline: PipelineId,
    /// The uniform buffer holding the frame time.
    pub time_buffer: BufferId,
    /// The uniform buffer holding the combined projection-view-model matrix.
    pub global_pvm: BufferId,
    pub global_bindgroup: BindGroupId,
    pub global_bglayout: LayoutId,
    pub sceneobj_bglayout: LayoutId,
    pub model_data_cache: ResourceCache<Rc<ModelData>>,
    pub shader_cache: ResourceCache<Rc<ShaderProgram>>,
    pub pipeline_cache: ResourceCache<PipelineId>,
    pub sampler_cache: ResourceCache<Rc<TextureSampler>>,
    pub entity_bglayout_cache: ResourceCache<LayoutId>,
    pub scene_objects: Arena<SceneObject>,
    pub scene_queue: Vec<SceneObjectHandle>,
    pub time_bytes: Vec<u8>,
    pub dynamic_textures: Arena<DynamicTexture>,
    pub dyntexture_queue: Vec<DynamicTextureHandle>,
}

impl RenderManager {
    /// The model cache, as a map from names to models.
    pub closed spec fn models(self) -> Map<Seq<char>, Rc<ModelData>> {
        self.model_data_cache@
    }

    /// The shader cache.
    pub closed spec fn shaders(self) -> Map<Seq<char>, Rc<ShaderProgram>> {
        self.shader_cache@
    }

    /// The pipeline cache.
    pub closed spec fn pipelines(self) -> Map<Seq<char>, PipelineId> {
        self.pipeline_cache@
    }

    /// The sampler cache.
    pub closed spec fn samplers(self) -> Map<Seq<char>, Rc<TextureSampler>> {
        self.sampler_cache@
    }

    /// The entity bind-group-layout cache.
    pub closed spec fn entity_layouts(self) -> Map<Seq<char>, LayoutId> {
        self.entity_bglayout_cache@
    }

    /// The scene-object store.
    pub closed spec fn objects(self) -> Arena<SceneObject> {
        self.scene_objects
    }

    /// The draw queue: handles in insertion order.
    pub closed spec fn queue(self) -> Seq<Handle> {
        self.scene_queue@
    }

    /// The dynamic-texture store.
    pub closed spec fn dyn_textures(self) -> Arena<DynamicTexture> {
        self.dynamic_textures
    }

    /// The queue of dynamic textures waiting to be re-rendered.
    pub closed spec fn dyn_queue(self) -> Seq<Handle> {
        self.dyntexture_queue@
    }

    /// The global bind group (time and projection-view matrix).
    pub closed spec fn global_group(self) -> BindGroupId {
        self.global_bindgroup
    }

    /// The layout of the global bind group.
    pub closed spec fn global_layout(self) -> LayoutId {
        self.global_bglayout
    }

    /// The layout every scene-object bind group is built against.
    pub closed spec fn sceneobj_layout(self) -> LayoutId {
        self.sceneobj_bglayout
    }

    /// The CPU-side value of the frame-time uniform.
    pub closed spec fn time_value(self) -> Seq<u8> {
        self.time_bytes@
    }

    pub open spec fn object_valid(self, h: Handle) -> bool {
        self.objects().valid(h)
    }

    pub open spec fn object_at(self, h: Handle) -> SceneObject {
        self.objects().at(h)
    }

    pub open spec fn dyn_valid(self, h: Handle) -> bool {
        self.dyn_textures().valid(h)
    }

    pub open spec fn dyn_at(self, h: Handle) -> DynamicTexture {
        self.dyn_textures().at(h)
    }

    /// The manager's internal consistency: all plumbing ids are live, all
    /// cached resources are live, all scene objects and dynamic textures are
    /// well formed, and every queued handle is live.
    pub open spec fn wf(self) -> bool {
        &&& self.ctx.wf()
        &&& self.ctx.pipeline_valid(self.default_pipeline)
        &&& self.ctx.bind_group_valid(self.global_group())
        &&& self.ctx.layout_valid(self.global_layout())
        &&& self.ctx.layout_valid(self.sceneobj_layout())
        &&& self.ctx.buffer_valid(self.time_buffer)
        &&& self.ctx.buffer_valid(self.global_pvm)
        &&& self.time_value().len() == 4
        &&& caches_wf(
            self.ctx,
            self.models(),
            self.shaders(),
            self.pipelines(),
            self.entity_layouts(),
            self.samplers(),
        )
        &&& scene_wf(self.ctx, self.objects(), self.queue())
        &&& dyn_wf(self.ctx, self.dyn_textures())
    }

    /// The caches of `self` and `prior` agree.
    pub open spec fn same_caches(self, prior: Self) -> bool {
        &&& self.models() == prior.models()
        &&& self.shaders() == prior.shaders()
        &&& self.pipelines() == prior.pipelines()
        &&& self.samplers() == prior.samplers()
        &&& self.entity_layouts() == prior.entity_layouts()
    }

    /// The scene of `self` and `prior` agree.
    pub open spec fn same_scene(self, prior: Self) -> bool {
        &&& self.objects() == prior.objects()
        &&& self.queue() == prior.queue()
    }

    /// The dynamic textures of `self` and `prior` agree.
    pub open spec fn same_dyn(self, prior: Self) -> bool {
        &&& self.dyn_textures() == prior.dyn_textures()
        &&& self.dyn_queue() == prior.dyn_queue()
    }

    /// The frame plumbing (default pipeline, global group and layouts, time
    /// and matrix buffers, time value) of `self` and `prior` agree.
    pub open spec fn same_plumbing(self, prior: Self) -> bool {
        &&& self.default_pipeline == prior.default_pipeline
        &&& self.global_group() == prior.global_group()
        &&& self.global_layout() == prior.global_layout()
        &&& self.sceneobj_layout() == prior.sceneobj_layout()
        &&& self.time_buffer == prior.time_buffer
        &&& self.global_pvm == prior.global_pvm
        &&& self.time_value() == prior.time_value()
    }

    /// What an entity's instantiation hook may do to the manager: create GPU
    /// resources of its own, touching neither the caches, the scene, the
    /// dynamic textures, the plumbing nor the surface configuration.
    pub open spec fn instantiate_extends(self, prior: Self) -> bool {
        &&& self.ctx.grows(prior.ctx)
        &&& self.same_caches(prior)
        &&& self.same_scene(prior)
        &&& self.same_dyn(prior)
        &&& self.same_plumbing(prior)
    }

    /// Creates a manager with a fresh GPU state configured to the given
    /// surface size: the global and scene-object bind-group layouts, the
    /// global bind group (projection-view matrix and time), and the fallback
    /// shader, pipeline and sampler, each cached under the name "default".
    pub fn new(width: u32, height: u32) -> (rm: RenderManager)
        ensures
            rm.wf(),
            rm.ctx.width == width,
            rm.ctx.height == height,
            rm.ctx.surface_width == width,
            rm.ctx.surface_height == height,
            !rm.ctx.resized,
            rm.models() == Map::<Seq<char>, Rc<ModelData>>::empty(),
            rm.entity_layouts() == Map::<Seq<char>, LayoutId>::empty(),
            rm.pipelines() == Map::<Seq<char>, PipelineId>::empty().insert(
                "default"@,
                rm.default_pipeline,
            ),
            rm.shaders().dom() =~= Set::<Seq<char>>::empty().insert("default"@),
            rm.samplers().dom() =~= Set::<Seq<char>>::empty().insert("default"@),
            rm.queue().len() == 0,
            forall|h: Handle| !rm.object_valid(h),
            forall|h: Handle| !rm.dyn_valid(h),
            rm.dyn_queue().len() == 0,
            rm.time_value() =~= seq![0u8, 0u8, 0u8, 0u8],
            rm.ctx.buffers@.len() == 2,
            rm.ctx.layouts@.len() == 2,
            rm.ctx.bind_groups@.len() == 1,
            rm.ctx.shaders@.len() == 1,
            rm.ctx.pipelines@.len() == 1,
            rm.ctx.samplers@.len() == 1,
            rm.ctx.textures@.len() == 0,
            // the global bind group binds the projection-view matrix at
            // binding zero and the time uniform at binding one
            rm.ctx.bind_groups@[rm.global_group().0 as int].layout == rm.global_layout(),
            rm.ctx.bind_groups@[rm.global_group().0 as int].entries@ == seq![
                (BindGroupEntry { binding: 0, resource: BindingResource::Buffer(rm.global_pvm) }),
                (BindGroupEntry { binding: 1, resource: BindingResource::Buffer(rm.time_buffer) }),
            ],
            // the two shared layouts hold exactly their uniform entries
            rm.ctx.layouts@[rm.global_layout().0 as int].entries@ == seq![
                (LayoutEntry {
                    binding: 0,
                    visibility: Visibility::All,
                    kind: BindingKind::UniformBuffer { min_size: 64 },
                }),
                (LayoutEntry {
                    binding: 1,
                    visibility: Visibility::All,
                    kind: BindingKind::UniformBuffer { min_size: 4 },
                }),
            ],
            rm.ctx.layouts@[rm.sceneobj_layout().0 as int].entries@ == seq![
                (LayoutEntry {
                    binding: 0,
                    visibility: Visibility::All,
                    kind: BindingKind::UniformBuffer { min_size: 64 },
                }),
            ],
            // the default pipeline stacks exactly the global and scene-object
            // layouts, over the shader cached under "default", winding
            // clockwise
            rm.ctx.pipelines@[rm.default_pipeline.0 as int].bg_layouts@ == seq![
                rm.global_layout(),
                rm.sceneobj_layout(),
            ],
            rm.ctx.pipelines@[rm.default_pipeline.0 as int].shader == rm.shaders()[
                "default"@
            ].module,
            rm.ctx.pipelines@[rm.default_pipeline.0 as int].primitive == (PipelineState {
                topology: crate::gpu::PrimitiveTopology::TriangleList,
                front_face: crate::gpu::FrontFace::Cw,
            }),
            !rm.ctx.pipelines@[rm.default_pipeline.0 as int].depth_stencil,
            // the uniform buffers start as the identity matrix and time zero
            rm.ctx.buffers@[rm.time_buffer.0 as int].contents@ == seq![0u8, 0u8, 0u8, 0u8],
            rm.ctx.buffers@[rm.global_pvm.0 as int].contents@.len() == TRANSFORM_BYTES,
            forall|i: int|
                0 <= i < TRANSFORM_BYTES ==> rm.ctx.buffers@[rm.global_pvm.0 as int].contents@[i]
                    == crate::scene::spec_identity_transform_byte(i),
    {
        let mut ctx = GpuContext::new(width, height);
        let global_pvm = ctx.create_buffer(BufferKind::Uniform, identity_transform_bytes());
        let time_bytes: Vec<u8> = vec![0u8, 0u8, 0u8, 0u8];
        let time_buffer = ctx.create_buffer(BufferKind::Uniform, clone_bytes(&time_bytes));

        let mut global_entries: Vec<LayoutEntry> = Vec::new();
        global_entries.push(
            LayoutEntry {
                binding: 0,
                visibility: Visibility::All,
                kind: BindingKind::UniformBuffer { min_size: 64 },
            },
        );
        global_entries.push(
            LayoutEntry {
                binding: 1,
                visibility: Visibility::All,
                kind: BindingKind::UniformBuffer { min_size: 4 },
            },
        );
        let global_bglayout = ctx.create_bind_group_layout(
            String::from_str("global"),
            global_entries,
        );

        let mut sceneobj_entries: Vec<LayoutEntry> = Vec::new();
        sceneobj_entries.push(
            LayoutEntry {
                binding: 0,
                visibility: Visibility::All,
                kind: BindingKind::UniformBuffer { min_size: 64 },
            },
        );
        let sceneobj_bglayout = ctx.create_bind_group_layout(
            String::from_str("sceneobject"),
            sceneobj_entries,
        );

        let shader_module = ctx.create_shader_module(default_shader_source(), 0, 0);
        let mut shader_cache: ResourceCache<Rc<ShaderProgram>> = ResourceCache::new();
        shader_cache.insert(
            String::from_str("default"),
            Rc::new(ShaderProgram { module: shader_module }),
        );

        let mut default_layouts: Vec<LayoutId> = Vec::new();
        default_layouts.push(global_bglayout);
        default_layouts.push(sceneobj_bglayout);
        let default_pipeline = ctx.create_render_pipeline(
            String::from_str("default"),
            shader_module,
            default_layouts,
            crate::vertex::color_vertex_layout(),
            PipelineState {
                topology: crate::gpu::PrimitiveTopology::TriangleList,
                front_face: crate::gpu::FrontFace::Cw,
            },
            false,
        );
        let mut pipeline_cache: ResourceCache<PipelineId> = ResourceCache::new();
        pipeline_cache.insert(String::from_str("default"), default_pipeline);

        let sampler = ctx.create_sampler(String::from_str("default"));
        let mut sampler_cache: ResourceCache<Rc<TextureSampler>> = ResourceCache::new();
        sampler_cache.insert(String::from_str("default"), Rc::new(TextureSampler { sampler }));

        let mut global_bg_entries: Vec<BindGroupEntry> = Vec::new();
        global_bg_entries.push(
            BindGroupEntry { binding: 0, resource: BindingResource::Buffer(global_pvm) },
        );
        global_bg_entries.push(
            BindGroupEntry { binding: 1, resource: BindingResource::Buffer(time_buffer) },
        );
        let global_bindgroup = ctx.create_bind_group(
            String::from_str("global_bindgroup"),
            global_bglayout,
            global_bg_entries,
        );

        proof {
            assert(ctx.bind_groups@[global_bindgroup.0 as int].entries@ =~= seq![
                (BindGroupEntry { binding: 0, resource: BindingResource::Buffer(global_pvm) }),
                (BindGroupEntry { binding: 1, resource: BindingResource::Buffer(time_buffer) }),
            ]);
            assert(ctx.layouts@[global_bglayout.0 as int].entries@ =~= seq![
                (LayoutEntry {
                    binding: 0,
                    visibility: Visibility::All,
                    kind: BindingKind::UniformBuffer { min_size: 64 },
                }),
                (LayoutEntry {
                    binding: 1,
                    visibility: Visibility::All,
                    kind: BindingKind::UniformBuffer { min_size: 4 },
                }),
            ]);
            assert(ctx.layouts@[sceneobj_bglayout.0 as int].entries@ =~= seq![
                (LayoutEntry {
                    binding: 0,
                    visibility: Visibility::All,
                    kind: BindingKind::UniformBuffer { min_size: 64 },
                }),
            ]);
            assert(ctx.pipelines@[default_pipeline.0 as int].bg_layouts@ =~= seq![
                global_bglayout,
                sceneobj_bglayout,
            ]);
        }
        RenderManager {
            ctx,
            default_pipeline,
            time_buffer,
            global_pvm,
            global_bindgroup,
            global_bglayout,
            sceneobj_bglayout,
            model_data_cache: ResourceCache::new(),
            shader_cache,
            pipeline_cache,
            sampler_cache,
            entity_bglayout_cache: ResourceCache::new(),
            scene_objects: Arena::new(),
            scene_queue: Vec::new(),
            time_bytes,
            dynamic_textures: Arena::new(),
            dyntexture_queue: Vec::new(),
        }
    }

    /// The opening of every frame: begin the surface pass clearing to black,
    /// bind the global group at slot zero, upload the frame time.
    pub open spec fn spec_frame_prologue(self) -> Seq<RenderCommand> {
        seq![
            RenderCommand::BeginSurfacePass { clear: (Color { r: 0, g: 0, b: 0, a: 255 }) },
            RenderCommand::SetBindGroup { slot: BINDGROUP_GLOBAL, group: self.global_group() },
            RenderCommand::WriteTimeBuffer { buffer: self.time_buffer },
        ]
    }

    /// The whole frame: re-render queued dynamic textures, open the surface
    /// pass, draw every queued object in insertion order, close the pass,
    /// submit and present.
    pub open spec fn spec_frame_commands(self) -> Seq<RenderCommand> {
        spec_dyn_commands(self.dyn_textures(), self.dyn_queue()) + self.spec_frame_prologue()
            + spec_queue_commands(
            self.objects(),
            self.queue(),
            self.default_pipeline,
            self.global_pvm,
            self.queue().len() as int,
        ) + seq![RenderCommand::EndPass, RenderCommand::Present]
    }

    /// Queues a dynamic texture for re-rendering at the start of the next
    /// frame.
    pub fn queue_dyn_texture(&mut self, handle: DynamicTextureHandle)
        ensures
            final(self).dyn_queue() == old(self).dyn_queue().push(handle),
            final(self).dyn_textures() == old(self).dyn_textures(),
            final(self).ctx == old(self).ctx,
            final(self).same_caches(*old(self)),
            final(self).same_scene(*old(self)),
            final(self).same_plumbing(*old(self)),
            old(self).wf() ==> final(self).wf(),
    {
        self.dyntexture_queue.push(handle);
    }

    /// Stores a dynamic texture and hands back its handle.
    pub fn add_dyn_texture(&mut self, dt: DynamicTexture) -> (h: DynamicTextureHandle)
        requires
            old(self).wf(),
            dt.wf(old(self).ctx),
        ensures
            final(self).wf(),
            final(self).dyn_valid(h),
            final(self).dyn_at(h) == dt,
            !old(self).dyn_valid(h),
            forall|h2: Handle|
                #[trigger] old(self).dyn_valid(h2) ==> final(self).dyn_valid(h2)
                    && final(self).dyn_at(h2) == old(self).dyn_at(h2),
            final(self).dyn_queue() == old(self).dyn_queue(),
            final(self).ctx == old(self).ctx,
            final(self).same_caches(*old(self)),
            final(self).same_scene(*old(self)),
            final(self).same_plumbing(*old(self)),
    {
        self.dynamic_textures.add(dt)
    }

    /// Looks a dynamic texture up; a stale handle yields `None`.
    pub fn get_dyn_texture(&self, handle: DynamicTextureHandle) -> (r: Option<&DynamicTexture>)
        ensures
            match r {
                Some(dt) => self.dyn_valid(handle) && *dt == self.dyn_at(handle),
                None => !self.dyn_valid(handle),
            },
    {
        self.dynamic_textures.get(handle)
    }

    /// Prepares a live dynamic texture's content for rendering.  A stale
    /// handle changes nothing.
    pub fn prepare_dyn_texture(&mut self, handle: DynamicTextureHandle) -> (ok: bool)
        requires
            old(self).wf(),
        ensures
            final(self).wf(),
            ok == old(self).dyn_valid(handle),
            final(self).ctx == old(self).ctx,
            final(self).same_caches(*old(self)),
            final(self).same_scene(*old(self)),
            final(self).same_plumbing(*old(self)),
            final(self).dyn_queue() == old(self).dyn_queue(),
            ok ==> final(self).dyn_valid(handle) && final(self).dyn_at(handle).spec_prepared()
                && final(self).dyn_at(handle).spec_text() == old(self).dyn_at(handle).spec_text(),
            forall|h2: Handle|
                #[trigger] old(self).dyn_valid(h2) && h2 != handle ==> final(self).dyn_valid(h2)
                    && final(self).dyn_at(h2) == old(self).dyn_at(h2),
            forall|h2: Handle| #[trigger] final(self).dyn_valid(h2) ==> old(self).dyn_valid(h2),
    {
        if self.dynamic_textures.get(handle).is_some() {
            let ghost mid0 = self.dynamic_textures;
            let mut dt = self.dynamic_textures.take(handle);
            let ghost mid1 = self.dynamic_textures;
            dt.prepare();
            proof {
                assert(dt.wf(self.ctx));
            }
            self.dynamic_textures.put(handle, dt);
            proof {
                assert forall|h2: Handle|
                    #[trigger] mid0.valid(h2) && h2 != handle implies self.dynamic_textures.valid(
                    h2,
                ) && self.dynamic_textures.at(h2) == mid0.at(h2) by {
                    assert(mid1.valid(h2));
                    assert(mid1.at(h2) == mid0.at(h2));
                }
                assert forall|h2: Handle| #[trigger] self.dynamic_textures.valid(h2) implies
                    mid0.valid(h2) by {
                    if h2 != handle {
                        assert(mid1.valid(h2));
                    }
                }
            }
            true
        } else {
            false
        }
    }

    /// Drains the dynamic-texture queue, most recently queued first, and
    /// returns the commands that re-render each still-live texture.
    pub fn render_dyn_textures(&mut self) -> (r: Vec<RenderCommand>)
        requires
            old(self).wf(),
        ensures
            final(self).wf(),
            r@ == spec_dyn_commands(old(self).dyn_textures(), old(self).dyn_queue()),
            final(self).dyn_queue().len() == 0,
            final(self).dyn_textures() == old(self).dyn_textures(),
            final(self).ctx == old(self).ctx,
            final(self).same_caches(*old(self)),
            final(self).same_scene(*old(self)),
            final(self).same_plumbing(*old(self)),
    {
        let mut r: Vec<RenderCommand> = Vec::new();
        while self.dyntexture_queue.len() > 0
            invariant
                old(self).wf(),
                *self == (RenderManager { dyntexture_queue: self.dyntexture_queue, ..*old(self) }),
                spec_dyn_commands(old(self).dyn_textures(), old(self).dyn_queue()) == r@
                    + spec_dyn_commands(old(self).dyn_textures(), self.dyntexture_queue@),
            decreases self.dyntexture_queue@.len(),
        {
            let h = match self.dyntexture_queue.pop() {
                Some(h) => h,
                None => vstd::pervasive::unreached(),
            };
            match self.dynamic_textures.get(h) {
                Some(dt) => {
                    let mut block = dt.render_self();
                    r.append(&mut block);
                },
                None => {},
            }
        }
        proof {
            assert(spec_dyn_commands(old(self).dyn_textures(), self.dyntexture_queue@)
                =~= Seq::<RenderCommand>::empty());
            assert(r@ =~= spec_dyn_commands(old(self).dyn_textures(), old(self).dyn_queue()));
        }
        r
    }

    /// Decides one frame.  Applies any deferred resize first (never
    /// mid-pass), then returns the frame's commands: the queued dynamic
    /// textures re-rendered, one surface pass cleared to black with the
    /// global group bound once at slot zero and the frame time uploaded, the
    /// queued objects drawn strictly in insertion order, and the frame
    /// submitted and presented.
    #[verifier::rlimit(50)]
    pub fn render(&mut self) -> (r: Vec<RenderCommand>)
        requires
            old(self).wf(),
        ensures
            final(self).wf(),
            r@ == old(self).spec_frame_commands(),
            final(self).ctx == (GpuContext {
                surface_width: if old(self).ctx.resized {
                    old(self).ctx.width
                } else {
                    old(self).ctx.surface_width
                },
                surface_height: if old(self).ctx.resized {
                    old(self).ctx.height
                } else {
                    old(self).ctx.surface_height
                },
                resized: false,
                ..old(self).ctx
            }),
            final(self).same_caches(*old(self)),
            final(self).same_scene(*old(self)),
            final(self).dyn_textures() == old(self).dyn_textures(),
            final(self).dyn_queue().len() == 0,
            final(self).same_plumbing(*old(self)),
    {
        self.ctx.update_resize();
        proof {
            if old(self).wf() {
                crate::gpu::lemma_store_extends_reflexive(old(self).ctx, self.ctx);
                lemma_caches_wf_grows(
                    old(self).ctx,
                    self.ctx,
                    old(self).models(),
                    old(self).shaders(),
                    old(self).pipelines(),
                    old(self).entity_layouts(),
                    old(self).samplers(),
                );
                lemma_scene_wf_grows(old(self).ctx, self.ctx, old(self).objects(), old(self).queue());
                lemma_dyn_wf_grows(old(self).ctx, self.ctx, old(self).dyn_textures());
            }
        }
        let mut cmds = self.render_dyn_textures();
        cmds.push(RenderCommand::BeginSurfacePass { clear: Color::black() });
        cmds.push(
            RenderCommand::SetBindGroup { slot: BINDGROUP_GLOBAL, group: self.global_bindgroup },
        );
        cmds.push(RenderCommand::WriteTimeBuffer { buffer: self.time_buffer });
        let ghost base = cmds@;
        let ghost snap = *self;
        proof {
            assert(base =~= spec_dyn_commands(old(self).dyn_textures(), old(self).dyn_queue())
                + old(self).spec_frame_prologue());
        }
        let mut i: usize = 0;
        while i < self.scene_queue.len()
            invariant
                *self == snap,
                snap.wf(),
                i <= snap.queue().len(),
                cmds@ == base + spec_queue_commands(
                    snap.objects(),
                    snap.queue(),
                    snap.default_pipeline,
                    snap.global_pvm,
                    i as int,
                ),
            decreases snap.queue().len() - i,
        {
            let h = self.scene_queue[i];
            let obj = match self.scene_objects.get(h) {
                Some(o) => o,
                None => vstd::pervasive::unreached(),
            };
            cmds.push(RenderCommand::WriteTransform { buffer: obj.transform_buffer, object: h });
            cmds.push(
                RenderCommand::SetBindGroup {
                    slot: BINDGROUP_SCENEOBJECT,
                    group: obj.sceneobject_bindgroup,
                },
            );
            let mut curbg: u32 = BINDGROUP_SCENEOBJECT + 1;
            match &obj.model_data.model_bindgroup {
                Some(mb) => {
                    cmds.push(RenderCommand::SetBindGroup { slot: curbg, group: mb.bindgroup });
                    curbg = curbg + 1;
                },
                None => {},
            }
            match &obj.entity_bindgroup {
                Some(ebg) => {
                    cmds.push(RenderCommand::SetBindGroup { slot: curbg, group: *ebg });
                },
                None => {},
            }
            cmds.push(
                RenderCommand::SetVertexBuffer { buffer: obj.model_data.vertex_buffer.buffer },
            );
            let pipeline = match &obj.pipeline_ref {
                Some(p) => *p,
                None => self.default_pipeline,
            };
            cmds.push(RenderCommand::SetPipeline { pipeline });
            let ghost before_groups = cmds@;
            let mut j: usize = 0;
            while j < obj.model_data.groups.len()
                invariant
                    j <= obj.model_data.groups@.len(),
                    *self == snap,
                    snap.wf(),
                    i < snap.queue().len(),
                    h == snap.queue()[i as int],
                    *obj == snap.object_at(h),
                    cmds@ == before_groups + spec_group_commands(
                        h,
                        *obj,
                        snap.global_pvm,
                        j as int,
                    ),
                decreases obj.model_data.groups@.len() - j,
            {
                let g = obj.model_data.groups[j];
                cmds.push(RenderCommand::WriteProjected { buffer: self.global_pvm, object: h });
                cmds.push(RenderCommand::Draw { start: g.start, end: g.end });
                j = j + 1;
            }
            proof {
                assert(cmds@ =~= base + spec_queue_commands(
                    snap.objects(),
                    snap.queue(),
                    snap.default_pipeline,
                    snap.global_pvm,
                    i + 1,
                ));
            }
            i = i + 1;
        }
        cmds.push(RenderCommand::EndPass);
        cmds.push(RenderCommand::Present);
        proof {
            assert(cmds@ =~= old(self).spec_frame_commands());
        }
        cmds
    }

    /// Window width in pixels (the wanted configuration).
    pub fn w_width(&self) -> (r: u32)
        ensures
            r == self.ctx.width,
    {
        self.ctx.width
    }

    /// Window height in pixels (the wanted configuration).
    pub fn w_height(&self) -> (r: u32)
        ensures
            r == self.ctx.height,
    {
        self.ctx.height
    }

    /// Records a resize; the surface is reconfigured at the next frame, never
    /// mid-pass.
    pub fn set_resize(&mut self, width: u32, height: u32)
        ensures
            final(self).ctx == (GpuContext { width, height, resized: true, ..old(self).ctx }),
            final(self).same_caches(*old(self)),
            final(self).same_scene(*old(self)),
            final(self).same_dyn(*old(self)),
            final(self).same_plumbing(*old(self)),
            old(self).wf() ==> final(self).wf(),
    {
        let ghost prior = *self;
        self.ctx.set_resize(width, height);
        proof {
            if prior.wf() {
                crate::gpu::lemma_store_extends_reflexive(prior.ctx, self.ctx);
                lemma_caches_wf_grows(
                    prior.ctx,
                    self.ctx,
                    prior.models(),
                    prior.shaders(),
                    prior.pipelines(),
                    prior.entity_layouts(),
                    prior.samplers(),
                );
                lemma_scene_wf_grows(prior.ctx, self.ctx, prior.objects(), prior.queue());
                lemma_dyn_wf_grows(prior.ctx, self.ctx, prior.dyn_textures());
            }
        }
    }

    /// Applies a deferred resize, if one is pending.
    pub fn update_resize(&mut self)
        ensures
            final(self).ctx == (GpuContext {
                surface_width: if old(self).ctx.resized {
                    old(self).ctx.width
                } else {
                    old(self).ctx.surface_width
                },
                surface_height: if old(self).ctx.resized {
                    old(self).ctx.height
                } else {
                    old(self).ctx.surface_height
                },
                resized: false,
                ..old(self).ctx
            }),
            final(self).same_caches(*old(self)),
            final(self).same_scene(*old(self)),
            final(self).same_dyn(*old(self)),
            final(self).same_plumbing(*old(self)),
            old(self).wf() ==> final(self).wf(),
    {
        let ghost prior = *self;
        self.ctx.update_resize();
        proof {
            if prior.wf() {
                crate::gpu::lemma_store_extends_reflexive(prior.ctx, self.ctx);
                lemma_caches_wf_grows(
                    prior.ctx,
                    self.ctx,
                    prior.models(),
                    prior.shaders(),
                    prior.pipelines(),
                    prior.entity_layouts(),
                    prior.samplers(),
                );
                lemma_scene_wf_grows(prior.ctx, self.ctx, prior.objects(), prior.queue());
                lemma_dyn_wf_grows(prior.ctx, self.ctx, prior.dyn_textures());
            }
        }
    }

    /// Stores the elapsed time, as the four bytes of its uniform value, for
    /// upload at the next frame.
    pub fn update_time(&mut self, elapsed: Vec<u8>)
        requires
            elapsed@.len() == 4,
        ensures
            final(self).time_value() == elapsed@,
            final(self).ctx == old(self).ctx,
            final(self).same_caches(*old(self)),
            final(self).same_scene(*old(self)),
            final(self).same_dyn(*old(self)),
            final(self).default_pipeline == old(self).default_pipeline,
            final(self).global_group() == old(self).global_group(),
            final(self).global_layout() == old(self).global_layout(),
            final(self).sceneobj_layout() == old(self).sceneobj_layout(),
            final(self).time_buffer == old(self).time_buffer,
            final(self).global_pvm == old(self).global_pvm,
            old(self).wf() ==> final(self).wf(),
    {
        self.time_bytes = elapsed;
    }

    /// Maps world coordinates in `[-1, 1]` to window coordinates in
    /// `[0, width] x [0, height]`, exactly.
    pub fn world_to_window_coord(&self, x: Coord, y: Coord) -> (r: (Coord, Coord))
        requires
            x.wf(),
            y.wf(),
            1 <= self.ctx.width <= 0x8000,
            1 <= self.ctx.height <= 0x8000,
        ensures
            (r.0.num as int, r.0.den as int) == spec_world_to_window(
                (x.num as int, x.den as int),
                self.ctx.width as int,
            ),
            (r.1.num as int, r.1.den as int) == spec_world_to_window(
                (y.num as int, y.den as int),
                self.ctx.height as int,
            ),
            r.0.den > 0,
            r.1.den > 0,
    {
        (
            crate::coords::world_to_window(x, self.ctx.width),
            crate::coords::world_to_window(y, self.ctx.height),
        )
    }

    /// Maps window coordinates in `[0, width] x [0, height]` to world
    /// coordinates in `[-1, 1]`, exactly.
    pub fn window_to_world_coord(&self, x: Coord, y: Coord) -> (r: (Coord, Coord))
        requires
            x.wf(),
            y.wf(),
            1 <= self.ctx.width <= 0x8000,
            1 <= self.ctx.height <= 0x8000,
        ensures
            (r.0.num as int, r.0.den as int) == spec_window_to_world(
                (x.num as int, x.den as int),
                self.ctx.width as int,
            ),
            (r.1.num as int, r.1.den as int) == spec_window_to_world(
                (y.num as int, y.den as int),
                self.ctx.height as int,
            ),
            r.0.den > 0,
            r.1.den > 0,
    {
        (
            crate::coords::window_to_world(x, self.ctx.width),
            crate::coords::window_to_world(y, self.ctx.height),
        )
    }

    /// Registers a model under a name; later spawns fetch it by that name.
    pub fn add_model(&mut self, model_name: &str, model_data: ModelData) -> (r: Rc<ModelData>)
        requires
            old(self).wf(),
            model_data.wf(old(self).ctx),
        ensures
            final(self).wf(),
            *r == model_data,
            final(self).models() == old(self).models().insert(model_name@, r),
            final(self).ctx == old(self).ctx,
            final(self).shaders() == old(self).shaders(),
            final(self).pipelines() == old(self).pipelines(),
            final(self).samplers() == old(self).samplers(),
            final(self).entity_layouts() == old(self).entity_layouts(),
            final(self).same_scene(*old(self)),
            final(self).same_dyn(*old(self)),
            final(self).same_plumbing(*old(self)),
    {
        let r = Rc::new(model_data);
        self.model_data_cache.insert(String::from_str(model_name), r.clone());
        r
    }

    /// Compiles and registers a shader under a name.
    pub fn add_shader(&mut self, shader_name: &str, program: ShaderSource) -> (r: Rc<ShaderProgram>)
        requires
            old(self).wf(),
        ensures
            final(self).wf(),
            final(self).shaders() == old(self).shaders().insert(shader_name@, r),
            r.wf(final(self).ctx),
            r.module.0 == old(self).ctx.shaders@.len(),
            final(self).ctx.grows(old(self).ctx),
            final(self).ctx.shaders@ == old(self).ctx.shaders@.push(
                (crate::gpu::ShaderRec {
                    source: program.source,
                    group_model: program.group_model,
                    group_entity: program.group_entity,
                }),
            ),
            final(self).models() == old(self).models(),
            final(self).pipelines() == old(self).pipelines(),
            final(self).samplers() == old(self).samplers(),
            final(self).entity_layouts() == old(self).entity_layouts(),
            final(self).same_scene(*old(self)),
            final(self).same_dyn(*old(self)),
            final(self).same_plumbing(*old(self)),
    {
        let ghost prior = *self;
        let module = self.ctx.create_shader_module(
            program.source,
            program.group_model,
            program.group_entity,
        );
        let r = Rc::new(ShaderProgram { module });
        self.shader_cache.insert(String::from_str(shader_name), r.clone());
        proof {
            lemma_caches_wf_grows(
                prior.ctx,
                self.ctx,
                prior.models(),
                prior.shaders(),
                prior.pipelines(),
                prior.entity_layouts(),
                prior.samplers(),
            );
            lemma_scene_wf_grows(prior.ctx, self.ctx, prior.objects(), prior.queue());
            lemma_dyn_wf_grows(prior.ctx, self.ctx, prior.dyn_textures());
        }
        r
    }


    /// Creates a render pipeline over the given shader and layout stack and
    /// registers it under a name.
    pub fn add_render_pipeline(
        &mut self,
        pipeline_name: &str,
        shader: ShaderId,
        bg_layouts: Vec<LayoutId>,
        vertex_layout: crate::vertex::VertexLayout,
        primitive: PipelineState,
        depth_stencil: bool,
    ) -> (p: PipelineId)
        requires
            old(self).wf(),
            old(self).ctx.shader_valid(shader),
            forall|j: int|
                0 <= j < bg_layouts@.len() ==> old(self).ctx.layout_valid(#[trigger] bg_layouts@[j]),
        ensures
            final(self).wf(),
            final(self).ctx.pipeline_valid(p),
            final(self).pipelines() == old(self).pipelines().insert(pipeline_name@, p),
            final(self).ctx.grows(old(self).ctx),
            p.0 == old(self).ctx.pipelines@.len(),
            final(self).ctx.pipelines@.len() == old(self).ctx.pipelines@.len() + 1,
            final(self).ctx.pipelines@[p.0 as int].shader == shader,
            final(self).ctx.pipelines@[p.0 as int].bg_layouts@ == bg_layouts@,
            final(self).ctx.shaders@ == old(self).ctx.shaders@,
            final(self).models() == old(self).models(),
            final(self).shaders() == old(self).shaders(),
            final(self).samplers() == old(self).samplers(),
            final(self).entity_layouts() == old(self).entity_layouts(),
            final(self).same_scene(*old(self)),
            final(self).same_dyn(*old(self)),
            final(self).same_plumbing(*old(self)),
    {
        let ghost prior = *self;
        let p = self.ctx.create_render_pipeline(
            String::from_str(pipeline_name),
            shader,
            bg_layouts,
            vertex_layout,
            primitive,
            depth_stencil,
        );
        self.pipeline_cache.insert(String::from_str(pipeline_name), p);
        proof {
            lemma_caches_wf_grows(
                prior.ctx,
                self.ctx,
                prior.models(),
                prior.shaders(),
                prior.pipelines(),
                prior.entity_layouts(),
                prior.samplers(),
            );
            lemma_scene_wf_grows(prior.ctx, self.ctx, prior.objects(), prior.queue());
            lemma_dyn_wf_grows(prior.ctx, self.ctx, prior.dyn_textures());
        }
        p
    }

    /// The frame time's four uniform bytes as last stored.
    pub fn time_bytes_ref(&self) -> (r: &Vec<u8>)
        ensures
            r@ == self.time_value(),
    {
        &self.time_bytes
    }

    /// The draw queue: handles of the queued objects in insertion order.
    pub fn queue_handles(&self) -> (r: &Vec<SceneObjectHandle>)
        ensures
            r@ == self.queue(),
    {
        &self.scene_queue
    }

    /// Looks a scene object up; a stale handle yields `None`.
    pub fn get_scene_object(&self, handle: SceneObjectHandle) -> (r: Option<&SceneObject>)
        ensures
            match r {
                Some(o) => self.object_valid(handle) && *o == self.object_at(handle),
                None => !self.object_valid(handle),
            },
    {
        self.scene_objects.get(handle)
    }

    /// Replaces a live object's transform; the new bytes reach the GPU on the
    /// next frame.  A stale handle changes nothing.
    pub fn set_object_transform(&mut self, handle: SceneObjectHandle, transform: Vec<u8>) -> (ok:
        bool)
        requires
            old(self).wf(),
            transform@.len() == TRANSFORM_BYTES,
        ensures
            final(self).wf(),
            ok == old(self).object_valid(handle),
            final(self).ctx == old(self).ctx,
            final(self).same_caches(*old(self)),
            final(self).same_dyn(*old(self)),
            final(self).same_plumbing(*old(self)),
            final(self).queue() == old(self).queue(),
            !ok ==> final(self).objects() == old(self).objects(),
            ok ==> final(self).object_valid(handle) && final(self).object_at(handle) == (
            SceneObject { transform, model_matrix_changed: true, ..old(self).object_at(handle) }),
            forall|h2: Handle|
                old(self).object_valid(h2) ==> #[trigger] final(self).object_valid(h2) && (h2
                    != handle ==> final(self).object_at(h2) == old(self).object_at(h2)),
            forall|h2: Handle| final(self).object_valid(h2) ==> #[trigger] old(self).object_valid(
                h2,
            ),
    {
        if self.scene_objects.get(handle).is_some() {
            let ghost mid0 = self.scene_objects;
            let mut obj = self.scene_objects.take(handle);
            let ghost mid1 = self.scene_objects;
            obj.set_transform(transform);
            self.scene_objects.put(handle, obj);
            proof {
                assert forall|h2: Handle|
                    mid0.valid(h2) && h2 != handle implies #[trigger] self.scene_objects.valid(h2)
                    && self.scene_objects.at(h2) == mid0.at(h2) by {
                    assert(mid0.valid(h2));
                    assert(h2 != handle);
                    assert(mid1.valid(h2));
                    assert(mid1.at(h2) == mid0.at(h2));
                }
                assert forall|h2: Handle| #[trigger] self.scene_objects.valid(h2) implies
                    mid0.valid(h2) by {
                    if h2 != handle {
                        assert(mid1.valid(h2));
                    }
                }
            }
            true
        } else {
            false
        }
    }

    /// Allocates a scene object over an already registered model and
    /// pipeline: a fresh identity transform uniform, its bind group at the
    /// scene-object slot, and a place at the back of the draw queue.
    pub fn add_scene_object(
        &mut self,
        object_name: &str,
        using_model: &str,
        using_pipeline: &str,
    ) -> (h: SceneObjectHandle)
        requires
            old(self).wf(),
            old(self).models().contains_key(using_model@),
            old(self).pipelines().contains_key(using_pipeline@),
        ensures
            final(self).wf(),
            final(self).ctx.grows(old(self).ctx),
            final(self).same_caches(*old(self)),
            final(self).same_dyn(*old(self)),
            final(self).same_plumbing(*old(self)),
            final(self).object_valid(h),
            !old(self).object_valid(h),
            final(self).queue() == old(self).queue().push(h),
            final(self).object_at(h).name@ == object_name@,
            final(self).object_at(h).model_data == old(self).models()[using_model@],
            final(self).object_at(h).pipeline_ref == Some(
                old(self).pipelines()[using_pipeline@],
            ),
            final(self).object_at(h).entity_bindgroup is None,
            final(self).object_at(h).transform@.len() == TRANSFORM_BYTES,
            forall|i: int|
                0 <= i < TRANSFORM_BYTES ==> final(self).object_at(h).transform@[i]
                    == crate::scene::spec_identity_transform_byte(i),
            // the object owns a fresh identity-initialised transform uniform,
            // and its bind group binds exactly that buffer at binding zero,
            // against the shared scene-object layout
            ({
                let obj = final(self).object_at(h);
                let tb = final(self).ctx.buffers@[obj.transform_buffer.0 as int];
                let bg = final(self).ctx.bind_groups@[obj.sceneobject_bindgroup.0 as int];
                &&& obj.transform_buffer.0 == old(self).ctx.buffers@.len()
                &&& tb.kind is Uniform
                &&& tb.contents@.len() == TRANSFORM_BYTES
                &&& (forall|i: int|
                    0 <= i < TRANSFORM_BYTES ==> tb.contents@[i]
                        == crate::scene::spec_identity_transform_byte(i))
                &&& obj.sceneobject_bindgroup.0 == old(self).ctx.bind_groups@.len()
                &&& bg.layout == old(self).sceneobj_layout()
                &&& bg.entries@ == seq![
                    (BindGroupEntry {
                        binding: 0,
                        resource: BindingResource::Buffer(obj.transform_buffer),
                    }),
                ]
            }),
            forall|h2: Handle|
                old(self).object_valid(h2) ==> #[trigger] final(self).object_valid(h2)
                    && final(self).object_at(h2) == old(self).object_at(h2),
    {
        let ghost prior = *self;
        let transform = identity_transform_bytes();
        let transform_buffer = self.ctx.create_buffer(
            BufferKind::Uniform,
            clone_bytes(&transform),
        );
        let mut entries: Vec<BindGroupEntry> = Vec::new();
        entries.push(
            BindGroupEntry { binding: 0, resource: BindingResource::Buffer(transform_buffer) },
        );
        proof {
            assert(entries@ =~= seq![
                (BindGroupEntry {
                    binding: 0,
                    resource: BindingResource::Buffer(transform_buffer),
                }),
            ]);
        }
        let sceneobject_bindgroup = self.ctx.create_bind_group(
            String::from_str(object_name),
            self.sceneobj_bglayout,
            entries,
        );
        let model_data = match self.model_data_cache.get(using_model) {
            Some(m) => m.clone(),
            None => vstd::pervasive::unreached(),
        };
        let pipeline_ref = match self.pipeline_cache.get(using_pipeline) {
            Some(p) => Some(*p),
            None => vstd::pervasive::unreached(),
        };
        let obj = SceneObject {
            name: String::from_str(object_name),
            model_data,
            pipeline_ref,
            sceneobject_bindgroup,
            entity_bindgroup: None,
            transform,
            transform_buffer,
            model_matrix_changed: false,
        };
        proof {
            let ghost md: ModelData = *obj.model_data;
            lemma_model_wf_grows(md, prior.ctx, self.ctx);
            assert(obj.wf(self.ctx));
            lemma_caches_wf_grows(
                prior.ctx,
                self.ctx,
                prior.models(),
                prior.shaders(),
                prior.pipelines(),
                prior.entity_layouts(),
                prior.samplers(),
            );
            lemma_scene_wf_grows(prior.ctx, self.ctx, prior.objects(), prior.queue());
            lemma_dyn_wf_grows(prior.ctx, self.ctx, prior.dyn_textures());
        }
        let h = self.scene_objects.add(obj);
        self.scene_queue.push(h);
        h
    }


    /// Registers an entity kind: builds (or reuses) its bindings layout,
    /// loads its model, assembles the pipeline-layout stack in fixed slot
    /// order — global, scene object, then model and entity groups only when
    /// present — threads the resolved group indices into the kind's shader,
    /// compiles or reuses its pipeline, and caches everything under the
    /// kind's derived names.
    #[verifier::rlimit(80)]
    pub fn load_entity<E: Entity + NamedEntity>(&mut self)
        requires
            old(self).wf(),
            E::spec_provides_pipeline() && !E::spec_provides_shader() ==> old(
                self,
            ).shaders().contains_key(E::spec_shader_name()),
        ensures
            final(self).wf(),
            final(self).ctx.grows(old(self).ctx),
            final(self).same_scene(*old(self)),
            final(self).same_dyn(*old(self)),
            final(self).same_plumbing(*old(self)),
            final(self).samplers() == old(self).samplers(),
            // the kind's model is registered
            final(self).models().contains_key(E::spec_model_name()),
            forall|n: Seq<char>|
                n != E::spec_model_name() ==> #[trigger] final(self).models().contains_key(n)
                    == old(self).models().contains_key(n) && (old(self).models().contains_key(n)
                    ==> final(self).models()[n] == old(self).models()[n]),
            // the kind's pipeline is registered; without a custom pipeline the
            // default pipeline is registered under the kind's pipeline name
            final(self).pipelines().contains_key(E::spec_pipeline_name()),
            !E::spec_provides_pipeline() ==> final(self).pipelines()[E::spec_pipeline_name()]
                == old(self).default_pipeline,
            forall|n: Seq<char>|
                n != E::spec_pipeline_name() ==> #[trigger] final(self).pipelines().contains_key(n)
                    == old(self).pipelines().contains_key(n) && (old(
                    self,
                ).pipelines().contains_key(n) ==> final(self).pipelines()[n] == old(
                    self,
                ).pipelines()[n]),
            // a custom shader is compiled and registered; otherwise the
            // shader cache is untouched
            E::spec_provides_shader() ==> final(self).shaders().contains_key(
                E::spec_shader_name(),
            ),
            !E::spec_provides_shader() ==> final(self).shaders() == old(self).shaders(),
            forall|n: Seq<char>|
                n != E::spec_shader_name() ==> #[trigger] final(self).shaders().contains_key(n)
                    == old(self).shaders().contains_key(n) && (old(self).shaders().contains_key(n)
                    ==> final(self).shaders()[n] == old(self).shaders()[n]),
            // the kind's bindings layout: absent manifests leave the cache
            // untouched; a cached layout is reused as it stands; a fresh
            // layout carries exactly the manifest's entries
            E::spec_bindings().len() == 0 ==> final(self).entity_layouts() == old(
                self,
            ).entity_layouts(),
            E::spec_bindings().len() > 0 ==> final(self).entity_layouts().contains_key(
                E::spec_bindings_name(),
            ),
            E::spec_bindings().len() > 0 && old(self).entity_layouts().contains_key(
                E::spec_bindings_name(),
            ) ==> final(self).entity_layouts() == old(self).entity_layouts(),
            E::spec_bindings().len() > 0 && !old(self).entity_layouts().contains_key(
                E::spec_bindings_name(),
            ) ==> ({
                let l = final(self).entity_layouts()[E::spec_bindings_name()];
                &&& final(self).entity_layouts() == old(self).entity_layouts().insert(
                    E::spec_bindings_name(),
                    l,
                )
                &&& final(self).ctx.layouts@[l.0 as int].entries@
                    == crate::binding::spec_layout_entries(E::spec_bindings())
            }),
            // the registration half of the shader/pipeline lockstep: the
            // kind's shader was generated against the positional group
            // indices, and its pipeline stacks the layouts in fixed slot
            // order
            (registered_kind_wired::<E>(*final(self))),
    {
        let bindings = E::load_bindings();
        let entity_bglayout: Option<LayoutId> = if bindings.len() > 0 {
            let bname = E::bindings_name();
            match self.get_entity_layout(bname.as_str()) {
                Some(l) => Some(l),
                None => {
                    let entries = crate::binding::layout_entries_of(&bindings);
                    Some(self.add_entity_layout(bname.as_str(), entries))
                },
            }
        } else {
            None
        };

        let ghost before_model = *self;
        let model = E::load_model(&mut self.ctx);
        proof {
            lemma_caches_wf_grows(
                before_model.ctx,
                self.ctx,
                before_model.models(),
                before_model.shaders(),
                before_model.pipelines(),
                before_model.entity_layouts(),
                before_model.samplers(),
            );
            lemma_scene_wf_grows(
                before_model.ctx,
                self.ctx,
                before_model.objects(),
                before_model.queue(),
            );
            lemma_dyn_wf_grows(before_model.ctx, self.ctx, before_model.dyn_textures());
            assert(self.wf());
        }

        let ghost model_snap = model;
        let mut total_layout: Vec<LayoutId> = Vec::new();
        total_layout.push(self.global_bglayout);
        total_layout.push(self.sceneobj_bglayout);
        let mut group_model: u32 = 0;
        let mut group_entity: u32 = 0;
        match &model.model_bindgroup {
            Some(mb) => {
                total_layout.push(mb.bg_layout);
                group_model = (total_layout.len() - 1) as u32;
            },
            None => {},
        }
        match entity_bglayout {
            Some(l) => {
                total_layout.push(l);
                group_entity = (total_layout.len() - 1) as u32;
            },
            None => {},
        }
        proof {
            assert(forall|j: int|
                0 <= j < total_layout@.len() ==> self.ctx.layout_valid(
                    #[trigger] total_layout@[j],
                ));
            assert(group_model == spec_group_model_index(model_snap));
            assert(group_entity == spec_group_entity_index(model_snap, E::spec_bindings().len()));
            assert(total_layout@ =~= spec_layout_stack(
                self.global_bglayout,
                self.sceneobj_bglayout,
                model_snap,
                entity_bglayout,
            ));
        }
        let ghost total_snap = total_layout@;

        match E::load_shader(&*self, group_model, group_entity) {
            Some(prog) => {
                let sname = E::shader_name();
                let compiled = self.add_shader(sname.as_str(), prog);
                proof {
                    assert(self.shaders()[E::spec_shader_name()] == compiled);
                    assert(self.ctx.shaders@[compiled.module.0 as int].group_model == group_model);
                    assert(self.ctx.shaders@[compiled.module.0 as int].group_entity
                        == group_entity);
                }
            },
            None => {},
        }
        let ghost after_shader = *self;
        match E::load_pipeline(&*self) {
            Some(args) => {
                let sname = E::shader_name();
                let shader_module = match self.get_shader(sname.as_str()) {
                    Some(p) => p.module,
                    None => vstd::pervasive::unreached(),
                };
                let pname = E::pipeline_name();
                let p = self.add_render_pipeline(
                    pname.as_str(),
                    shader_module,
                    total_layout,
                    model.vertex_buffer.layout.duplicate(),
                    args.primitive,
                    args.depth_stencil,
                );
                proof {
                    assert(self.pipelines()[E::spec_pipeline_name()] == p);
                    assert(self.ctx.pipelines@[p.0 as int].bg_layouts@ == total_snap);
                    assert(self.ctx.pipelines@[p.0 as int].shader == self.shaders()[
                        E::spec_shader_name()
                    ].module);
                }
            },
            None => {
                let dp = self.default_pipeline;
                let pname = E::pipeline_name();
                self.pipeline_cache.insert(pname, dp);
            },
        }
        let ghost after_pipe = *self;

        let mname = E::model_name();
        self.add_model(mname.as_str(), model);
        proof {
            assert(*self.models()[E::spec_model_name()] == model_snap);
            assert(self.ctx == after_pipe.ctx);
            assert(self.shaders() == after_pipe.shaders());
            assert(self.pipelines() == after_pipe.pipelines());
            if E::spec_provides_shader() {
                assert(after_pipe.shaders() == after_shader.shaders());
                assert(after_pipe.ctx.shaders@ == after_shader.ctx.shaders@);
                let sid = self.shaders()[E::spec_shader_name()].module;
                assert(self.ctx.shaders@[sid.0 as int].group_model == spec_group_model_index(
                    model_snap,
                ));
                assert(self.ctx.shaders@[sid.0 as int].group_entity == spec_group_entity_index(
                    model_snap,
                    E::spec_bindings().len(),
                ));
            }
            if E::spec_provides_pipeline() {
                let pid = self.pipelines()[E::spec_pipeline_name()];
                assert(self.ctx.pipelines@[pid.0 as int].bg_layouts@ == total_snap);
                assert(total_snap == spec_layout_stack(
                    self.global_bglayout,
                    self.sceneobj_bglayout,
                    model_snap,
                    entity_bglayout,
                ));
                if E::spec_bindings().len() > 0 {
                    assert(entity_bglayout == Some(
                        self.entity_layouts()[E::spec_bindings_name()],
                    ));
                } else {
                    assert(entity_bglayout is None);
                }
            }
            assert(registered_kind_wired::<E>(*self));
        }
    }

    /// Spawns one instance of a registered entity kind: a scene object over
    /// the kind's cached model and pipeline, the kind's instantiation hook,
    /// and — exactly when the kind's binding manifest is non-empty — an
    /// entity bind group built against the kind's cached layout, one entry
    /// per binder at the binder's declared slot.  The new object joins the
    /// back of the draw queue.
    pub fn spawn_sceneobject_entity<E: Entity + NamedEntity>(
        &mut self,
        name: &str,
    ) -> (e: E)
        requires
            old(self).wf(),
            old(self).models().contains_key(E::spec_model_name()),
            old(self).pipelines().contains_key(E::spec_pipeline_name()),
            E::spec_bindings().len() > 0 ==> old(self).entity_layouts().contains_key(
                E::spec_bindings_name(),
            ),
        ensures
            final(self).wf(),
            final(self).ctx.grows(old(self).ctx),
            final(self).same_caches(*old(self)),
            final(self).same_dyn(*old(self)),
            final(self).same_plumbing(*old(self)),
            final(self).queue().len() == old(self).queue().len() + 1,
            final(self).queue().drop_last() == old(self).queue(),
            (spawned_entity_object::<E>(*final(self), *old(self), name@)),
            forall|h2: Handle|
                #[trigger] old(self).object_valid(h2) ==> final(self).object_valid(h2)
                    && final(self).object_at(h2) == old(self).object_at(h2),
    {
        let handle = self.add_scene_object(
            name,
            E::model_name().as_str(),
            E::pipeline_name().as_str(),
        );
        let ghost after_add = *self;

        let e = E::on_instantiate(self, handle);
        let ghost after_inst = *self;

        let bindings = E::load_bindings();
        if bindings.len() == 0 {
            proof {
                assert(self.queue().drop_last() =~= old(self).queue());
                assert forall|h2: Handle| #[trigger] old(self).object_valid(h2) implies self.object_valid(h2)
                    && self.object_at(h2) == old(self).object_at(h2) by {
                    assert(after_add.object_valid(h2));
                    assert(after_add.object_at(h2) == old(self).object_at(h2));
                    assert(self.objects() == after_add.objects());
                }
            }
            return e;
        }
        let bname = E::bindings_name();
        let layout = match self.get_entity_layout(bname.as_str()) {
            Some(l) => l,
            None => vstd::pervasive::unreached(),
        };
        let bg_entries = entity_binding_entries(&self.ctx, &e, &bindings);
        let ghost before_bg = *self;
        let bg = self.ctx.create_bind_group(bname, layout, bg_entries);
        proof {
            lemma_caches_wf_grows(
                before_bg.ctx,
                self.ctx,
                before_bg.models(),
                before_bg.shaders(),
                before_bg.pipelines(),
                before_bg.entity_layouts(),
                before_bg.samplers(),
            );
            lemma_scene_wf_grows(before_bg.ctx, self.ctx, before_bg.objects(), before_bg.queue());
            lemma_dyn_wf_grows(before_bg.ctx, self.ctx, before_bg.dyn_textures());
        }

        let ghost mid0 = self.scene_objects;
        let mut obj = self.scene_objects.take(handle);
        let ghost mid1 = self.scene_objects;
        obj.entity_bindgroup = Some(bg);
        self.scene_objects.put(handle, obj);
        proof {
            assert forall|h2: Handle|
                #[trigger] mid0.valid(h2) && h2 != handle implies self.scene_objects.valid(h2)
                && self.scene_objects.at(h2) == mid0.at(h2) by {
                assert(mid0.valid(h2));
                assert(mid1.valid(h2));
                assert(mid1.at(h2) == mid0.at(h2));
            }
            assert forall|h2: Handle| #[trigger] self.scene_objects.valid(h2) implies mid0.valid(
                h2,
            ) by {
                if h2 != handle {
                    assert(mid1.valid(h2));
                }
            }
            assert(self.queue().drop_last() =~= old(self).queue());
            assert forall|h2: Handle| #[trigger] old(self).object_valid(h2) implies self.object_valid(h2)
                && self.object_at(h2) == old(self).object_at(h2) by {
                assert(h2 != handle);
                assert(after_add.object_valid(h2));
                assert(after_add.object_at(h2) == old(self).object_at(h2));
                assert(mid0 == after_inst.scene_objects);
                assert(mid0.valid(h2) && mid0.at(h2) == after_add.object_at(h2));
                assert(self.scene_objects.valid(h2) && self.scene_objects.at(h2) == mid0.at(h2));
            }
        }
        e
    }
    /// Looks a shader up by name.
    pub fn get_shader(&self, shader_name: &str) -> (r: Option<&Rc<ShaderProgram>>)
        ensures
            match r {
                Some(p) => self.shaders().contains_key(shader_name@)
                    && *p == self.shaders()[shader_name@],
                None => !self.shaders().contains_key(shader_name@),
            },
    {
        self.shader_cache.get(shader_name)
    }

    /// Creates and registers a sampler under a name.
    pub fn add_sampler(&mut self, sampler_name: &str) -> (r: Rc<TextureSampler>)
        requires
            old(self).wf(),
        ensures
            final(self).wf(),
            final(self).samplers() == old(self).samplers().insert(sampler_name@, r),
            r.wf(final(self).ctx),
            final(self).ctx.grows(old(self).ctx),
            final(self).models() == old(self).models(),
            final(self).shaders() == old(self).shaders(),
            final(self).pipelines() == old(self).pipelines(),
            final(self).entity_layouts() == old(self).entity_layouts(),
            final(self).same_scene(*old(self)),
            final(self).same_dyn(*old(self)),
            final(self).same_plumbing(*old(self)),
    {
        let ghost prior = *self;
        let sampler = self.ctx.create_sampler(String::from_str(sampler_name));
        let r = Rc::new(TextureSampler { sampler });
        self.sampler_cache.insert(String::from_str(sampler_name), r.clone());
        proof {
            lemma_caches_wf_grows(
                prior.ctx,
                self.ctx,
                prior.models(),
                prior.shaders(),
                prior.pipelines(),
                prior.entity_layouts(),
                prior.samplers(),
            );
            lemma_scene_wf_grows(prior.ctx, self.ctx, prior.objects(), prior.queue());
            lemma_dyn_wf_grows(prior.ctx, self.ctx, prior.dyn_textures());
        }
        r
    }

    /// Looks a sampler up by name.
    pub fn get_sampler(&self, sampler_name: &str) -> (r: Option<&Rc<TextureSampler>>)
        ensures
            match r {
                Some(s) => self.samplers().contains_key(sampler_name@)
                    && *s == self.samplers()[sampler_name@],
                None => !self.samplers().contains_key(sampler_name@),
            },
    {
        self.sampler_cache.get(sampler_name)
    }

    /// Looks a pipeline up by name.
    pub fn get_pipeline(&self, pipeline_name: &str) -> (r: Option<PipelineId>)
        ensures
            match r {
                Some(p) => self.pipelines().contains_key(pipeline_name@)
                    && p == self.pipelines()[pipeline_name@],
                None => !self.pipelines().contains_key(pipeline_name@),
            },
    {
        match self.pipeline_cache.get(pipeline_name) {
            Some(p) => Some(*p),
            None => None,
        }
    }

    /// Looks a model up by name.
    pub fn get_model(&self, model_name: &str) -> (r: Option<&Rc<ModelData>>)
        ensures
            match r {
                Some(m) => self.models().contains_key(model_name@)
                    && *m == self.models()[model_name@],
                None => !self.models().contains_key(model_name@),
            },
    {
        self.model_data_cache.get(model_name)
    }

    /// Looks an entity bind-group layout up by name.
    pub fn get_entity_layout(&self, layout_name: &str) -> (r: Option<LayoutId>)
        ensures
            match r {
                Some(l) => self.entity_layouts().contains_key(layout_name@) && l
                    == self.entity_layouts()[layout_name@],
                None => !self.entity_layouts().contains_key(layout_name@),
            },
    {
        match self.entity_bglayout_cache.get(layout_name) {
            Some(l) => Some(*l),
            None => None,
        }
    }

    /// Creates a bind-group layout and registers it under a name.
    pub fn add_entity_layout(&mut self, layout_name: &str, entries: Vec<LayoutEntry>) -> (l:
        LayoutId)
        requires
            old(self).wf(),
        ensures
            final(self).wf(),
            final(self).ctx.layout_valid(l),
            final(self).entity_layouts() == old(self).entity_layouts().insert(layout_name@, l),
            final(self).ctx.grows(old(self).ctx),
            l.0 == old(self).ctx.layouts@.len(),
            final(self).ctx.layouts@.len() == old(self).ctx.layouts@.len() + 1,
            final(self).ctx.layouts@[l.0 as int].entries@ == entries@,
            final(self).models() == old(self).models(),
            final(self).shaders() == old(self).shaders(),
            final(self).pipelines() == old(self).pipelines(),
            final(self).samplers() == old(self).samplers(),
            final(self).same_scene(*old(self)),
            final(self).same_dyn(*old(self)),
            final(self).same_plumbing(*old(self)),
    {
        let ghost prior = *self;
        let l = self.ctx.create_bind_group_layout(String::from_str(layout_name), entries);
        self.entity_bglayout_cache.insert(String::from_str(layout_name), l);
        proof {
            lemma_caches_wf_grows(
                prior.ctx,
                self.ctx,
                prior.models(),
                prior.shaders(),
                prior.pipelines(),
                prior.entity_layouts(),
                prior.samplers(),
            );
            lemma_scene_wf_grows(prior.ctx, self.ctx, prior.objects(), prior.queue());
            lemma_dyn_wf_grows(prior.ctx, self.ctx, prior.dyn_textures());
        }
        l
    }
}

} // verus!
