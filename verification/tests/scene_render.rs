//! Entity registration, spawning and the frame command stream, exercised
//! with two renderable kinds: a plain quad with an empty binding manifest
//! and a paddle with one per-instance colour uniform.

use safehouse_render::binding::{Binder, BindingKind, BindingResource, Visibility};
use safehouse_render::commands::RenderCommand;
use safehouse_render::entity::{derived_name, Entity, EntityPipeline, NamedEntity};
use safehouse_render::gpu::{BufferKind, FrontFace, GpuContext, PipelineState};
use safehouse_render::manager::RenderManager;
use safehouse_render::model::{ModelData, VertexBuffer, VertexRange};
use safehouse_render::resource::ManagerResource;
use safehouse_render::scene::SceneObjectHandle;
use safehouse_render::shader::{FragmentShader, ShaderProgram, ShaderSource};
use safehouse_render::vertex::color_vertex_layout;

/// Six position/colour vertices of a unit quad, as raw little-endian bytes.
fn quad_bytes() -> Vec<u8> {
    let corners: [[f32; 2]; 6] =
        [[-1.0, 1.0], [1.0, 1.0], [1.0, -1.0], [1.0, -1.0], [-1.0, -1.0], [-1.0, 1.0]];
    let mut bytes = Vec::new();
    for [x, y] in corners {
        for v in [x, y, 0.0, 1.0, 1.0, 1.0, 1.0, 1.0] {
            bytes.extend_from_slice(&f32::to_le_bytes(v));
        }
    }
    bytes
}

/// A simple moving shape: no per-instance GPU resources, default shader and
/// pipeline, one six-vertex group.
struct Ball {
    #[allow(dead_code)]
    handle: SceneObjectHandle,
}

impl Entity for Ball {
    fn entity_type_name() -> String {
        String::from("ball")
    }

    fn on_instantiate(_rm: &mut RenderManager, handle: SceneObjectHandle) -> Self {
        Ball { handle }
    }

    fn load_bindings() -> Vec<Binder> {
        Vec::new()
    }

    fn binding_resource(&self, _ctx: &GpuContext, _index: usize) -> BindingResource {
        unreachable!()
    }

    fn load_model(ctx: &mut GpuContext) -> ModelData {
        let vertex_buffer = VertexBuffer::new_from_raw(ctx, quad_bytes(), color_vertex_layout());
        ModelData {
            vertex_buffer,
            groups: vec![VertexRange { start: 0, end: 6 }],
            model_bindgroup: None,
        }
    }

    fn load_pipeline(_rm: &RenderManager) -> Option<EntityPipeline> {
        None
    }

    fn load_shader(_rm: &RenderManager, _gm: u32, _ge: u32) -> Option<ShaderSource> {
        None
    }
}

impl NamedEntity for Ball {
    fn bindings_name() -> String {
        derived_name("ball", "_binds")
    }

    fn model_name() -> String {
        derived_name("ball", "_model")
    }

    fn pipeline_name() -> String {
        derived_name("ball", "_pipe")
    }

    fn shader_name() -> String {
        String::from("default")
    }

    fn model_bindgroup_name() -> String {
        derived_name("ball", "_model_bindgroup")
    }

    fn model_bglayout_name() -> String {
        derived_name("ball", "_model_bglayout")
    }
}

/// A paddle with one per-instance uniform (its colour), a custom shader and
/// a custom pipeline, drawn as two three-vertex groups.
struct Paddle {
    #[allow(dead_code)]
    handle: SceneObjectHandle,
    color: safehouse_render::gpu::BufferId,
}

impl Entity for Paddle {
    fn entity_type_name() -> String {
        String::from("Paddle")
    }

    fn on_instantiate(rm: &mut RenderManager, handle: SceneObjectHandle) -> Self {
        let mut color_bytes = Vec::new();
        for v in [0.0f32, 1.0, 0.0] {
            color_bytes.extend_from_slice(&f32::to_le_bytes(v));
        }
        let color = rm.ctx.create_buffer(BufferKind::Uniform, color_bytes);
        Paddle { handle, color }
    }

    fn load_bindings() -> Vec<Binder> {
        vec![Binder::new(0, Visibility::All, BindingKind::UniformBuffer { min_size: 12 })]
    }

    fn binding_resource(&self, _ctx: &GpuContext, _index: usize) -> BindingResource {
        BindingResource::Buffer(self.color)
    }

    fn load_model(ctx: &mut GpuContext) -> ModelData {
        let vertex_buffer = VertexBuffer::new_from_raw(ctx, quad_bytes(), color_vertex_layout());
        ModelData {
            vertex_buffer,
            groups: vec![VertexRange { start: 0, end: 3 }, VertexRange { start: 3, end: 6 }],
            model_bindgroup: None,
        }
    }

    fn load_pipeline(_rm: &RenderManager) -> Option<EntityPipeline> {
        Some(EntityPipeline { primitive: PipelineState::basic(), depth_stencil: false })
    }

    fn load_shader(_rm: &RenderManager, group_model: u32, group_entity: u32) -> Option<
        ShaderSource,
    > {
        let source = format!(
            "@group({group_entity}) @binding(0) var<uniform> paddle_color: vec3<f32>; [model group {group_model}]"
        );
        Some(ShaderSource { source, group_model, group_entity })
    }
}

impl NamedEntity for Paddle {
    fn bindings_name() -> String {
        derived_name("Paddle", "_binds")
    }

    fn model_name() -> String {
        derived_name("Paddle", "_model")
    }

    fn pipeline_name() -> String {
        derived_name("Paddle", "_pipe")
    }

    fn shader_name() -> String {
        derived_name("Paddle", "_shader")
    }

    fn model_bindgroup_name() -> String {
        derived_name("Paddle", "_model_bindgroup")
    }

    fn model_bglayout_name() -> String {
        derived_name("Paddle", "_model_bglayout")
    }
}

fn identity_bytes() -> Vec<u8> {
    let mut m = vec![0u8; 64];
    for i in 0..4 {
        m[i * 20..i * 20 + 4].copy_from_slice(&f32::to_le_bytes(1.0));
    }
    m
}

#[test]
fn loading_twice_reuses_the_bindings_layout() {
    let mut rm = RenderManager::new(800, 600);
    rm.load_entity::<Paddle>();
    let first = rm.get_entity_layout("Paddle_binds").unwrap();
    let layouts_before = rm.ctx.layouts.len();
    rm.load_entity::<Paddle>();
    let second = rm.get_entity_layout("Paddle_binds").unwrap();
    // Identical shared layout on the second lookup: no duplicate GPU layout
    // was created for the unchanged name.
    assert_eq!(first, second);
    assert_eq!(rm.ctx.layouts.len(), layouts_before);
}

#[test]
fn fetching_a_model_twice_yields_the_same_shared_resource() {
    let mut rm = RenderManager::new(800, 600);
    rm.load_entity::<Ball>();
    let first = rm.get_model("ball_model").unwrap().clone();
    let second = rm.get_model("ball_model").unwrap().clone();
    assert!(std::rc::Rc::ptr_eq(&first, &second));
}

#[test]
fn layout_and_bind_group_agree_on_slots() {
    let mut rm = RenderManager::new(800, 600);
    rm.load_entity::<Paddle>();
    let _paddle = rm.spawn_sceneobject_entity::<Paddle>("Player");
    let layout = rm.get_entity_layout("Paddle_binds").unwrap();
    let layout_entries = &rm.ctx.layouts[layout.0].entries;
    assert_eq!(layout_entries.len(), 1);
    assert_eq!(layout_entries[0].binding, 0);
    assert_eq!(layout_entries[0].kind, BindingKind::UniformBuffer { min_size: 12 });

    // The spawned instance's bind group has the same single entry at the
    // same slot, built against the same layout.
    let handle = *rm.queue_handles().last().unwrap();
    let obj = rm.get_scene_object(handle).unwrap();
    let bg = obj.entity_bindgroup.expect("paddle must carry an entity bind group");
    let rec = &rm.ctx.bind_groups[bg.0];
    assert_eq!(rec.layout, layout);
    assert_eq!(rec.entries.len(), 1);
    assert_eq!(rec.entries[0].binding, 0);
}

#[test]
fn shader_receives_the_positional_entity_group_index() {
    let mut rm = RenderManager::new(800, 600);
    rm.load_entity::<Paddle>();
    let shader = rm.get_shader("Paddle_shader").unwrap().module;
    let rec = &rm.ctx.shaders[shader.0];
    // No model bind group, so the entity group lands at slot 2 and the
    // shader source was generated against that index.
    assert_eq!(rec.group_entity, 2);
    assert!(rec.source.contains("@group(2)"));
    // The pipeline's layout stack: global, scene object, entity.
    let pipe = rm.get_pipeline("Paddle_pipe").unwrap();
    assert_eq!(rm.ctx.pipelines[pipe.0].bg_layouts.len(), 3);
    assert_eq!(rm.ctx.pipelines[pipe.0].bg_layouts[2], rm.get_entity_layout("Paddle_binds").unwrap());
}

#[test]
fn empty_manifest_produces_no_entity_bind_group() {
    let mut rm = RenderManager::new(800, 600);
    rm.load_entity::<Ball>();
    let _ball = rm.spawn_sceneobject_entity::<Ball>("Ball");
    let handle = *rm.queue_handles().last().unwrap();
    let obj = rm.get_scene_object(handle).unwrap();
    assert!(obj.entity_bindgroup.is_none());
    // The frame never binds a group beyond the scene-object slot for it.
    let commands = rm.render();
    let slots: Vec<u32> = commands
        .iter()
        .filter_map(|c| match c {
            RenderCommand::SetBindGroup { slot, .. } => Some(*slot),
            _ => None,
        })
        .collect();
    assert_eq!(slots, vec![0, 1]);
}

#[test]
fn one_draw_call_per_group() {
    let mut rm = RenderManager::new(800, 600);
    rm.load_entity::<Ball>();
    rm.load_entity::<Paddle>();
    let _ball = rm.spawn_sceneobject_entity::<Ball>("Ball");
    let commands = rm.render();
    let draws: Vec<(u32, u32)> = commands
        .iter()
        .filter_map(|c| match c {
            RenderCommand::Draw { start, end } => Some((*start, *end)),
            _ => None,
        })
        .collect();
    // A single six-vertex quad group: exactly one draw call covering [0, 6).
    assert_eq!(draws, vec![(0, 6)]);

    let _paddle = rm.spawn_sceneobject_entity::<Paddle>("Player");
    let commands = rm.render();
    let draws: Vec<(u32, u32)> = commands
        .iter()
        .filter_map(|c| match c {
            RenderCommand::Draw { start, end } => Some((*start, *end)),
            _ => None,
        })
        .collect();
    // The ball's one group, then the paddle's two: three draw calls.
    assert_eq!(draws, vec![(0, 6), (0, 3), (3, 6)]);
}

#[test]
fn draw_order_follows_spawn_order_on_every_frame() {
    let mut rm = RenderManager::new(800, 600);
    rm.load_entity::<Ball>();
    let _a = rm.spawn_sceneobject_entity::<Ball>("A");
    let _b = rm.spawn_sceneobject_entity::<Ball>("B");
    let _c = rm.spawn_sceneobject_entity::<Ball>("C");
    let handles = rm.queue_handles().clone();
    let expected: Vec<_> = handles
        .iter()
        .map(|h| rm.get_scene_object(*h).unwrap().sceneobject_bindgroup)
        .collect();

    let order_of = |commands: &[RenderCommand]| -> Vec<_> {
        commands
            .iter()
            .filter_map(|c| match c {
                RenderCommand::SetBindGroup { slot: 1, group } => Some(*group),
                _ => None,
            })
            .collect::<Vec<_>>()
    };

    let first = rm.render();
    assert_eq!(order_of(&first), expected);

    // Mutating a transform must not reorder the queue.
    assert!(rm.set_object_transform(handles[1], identity_bytes()));
    let second = rm.render();
    assert_eq!(order_of(&second), expected);

    let names: Vec<String> = handles
        .iter()
        .map(|h| rm.get_scene_object(*h).unwrap().get_name().clone())
        .collect();
    assert_eq!(names, vec!["A", "B", "C"]);
}

#[test]
fn resize_is_deferred_to_the_next_frame() {
    let mut rm = RenderManager::new(800, 600);
    rm.set_resize(1024, 768);
    // The wanted configuration changes at once; the surface stays as it is.
    assert_eq!((rm.w_width(), rm.w_height()), (1024, 768));
    assert_eq!((rm.ctx.surface_width, rm.ctx.surface_height), (800, 600));
    assert!(rm.ctx.resized);
    let _ = rm.render();
    assert_eq!((rm.ctx.surface_width, rm.ctx.surface_height), (1024, 768));
    assert!(!rm.ctx.resized);
}

#[test]
fn update_resize_applies_a_pending_resize() {
    let mut rm = RenderManager::new(800, 600);
    rm.set_resize(640, 480);
    assert_eq!((rm.ctx.surface_width, rm.ctx.surface_height), (800, 600));
    rm.update_resize();
    assert_eq!((rm.ctx.surface_width, rm.ctx.surface_height), (640, 480));
    // Without a pending resize, applying changes nothing.
    rm.update_resize();
    assert_eq!((rm.ctx.surface_width, rm.ctx.surface_height), (640, 480));
}

#[test]
fn frame_opens_with_global_group_and_time_upload() {
    let mut rm = RenderManager::new(800, 600);
    rm.update_time(vec![1, 2, 3, 4]);
    let commands = rm.render();
    assert!(matches!(commands[0], RenderCommand::BeginSurfacePass { .. }));
    assert!(matches!(commands[1], RenderCommand::SetBindGroup { slot: 0, .. }));
    assert!(matches!(commands[2], RenderCommand::WriteTimeBuffer { .. }));
    assert!(matches!(commands[commands.len() - 2], RenderCommand::EndPass));
    assert!(matches!(commands[commands.len() - 1], RenderCommand::Present));
}

#[test]
fn stale_scene_handles_are_rejected() {
    let mut rm = RenderManager::new(800, 600);
    rm.load_entity::<Ball>();
    let _ball = rm.spawn_sceneobject_entity::<Ball>("Ball");
    let handle = *rm.queue_handles().last().unwrap();
    let bogus = safehouse_render::handle::Handle {
        index: handle.index,
        generation: handle.generation + 1,
    };
    assert!(rm.get_scene_object(bogus).is_none());
    assert!(!rm.set_object_transform(bogus, identity_bytes()));
    assert!(rm.get_scene_object(handle).is_some());
}

#[test]
fn resources_fetch_by_name_and_default() {
    let mut rm = RenderManager::new(800, 600);
    rm.load_entity::<Ball>();
    let fetched = ModelData::fetch("ball_model", &rm);
    let looked_up = rm.get_model("ball_model").unwrap().clone();
    assert!(std::rc::Rc::ptr_eq(&fetched, &looked_up));
    let default_shader = ShaderProgram::fetch_default(&rm);
    assert_eq!(default_shader.module, rm.get_shader("default").unwrap().module);
    let shader = FragmentShader::new(default_shader);
    assert_eq!(shader.program().module, rm.get_shader("default").unwrap().module);
}

/// Model-level resources of a textured quad: one texture and one sampler.
struct QuadResources {
    texture: safehouse_render::texture::Texture,
    sampler: safehouse_render::texture::TextureSampler,
}

impl safehouse_render::model::ModelResources for QuadResources {
    fn model_bindings() -> Vec<Binder> {
        vec![
            Binder::new(0, Visibility::All, BindingKind::Texture),
            Binder::new(1, Visibility::All, BindingKind::Sampler),
        ]
    }

    fn binding_resource(&self, _ctx: &GpuContext, index: usize) -> BindingResource {
        if index == 0 {
            BindingResource::TextureView(self.texture.texture)
        } else {
            BindingResource::Sampler(self.sampler.sampler)
        }
    }
}

/// A textured pane with both optional bind groups: model resources and one
/// per-instance uniform.
struct Pane {
    #[allow(dead_code)]
    handle: SceneObjectHandle,
    tint: safehouse_render::gpu::BufferId,
}

impl Entity for Pane {
    fn entity_type_name() -> String {
        String::from("Pane")
    }

    fn on_instantiate(rm: &mut RenderManager, handle: SceneObjectHandle) -> Self {
        let tint = rm.ctx.create_buffer(BufferKind::Uniform, vec![0u8; 16]);
        Pane { handle, tint }
    }

    fn load_bindings() -> Vec<Binder> {
        vec![Binder::new(0, Visibility::All, BindingKind::UniformBuffer { min_size: 16 })]
    }

    fn binding_resource(&self, _ctx: &GpuContext, _index: usize) -> BindingResource {
        BindingResource::Buffer(self.tint)
    }

    fn load_model(ctx: &mut GpuContext) -> ModelData {
        let vertex_buffer = VertexBuffer::new_from_raw(ctx, quad_bytes(), color_vertex_layout());
        let resources = QuadResources {
            texture: safehouse_render::texture::Texture::new_blank_dynamic(ctx, 4, 4),
            sampler: safehouse_render::texture::TextureSampler::new(
                ctx,
                String::from("pane_sampler"),
            ),
        };
        ModelData::new::<Pane, QuadResources>(
            ctx,
            vertex_buffer,
            vec![VertexRange { start: 0, end: 6 }],
            Some(resources),
        )
    }

    fn load_pipeline(_rm: &RenderManager) -> Option<EntityPipeline> {
        Some(EntityPipeline { primitive: PipelineState::basic(), depth_stencil: false })
    }

    fn load_shader(_rm: &RenderManager, group_model: u32, group_entity: u32) -> Option<
        ShaderSource,
    > {
        let source =
            format!("[texture at group {group_model}; tint at group {group_entity}]");
        Some(ShaderSource { source, group_model, group_entity })
    }
}

impl NamedEntity for Pane {
    fn bindings_name() -> String {
        derived_name("Pane", "_binds")
    }

    fn model_name() -> String {
        derived_name("Pane", "_model")
    }

    fn pipeline_name() -> String {
        derived_name("Pane", "_pipe")
    }

    fn shader_name() -> String {
        derived_name("Pane", "_shader")
    }

    fn model_bindgroup_name() -> String {
        derived_name("Pane", "_model_bindgroup")
    }

    fn model_bglayout_name() -> String {
        derived_name("Pane", "_model_bglayout")
    }
}

#[test]
fn model_and_entity_groups_take_consecutive_slots() {
    let mut rm = RenderManager::new(800, 600);
    rm.load_entity::<Pane>();
    // With a model bind group present, the model group lands at slot two and
    // the entity group at slot three; the shader was generated against
    // exactly those indices.
    let shader = rm.get_shader("Pane_shader").unwrap().module;
    let rec = &rm.ctx.shaders[shader.0];
    assert_eq!((rec.group_model, rec.group_entity), (2, 3));
    assert!(rec.source.contains("group 2") && rec.source.contains("group 3"));
    let pipe = rm.get_pipeline("Pane_pipe").unwrap();
    assert_eq!(rm.ctx.pipelines[pipe.0].bg_layouts.len(), 4);

    // The model's own bind group follows its manifest: texture then sampler.
    let model = rm.get_model("Pane_model").unwrap().clone();
    let mb = model.model_bindgroup.expect("the pane's model carries resources");
    let bg = &rm.ctx.bind_groups[mb.bindgroup.0];
    assert_eq!(bg.layout, mb.bg_layout);
    assert_eq!(bg.entries.len(), 2);
    assert_eq!((bg.entries[0].binding, bg.entries[1].binding), (0, 1));

    // At render time the frame binds slots zero to three, in order, and the
    // absent groups of other kinds consume no slot.
    let _pane = rm.spawn_sceneobject_entity::<Pane>("Pane");
    let commands = rm.render();
    let slots: Vec<u32> = commands
        .iter()
        .filter_map(|c| match c {
            RenderCommand::SetBindGroup { slot, .. } => Some(*slot),
            _ => None,
        })
        .collect();
    assert_eq!(slots, vec![0, 1, 2, 3]);
}

#[test]
fn default_pipeline_wiring_matches_construction() {
    let rm = RenderManager::new(800, 600);
    let pipe = &rm.ctx.pipelines[rm.default_pipeline.0];
    assert_eq!(pipe.bg_layouts.len(), 2);
    assert_eq!(pipe.primitive.front_face, FrontFace::Cw);
    // The global bind group: projection-view matrix at binding zero, frame
    // time at binding one.
    let global = rm
        .ctx
        .bind_groups
        .iter()
        .find(|bg| bg.label == "global_bindgroup")
        .expect("the global bind group exists");
    assert_eq!(global.entries.len(), 2);
    assert_eq!(
        (global.entries[0].binding, global.entries[0].resource),
        (0, BindingResource::Buffer(rm.global_pvm))
    );
    assert_eq!(
        (global.entries[1].binding, global.entries[1].resource),
        (1, BindingResource::Buffer(rm.time_buffer))
    );
}
