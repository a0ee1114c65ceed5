//! The entity contract: what a renderable kind must supply.
//!
//! An entity kind declares its binding manifest, geometry, and optionally a
//! custom shader and pipeline.  Registering the kind once builds and caches
//! those GPU objects; spawning then instantiates scene objects against the
//! cached resources.  Cache keys are derived from the kind's stable name by
//! plain string concatenation.

use crate::binding::{resource_matches_kind, Binder, BindingResource};
use crate::gpu::{GpuContext, PipelineState};
use crate::manager::RenderManager;
use crate::model::ModelData;
use crate::scene::SceneObjectHandle;
use crate::shader::ShaderSource;
use vstd::prelude::*;

verus! {

/// Suffix of an entity kind's bindings-layout cache key.
pub const BINDS_STR: &'static str = "_binds";

/// Suffix of an entity kind's model cache key.
pub const MODEL_STR: &'static str = "_model";

/// Suffix of an entity kind's model bind-group-layout label.
pub const MODEL_BGL_STR: &'static str = "_model_bglayout";

/// Suffix of an entity kind's model bind-group label.
pub const MODEL_BG_STR: &'static str = "_model_bindgroup";

/// Suffix of an entity kind's pipeline cache key.
pub const PIPE_STR: &'static str = "_pipe";

/// Suffix of an entity kind's shader cache key.
pub const SHADER_STR: &'static str = "_shader";

/// Builds a cache key from a kind's name and a suffix.
pub fn derived_name(base: &str, suffix: &str) -> (r: String)
    ensures
        r@ == base@ + suffix@,
{
    let mut r = String::from_str(base);
    r.append(suffix);
    r
}

/// The fixed-function state an entity chooses for its custom pipeline.
pub struct EntityPipeline {
    pub primitive: PipelineState,
    pub depth_stencil: bool,
}

/// The names under which a kind's GPU objects are cached and labelled.
pub trait NamedEntity {
    open spec fn spec_bindings_name() -> Seq<char> {
        Seq::empty()
    }

    open spec fn spec_model_name() -> Seq<char> {
        Seq::empty()
    }

    open spec fn spec_pipeline_name() -> Seq<char> {
        Seq::empty()
    }

    open spec fn spec_shader_name() -> Seq<char> {
        Seq::empty()
    }

    open spec fn spec_model_bindgroup_name() -> Seq<char> {
        Seq::empty()
    }

    open spec fn spec_model_bglayout_name() -> Seq<char> {
        Seq::empty()
    }

    fn bindings_name() -> (r: String)
        ensures
            r@ == Self::spec_bindings_name(),
    ;

    fn model_name() -> (r: String)
        ensures
            r@ == Self::spec_model_name(),
    ;

    fn pipeline_name() -> (r: String)
        ensures
            r@ == Self::spec_pipeline_name(),
    ;

    fn shader_name() -> (r: String)
        ensures
            r@ == Self::spec_shader_name(),
    ;

    fn model_bindgroup_name() -> (r: String)
        ensures
            r@ == Self::spec_model_bindgroup_name(),
    ;

    fn model_bglayout_name() -> (r: String)
        ensures
            r@ == Self::spec_model_bglayout_name(),
    ;
}

/// The capability every renderable kind implements.
///
/// The binding manifest is a fixed property of the kind: evaluating it twice
/// yields the same declarations, which is what lets the layout built at
/// registration time and the bind groups built per spawned instance agree.
pub trait Entity: Sized {
    /// The kind's stable identity string.  Unless a kind says otherwise, the
    /// specification-level defaults describe the simplest kind: nameless, no
    /// bindings, no instance resources, default shader and pipeline.
    open spec fn spec_entity_type_name() -> Seq<char> {
        Seq::empty()
    }

    /// The kind's binding manifest.
    open spec fn spec_bindings() -> Seq<Binder> {
        Seq::empty()
    }

    /// The instance's own GPU resources are live in `ctx`.
    open spec fn wf(self, ctx: GpuContext) -> bool {
        true
    }

    /// Whether `load_pipeline` supplies a custom pipeline.
    open spec fn spec_provides_pipeline() -> bool {
        false
    }

    /// Whether `load_shader` supplies a custom shader.
    open spec fn spec_provides_shader() -> bool {
        false
    }

    fn entity_type_name() -> (r: String)
        ensures
            r@ == Self::spec_entity_type_name(),
    ;

    /// Constructs the CPU-side instance state.  The instance may create its
    /// own GPU resources but leaves the manager's caches and scene alone.
    fn on_instantiate(rm: &mut RenderManager, handle: SceneObjectHandle) -> (e: Self)
        requires
            old(rm).wf(),
        ensures
            final(rm).wf(),
            final(rm).instantiate_extends(*old(rm)),
            e.wf(final(rm).ctx),
    ;

    /// Declares the (possibly empty) per-instance binding manifest.
    fn load_bindings() -> (r: Vec<Binder>)
        ensures
            r@ == Self::spec_bindings(),
    ;

    /// The live resource this instance binds at manifest position `index`.
    fn binding_resource(&self, ctx: &GpuContext, index: usize) -> (r: BindingResource)
        requires
            self.wf(*ctx),
            index < Self::spec_bindings().len(),
        ensures
            resource_matches_kind(r, Self::spec_bindings()[index as int].kind),
            ctx.resource_valid(r),
    ;

    /// Supplies the kind's geometry and any model-level resources.
    fn load_model(ctx: &mut GpuContext) -> (m: ModelData)
        requires
            old(ctx).wf(),
        ensures
            final(ctx).wf(),
            final(ctx).grows(*old(ctx)),
            m.wf(*final(ctx)),
    ;

    /// Supplies fixed-function pipeline state, or `None` to reuse the
    /// manager's default pipeline.
    fn load_pipeline(rm: &RenderManager) -> (r: Option<EntityPipeline>)
        ensures
            r is Some == Self::spec_provides_pipeline(),
    ;

    /// Supplies shader source generated against the resolved model and entity
    /// bind-group indices, or `None` to reuse an already cached shader.
    fn load_shader(rm: &RenderManager, group_model: u32, group_entity: u32) -> (r: Option<
        ShaderSource,
    >)
        ensures
            r is Some == Self::spec_provides_shader(),
            r matches Some(s) ==> s.group_model == group_model && s.group_entity == group_entity,
    ;
}

} // verus!
