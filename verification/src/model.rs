//! Model data: geometry plus optional model-level resources.
//!
//! A model owns a vertex buffer, an ordered list of vertex ranges ("groups",
//! one draw call each) that partition the buffer, and, when the model carries
//! its own resources such as textures, a model-level bind group paired with
//! its layout.

use crate::binding::{
    resource_matches_kind, BindGroupEntry, Binder, LayoutEntry, spec_layout_entries,
};
use crate::entity::NamedEntity;
use crate::gpu::{BindGroupId, BufferId, BufferKind, GpuContext, LayoutId};
use crate::vertex::VertexLayout;
use std::rc::Rc;
use vstd::prelude::*;

verus! {

/// Marker for resource types the manager can hand out by name.
pub trait ModelDataRes {

}

/// A contiguous range of vertex indices drawn with one draw call.
#[derive(Clone, Copy, PartialEq, Eq, Structural, Debug)]
pub struct VertexRange {
    pub start: u32,
    pub end: u32,
}

/// The groups cover the vertex buffer completely and in order: each begins
/// where the one before it ends, so no two ranges overlap.
pub open spec fn groups_partition(groups: Seq<VertexRange>, vertex_count: u32) -> bool {
    &&& (groups.len() == 0 ==> vertex_count == 0)
    &&& (groups.len() > 0 ==> groups[0].start == 0 && groups.last().end == vertex_count)
    &&& forall|i: int| 0 <= i < groups.len() ==> (#[trigger] groups[i]).start <= groups[i].end
    &&& forall|i: int|
        0 <= i < groups.len() - 1 ==> (#[trigger] groups[i]).end == groups[i + 1].start
}

/// A GPU vertex buffer: the created buffer, the layout its bytes follow and
/// the number of vertices it holds.
pub struct VertexBuffer {
    pub buffer: BufferId,
    pub layout: VertexLayout,
    pub vertex_count: u32,
}

impl VertexBuffer {
    pub open spec fn wf(self, ctx: GpuContext) -> bool {
        ctx.buffer_valid(self.buffer)
    }

    /// Uploads raw vertex bytes laid out as `layout` prescribes.
    pub fn new_from_raw(ctx: &mut GpuContext, data: Vec<u8>, layout: VertexLayout) -> (r: Rc<
        VertexBuffer,
    >)
        requires
            0 < layout.stride <= 0x1_0000,
            data@.len() % layout.stride as nat == 0,
            data@.len() / layout.stride as nat <= u32::MAX,
        ensures
            r.wf(*final(ctx)),
            r.vertex_count == data@.len() / layout.stride as nat,
            r.layout == layout,
            final(ctx).grows(*old(ctx)),
            final(ctx).buffers@ == old(ctx).buffers@.push(
                (crate::gpu::BufferRec { kind: BufferKind::Vertex, contents: data }),
            ),
            old(ctx).wf() ==> final(ctx).wf(),
    {
        let count = data.len() / (layout.stride as usize);
        let buffer = ctx.create_buffer(BufferKind::Vertex, data);
        Rc::new(VertexBuffer { buffer, layout, vertex_count: count as u32 })
    }
}

/// The model-level bind group and the layout it was created against.
#[derive(Clone, Copy, PartialEq, Eq, Structural, Debug)]
pub struct ModelBinding {
    pub bindgroup: BindGroupId,
    pub bg_layout: LayoutId,
}

/// The resources a model carries beyond its geometry (textures, samplers),
/// together with their binding manifest.
///
/// The manifest half is instance-independent; the resource half is read off a
/// live value.  Implementers prove that the resources they hand out stay
/// valid as the GPU context grows.
pub trait ModelResources: Sized {
    /// The binding manifest of this resource set.  Unless overridden, a
    /// resource set declares no bindings and is live everywhere.
    open spec fn spec_bindings() -> Seq<Binder> {
        Seq::empty()
    }

    /// The resources of this value are live in `ctx`.
    open spec fn wf(self, ctx: GpuContext) -> bool {
        true
    }

    /// Evaluates the manifest, without any instance.
    fn model_bindings() -> (r: Vec<Binder>)
        ensures
            r@ == Self::spec_bindings(),
    ;

    /// The live resource this value binds at manifest position `index`.
    fn binding_resource(&self, ctx: &GpuContext, index: usize) -> (r:
        crate::binding::BindingResource)
        requires
            self.wf(*ctx),
            index < Self::spec_bindings().len(),
        ensures
            resource_matches_kind(r, Self::spec_bindings()[index as int].kind),
            ctx.resource_valid(r),
    ;
}

/// Geometry plus optional model-level resources: one vertex buffer, the
/// ranges drawn from it, and the model's own bind group if it has resources.
pub struct ModelData {
    pub vertex_buffer: Rc<VertexBuffer>,
    pub groups: Vec<VertexRange>,
    pub model_bindgroup: Option<ModelBinding>,
}

impl ModelDataRes for ModelData {

}

impl ModelData {
    /// The model's ids are live and its groups partition its vertex buffer.
    pub open spec fn wf(self, ctx: GpuContext) -> bool {
        &&& self.vertex_buffer.wf(ctx)
        &&& groups_partition(self.groups@, self.vertex_buffer.vertex_count)
        &&& match self.model_bindgroup {
            Some(mb) => ctx.bind_group_valid(mb.bindgroup) && ctx.layout_valid(mb.bg_layout),
            None => true,
        }
    }

    /// Total number of draw calls this model takes per frame.
    pub open spec fn spec_draw_count(self) -> nat {
        self.groups@.len()
    }

    /// Assembles a model.  With resources, the model-level layout and bind
    /// group are created from the resource type's manifest: the layout from
    /// the manifest alone, the bind group from the live resources, entry by
    /// entry at the manifest's declared slots.
    pub fn new<E: NamedEntity, B: ModelResources>(
        ctx: &mut GpuContext,
        vertex_buffer: Rc<VertexBuffer>,
        groups: Vec<VertexRange>,
        resources: Option<B>,
    ) -> (m: ModelData)
        requires
            old(ctx).wf(),
            vertex_buffer.wf(*old(ctx)),
            groups_partition(groups@, vertex_buffer.vertex_count),
            resources matches Some(b) ==> b.wf(*old(ctx)),
        ensures
            final(ctx).wf(),
            final(ctx).grows(*old(ctx)),
            m.wf(*final(ctx)),
            m.vertex_buffer == vertex_buffer,
            m.groups@ == groups@,
            m.model_bindgroup is Some <==> resources is Some,
            resources is Some ==> {
                let mb = m.model_bindgroup->Some_0;
                &&& final(ctx).layouts@[mb.bg_layout.0 as int].entries@ == spec_layout_entries(
                    B::spec_bindings(),
                )
                &&& final(ctx).bind_groups@[mb.bindgroup.0 as int].layout == mb.bg_layout
                &&& final(ctx).bind_groups@[mb.bindgroup.0 as int].entries@.len()
                    == B::spec_bindings().len()
                &&& forall|j: int|
                    0 <= j < B::spec_bindings().len()
                        ==> (#[trigger] final(ctx).bind_groups@[mb.bindgroup.0 as int].entries@[j]).binding
                        == B::spec_bindings()[j].binding
            },
    {
        let model_bindgroup = match resources {
            Some(res) => {
                let binders = B::model_bindings();
                let layout_entries = crate::binding::layout_entries_of(&binders);
                let bg_entries = model_binding_entries(ctx, &res, &binders);
                let bg_layout = ctx.create_bind_group_layout(
                    E::model_bglayout_name(),
                    layout_entries,
                );
                let bindgroup = ctx.create_bind_group(
                    E::model_bindgroup_name(),
                    bg_layout,
                    bg_entries,
                );
                Some(ModelBinding { bindgroup, bg_layout })
            },
            None => None,
        };
        ModelData { vertex_buffer, groups, model_bindgroup }
    }
}

/// Evaluates every binder of a manifest against a live resource set.
fn model_binding_entries<B: ModelResources>(ctx: &GpuContext, res: &B, binders: &Vec<Binder>) -> (r:
    Vec<BindGroupEntry>)
    requires
        res.wf(*ctx),
        binders@ == B::spec_bindings(),
    ensures
        r@.len() == B::spec_bindings().len(),
        forall|j: int|
            0 <= j < r@.len() ==> (#[trigger] r@[j]).binding == B::spec_bindings()[j].binding
                && ctx.resource_valid(r@[j].resource) && resource_matches_kind(
                r@[j].resource,
                B::spec_bindings()[j].kind,
            ),
{
    let mut r: Vec<BindGroupEntry> = Vec::new();
    let mut i: usize = 0;
    while i < binders.len()
        invariant
            i <= binders@.len(),
            binders@ == B::spec_bindings(),
            res.wf(*ctx),
            r@.len() == i,
            forall|j: int|
                0 <= j < i ==> (#[trigger] r@[j]).binding == B::spec_bindings()[j].binding
                    && ctx.resource_valid(r@[j].resource) && resource_matches_kind(
                    r@[j].resource,
                    B::spec_bindings()[j].kind,
                ),
        decreases binders@.len() - i,
    {
        let resource = res.binding_resource(ctx, i);
        r.push(binders[i].get_binding_entry(resource));
        i = i + 1;
    }
    r
}

} // verus!
