//! Laws of the frame command stream.
//!
//! These public lemmas state, and prove, what every frame's command stream
//! looks like: one draw call per vertex-range group of each queued object,
//! the scene-object bind groups set in queue order, and no slot bound for an
//! absent optional group.  They are proved from the frame specification
//! alone, so they hold of every frame the manager can decide.

use crate::bindgroups::{BINDGROUP_GLOBAL, BINDGROUP_SCENEOBJECT};
use crate::commands::{Color, RenderCommand};
use crate::gpu::{BindGroupId, BufferId, PipelineId};
use crate::handle::{Arena, Handle};
use crate::manager::{
    spec_dyn_commands, spec_entity_slot, spec_group_commands, spec_group_entity_index,
    spec_group_model_index, spec_object_commands, spec_queue_commands, RenderManager,
};
use crate::model::ModelData;
use crate::scene::{SceneObject, SceneObjectHandle};
use crate::texture::DynamicTexture;
use vstd::prelude::*;

verus! {

/// Number of draw calls in a command sequence.
pub open spec fn spec_count_draws(cmds: Seq<RenderCommand>) -> nat
    decreases cmds.len(),
{
    if cmds.len() == 0 {
        0
    } else {
        spec_count_draws(cmds.drop_last()) + (if cmds.last() is Draw {
            1nat
        } else {
            0nat
        })
    }
}

/// The slots at which bind groups are set, in command order.
pub open spec fn spec_bind_slots(cmds: Seq<RenderCommand>) -> Seq<u32>
    decreases cmds.len(),
{
    if cmds.len() == 0 {
        Seq::empty()
    } else {
        spec_bind_slots(cmds.drop_last()) + (match cmds.last() {
            RenderCommand::SetBindGroup { slot, group } => seq![slot],
            _ => Seq::empty(),
        })
    }
}

/// The bind groups set at the scene-object slot, in command order.
pub open spec fn spec_slot_one_groups(cmds: Seq<RenderCommand>) -> Seq<BindGroupId>
    decreases cmds.len(),
{
    if cmds.len() == 0 {
        Seq::empty()
    } else {
        spec_slot_one_groups(cmds.drop_last()) + (match cmds.last() {
            RenderCommand::SetBindGroup { slot, group } => if slot == BINDGROUP_SCENEOBJECT {
                seq![group]
            } else {
                Seq::empty()
            },
            _ => Seq::empty(),
        })
    }
}

proof fn lemma_extractors_concat(a: Seq<RenderCommand>, b: Seq<RenderCommand>)
    ensures
        spec_count_draws(a + b) == spec_count_draws(a) + spec_count_draws(b),
        spec_bind_slots(a + b) == spec_bind_slots(a) + spec_bind_slots(b),
        spec_slot_one_groups(a + b) == spec_slot_one_groups(a) + spec_slot_one_groups(b),
    decreases b.len(),
{
    if b.len() == 0 {
        assert(a + b =~= a);
        assert(spec_bind_slots(a) + spec_bind_slots(b) =~= spec_bind_slots(a));
        assert(spec_slot_one_groups(a) + spec_slot_one_groups(b) =~= spec_slot_one_groups(a));
    } else {
        lemma_extractors_concat(a, b.drop_last());
        assert((a + b).drop_last() =~= a + b.drop_last());
        assert((a + b).last() == b.last());
        assert(spec_bind_slots(a) + spec_bind_slots(b.drop_last()) + (match b.last() {
            RenderCommand::SetBindGroup { slot, group } => seq![slot],
            _ => Seq::<u32>::empty(),
        }) =~= spec_bind_slots(a) + spec_bind_slots(b));
        assert(spec_slot_one_groups(a) + spec_slot_one_groups(b.drop_last()) + (match b.last() {
            RenderCommand::SetBindGroup { slot, group } => if slot == BINDGROUP_SCENEOBJECT {
                seq![group]
            } else {
                Seq::<BindGroupId>::empty()
            },
            _ => Seq::<BindGroupId>::empty(),
        }) =~= spec_slot_one_groups(a) + spec_slot_one_groups(b));
    }
}

proof fn lemma_group_commands_shape(h: SceneObjectHandle, obj: SceneObject, pvm: BufferId, n: int)
    requires
        0 <= n,
    ensures
        spec_count_draws(spec_group_commands(h, obj, pvm, n)) == n,
        spec_bind_slots(spec_group_commands(h, obj, pvm, n)) == Seq::<u32>::empty(),
        spec_slot_one_groups(spec_group_commands(h, obj, pvm, n)) == Seq::<BindGroupId>::empty(),
    decreases n,
{
    reveal_with_fuel(spec_count_draws, 4);
    reveal_with_fuel(spec_bind_slots, 4);
    reveal_with_fuel(spec_slot_one_groups, 4);
    if n > 0 {
        lemma_group_commands_shape(h, obj, pvm, n - 1);
        let tail = seq![
            RenderCommand::WriteProjected { buffer: pvm, object: h },
            RenderCommand::Draw {
                start: obj.model_data.groups@[n - 1].start,
                end: obj.model_data.groups@[n - 1].end,
            },
        ];
        lemma_extractors_concat(spec_group_commands(h, obj, pvm, n - 1), tail);
        assert(tail.drop_last() =~= seq![
            RenderCommand::WriteProjected { buffer: pvm, object: h },
        ]);
        assert(tail.drop_last().drop_last() =~= Seq::<RenderCommand>::empty());
        assert(spec_count_draws(tail) == 1);
        assert(spec_bind_slots(tail) =~= Seq::<u32>::empty());
        assert(spec_slot_one_groups(tail) =~= Seq::<BindGroupId>::empty());
        assert(spec_bind_slots(spec_group_commands(h, obj, pvm, n))
            =~= Seq::<u32>::empty());
        assert(spec_slot_one_groups(spec_group_commands(h, obj, pvm, n))
            =~= Seq::<BindGroupId>::empty());
    }
}

/// Draw count: one object's command block issues exactly one draw call per
/// vertex-range group of its model, and sets its own bind group, exactly
/// once, at the scene-object slot.
pub proof fn lemma_object_commands_shape(
    h: SceneObjectHandle,
    obj: SceneObject,
    default_pipeline: PipelineId,
    pvm: BufferId,
)
    ensures
        spec_count_draws(spec_object_commands(h, obj, default_pipeline, pvm))
            == obj.model_data.groups@.len(),
        spec_slot_one_groups(spec_object_commands(h, obj, default_pipeline, pvm)) == seq![
            obj.sceneobject_bindgroup,
        ],
        spec_bind_slots(spec_object_commands(h, obj, default_pipeline, pvm)) == seq![
            BINDGROUP_SCENEOBJECT,
        ] + (match obj.model_data.model_bindgroup {
            Some(mb) => seq![2u32],
            None => Seq::<u32>::empty(),
        }) + (match obj.entity_bindgroup {
            Some(ebg) => seq![spec_entity_slot(obj)],
            None => Seq::<u32>::empty(),
        }),
{
    reveal_with_fuel(spec_count_draws, 4);
    reveal_with_fuel(spec_bind_slots, 4);
    reveal_with_fuel(spec_slot_one_groups, 4);
    let head = seq![
        RenderCommand::WriteTransform { buffer: obj.transform_buffer, object: h },
        RenderCommand::SetBindGroup {
            slot: BINDGROUP_SCENEOBJECT,
            group: obj.sceneobject_bindgroup,
        },
    ];
    let model_part = match obj.model_data.model_bindgroup {
        Some(mb) => seq![RenderCommand::SetBindGroup { slot: 2, group: mb.bindgroup }],
        None => Seq::<RenderCommand>::empty(),
    };
    let entity_part = match obj.entity_bindgroup {
        Some(ebg) => seq![
            RenderCommand::SetBindGroup { slot: spec_entity_slot(obj), group: ebg },
        ],
        None => Seq::<RenderCommand>::empty(),
    };
    let fixed = seq![
        RenderCommand::SetVertexBuffer { buffer: obj.model_data.vertex_buffer.buffer },
        RenderCommand::SetPipeline {
            pipeline: match obj.pipeline_ref {
                Some(p) => p,
                None => default_pipeline,
            },
        },
    ];
    let groups = spec_group_commands(h, obj, pvm, obj.model_data.groups@.len() as int);
    assert(head.drop_last() =~= seq![
        RenderCommand::WriteTransform { buffer: obj.transform_buffer, object: h },
    ]);
    assert(head.drop_last().drop_last() =~= Seq::<RenderCommand>::empty());
    assert(fixed.drop_last() =~= seq![
        RenderCommand::SetVertexBuffer { buffer: obj.model_data.vertex_buffer.buffer },
    ]);
    assert(fixed.drop_last().drop_last() =~= Seq::<RenderCommand>::empty());
    lemma_group_commands_shape(h, obj, pvm, obj.model_data.groups@.len() as int);
    lemma_extractors_concat(head, model_part);
    lemma_extractors_concat(head + model_part, entity_part);
    lemma_extractors_concat(head + model_part + entity_part, fixed);
    lemma_extractors_concat(head + model_part + entity_part + fixed, groups);
    assert(spec_slot_one_groups(spec_object_commands(h, obj, default_pipeline, pvm)) =~= seq![
        obj.sceneobject_bindgroup,
    ]);
    assert(spec_bind_slots(spec_object_commands(h, obj, default_pipeline, pvm)) =~= seq![
        BINDGROUP_SCENEOBJECT,
    ] + (match obj.model_data.model_bindgroup {
        Some(mb) => seq![2u32],
        None => Seq::<u32>::empty(),
    }) + (match obj.entity_bindgroup {
        Some(ebg) => seq![spec_entity_slot(obj)],
        None => Seq::<u32>::empty(),
    }));
}

/// Bind-group presence: an object whose entity kind declared no bindings
/// carries no entity bind group, and its command block binds nothing beyond
/// the scene-object slot and, when the model has resources, the model slot.
/// No slot is consumed for the absent group.
pub proof fn lemma_bindgroup_presence(
    h: SceneObjectHandle,
    obj: SceneObject,
    default_pipeline: PipelineId,
    pvm: BufferId,
)
    requires
        obj.entity_bindgroup is None,
    ensures
        obj.model_data.model_bindgroup is None ==> spec_bind_slots(
            spec_object_commands(h, obj, default_pipeline, pvm),
        ) == seq![BINDGROUP_SCENEOBJECT],
        obj.model_data.model_bindgroup is Some ==> spec_bind_slots(
            spec_object_commands(h, obj, default_pipeline, pvm),
        ) == seq![BINDGROUP_SCENEOBJECT, 2u32],
{
    lemma_object_commands_shape(h, obj, default_pipeline, pvm);
    if obj.model_data.model_bindgroup is None {
        assert(spec_bind_slots(spec_object_commands(h, obj, default_pipeline, pvm)) =~= seq![
            BINDGROUP_SCENEOBJECT,
        ]);
    } else {
        assert(spec_bind_slots(spec_object_commands(h, obj, default_pipeline, pvm)) =~= seq![
            BINDGROUP_SCENEOBJECT,
            2u32,
        ]);
    }
}

/// Total number of vertex-range groups over the first `n` queued objects.
pub open spec fn spec_queue_draw_total(
    objects: Arena<SceneObject>,
    queue: Seq<Handle>,
    n: int,
) -> nat
    decreases n,
{
    if n <= 0 {
        0
    } else {
        spec_queue_draw_total(objects, queue, n - 1) + objects.at(
            queue[n - 1],
        ).model_data.groups@.len()
    }
}

/// The scene-object bind groups of the first `n` queued objects, in queue
/// order.
pub open spec fn spec_queue_bindgroups(
    objects: Arena<SceneObject>,
    queue: Seq<Handle>,
    n: int,
) -> Seq<BindGroupId>
    decreases n,
{
    if n <= 0 {
        Seq::empty()
    } else {
        spec_queue_bindgroups(objects, queue, n - 1).push(
            objects.at(queue[n - 1]).sceneobject_bindgroup,
        )
    }
}

proof fn lemma_queue_commands_shape(
    objects: Arena<SceneObject>,
    queue: Seq<Handle>,
    default_pipeline: PipelineId,
    pvm: BufferId,
    n: int,
)
    requires
        0 <= n,
    ensures
        spec_count_draws(spec_queue_commands(objects, queue, default_pipeline, pvm, n))
            == spec_queue_draw_total(objects, queue, n),
        spec_slot_one_groups(spec_queue_commands(objects, queue, default_pipeline, pvm, n))
            == spec_queue_bindgroups(objects, queue, n),
    decreases n,
{
    if n > 0 {
        lemma_queue_commands_shape(objects, queue, default_pipeline, pvm, n - 1);
        let block = spec_object_commands(
            queue[n - 1],
            objects.at(queue[n - 1]),
            default_pipeline,
            pvm,
        );
        lemma_extractors_concat(
            spec_queue_commands(objects, queue, default_pipeline, pvm, n - 1),
            block,
        );
        lemma_object_commands_shape(queue[n - 1], objects.at(queue[n - 1]), default_pipeline, pvm);
        assert(spec_slot_one_groups(spec_queue_commands(objects, queue, default_pipeline, pvm, n))
            =~= spec_queue_bindgroups(objects, queue, n));
    }
}

proof fn lemma_commands_without_draws_or_binds(s: Seq<RenderCommand>)
    requires
        forall|k: int| 0 <= k < s.len() ==> !((#[trigger] s[k]) is Draw) && !(s[k] is SetBindGroup),
    ensures
        spec_count_draws(s) == 0,
        spec_bind_slots(s) == Seq::<u32>::empty(),
        spec_slot_one_groups(s) == Seq::<BindGroupId>::empty(),
    decreases s.len(),
{
    if s.len() > 0 {
        lemma_commands_without_draws_or_binds(s.drop_last());
        assert(!(s[s.len() - 1] is Draw));
        assert(spec_bind_slots(s) =~= Seq::<u32>::empty());
        assert(spec_slot_one_groups(s) =~= Seq::<BindGroupId>::empty());
    }
}

proof fn lemma_dyn_commands_inert(dyns: Arena<DynamicTexture>, queue: Seq<Handle>)
    ensures
        spec_count_draws(spec_dyn_commands(dyns, queue)) == 0,
        spec_slot_one_groups(spec_dyn_commands(dyns, queue)) == Seq::<BindGroupId>::empty(),
    decreases queue.len(),
{
    if queue.len() > 0 {
        let head = if dyns.valid(queue.last()) {
            dyns.at(queue.last()).spec_render_commands()
        } else {
            Seq::<RenderCommand>::empty()
        };
        if dyns.valid(queue.last()) {
            dyns.at(queue.last()).lemma_render_commands_shape();
        }
        assert forall|k: int| 0 <= k < head.len() implies !((#[trigger] head[k]) is Draw) && !(
        head[k] is SetBindGroup) by {}
        lemma_commands_without_draws_or_binds(head);
        lemma_dyn_commands_inert(dyns, queue.drop_last());
        lemma_extractors_concat(head, spec_dyn_commands(dyns, queue.drop_last()));
        assert(spec_slot_one_groups(spec_dyn_commands(dyns, queue))
            =~= Seq::<BindGroupId>::empty());
    }
}

/// Draw count: a frame issues exactly the sum, over the scene queue, of each
/// queued object's number of vertex-range groups — one draw call per group,
/// nothing more, nothing fewer.
pub proof fn lemma_render_draw_count(m: RenderManager)
    requires
        m.wf(),
    ensures
        spec_count_draws(m.spec_frame_commands()) == spec_queue_draw_total(
            m.objects(),
            m.queue(),
            m.queue().len() as int,
        ),
{
    lemma_frame_shape(m);
}

/// Queue order: the bind groups set at the scene-object slot during a frame
/// are exactly the queued objects' own, in insertion order.  Since each
/// object's block sets its group once and then draws, the draw order is the
/// queue order: spawning A, then B, then C draws A, B, C.
pub proof fn lemma_render_queue_order(m: RenderManager)
    requires
        m.wf(),
    ensures
        spec_slot_one_groups(m.spec_frame_commands()) == spec_queue_bindgroups(
            m.objects(),
            m.queue(),
            m.queue().len() as int,
        ),
{
    lemma_frame_shape(m);
}

proof fn lemma_frame_shape(m: RenderManager)
    requires
        m.wf(),
    ensures
        spec_count_draws(m.spec_frame_commands()) == spec_queue_draw_total(
            m.objects(),
            m.queue(),
            m.queue().len() as int,
        ),
        spec_slot_one_groups(m.spec_frame_commands()) == spec_queue_bindgroups(
            m.objects(),
            m.queue(),
            m.queue().len() as int,
        ),
{
    reveal_with_fuel(spec_count_draws, 5);
    reveal_with_fuel(spec_bind_slots, 5);
    reveal_with_fuel(spec_slot_one_groups, 5);
    let dyn_part = spec_dyn_commands(m.dyn_textures(), m.dyn_queue());
    let prologue = m.spec_frame_prologue();
    let queue_part = spec_queue_commands(
        m.objects(),
        m.queue(),
        m.default_pipeline,
        m.global_pvm,
        m.queue().len() as int,
    );
    let epilogue = seq![RenderCommand::EndPass, RenderCommand::Present];
    lemma_dyn_commands_inert(m.dyn_textures(), m.dyn_queue());
    assert(prologue.drop_last() =~= seq![
        RenderCommand::BeginSurfacePass { clear: (Color { r: 0, g: 0, b: 0, a: 255 }) },
        RenderCommand::SetBindGroup { slot: BINDGROUP_GLOBAL, group: m.global_group() },
    ]);
    assert(prologue.drop_last().drop_last() =~= seq![
        RenderCommand::BeginSurfacePass { clear: (Color { r: 0, g: 0, b: 0, a: 255 }) },
    ]);
    assert(prologue.drop_last().drop_last().drop_last() =~= Seq::<RenderCommand>::empty());
    assert(spec_count_draws(prologue) == 0);
    assert(spec_slot_one_groups(prologue) =~= Seq::<BindGroupId>::empty());
    assert(epilogue.drop_last() =~= seq![RenderCommand::EndPass]);
    assert(epilogue.drop_last().drop_last() =~= Seq::<RenderCommand>::empty());
    assert(spec_count_draws(epilogue) == 0);
    assert(spec_slot_one_groups(epilogue) =~= Seq::<BindGroupId>::empty());
    lemma_queue_commands_shape(
        m.objects(),
        m.queue(),
        m.default_pipeline,
        m.global_pvm,
        m.queue().len() as int,
    );
    lemma_extractors_concat(dyn_part, prologue);
    lemma_extractors_concat(dyn_part + prologue, queue_part);
    lemma_extractors_concat(dyn_part + prologue + queue_part, epilogue);
    assert(m.spec_frame_commands() == dyn_part + prologue + queue_part + epilogue);
    assert(spec_slot_one_groups(m.spec_frame_commands()) =~= spec_queue_bindgroups(
        m.objects(),
        m.queue(),
        m.queue().len() as int,
    ));
}

/// Mutating transforms does not reorder draws: two manager states with the
/// same queue whose queued objects carry the same scene-object bind groups
/// produce frames with the same draw order.
pub proof fn lemma_queue_order_stable(m1: RenderManager, m2: RenderManager)
    requires
        m1.wf(),
        m2.wf(),
        m2.queue() == m1.queue(),
        forall|i: int|
            0 <= i < m1.queue().len() ==> m2.object_at(#[trigger] m1.queue()[i]).sceneobject_bindgroup
                == m1.object_at(m1.queue()[i]).sceneobject_bindgroup,
    ensures
        spec_slot_one_groups(m2.spec_frame_commands()) == spec_slot_one_groups(
            m1.spec_frame_commands(),
        ),
{
    lemma_frame_shape(m1);
    lemma_frame_shape(m2);
    lemma_queue_bindgroups_congruent(
        m1.objects(),
        m2.objects(),
        m1.queue(),
        m1.queue().len() as int,
    );
}

proof fn lemma_queue_bindgroups_congruent(
    o1: Arena<SceneObject>,
    o2: Arena<SceneObject>,
    queue: Seq<Handle>,
    n: int,
)
    requires
        0 <= n <= queue.len(),
        forall|i: int|
            0 <= i < queue.len() ==> o2.at(#[trigger] queue[i]).sceneobject_bindgroup == o1.at(
                queue[i],
            ).sceneobject_bindgroup,
    ensures
        spec_queue_bindgroups(o2, queue, n) == spec_queue_bindgroups(o1, queue, n),
    decreases n,
{
    if n > 0 {
        lemma_queue_bindgroups_congruent(o1, o2, queue, n - 1);
    }
}

/// The registration-time group indices and the render-time bind slots follow
/// one positional rule.  For an object drawn with a kind's model: when the
/// kind's manifest is non-empty, the index its shader was generated against
/// equals the slot the frame binds the entity group at; and a present model
/// group is indexed and bound at slot two on both sides.  Shader `@group`
/// declarations and runtime binds therefore stay in lockstep.
pub proof fn lemma_registration_render_lockstep(obj: SceneObject, m: ModelData, manifest_len: nat)
    requires
        *obj.model_data == m,
        manifest_len > 0,
    ensures
        spec_group_entity_index(m, manifest_len) == spec_entity_slot(obj),
        m.model_bindgroup is Some ==> spec_group_model_index(m) == 2,
{
}

} // verus!
