//! The per-field binding abstraction.
//!
//! A [`Binder`] declares how one field of an entity instance reaches one
//! bind-group slot: the slot number, the shader stages that may read it and
//! the kind of resource bound there.  A `Vec<Binder>` is an entity kind's
//! binding manifest; it is evaluated once (without any instance) to build the
//! shared bind-group layout, and once per instance to build that instance's
//! bind group.

use crate::gpu::{BufferId, SamplerId, TextureId};
use vstd::prelude::*;

verus! {

/// Which shader stages may access a binding.
#[derive(Clone, Copy, PartialEq, Eq, Structural, Debug)]
pub enum Visibility {
    Vertex,
    Fragment,
    All,
}

/// The closed set of resource kinds a binding slot can carry.
#[derive(Clone, Copy, PartialEq, Eq, Structural, Debug)]
pub enum BindingKind {
    /// A uniform buffer of at least `min_size` bytes.
    UniformBuffer { min_size: u64 },
    /// A two-dimensional, filterable-float texture view.
    Texture,
    /// A texture sampler.
    Sampler,
}

/// One entry of a bind-group layout: the instance-independent half of a
/// [`Binder`].
#[derive(Clone, Copy, PartialEq, Eq, Structural, Debug)]
pub struct LayoutEntry {
    pub binding: u32,
    pub visibility: Visibility,
    pub kind: BindingKind,
}

/// The per-instance resource an entity hands over for one binding slot.
#[derive(Clone, Copy, PartialEq, Eq, Structural, Debug)]
pub enum BindingResource {
    Buffer(BufferId),
    TextureView(TextureId),
    Sampler(SamplerId),
}

/// One entry of a concrete bind group: a slot number and the resource bound
/// there.
#[derive(Clone, Copy, PartialEq, Eq, Structural, Debug)]
pub struct BindGroupEntry {
    pub binding: u32,
    pub resource: BindingResource,
}

/// Declares the mapping of one entity field to one bind-group slot.
#[derive(Clone, Copy, PartialEq, Eq, Structural, Debug)]
pub struct Binder {
    pub binding: u32,
    pub visibility: Visibility,
    pub kind: BindingKind,
}

/// A resource fits a binding kind when it is a value of that kind.
pub open spec fn resource_matches_kind(r: BindingResource, k: BindingKind) -> bool {
    match r {
        BindingResource::Buffer(_) => k is UniformBuffer,
        BindingResource::TextureView(_) => k is Texture,
        BindingResource::Sampler(_) => k is Sampler,
    }
}

impl Binder {
    /// The layout entry this binder contributes, independent of any instance.
    pub open spec fn spec_layout_entry(self) -> LayoutEntry {
        LayoutEntry { binding: self.binding, visibility: self.visibility, kind: self.kind }
    }

    pub fn new(binding: u32, visibility: Visibility, kind: BindingKind) -> (b: Binder)
        ensures
            b == (Binder { binding, visibility, kind }),
    {
        Binder { binding, visibility, kind }
    }

    /// The instance-independent half: one entry of the shared layout.
    pub fn get_layout_entry(&self) -> (e: LayoutEntry)
        ensures
            e == self.spec_layout_entry(),
    {
        LayoutEntry { binding: self.binding, visibility: self.visibility, kind: self.kind }
    }

    /// The per-instance half: pairs this binder's slot with a live resource.
    pub fn get_binding_entry(&self, resource: BindingResource) -> (e: BindGroupEntry)
        ensures
            e == (BindGroupEntry { binding: self.binding, resource }),
    {
        BindGroupEntry { binding: self.binding, resource }
    }
}

/// The layout entries of a whole manifest, in manifest order.
pub open spec fn spec_layout_entries(manifest: Seq<Binder>) -> Seq<LayoutEntry> {
    manifest.map_values(|b: Binder| b.spec_layout_entry())
}

/// Evaluates a manifest's instance-independent half.
pub fn layout_entries_of(manifest: &Vec<Binder>) -> (r: Vec<LayoutEntry>)
    ensures
        r@ == spec_layout_entries(manifest@),
{
    let mut r: Vec<LayoutEntry> = Vec::new();
    let mut i: usize = 0;
    while i < manifest.len()
        invariant
            i <= manifest@.len(),
            r@ == spec_layout_entries(manifest@.take(i as int)),
        decreases manifest@.len() - i,
    {
        r.push(manifest[i].get_layout_entry());
        proof {
            assert(manifest@.take(i + 1 as int).drop_last() =~= manifest@.take(i as int));
            assert(r@ =~= spec_layout_entries(manifest@.take(i + 1 as int)));
        }
        i = i + 1;
    }
    proof {
        assert(manifest@.take(manifest@.len() as int) =~= manifest@);
    }
    r
}

/// Layout/binding consistency: the layout generated from a binding manifest
/// and any bind group whose entries were evaluated from the same manifest
/// have exactly one entry per binder, at the binder's declared slot, so the
/// two agree entry by entry.
pub proof fn lemma_layout_binding_consistency(
    layout_entries: Seq<LayoutEntry>,
    bg_entries: Seq<BindGroupEntry>,
    manifest: Seq<Binder>,
)
    requires
        layout_entries == spec_layout_entries(manifest),
        bg_entries.len() == manifest.len(),
        forall|j: int|
            0 <= j < manifest.len() ==> (#[trigger] bg_entries[j]).binding == manifest[j].binding,
    ensures
        layout_entries.len() == manifest.len(),
        bg_entries.len() == layout_entries.len(),
        forall|j: int|
            0 <= j < layout_entries.len() ==> (#[trigger] layout_entries[j]).binding
                == bg_entries[j].binding,
{
    assert forall|j: int| 0 <= j < layout_entries.len() implies (
    #[trigger] layout_entries[j]).binding == bg_entries[j].binding by {
        assert(layout_entries[j] == manifest[j].spec_layout_entry());
    }
}

} // verus!
