//! Vertex buffer layout contract.
//!
//! A vertex layout binds a CPU-side vertex record to shader attribute
//! locations: a stride and an ordered list of `(format, byte offset, shader
//! location)` attributes.  The layouts built here are tightly packed: each
//! attribute starts where the previous one ends, and the stride is the total
//! size, so a buffer of raw vertex bytes can be handed to the GPU with no
//! marshalling step.

use vstd::prelude::*;

verus! {

/// The vertex attribute formats the renderer's vertex types use.
#[derive(Clone, Copy, PartialEq, Eq, Structural, Debug)]
pub enum VertexFormat {
    Float32x2,
    Float32x3,
    Float32x4,
    Uint32,
}

impl VertexFormat {
    /// Byte size of one attribute of this format.
    pub open spec fn spec_size(self) -> u64 {
        match self {
            VertexFormat::Float32x2 => 8,
            VertexFormat::Float32x3 => 12,
            VertexFormat::Float32x4 => 16,
            VertexFormat::Uint32 => 4,
        }
    }

    pub fn size(self) -> (s: u64)
        ensures
            s == self.spec_size(),
    {
        match self {
            VertexFormat::Float32x2 => 8,
            VertexFormat::Float32x3 => 12,
            VertexFormat::Float32x4 => 16,
            VertexFormat::Uint32 => 4,
        }
    }
}

/// One vertex attribute: its format, byte offset within a vertex record, and
/// the shader location it feeds.
#[derive(Clone, Copy, PartialEq, Eq, Structural, Debug)]
pub struct VertexAttribute {
    pub format: VertexFormat,
    pub offset: u64,
    pub shader_location: u32,
}

/// A vertex buffer layout: stride plus ordered attributes.
#[derive(Clone, PartialEq, Eq, Debug)]
pub struct VertexLayout {
    pub stride: u64,
    pub attributes: Vec<VertexAttribute>,
}

/// Total byte size of the first `n` formats.
pub open spec fn spec_packed_offset(formats: Seq<VertexFormat>, n: int) -> int
    decreases n,
{
    if n <= 0 {
        0
    } else {
        spec_packed_offset(formats, n - 1) + formats[n - 1].spec_size()
    }
}

/// A packed offset lies between zero and sixteen bytes per attribute.
pub proof fn lemma_packed_offset_bounds(formats: Seq<VertexFormat>, n: int)
    requires
        0 <= n <= formats.len(),
    ensures
        0 <= spec_packed_offset(formats, n) <= 16 * n,
    decreases n,
{
    if n > 0 {
        lemma_packed_offset_bounds(formats, n - 1);
    }
}

impl VertexLayout {
    /// The layout is tightly packed: attribute `i` sits at the sum of the
    /// sizes of the attributes before it, locations count up from zero, and
    /// the stride is the total size.
    pub open spec fn wf(self) -> bool {
        &&& self.stride == spec_packed_offset(
            self.attributes@.map_values(|a: VertexAttribute| a.format),
            self.attributes@.len() as int,
        )
        &&& forall|i: int|
            0 <= i < self.attributes@.len() ==> (#[trigger] self.attributes@[i]).offset
                == spec_packed_offset(
                self.attributes@.map_values(|a: VertexAttribute| a.format),
                i,
            ) && self.attributes@[i].shader_location == i
    }

    /// Copies the layout.
    pub fn duplicate(&self) -> (r: VertexLayout)
        ensures
            r.stride == self.stride,
            r.attributes@ == self.attributes@,
    {
        let mut attributes: Vec<VertexAttribute> = Vec::new();
        let mut i: usize = 0;
        while i < self.attributes.len()
            invariant
                i <= self.attributes@.len(),
                attributes@ == self.attributes@.take(i as int),
            decreases self.attributes@.len() - i,
        {
            attributes.push(self.attributes[i]);
            proof {
                assert(attributes@ =~= self.attributes@.take(i + 1 as int));
            }
            i = i + 1;
        }
        proof {
            assert(self.attributes@.take(self.attributes@.len() as int) =~= self.attributes@);
        }
        VertexLayout { stride: self.stride, attributes }
    }

    /// Builds the tightly packed layout of the given attribute formats.
    pub fn packed(formats: &Vec<VertexFormat>) -> (r: VertexLayout)
        requires
            formats@.len() <= 0x1000_0000,
        ensures
            r.wf(),
            r.attributes@.len() == formats@.len(),
            forall|i: int|
                0 <= i < formats@.len() ==> (#[trigger] r.attributes@[i]).format == formats@[i],
    {
        let mut attributes: Vec<VertexAttribute> = Vec::new();
        let mut offset: u64 = 0;
        let mut i: usize = 0;
        while i < formats.len()
            invariant
                i <= formats@.len(),
                formats@.len() <= 0x1000_0000,
                attributes@.len() == i,
                offset == spec_packed_offset(formats@, i as int),
                offset <= 16 * i,
                forall|j: int|
                    0 <= j < i ==> (#[trigger] attributes@[j]) == (VertexAttribute {
                        format: formats@[j],
                        offset: spec_packed_offset(formats@, j) as u64,
                        shader_location: j as u32,
                    }),
            decreases formats@.len() - i,
        {
            attributes.push(
                VertexAttribute { format: formats[i], offset, shader_location: i as u32 },
            );
            offset = offset + formats[i].size();
            i = i + 1;
        }
        let r = VertexLayout { stride: offset, attributes };
        proof {
            assert(r.attributes@.map_values(|a: VertexAttribute| a.format) =~= formats@);
            assert forall|j: int| 0 <= j < r.attributes@.len() implies (
            #[trigger] r.attributes@[j]).offset == spec_packed_offset(formats@, j)
                && r.attributes@[j].shader_location == j by {
                lemma_packed_offset_bounds(formats@, j);
            }
        }
        r
    }
}

/// Layout of a position/color vertex: two four-float attributes.
pub fn color_vertex_layout() -> (r: VertexLayout)
    ensures
        r.wf(),
        r.stride == 32,
        r.attributes@.len() == 2,
{
    let formats = vec![VertexFormat::Float32x4, VertexFormat::Float32x4];
    let r = VertexLayout::packed(&formats);
    proof {
        assert(r.attributes@.map_values(|a: VertexAttribute| a.format) =~= formats@);
        assert(spec_packed_offset(formats@, 0) == 0);
        assert(spec_packed_offset(formats@, 1) == 16);
        assert(spec_packed_offset(formats@, 2) == 32);
    }
    r
}

/// Layout of a position/texture-coordinate vertex.
pub fn tex_vertex_layout() -> (r: VertexLayout)
    ensures
        r.wf(),
        r.stride == 24,
        r.attributes@.len() == 2,
{
    let formats = vec![VertexFormat::Float32x4, VertexFormat::Float32x2];
    let r = VertexLayout::packed(&formats);
    proof {
        assert(r.attributes@.map_values(|a: VertexAttribute| a.format) =~= formats@);
        assert(spec_packed_offset(formats@, 0) == 0);
        assert(spec_packed_offset(formats@, 1) == 16);
        assert(spec_packed_offset(formats@, 2) == 24);
    }
    r
}

/// Layout of a skinned-model vertex: position, texture coordinate, normal,
/// group id and bone id.
pub fn adv_vertex_layout() -> (r: VertexLayout)
    ensures
        r.wf(),
        r.stride == 48,
        r.attributes@.len() == 5,
{
    let formats = vec![
        VertexFormat::Float32x4,
        VertexFormat::Float32x3,
        VertexFormat::Float32x3,
        VertexFormat::Uint32,
        VertexFormat::Uint32,
    ];
    let r = VertexLayout::packed(&formats);
    proof {
        assert(r.attributes@.map_values(|a: VertexAttribute| a.format) =~= formats@);
        assert(spec_packed_offset(formats@, 0) == 0);
        assert(spec_packed_offset(formats@, 1) == 16);
        assert(spec_packed_offset(formats@, 2) == 28);
        assert(spec_packed_offset(formats@, 3) == 40);
        assert(spec_packed_offset(formats@, 4) == 44);
        assert(spec_packed_offset(formats@, 5) == 48);
    }
    r
}

} // verus!
