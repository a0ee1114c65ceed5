pub mod bindgroups;
pub mod binding;
pub mod commands;
pub mod coords;
pub mod entity;
pub mod gpu;
pub mod handle;
pub mod laws;
pub mod manager;
pub mod model;
pub mod resource;
pub mod scene;
pub mod shader;
pub mod texture;
pub mod vertex;

use vstd::prelude::*;

verus! {

/// Sum of two sizes, available to consumers that lay out raw vertex data.
pub fn add(left: usize, right: usize) -> (r: usize)
    requires
        left + right <= usize::MAX,
    ensures
        r == left + right,
{
    left + right
}

/// The big-endian thirty-two-bit value of a byte sequence's first four bytes.
pub open spec fn spec_be_u32(b: Seq<u8>) -> int {
    b[0] * 0x100_0000 + b[1] * 0x1_0000 + b[2] * 0x100 + b[3]
}

/// Reads a packed model's header: the big-endian vertex-chunk length in the
/// first four bytes.
pub fn model_unpacker(model: &[u8]) -> (r: u32)
    requires
        model@.len() >= 4,
    ensures
        r == spec_be_u32(model@),
{
    let b0 = model[0];
    let b1 = model[1];
    let b2 = model[2];
    let b3 = model[3];
    (b0 as u32) * 0x100_0000 + (b1 as u32) * 0x1_0000 + (b2 as u32) * 0x100 + (b3 as u32)
}

} // verus!
