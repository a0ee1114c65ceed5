//! Exact conversions between world and window coordinates.
//!
//! World ("normalised device") coordinates span `[-1, 1]` on each axis;
//! window coordinates span `[0, extent]` pixels.  Both are kept as exact
//! rationals, so the two conversions are exact inverses of each other — the
//! host program converts to its own floating-point values only at the edge.

use vstd::prelude::*;

verus! {

/// An exact coordinate: the rational `num / den` with positive denominator.
#[derive(Clone, Copy, PartialEq, Eq, Structural, Debug)]
pub struct Coord {
    pub num: i64,
    pub den: i64,
}

impl Coord {
    /// Bounds under which the conversions cannot overflow.
    pub open spec fn wf(self) -> bool {
        &&& 0 < self.den <= 0x100_0000
        &&& -0x100_0000 <= self.num <= 0x100_0000
    }

    /// The whole number `v`.
    pub fn from_int(v: i64) -> (r: Coord)
        ensures
            r.num == v,
            r.den == 1,
    {
        Coord { num: v, den: 1 }
    }
}

/// `world_to_window(x) = (x + 1) / 2 * extent`, as an exact rational.
pub open spec fn spec_world_to_window(x: (int, int), extent: int) -> (int, int) {
    ((x.0 + x.1) * extent, 2 * x.1)
}

/// `window_to_world(x) = x / extent * 2 - 1`, as an exact rational.
pub open spec fn spec_window_to_world(x: (int, int), extent: int) -> (int, int) {
    (2 * x.0 - extent * x.1, extent * x.1)
}

/// The two rationals denote the same number.
pub open spec fn frac_eq(a: (int, int), b: (int, int)) -> bool {
    a.0 * b.1 == b.0 * a.1
}

/// Converting a window coordinate to world space and back yields the same
/// coordinate, for every window extent.
pub proof fn lemma_window_round_trip(x: (int, int), extent: int)
    requires
        x.1 > 0,
        extent > 0,
    ensures
        frac_eq(spec_world_to_window(spec_window_to_world(x, extent), extent), x),
{
    assert(((2 * x.0 - extent * x.1) + extent * x.1) * extent * x.1 == x.0 * (2 * (extent * x.1)))
        by (nonlinear_arith);
}

/// Converting a world coordinate to window space and back yields the same
/// coordinate, for every window extent.
pub proof fn lemma_world_round_trip(x: (int, int), extent: int)
    requires
        x.1 > 0,
        extent > 0,
    ensures
        frac_eq(spec_window_to_world(spec_world_to_window(x, extent), extent), x),
{
    assert((2 * ((x.0 + x.1) * extent) - extent * (2 * x.1)) * x.1 == x.0 * (extent * (2 * x.1)))
        by (nonlinear_arith);
}

/// Maps a world coordinate in `[-1, 1]` to a window coordinate in
/// `[0, extent]`.
pub fn world_to_window(x: Coord, extent: u32) -> (r: Coord)
    requires
        x.wf(),
        1 <= extent <= 0x8000,
    ensures
        (r.num as int, r.den as int) == spec_world_to_window((x.num as int, x.den as int), extent as int),
        r.den > 0,
{
    proof {
        assert(-0x2000_0000_0000i64 <= (x.num + x.den) * (extent as i64) <= 0x2000_0000_0000i64)
            by (nonlinear_arith)
            requires
                -0x200_0000 <= x.num + x.den <= 0x200_0000,
                0 < extent <= 0x8000,
        ;
    }
    Coord { num: (x.num + x.den) * (extent as i64), den: 2 * x.den }
}

/// Maps a window coordinate in `[0, extent]` to a world coordinate in
/// `[-1, 1]`.
pub fn window_to_world(x: Coord, extent: u32) -> (r: Coord)
    requires
        x.wf(),
        1 <= extent <= 0x8000,
    ensures
        (r.num as int, r.den as int) == spec_window_to_world((x.num as int, x.den as int), extent as int),
        r.den > 0,
{
    proof {
        assert(0 < (extent as i64) * x.den <= 0x80_0000_0000i64) by (nonlinear_arith)
            requires
                0 < x.den <= 0x100_0000,
                0 < extent <= 0x8000,
        ;
    }
    Coord { num: 2 * x.num - (extent as i64) * x.den, den: (extent as i64) * x.den }
}

/// Whether two coordinates denote the same number.
pub fn coord_eq(a: Coord, b: Coord) -> (r: bool)
    ensures
        r == frac_eq((a.num as int, a.den as int), (b.num as int, b.den as int)),
{
    proof {
        lemma_i64_product_fits(a.num as int, b.den as int);
        lemma_i64_product_fits(b.num as int, a.den as int);
    }
    (a.num as i128) * (b.den as i128) == (b.num as i128) * (a.den as i128)
}

/// The product of two sixty-four-bit integers fits in an `i128`.
proof fn lemma_i64_product_fits(a: int, b: int)
    requires
        i64::MIN <= a <= i64::MAX,
        i64::MIN <= b <= i64::MAX,
    ensures
        i128::MIN <= a * b <= i128::MAX,
{
    assert(i128::MIN <= a * b <= i128::MAX) by (nonlinear_arith)
        requires
            i64::MIN <= a <= i64::MAX,
            i64::MIN <= b <= i64::MAX,
    ;
}

} // verus!
