//! The coordinate conversions are exact inverses within the rational model.

use safehouse_render::coords::{coord_eq, window_to_world, world_to_window, Coord};

fn approx(c: Coord) -> f64 {
    c.num as f64 / c.den as f64
}

#[test]
fn window_centre_maps_to_world_origin() {
    // For an 800 x 800 window, pixel (400, 400) is world (0, 0).
    let x = window_to_world(Coord::from_int(400), 800);
    let y = window_to_world(Coord::from_int(400), 800);
    assert!(coord_eq(x, Coord::from_int(0)));
    assert!(coord_eq(y, Coord::from_int(0)));
}

#[test]
fn world_origin_maps_to_window_centre() {
    let x = world_to_window(Coord::from_int(0), 800);
    let y = world_to_window(Coord::from_int(0), 800);
    assert!(coord_eq(x, Coord::from_int(400)));
    assert!(coord_eq(y, Coord::from_int(400)));
}

#[test]
fn corners_map_to_window_edges() {
    assert!(coord_eq(world_to_window(Coord { num: -1, den: 1 }, 800), Coord::from_int(0)));
    assert!(coord_eq(world_to_window(Coord { num: 1, den: 1 }, 800), Coord::from_int(800)));
    assert!(coord_eq(window_to_world(Coord::from_int(0), 800), Coord { num: -1, den: 1 }));
    assert!(coord_eq(window_to_world(Coord::from_int(800), 800), Coord { num: 1, den: 1 }));
}

#[test]
fn round_trip_is_exact_across_the_window() {
    for extent in [1u32, 13, 600, 800, 1920, 32768] {
        for px in [0i64, 1, 7, 399, 400] {
            let p = Coord::from_int(px.min(extent as i64));
            let w = window_to_world(p, extent);
            let back = world_to_window(w, extent);
            assert!(coord_eq(back, p));
            assert!((approx(back) - approx(p)).abs() < 1e-9);
        }
    }
}

#[test]
fn world_round_trip_is_exact() {
    for extent in [1u32, 800, 1024] {
        for (num, den) in [(0i64, 1i64), (1, 1), (-1, 1), (1, 2), (-3, 4), (5, 8)] {
            let w = Coord { num, den };
            let back = window_to_world(world_to_window(w, extent), extent);
            assert!(coord_eq(back, w));
        }
    }
}
