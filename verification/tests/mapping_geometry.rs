use widget_core::geometry::{corner, is_over, pad_dim, pad_pos, Corner, Dimensions, Point};
use widget_core::mapping::{
    clamp, frac_le, frac_map, map_range, percentage, skew_apply, skew_unapply, Frac,
};

#[test]
fn clamp_picks_the_nearer_bound() {
    assert_eq!(clamp(5, 0, 10), 5);
    assert_eq!(clamp(-3, 0, 10), 0);
    assert_eq!(clamp(42, 0, 10), 10);
    assert_eq!(clamp(0, 0, 10), 0);
    assert_eq!(clamp(10, 0, 10), 10);
}

#[test]
fn percentage_is_exact() {
    let f = percentage(64, 0, 128);
    assert_eq!(f, Frac { num: 64, den: 128 });
    // flipped span: the proportion grows toward the low end
    let g = percentage(90, 100, 0);
    assert_eq!(g, Frac { num: 10, den: 100 });
}

#[test]
fn map_range_center_of_pixel_span() {
    // the center pixel of a 128-wide pad maps to the middle of the range
    assert_eq!(map_range(64, 0, 128, 0, 1_000_000), 500_000);
    // direction-agnostic: flipping the source span flips the result
    assert_eq!(map_range(64, 128, 0, 0, 1_000_000), 500_000);
    assert_eq!(map_range(10, 0, 100, 0, 10), 1);
    assert_eq!(map_range(10, 100, 0, 0, 10), 9);
}

#[test]
fn map_round_trip_returns_the_value() {
    for v in [3i64, 7, 11, 19] {
        let f = percentage(v, 3, 19);
        assert_eq!(frac_map(f, 3, 19), v);
    }
    // flipped span round trip
    for v in [0i64, 25, 50, 100] {
        let f = percentage(v, 100, 0);
        assert_eq!(frac_map(f, 100, 0), v);
    }
}

#[test]
fn frac_le_is_the_rational_order() {
    let a = Frac { num: 1, den: 3 };
    let b = Frac { num: 2, den: 5 };
    assert!(frac_le(a, b));
    assert!(!frac_le(b, a));
    assert!(frac_le(a, a));
}

#[test]
fn skew_one_is_linear() {
    let f = Frac { num: 64, den: 128 };
    assert_eq!(skew_apply(f, 1), f);
    assert_eq!(skew_unapply(f, 1), f);
}

#[test]
fn skew_two_squares_and_unsquares() {
    let f = Frac { num: 64, den: 128 };
    // (1/2)^2 = 1/4, scaled by 128: 32
    assert_eq!(skew_apply(f, 2), Frac { num: 32, den: 128 });
    // the largest proportion whose square stays at or under 32/128 is 64/128
    assert_eq!(skew_unapply(Frac { num: 32, den: 128 }, 2), Frac { num: 64, den: 128 });
}

#[test]
fn is_over_includes_the_edges() {
    let pos = Point { x: 10, y: 20 };
    let dim = Dimensions { w: 100, h: 50 };
    assert!(is_over(pos, dim, Point { x: 10, y: 20 }));
    assert!(is_over(pos, dim, Point { x: 110, y: 70 }));
    assert!(is_over(pos, dim, Point { x: 60, y: 45 }));
    assert!(!is_over(pos, dim, Point { x: 9, y: 45 }));
    assert!(!is_over(pos, dim, Point { x: 111, y: 45 }));
    assert!(!is_over(pos, dim, Point { x: 60, y: 71 }));
}

#[test]
fn corner_classifies_the_quadrants() {
    let pos = Point { x: 0, y: 0 };
    let dim = Dimensions { w: 100, h: 100 };
    assert_eq!(corner(pos, Point { x: 10, y: 10 }, dim), Corner::TopLeft);
    assert_eq!(corner(pos, Point { x: 90, y: 10 }, dim), Corner::TopRight);
    assert_eq!(corner(pos, Point { x: 10, y: 90 }, dim), Corner::BottomLeft);
    assert_eq!(corner(pos, Point { x: 90, y: 90 }, dim), Corner::BottomRight);
    // the midlines belong to the top-left
    assert_eq!(corner(pos, Point { x: 50, y: 50 }, dim), Corner::TopLeft);
}

#[test]
fn pad_rect_sits_inside_the_frame() {
    let p = pad_pos(Point { x: 10, y: 20 }, 4);
    assert_eq!(p, Point { x: 14, y: 24 });
    let d = pad_dim(Dimensions { w: 100, h: 50 }, 4);
    assert_eq!(d, Dimensions { w: 92, h: 42 });
}
