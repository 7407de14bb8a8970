use widget_core::envelope_editor::{
    add_point, get_new_state as env_next, get_new_value, percentage_env, sort_by_x, update,
    Element, EnvelopeEditor, EnvelopePoint, MouseButton, PlainPoint, State as EnvState,
};
use widget_core::geometry::{Dimensions, Point};
use widget_core::input::{ButtonState, Mouse};
use widget_core::mapping::Frac;
use widget_core::input::ButtonState::{Down, Up};
use widget_core::xy_pad;
use widget_core::xy_pad::{State as PadState, XYPad};

fn mouse(x: i64, y: i64, left: ButtonState, right: ButtonState) -> Mouse {
    Mouse { pos: Point { x, y }, left, right }
}

fn test_pad() -> XYPad {
    XYPad::new(1, 5, 0, 10, 5, 0, 10).size(Dimensions { w: 100, h: 100 })
}

#[test]
fn pad_transition_table() {
    let m_up = mouse(0, 0, Up, Up);
    let m_down = mouse(0, 0, Down, Up);
    // a press must start from a hover
    assert_eq!(xy_pad::get_new_state(true, PadState::Normal, m_down), PadState::Normal);
    assert_eq!(xy_pad::get_new_state(true, PadState::Highlighted, m_down), PadState::Clicked);
    assert_eq!(xy_pad::get_new_state(true, PadState::Clicked, m_down), PadState::Clicked);
    assert_eq!(xy_pad::get_new_state(true, PadState::Normal, m_up), PadState::Highlighted);
    assert_eq!(xy_pad::get_new_state(true, PadState::Clicked, m_up), PadState::Highlighted);
    // a drag keeps the capture off-pad while the button stays down
    assert_eq!(xy_pad::get_new_state(false, PadState::Clicked, m_down), PadState::Clicked);
    assert_eq!(xy_pad::get_new_state(false, PadState::Clicked, m_up), PadState::Normal);
    assert_eq!(xy_pad::get_new_state(false, PadState::Highlighted, m_up), PadState::Normal);
}

#[test]
fn pad_hover_is_idempotent() {
    let m = mouse(50, 50, Up, Up);
    for prev in [PadState::Normal, PadState::Highlighted, PadState::Clicked] {
        let once = xy_pad::get_new_state(true, prev, m);
        assert_eq!(once, PadState::Highlighted);
        assert_eq!(xy_pad::get_new_state(true, once, m), once);
    }
}

#[test]
fn click_without_move_fires_once_per_boundary() {
    let pad = test_pad();
    // the pointer rests on the pixel whose value is the current value,
    // so the value pair never changes
    let at_value = mouse(50, 50, Down, Up);
    let press = xy_pad::update(&pad, PadState::Highlighted, at_value);
    assert_eq!(press.state, PadState::Clicked);
    assert_eq!((press.x, press.y), (5, 5));
    assert!(press.fire);
    // while held without movement nothing changes and nothing fires
    let hold = xy_pad::update(&pad, press.state, at_value);
    assert_eq!(hold.state, PadState::Clicked);
    assert!(!hold.fire);
    // the release frame fires once more
    let release = xy_pad::update(&pad, hold.state, mouse(50, 50, Up, Up));
    assert_eq!(release.state, PadState::Highlighted);
    assert!(release.fire);
}

#[test]
fn pad_drag_sweeps_monotone_values() {
    let mut pad = test_pad();
    let mut state = PadState::Highlighted;
    let mut xs: Vec<i64> = Vec::new();
    let mut ys: Vec<i64> = Vec::new();
    for p in [(10, 10), (30, 30), (50, 50)] {
        let r = xy_pad::update(&pad, state, mouse(p.0, p.1, Down, Up));
        assert!(r.fire);
        xs.push(r.x);
        ys.push(r.y);
        state = r.state;
        pad = XYPad { x: r.x, y: r.y, ..pad };
    }
    // X follows the pointer; Y runs against it, because the value axis
    // grows upward while the pixel axis grows downward
    assert_eq!(xs, vec![1, 3, 5]);
    assert_eq!(ys, vec![9, 7, 5]);
    assert!(xs.windows(2).all(|w| w[0] < w[1]));
    assert!(ys.windows(2).all(|w| w[0] > w[1]));
    assert_eq!((xs[2], ys[2]), (5, 5));
}

fn test_editor() -> EnvelopeEditor {
    EnvelopeEditor::new(2, 0, 1_000_000, 0, 1_000_000).size(Dimensions { w: 128, h: 128 })
}

#[test]
fn editor_hover_is_idempotent() {
    let m = mouse(64, 64, Up, Up);
    let elem = Element::Pad;
    for prev in [
        EnvState::Normal,
        EnvState::Highlighted(Element::Rect),
        EnvState::Clicked(Element::Pad, MouseButton::Left),
    ] {
        let once = env_next(Some(elem), prev, m);
        assert_eq!(once, EnvState::Highlighted(elem));
        assert_eq!(env_next(Some(elem), once, m), once);
    }
}

#[test]
fn click_on_empty_pad_inserts_the_resolved_point() {
    let ed = test_editor();
    let mut env: Vec<PlainPoint> = Vec::new();
    // hover, press, release at the pad's center
    let (s1, cb1) = update(&ed, EnvState::Normal, &mut env, mouse(64, 64, Up, Up));
    assert_eq!(s1, EnvState::Highlighted(Element::Pad));
    assert_eq!(cb1, None);
    let (s2, cb2) = update(&ed, s1, &mut env, mouse(64, 64, Down, Up));
    assert_eq!(s2, EnvState::Clicked(Element::Pad, MouseButton::Left));
    assert_eq!(cb2, None);
    assert_eq!(env.len(), 0);
    let (s3, cb3) = update(&ed, s2, &mut env, mouse(64, 64, Up, Up));
    assert!(matches!(s3, EnvState::Highlighted(_)));
    assert_eq!(cb3, None);
    // one point at the middle of both ranges, the vertical axis flipped
    assert_eq!(env.len(), 1);
    assert_eq!(env[0].get_x(), 500_000);
    assert_eq!(env[0].get_y(), 500_000);
}

fn five_points() -> Vec<PlainPoint> {
    [10, 30, 50, 70, 90]
        .iter()
        .map(|&x| PlainPoint { x, y: 50, curve: 0 })
        .collect()
}

fn wide_editor() -> EnvelopeEditor {
    EnvelopeEditor::new(3, 0, 100, 0, 100).size(Dimensions { w: 100, h: 100 })
}

#[test]
fn right_click_release_removes_the_point() {
    let ed = wide_editor();
    let mut env = five_points();
    // point 2 is drawn at pixel (50, 50); release the right-button
    // capture on it
    let prev = EnvState::Clicked(Element::EnvPoint(2, Point { x: 50, y: 50 }), MouseButton::Right);
    let (s, cb) = update(&ed, prev, &mut env, mouse(50, 50, Up, Up));
    assert!(matches!(s, EnvState::Highlighted(Element::EnvPoint(2, _))));
    assert_eq!(cb, Some(2));
    assert_eq!(env.len(), 4);
    let xs: Vec<i64> = env.iter().map(|p| p.get_x()).collect();
    assert_eq!(xs, vec![10, 30, 70, 90]);
}

#[test]
fn drag_never_crosses_a_neighbor() {
    let ed = wide_editor();
    let mut env: Vec<PlainPoint> =
        [10, 50, 90].iter().map(|&x| PlainPoint { x, y: 50, curve: 0 }).collect();
    // drag point 1 far to the right, past point 2
    let prev = EnvState::Clicked(Element::EnvPoint(1, Point { x: 50, y: 50 }), MouseButton::Left);
    let (s, cb) = update(&ed, prev, &mut env, mouse(95, 50, Down, Up));
    assert!(matches!(s, EnvState::Clicked(Element::EnvPoint(1, _), MouseButton::Left)));
    assert_eq!(cb, Some(1));
    // the X value is clamped to the right neighbor
    assert_eq!(env[1].get_x(), 90);
    // and dragging far left clamps to the left neighbor
    let prev = EnvState::Clicked(Element::EnvPoint(1, Point { x: 90, y: 50 }), MouseButton::Left);
    let (_, cb) = update(&ed, prev, &mut env, mouse(2, 50, Down, Up));
    assert_eq!(cb, Some(1));
    assert_eq!(env[1].get_x(), 10);
}

#[test]
fn drag_without_value_change_stays_silent() {
    let ed = wide_editor();
    let mut env = five_points();
    // point 2 sits at value (50, 50); the pointer rests on its pixel
    let prev = EnvState::Clicked(Element::EnvPoint(2, Point { x: 50, y: 50 }), MouseButton::Left);
    let (s, cb) = update(&ed, prev, &mut env, mouse(50, 50, Down, Up));
    assert!(matches!(s, EnvState::Clicked(Element::EnvPoint(2, _), MouseButton::Left)));
    assert_eq!(cb, None);
    assert_eq!(env[2].get_x(), 50);
}

#[test]
fn stale_index_is_dropped_without_panic() {
    let ed = wide_editor();
    // the drag remembers index 7 but the collection shrank to 3
    let mut env: Vec<PlainPoint> =
        [10, 50, 90].iter().map(|&x| PlainPoint { x, y: 50, curve: 0 }).collect();
    let prev = EnvState::Clicked(Element::EnvPoint(7, Point { x: 50, y: 50 }), MouseButton::Left);
    let (s, cb) = update(&ed, prev, &mut env, mouse(60, 50, Down, Up));
    // the capture itself survives, with the stale index refreshed in
    // place, but the mutation is dropped: nothing written, nothing
    // reported, nothing indexed out of bounds
    assert!(matches!(s, EnvState::Clicked(Element::EnvPoint(7, _), MouseButton::Left)));
    assert_eq!(cb, None);
    let xs: Vec<i64> = env.iter().map(|p| p.get_x()).collect();
    assert_eq!(xs, vec![10, 50, 90]);
}

#[test]
fn insertion_keeps_the_collection_sorted() {
    let mut env: Vec<PlainPoint> =
        [70, 10, 90, 30].iter().map(|&x| PlainPoint { x, y: 1, curve: 0 }).collect();
    add_point(&mut env, 50, 2);
    assert_eq!(env.len(), 5);
    for w in env.windows(2) {
        assert!(w[0].get_x() <= w[1].get_x());
    }
    let mut env2: Vec<PlainPoint> = Vec::new();
    add_point(&mut env2, 5, 5);
    assert_eq!(env2.len(), 1);
}

#[test]
fn sort_orders_any_collection() {
    let mut env: Vec<PlainPoint> =
        [(90, 0), (10, 1), (50, 2), (10, 3)].iter().map(|&(x, y)| PlainPoint {
            x,
            y,
            curve: 0,
        }).collect();
    sort_by_x(&mut env);
    let xs: Vec<i64> = env.iter().map(|p| p.get_x()).collect();
    assert_eq!(xs, vec![10, 10, 50, 90]);
}

#[test]
fn skewed_axis_bends_both_directions() {
    // a squared vertical skew devotes more pixels to the low end
    let ed = test_editor().skew_y(2);
    let mut env: Vec<PlainPoint> = Vec::new();
    let prev = EnvState::Clicked(Element::Pad, MouseButton::Left);
    let (_, _) = update(&ed, prev, &mut env, mouse(64, 64, Up, Up));
    assert_eq!(env.len(), 1);
    assert_eq!(env[0].get_x(), 500_000);
    // the pad's middle reads as (1/2)^2 = 1/4 of the vertical range
    assert_eq!(env[0].get_y(), 250_000);
    // and the display snapshot undoes the square exactly
    let perc = percentage_env(&env, &ed);
    assert_eq!(perc[0].y, Frac { num: 500_000, den: 1_000_000 });
}

#[test]
fn neighbor_bounds_feed_the_new_value() {
    let ed = wide_editor();
    let env: Vec<PlainPoint> =
        [10, 50, 90].iter().map(|&x| PlainPoint { x, y: 50, curve: 0 }).collect();
    let perc = percentage_env(&env, &ed);
    // unclamped pointer positions map straight through
    let m = mouse(30, 100, Down, Up);
    let v = get_new_value(&perc, 1, m.pos, &ed);
    assert_eq!(v.0, 30);
    assert_eq!(v.1, 0);
    // a pointer past the right neighbor is held at it
    let v = get_new_value(&perc, 1, Point { x: 99, y: 0 }, &ed);
    assert_eq!(v.0, 90);
    assert_eq!(v.1, 100);
}
