use widget_core::geometry::{Dimensions, Point};
use widget_core::input::{ButtonState, Key, Mouse};
use widget_core::input::ButtonState::{Down, Up};
use widget_core::store::{StoredWidget, Widget, WidgetStore};
use widget_core::text_box::{
    closest_idx, get_new_state, reclamp_cursor, update, Capturing, DrawState, Element, State,
    TextBox,
};
use widget_core::xy_pad;

fn mouse(x: i64, y: i64, left: ButtonState) -> Mouse {
    Mouse { pos: Point { x, y }, left, right: ButtonState::Up }
}

fn field() -> TextBox {
    TextBox::new(4)
}

fn abcdef() -> (Vec<char>, Vec<i64>) {
    ("abcdef".chars().collect(), vec![10, 12, 14, 16, 18, 20])
}

#[test]
fn closest_idx_walks_the_midpoints() {
    let widths: Vec<i64> = vec![10, 10];
    // at or left of the origin: the start
    assert_eq!(closest_idx(5, 5, &widths), (0, 5));
    assert_eq!(closest_idx(2, 5, &widths), (0, 5));
    // before the first midpoint (5 + 10/2 = 10): still the first char
    assert_eq!(closest_idx(9, 5, &widths), (0, 5));
    // between the midpoints 10 and 20: the second char, at its left edge
    assert_eq!(closest_idx(12, 5, &widths), (1, 15));
    // past every midpoint: the end of the buffer
    assert_eq!(closest_idx(25, 5, &widths), (2, 25));
    // exactly on a midpoint boundary: falls through to the end
    assert_eq!(closest_idx(10, 5, &widths), (2, 25));
}

#[test]
fn capture_happens_on_release_over_text() {
    let over = Element::Text(3, 41);
    let uncaptured = State(DrawState::Clicked(Element::Text(0, 5)), Capturing::Uncaptured);
    let s = get_new_state(over, uncaptured, mouse(40, 10, Up));
    assert_eq!(s, State(DrawState::Highlighted(over), Capturing::Captured(3, 41)));
    // a press from a hover keeps the uncaptured state clicked
    let hl = State(DrawState::Highlighted(over), Capturing::Uncaptured);
    let s = get_new_state(over, hl, mouse(40, 10, Down));
    assert_eq!(s, State(DrawState::Clicked(over), Capturing::Uncaptured));
}

#[test]
fn capture_persists_away_from_the_field() {
    let captured = State(DrawState::Normal, Capturing::Captured(3, 41));
    let s = get_new_state(Element::Nill, captured, mouse(-50, -50, Up));
    assert_eq!(s, State(DrawState::Highlighted(Element::Nill), Capturing::Captured(3, 41)));
    // releasing a click that started on empty space drops the capture
    let clicked_empty = State(DrawState::Clicked(Element::Nill), Capturing::Captured(3, 41));
    let s = get_new_state(Element::Nill, clicked_empty, mouse(-50, -50, Up));
    assert_eq!(s, State(DrawState::Normal, Capturing::Uncaptured));
}

#[test]
fn click_release_cycle_captures_the_cursor() {
    let tb = field();
    let (mut text, mut widths) = ("ab".chars().collect::<Vec<char>>(), vec![10i64, 10]);
    let none_entered: Vec<Vec<char>> = Vec::new();
    let none_widths: Vec<Vec<i64>> = Vec::new();
    let no_keys: Vec<Key> = Vec::new();
    let mut state = State(DrawState::Normal, Capturing::Uncaptured);
    // hover over the second character, press, release
    for (button, expect_captured) in [(Up, false), (Down, false), (Up, true)] {
        let (s, _) = update(
            &tb,
            state,
            &mut text,
            &mut widths,
            mouse(12, 10, button),
            &none_entered,
            &none_widths,
            &no_keys,
        );
        state = s;
        assert_eq!(matches!(state.1, Capturing::Captured(_, _)), expect_captured);
    }
    // the release resolved the cursor between the two characters: after
    // the first character's midpoint, at its right edge
    assert_eq!(state.1, Capturing::Captured(1, 15));
}

#[test]
fn backspace_removes_before_the_cursor() {
    let tb = field();
    let (mut text, mut widths) = abcdef();
    // captured at index 3 of "abcdef"; the cursor sits after 'c', at
    // text origin 5 plus the widths of 'a', 'b' and 'c'
    let prev = State(DrawState::Normal, Capturing::Captured(3, 41));
    let (s, enter) = update(
        &tb,
        prev,
        &mut text,
        &mut widths,
        mouse(-50, -50, Up),
        &Vec::new(),
        &Vec::new(),
        &vec![Key::Backspace],
    );
    let now: String = text.iter().collect();
    assert_eq!(now, "abdef");
    assert_eq!(widths, vec![10, 12, 16, 18, 20]);
    // the cursor moved back one position, by the measured width of 'c'
    assert_eq!(s, State(DrawState::Highlighted(Element::Nill), Capturing::Captured(2, 41 - 14)));
    assert!(!enter);
}

#[test]
fn cursor_keys_move_by_measured_widths() {
    let tb = field();
    let (mut text, mut widths) = abcdef();
    let prev = State(DrawState::Normal, Capturing::Captured(3, 41));
    let (s, _) = update(
        &tb,
        prev,
        &mut text,
        &mut widths,
        mouse(-50, -50, Up),
        &Vec::new(),
        &Vec::new(),
        &vec![Key::Left, Key::Left, Key::Right],
    );
    // left over 'c' (14), left over 'b' (12), right over 'b' again
    assert_eq!(s.1, Capturing::Captured(2, 41 - 14));
    let now: String = text.iter().collect();
    assert_eq!(now, "abcdef");
}

#[test]
fn entered_text_is_spliced_at_the_cursor() {
    let tb = field();
    let (mut text, mut widths) = abcdef();
    let prev = State(DrawState::Normal, Capturing::Captured(3, 41));
    let frags: Vec<Vec<char>> = vec!["XY".chars().collect()];
    let fws: Vec<Vec<i64>> = vec![vec![7, 8]];
    let (s, enter) = update(
        &tb,
        prev,
        &mut text,
        &mut widths,
        mouse(-50, -50, Up),
        &frags,
        &fws,
        &Vec::new(),
    );
    let now: String = text.iter().collect();
    assert_eq!(now, "abcXYdef");
    assert_eq!(widths, vec![10, 12, 14, 7, 8, 16, 18, 20]);
    assert_eq!(s.1, Capturing::Captured(5, 41 + 15));
    assert!(!enter);
}

#[test]
fn an_oversize_fragment_is_rejected_whole() {
    let tb = field();
    // the interior budget is the pad width less the padding on one side:
    // 192 - 5 = 187 from a text origin of 5
    let (mut text, mut widths) = abcdef();
    let prev = State(DrawState::Normal, Capturing::Captured(3, 41));
    let frags: Vec<Vec<char>> = vec!["WWWW".chars().collect()];
    let fws: Vec<Vec<i64>> = vec![vec![50, 50, 50, 50]];
    let (s, _) = update(
        &tb,
        prev,
        &mut text,
        &mut widths,
        mouse(-50, -50, Up),
        &frags,
        &fws,
        &Vec::new(),
    );
    let now: String = text.iter().collect();
    assert_eq!(now, "abcdef");
    assert_eq!(s.1, Capturing::Captured(3, 41));
}

#[test]
fn return_asks_for_the_handler_and_the_cursor_reclamps() {
    let tb = field();
    let (mut text, mut widths) = abcdef();
    let prev = State(DrawState::Normal, Capturing::Captured(6, 95));
    let (s, enter) = update(
        &tb,
        prev,
        &mut text,
        &mut widths,
        mouse(-50, -50, Up),
        &Vec::new(),
        &Vec::new(),
        &vec![Key::Return],
    );
    assert!(enter);
    assert_eq!(s.1, Capturing::Captured(6, 95));
    // the handler replaced the buffer with a shorter one
    let new_widths: Vec<i64> = vec![10, 12];
    let (idx, cx) = reclamp_cursor(5, &new_widths, 6);
    assert_eq!(idx, 2);
    assert_eq!(cx, 5 + 10 + 12);
}

#[test]
fn return_on_an_empty_buffer_stays_silent() {
    let tb = field();
    let mut text: Vec<char> = Vec::new();
    let mut widths: Vec<i64> = Vec::new();
    let prev = State(DrawState::Normal, Capturing::Captured(0, 5));
    let (_, enter) = update(
        &tb,
        prev,
        &mut text,
        &mut widths,
        mouse(-50, -50, Up),
        &Vec::new(),
        &Vec::new(),
        &vec![Key::Return],
    );
    assert!(!enter);
}

#[test]
fn store_hands_back_the_default_once() {
    let mut store = WidgetStore::new();
    let default = Widget::XYPad(xy_pad::State::Normal);
    assert_eq!(store.get(9), None);
    assert_eq!(store.get_or_init(9, default), default);
    // the default was recorded; a later write replaces it
    store.set_widget(
        9,
        Widget::XYPad(xy_pad::State::Clicked),
        Point { x: 1, y: 2 },
        Dimensions { w: 3, h: 4 },
    );
    assert_eq!(store.get(9), Some(Widget::XYPad(xy_pad::State::Clicked)));
    assert_eq!(store.get_or_init(9, default), Widget::XYPad(xy_pad::State::Clicked));
}

#[test]
fn stored_widget_keeps_placement() {
    let s = StoredWidget {
        widget: Widget::XYPad(xy_pad::State::Normal),
        pos: Point { x: 7, y: 8 },
        dim: Dimensions { w: 9, h: 10 },
    };
    assert_eq!(s.pos, Point { x: 7, y: 8 });
    assert_eq!(s.dim, Dimensions { w: 9, h: 10 });
}
