//! The text field: a rectangle holding an externally-owned character
//! buffer.  A click-release cycle over the text captures a cursor; while
//! captured, entered text fragments are spliced at the cursor under a
//! pixel-width budget, and the edit keys move or delete around it.
//!
//! Glyph widths come from the caller's font metrics, as a vector of pixel
//! widths parallel to the buffer's characters; the core never measures
//! text itself.

use vstd::prelude::*;
use crate::geometry::{
    dim_wf,
    frame_fits,
    is_over_spec,
    pad_box_wf,
    pad_dim,
    pad_dim_spec,
    pad_pos,
    pad_pos_spec,
    pix_point_wf,
    point_wf,
    Dimensions,
    Point,
    RectState,
};
use crate::input::{ButtonState, Key, Mouse};
use crate::mapping::MAX_UNIT;

verus! {

/// Pixels kept between the pad's left edge and the text's origin, and
/// between the text and the pad's right edge.
pub const TEXT_PADDING: i64 = 5;

/// An element of the text field under the cursor.
#[derive(Clone, Copy, Debug, PartialEq, Eq, Structural)]
pub enum Element {
    Nill,
    Rect,
    Text(usize, i64),
}

/// The field's hover-and-click state, redrawn every frame.
#[derive(Clone, Copy, Debug, PartialEq, Eq, Structural)]
pub enum DrawState {
    Normal,
    Highlighted(Element),
    Clicked(Element),
}

/// Whether the field owns the keyboard: a captured field keeps its
/// cursor index and cursor pixel position across frames, whatever the
/// pointer does.
#[derive(Clone, Copy, Debug, PartialEq, Eq, Structural)]
pub enum Capturing {
    Uncaptured,
    Captured(usize, i64),
}

/// The field's persisted state: the redraw state and the capture state,
/// orthogonal to each other.
#[derive(Clone, Copy, Debug, PartialEq, Eq, Structural)]
pub struct State(pub DrawState, pub Capturing);

impl State {
    /// The fill shade the surrounding rectangle is drawn with.  A
    /// captured field is drawn plain, as the cursor already shows the
    /// focus.
    pub fn as_rectangle_state(&self) -> (r: RectState)
        ensures
            r == match *self {
                State(s, c) => match c {
                    Capturing::Captured(_, _) => RectState::Normal,
                    Capturing::Uncaptured => match s {
                        DrawState::Normal => RectState::Normal,
                        DrawState::Highlighted(_) => RectState::Highlighted,
                        DrawState::Clicked(_) => RectState::Clicked,
                    },
                },
            },
    {
        match self {
            State(s, c) => match c {
                Capturing::Captured(_, _) => RectState::Normal,
                Capturing::Uncaptured => match s {
                    DrawState::Normal => RectState::Normal,
                    DrawState::Highlighted(_) => RectState::Highlighted,
                    DrawState::Clicked(_) => RectState::Clicked,
                },
            },
        }
    }
}

/// The sum of a width vector's entries.
pub open spec fn width_sum(ws: Seq<i64>) -> int
    decreases ws.len(),
{
    if ws.len() == 0 {
        0
    } else {
        width_sum(ws.drop_last()) + ws.last()
    }
}

/// A well-formed width vector: bounded entries with a bounded sum.
pub open spec fn widths_wf(ws: Seq<i64>) -> bool {
    &&& forall|i: int| 0 <= i < ws.len() ==> 0 <= #[trigger] ws[i] <= MAX_UNIT
    &&& width_sum(ws) <= MAX_UNIT
}

/// Every prefix sum of a nonnegative width vector lies between zero and
/// the full sum.
pub proof fn lemma_width_sum_prefix(ws: Seq<i64>, n: int)
    requires
        forall|i: int| 0 <= i < ws.len() ==> #[trigger] ws[i] >= 0,
        0 <= n <= ws.len(),
    ensures
        0 <= width_sum(ws.take(n)) <= width_sum(ws),
    decreases ws.len(),
{
    if ws.len() == 0 {
        assert(ws.take(n) =~= ws);
    } else if n == ws.len() {
        assert(ws.take(n) =~= ws);
        lemma_width_sum_prefix(ws.drop_last(), n - 1);
        assert(ws.drop_last().take(n - 1) =~= ws.drop_last());
    } else {
        assert(ws.take(n) =~= ws.drop_last().take(n));
        lemma_width_sum_prefix(ws.drop_last(), n);
    }
}

/// The cursor scan, one step at a time: walk the
/// characters left to right; each character owns the span from the
/// previous character's midpoint to its own midpoint; the first span
/// strictly containing the pointer wins, and a pointer past every
/// midpoint lands at the buffer's end.  `cum` is the left pixel edge of
/// character `i`, `left` the lower bound of its span.
pub open spec fn closest_scan_spec(mouse_x: int, ws: Seq<i64>, i: nat, cum: int, left: int) -> (
    int,
    int,
)
    decreases ws.len() - i when i <= ws.len()
{
    if i >= ws.len() {
        (i as int, cum)
    } else {
        let w = ws[i as int] as int;
        let right = cum + w / 2;
        if mouse_x > left && mouse_x < right {
            (i as int, cum)
        } else {
            closest_scan_spec(mouse_x, ws, i + 1, cum + w, right)
        }
    }
}

/// Which character index the pointer is closest to, and that index's
/// cursor pixel position.  A pointer at or left of the text origin picks
/// the start.
pub open spec fn closest_idx_spec(mouse_x: int, text_x: int, ws: Seq<i64>) -> (int, int) {
    if mouse_x <= text_x {
        (0, text_x)
    } else {
        closest_scan_spec(mouse_x, ws, 0, text_x, text_x)
    }
}

/// The scan lands on a valid cursor: an index within the buffer, at the
/// pixel position that is the running edge plus the widths it walked
/// over.
pub proof fn lemma_closest_scan_sound(mouse_x: int, ws: Seq<i64>, i: nat, cum: int, left: int, base: int)
    requires
        i <= ws.len(),
        cum == base + width_sum(ws.take(i as int)),
    ensures
        ({
            let r = closest_scan_spec(mouse_x, ws, i, cum, left);
            &&& i <= r.0 <= ws.len()
            &&& r.1 == base + width_sum(ws.take(r.0))
        }),
    decreases ws.len() - i,
{
    if i < ws.len() {
        let w = ws[i as int] as int;
        let right = cum + w / 2;
        if !(mouse_x > left && mouse_x < right) {
            assert(ws.take(i as int + 1).drop_last() =~= ws.take(i as int));
            lemma_closest_scan_sound(mouse_x, ws, i + 1, cum + w, right, base);
        }
    }
}

/// Law: the cursor the scan resolves sits at the text origin plus the
/// measured widths of the characters before it.
pub proof fn lemma_cursor_is_prefix_sum(mouse_x: int, text_x: int, ws: Seq<i64>)
    ensures
        ({
            let r = closest_idx_spec(mouse_x, text_x, ws);
            &&& 0 <= r.0 <= ws.len()
            &&& r.1 == text_x + width_sum(ws.take(r.0))
        }),
{
    assert(ws.take(0) =~= Seq::<i64>::empty());
    if mouse_x > text_x {
        lemma_closest_scan_sound(mouse_x, ws, 0, text_x, text_x, text_x);
    }
}

/// Find the character index closest to the pointer, and its cursor
/// pixel position.
pub fn closest_idx(mouse_x: i64, text_x: i64, widths: &Vec<i64>) -> (r: (usize, i64))
    requires
        -4 * MAX_UNIT <= mouse_x <= 4 * MAX_UNIT,
        -4 * MAX_UNIT <= text_x <= 4 * MAX_UNIT,
        widths_wf(widths@),
        widths@.len() < usize::MAX,
    ensures
        (r.0 as int, r.1 as int) == closest_idx_spec(mouse_x as int, text_x as int, widths@),
        r.0 <= widths@.len(),
        r.1 == text_x + width_sum(widths@.take(r.0 as int)),
{
    proof {
        lemma_cursor_is_prefix_sum(mouse_x as int, text_x as int, widths@);
    }
    if mouse_x <= text_x {
        return (0, text_x);
    }
    let ghost ws = widths@;
    let mut i: usize = 0;
    let mut x: i64 = text_x;
    let mut left: i64 = text_x;
    while i < widths.len()
        invariant
            widths_wf(ws),
            ws == widths@,
            mouse_x > text_x,
            0 <= i <= ws.len(),
            x == text_x + width_sum(ws.take(i as int)),
            -4 * MAX_UNIT <= text_x <= 4 * MAX_UNIT,
            -5 * MAX_UNIT <= left <= 5 * MAX_UNIT,
            closest_scan_spec(mouse_x as int, ws, 0, text_x as int, text_x as int)
                == closest_scan_spec(mouse_x as int, ws, i as nat, x as int, left as int),
        decreases ws.len() - i,
    {
        proof {
            lemma_width_sum_prefix(ws, i as int);
            lemma_width_sum_prefix(ws, i as int + 1);
            assert(ws.take(i as int + 1).drop_last() =~= ws.take(i as int));
            assert(width_sum(ws.take(i as int + 1)) == width_sum(ws.take(i as int)) + ws[i as int]);
        }
        let w = widths[i];
        proof {
            assert(ws[i as int] >= 0);
        }
        let right = x + w / 2;
        if mouse_x > left && mouse_x < right {
            proof {
                assert(closest_scan_spec(mouse_x as int, ws, i as nat, x as int, left as int) == (
                    i as int,
                    x as int,
                ));
            }
            return (i, x);
        }
        x = x + w;
        left = right;
        i = i + 1;
    }
    (i, x)
}

/// Classify what the pointer is over: nothing, the border rectangle, or
/// the text with the closest character resolved.
pub open spec fn over_elem_spec(
    pos: Point,
    dim: Dimensions,
    ppos: Point,
    pdim: Dimensions,
    mouse_pos: Point,
    text_x: int,
    ws: Seq<i64>,
) -> Element {
    if !is_over_spec(pos, dim, mouse_pos) {
        Element::Nill
    } else if !is_over_spec(ppos, pdim, mouse_pos) {
        Element::Rect
    } else {
        let c = closest_idx_spec(mouse_pos.x as int, text_x, ws);
        Element::Text(c.0 as usize, c.1 as i64)
    }
}

/// Hit-test the text field.
pub fn over_elem(
    pos: Point,
    dim: Dimensions,
    ppos: Point,
    pdim: Dimensions,
    mouse_pos: Point,
    text_x: i64,
    widths: &Vec<i64>,
) -> (r: Element)
    requires
        pix_point_wf(pos),
        dim_wf(dim),
        pad_box_wf(ppos, pdim),
        point_wf(mouse_pos),
        -4 * MAX_UNIT <= text_x <= 4 * MAX_UNIT,
        widths_wf(widths@),
        widths@.len() < usize::MAX,
    ensures
        r == over_elem_spec(pos, dim, ppos, pdim, mouse_pos, text_x as int, widths@),
{
    if !crate::geometry::is_over(pos, dim, mouse_pos) {
        Element::Nill
    } else if !crate::geometry::is_over(ppos, pdim, mouse_pos) {
        Element::Rect
    } else {
        let c = closest_idx(mouse_pos.x, text_x, widths);
        Element::Text(c.0, c.1)
    }
}

/// The field's transition table, split by the capture state.  While
/// uncaptured, a release over the text after a click on the text
/// captures the cursor the release resolved; while captured, the capture
/// persists across hover and click, is re-resolved by another
/// click-release on the text, and is dropped by a release of a click
/// that started on empty space.
pub open spec fn next_state_spec(over: Element, prev: State, left: ButtonState) -> State {
    match prev {
        State(p, Capturing::Uncaptured) => match (over, p, left) {
            (_, DrawState::Normal, ButtonState::Down) => State(
                DrawState::Normal,
                Capturing::Uncaptured,
            ),
            (Element::Nill, DrawState::Normal, ButtonState::Up) => State(
                DrawState::Normal,
                Capturing::Uncaptured,
            ),
            (Element::Nill, DrawState::Highlighted(_), ButtonState::Up) => State(
                DrawState::Normal,
                Capturing::Uncaptured,
            ),
            (_, DrawState::Normal, ButtonState::Up) => State(
                DrawState::Highlighted(over),
                Capturing::Uncaptured,
            ),
            (_, DrawState::Highlighted(_), ButtonState::Up) => State(
                DrawState::Highlighted(over),
                Capturing::Uncaptured,
            ),
            (_, DrawState::Highlighted(p_elem), ButtonState::Down) => State(
                DrawState::Clicked(p_elem),
                Capturing::Uncaptured,
            ),
            (_, DrawState::Clicked(p_elem), ButtonState::Down) => State(
                DrawState::Clicked(p_elem),
                Capturing::Uncaptured,
            ),
            (Element::Text(idx, x), DrawState::Clicked(Element::Text(_, _)), ButtonState::Up) => State(
                DrawState::Highlighted(over),
                Capturing::Captured(idx, x),
            ),
            (Element::Nill, _, _) => State(DrawState::Normal, Capturing::Uncaptured),
            _ => prev,
        },
        State(p, Capturing::Captured(p_idx, p_x)) => match (over, p, left) {
            (Element::Nill, DrawState::Clicked(Element::Nill), ButtonState::Up) => State(
                DrawState::Normal,
                Capturing::Uncaptured,
            ),
            (Element::Text(idx, x), DrawState::Clicked(Element::Text(_, _)), ButtonState::Up) => State(
                DrawState::Highlighted(over),
                Capturing::Captured(idx, x),
            ),
            (_, DrawState::Normal, ButtonState::Up) => State(
                DrawState::Highlighted(over),
                Capturing::Captured(p_idx, p_x),
            ),
            (_, DrawState::Highlighted(_), ButtonState::Up) => State(
                DrawState::Highlighted(over),
                Capturing::Captured(p_idx, p_x),
            ),
            (_, DrawState::Clicked(_), ButtonState::Up) => State(
                DrawState::Highlighted(over),
                Capturing::Captured(p_idx, p_x),
            ),
            (_, DrawState::Highlighted(p_elem), ButtonState::Down) => State(
                DrawState::Clicked(p_elem),
                Capturing::Captured(p_idx, p_x),
            ),
            (_, DrawState::Clicked(p_elem), ButtonState::Down) => State(
                DrawState::Clicked(p_elem),
                Capturing::Captured(p_idx, p_x),
            ),
            _ => prev,
        },
    }
}

/// Step the field's state from the previous frame's state and this
/// frame's sampled input.
pub fn get_new_state(over: Element, prev: State, mouse: Mouse) -> (r: State)
    ensures
        r == next_state_spec(over, prev, mouse.left),
{
    match prev {
        State(p, Capturing::Uncaptured) => match (over, p, mouse.left) {
            (_, DrawState::Normal, ButtonState::Down) => State(
                DrawState::Normal,
                Capturing::Uncaptured,
            ),
            (Element::Nill, DrawState::Normal, ButtonState::Up) => State(
                DrawState::Normal,
                Capturing::Uncaptured,
            ),
            (Element::Nill, DrawState::Highlighted(_), ButtonState::Up) => State(
                DrawState::Normal,
                Capturing::Uncaptured,
            ),
            (_, DrawState::Normal, ButtonState::Up) => State(
                DrawState::Highlighted(over),
                Capturing::Uncaptured,
            ),
            (_, DrawState::Highlighted(_), ButtonState::Up) => State(
                DrawState::Highlighted(over),
                Capturing::Uncaptured,
            ),
            (_, DrawState::Highlighted(p_elem), ButtonState::Down) => State(
                DrawState::Clicked(p_elem),
                Capturing::Uncaptured,
            ),
            (_, DrawState::Clicked(p_elem), ButtonState::Down) => State(
                DrawState::Clicked(p_elem),
                Capturing::Uncaptured,
            ),
            (Element::Text(idx, x), DrawState::Clicked(Element::Text(_, _)), ButtonState::Up) => State(
                DrawState::Highlighted(over),
                Capturing::Captured(idx, x),
            ),
            (Element::Nill, _, _) => State(DrawState::Normal, Capturing::Uncaptured),
            _ => prev,
        },
        State(p, Capturing::Captured(p_idx, p_x)) => match (over, p, mouse.left) {
            (Element::Nill, DrawState::Clicked(Element::Nill), ButtonState::Up) => State(
                DrawState::Normal,
                Capturing::Uncaptured,
            ),
            (Element::Text(idx, x), DrawState::Clicked(Element::Text(_, _)), ButtonState::Up) => State(
                DrawState::Highlighted(over),
                Capturing::Captured(idx, x),
            ),
            (_, DrawState::Normal, ButtonState::Up) => State(
                DrawState::Highlighted(over),
                Capturing::Captured(p_idx, p_x),
            ),
            (_, DrawState::Highlighted(_), ButtonState::Up) => State(
                DrawState::Highlighted(over),
                Capturing::Captured(p_idx, p_x),
            ),
            (_, DrawState::Clicked(_), ButtonState::Up) => State(
                DrawState::Highlighted(over),
                Capturing::Captured(p_idx, p_x),
            ),
            (_, DrawState::Highlighted(p_elem), ButtonState::Down) => State(
                DrawState::Clicked(p_elem),
                Capturing::Captured(p_idx, p_x),
            ),
            (_, DrawState::Clicked(p_elem), ButtonState::Down) => State(
                DrawState::Clicked(p_elem),
                Capturing::Captured(p_idx, p_x),
            ),
            _ => prev,
        },
    }
}

/// Law: hovering is idempotent.  With the pointer over the same element,
/// not empty space, and the button up, a second identical frame leaves
/// the state where the first put it.
pub proof fn lemma_hover_idempotent(over: Element, prev: State, left: ButtonState)
    requires
        !(over is Nill),
        left is Up,
    ensures
        next_state_spec(over, next_state_spec(over, prev, left), left) == next_state_spec(
            over,
            prev,
            left,
        ),
{
}

/// The capture's editing state while one frame's input is applied: the
/// buffer, its parallel width vector, the cursor index and the cursor
/// pixel position.
pub struct EditSt {
    pub text: Seq<char>,
    pub ws: Seq<i64>,
    pub idx: int,
    pub cx: int,
}

/// Splice one entered fragment at the cursor, under the pixel budget:
/// the fragment goes in whole, or not at all once it would overflow the
/// field's interior width; a stale cursor index inserts nothing.  The
/// flag says whether later fragments are still considered.
pub open spec fn insert_frag_spec(st: EditSt, frag: Seq<char>, fw: Seq<i64>, limit: int) -> (
    EditSt,
    bool,
) {
    if st.cx + width_sum(fw) < limit && 0 <= st.idx <= st.text.len() && frag.len() == fw.len() {
        (
            EditSt {
                text: st.text.take(st.idx) + frag + st.text.skip(st.idx),
                ws: st.ws.take(st.idx) + fw + st.ws.skip(st.idx),
                idx: st.idx + frag.len(),
                cx: st.cx + width_sum(fw),
            },
            true,
        )
    } else {
        (st, false)
    }
}

/// Splice the frame's entered fragments in order, stopping at the first
/// that does not fit.
pub open spec fn frags_fold_spec(
    st: EditSt,
    frags: Seq<Seq<char>>,
    fws: Seq<Seq<i64>>,
    limit: int,
    k: int,
) -> EditSt
    decreases frags.len() - k when 0 <= k <= frags.len()
{
    if k >= frags.len() || k >= fws.len() {
        st
    } else {
        let step = insert_frag_spec(st, frags[k], fws[k], limit);
        if step.1 {
            frags_fold_spec(step.0, frags, fws, limit, k + 1)
        } else {
            st
        }
    }
}

/// Remove the character before the cursor and step the cursor back by
/// that character's width.  A cursor at the start, or one gone stale
/// against the live buffer, changes nothing.
pub open spec fn backspace_spec(st: EditSt) -> EditSt {
    if st.text.len() > 0 && st.idx <= st.text.len() && st.idx > 0 && st.ws.len()
        == st.text.len() {
        EditSt {
            text: st.text.remove(st.idx - 1),
            ws: st.ws.remove(st.idx - 1),
            idx: st.idx - 1,
            cx: st.cx - st.ws[st.idx - 1],
        }
    } else {
        st
    }
}

/// Move the cursor one character left, stepping its pixel position back
/// by that character's width.
pub open spec fn cursor_left_spec(st: EditSt) -> EditSt {
    if 0 < st.idx <= st.ws.len() {
        EditSt { text: st.text, ws: st.ws, idx: st.idx - 1, cx: st.cx - st.ws[st.idx - 1] }
    } else {
        st
    }
}

/// Move the cursor one character right, stepping its pixel position
/// forward by that character's width.
pub open spec fn cursor_right_spec(st: EditSt) -> EditSt {
    if 0 <= st.idx < st.ws.len() {
        EditSt { text: st.text, ws: st.ws, idx: st.idx + 1, cx: st.cx + st.ws[st.idx] }
    } else {
        st
    }
}

/// Apply one pressed key.  The flag says whether the key asks for the
/// caller-supplied handler: `Return` does, when the buffer is nonempty.
pub open spec fn apply_key_spec(st: EditSt, key: Key) -> (EditSt, bool) {
    match key {
        Key::Backspace => (backspace_spec(st), false),
        Key::Left => (cursor_left_spec(st), false),
        Key::Right => (cursor_right_spec(st), false),
        Key::Return => (st, st.text.len() > 0),
        Key::Other => (st, false),
    }
}

/// Apply the frame's pressed keys in order; the flag accumulates
/// whether any `Return` asked for the handler.
pub open spec fn keys_fold_spec(st: EditSt, keys: Seq<Key>, k: int) -> (EditSt, bool)
    decreases keys.len() - k when 0 <= k <= keys.len()
{
    if k >= keys.len() {
        (st, false)
    } else {
        let step = apply_key_spec(st, keys[k]);
        let rest = keys_fold_spec(step.0, keys, k + 1);
        (rest.0, step.1 || rest.1)
    }
}

/// How many characters the fragments from `k` on hold, together.
pub open spec fn frags_chars_from(frags: Seq<Seq<char>>, k: int) -> nat
    decreases frags.len() - k when 0 <= k <= frags.len()
{
    if k >= frags.len() {
        0
    } else {
        frags[k].len() + frags_chars_from(frags, k + 1)
    }
}

/// The field's per-frame configuration, fully resolved by the caller
/// before the frame call.
#[derive(Clone, Copy, Debug, PartialEq, Eq, Structural)]
pub struct TextBox {
    pub ui_id: u64,
    pub font_size: u32,
    pub pos: Point,
    pub dim: Dimensions,
    pub frame_w: i64,
}

/// A well-formed field configuration: bounded geometry and a frame that
/// leaves a pad wide enough for the text padding on both sides.
pub open spec fn text_box_wf(tb: TextBox) -> bool {
    &&& point_wf(tb.pos)
    &&& dim_wf(tb.dim)
    &&& frame_fits(tb.dim, tb.frame_w)
}

impl TextBox {
    /// A field with the default geometry and styling.
    pub fn new(ui_id: u64) -> (r: TextBox)
        ensures
            r == (TextBox {
                ui_id,
                font_size: 24,
                pos: Point { x: 0, y: 0 },
                dim: Dimensions { w: 192, h: 48 },
                frame_w: 0,
            }),
    {
        TextBox {
            ui_id,
            font_size: 24,
            pos: Point { x: 0, y: 0 },
            dim: Dimensions { w: 192, h: 48 },
            frame_w: 0,
        }
    }

    /// The same field with the font size replaced.
    pub fn font_size(self, font_size: u32) -> (r: TextBox)
        ensures
            r == (TextBox { font_size, ..self }),
    {
        TextBox { font_size, ..self }
    }

    /// The same field moved to `pos`.
    pub fn position(self, pos: Point) -> (r: TextBox)
        ensures
            r == (TextBox { pos, ..self }),
    {
        TextBox { pos, ..self }
    }

    /// The same field resized to `dim`.
    pub fn size(self, dim: Dimensions) -> (r: TextBox)
        ensures
            r == (TextBox { dim, ..self }),
    {
        TextBox { dim, ..self }
    }

    /// The same field with the frame width replaced.
    pub fn frame_width(self, frame_w: i64) -> (r: TextBox)
        ensures
            r == (TextBox { frame_w, ..self }),
    {
        TextBox { frame_w, ..self }
    }
}

/// The pixel position of the text's origin inside the field.
pub open spec fn text_x_spec(tb: TextBox) -> int {
    pad_pos_spec(tb.pos, tb.frame_w).x + TEXT_PADDING
}

/// The pixel budget entered text may not reach: the pad's right edge
/// less the text padding.
pub open spec fn text_limit_spec(tb: TextBox) -> int {
    pad_pos_spec(tb.pos, tb.frame_w).x + pad_dim_spec(tb.dim, tb.frame_w).w - TEXT_PADDING
}

/// Sum a width vector.
fn sum_widths(ws: &Vec<i64>) -> (r: i128)
    requires
        widths_wf(ws@),
    ensures
        r == width_sum(ws@),
        0 <= r <= MAX_UNIT,
{
    let ghost gws = ws@;
    let mut acc: i128 = 0;
    let mut j: usize = 0;
    while j < ws.len()
        invariant
            widths_wf(gws),
            gws == ws@,
            0 <= j <= gws.len(),
            acc == width_sum(gws.take(j as int)),
            0 <= acc <= MAX_UNIT,
        decreases gws.len() - j,
    {
        proof {
            lemma_width_sum_prefix(gws, j as int);
            lemma_width_sum_prefix(gws, j as int + 1);
            assert(gws.take(j as int + 1).drop_last() =~= gws.take(j as int));
        }
        acc = acc + (ws[j] as i128);
        j = j + 1;
    }
    proof {
        assert(gws.take(gws.len() as int) =~= gws);
    }
    acc
}

/// Re-clamp the cursor after the caller's handler may have replaced the
/// buffer: the index is cut back to the live length, and the cursor
/// pixel position is recomputed from the text origin by summing the
/// widths before the cursor.
pub fn reclamp_cursor(text_x: i64, widths: &Vec<i64>, idx: usize) -> (r: (usize, i64))
    requires
        -4 * MAX_UNIT <= text_x <= 4 * MAX_UNIT,
        widths_wf(widths@),
    ensures
        r.0 == if idx <= widths@.len() {
            idx as int
        } else {
            widths@.len() as int
        },
        r.1 == text_x + width_sum(widths@.take(r.0 as int)),
{
    let n = if idx <= widths.len() {
        idx
    } else {
        widths.len()
    };
    let ghost gws = widths@;
    let mut acc: i64 = 0;
    let mut j: usize = 0;
    while j < n
        invariant
            widths_wf(gws),
            gws == widths@,
            n <= gws.len(),
            0 <= j <= n,
            acc == width_sum(gws.take(j as int)),
            0 <= acc <= MAX_UNIT,
        decreases n - j,
    {
        proof {
            lemma_width_sum_prefix(gws, j as int);
            lemma_width_sum_prefix(gws, j as int + 1);
            assert(gws.take(j as int + 1).drop_last() =~= gws.take(j as int));
        }
        acc = acc + widths[j];
        j = j + 1;
    }
    (n, text_x + acc)
}

/// One frame of the field: hit-test, step the state, and, while the
/// field holds a capture, splice the frame's entered fragments at the
/// cursor under the pixel budget and apply the pressed edit keys.  The
/// returned flag asks the caller to invoke its handler with the buffer
/// (a `Return` was pressed on a nonempty buffer); after the handler the
/// caller re-clamps the cursor with `reclamp_cursor` and re-captures.
pub fn update(
    tb: &TextBox,
    prev: State,
    text: &mut Vec<char>,
    widths: &mut Vec<i64>,
    mouse: Mouse,
    entered: &Vec<Vec<char>>,
    entered_widths: &Vec<Vec<i64>>,
    keys: &Vec<Key>,
) -> (r: (State, bool))
    requires
        text_box_wf(*tb),
        point_wf(mouse.pos),
        old(text)@.len() == old(widths)@.len(),
        widths_wf(old(widths)@),
        entered@.len() == entered_widths@.len(),
        forall|k: int|
            0 <= k < entered@.len() ==> (#[trigger] entered@[k])@.len() == entered_widths@[k]@.len(),
        forall|k: int|
            0 <= k < entered_widths@.len() ==> widths_wf((#[trigger] entered_widths@[k])@),
        old(text)@.len() + frags_chars_from(entered@.map_values(|v: Vec<char>| v@), 0)
            < usize::MAX,
        keys@.len() < usize::MAX,
    ensures
        ({
            let over = over_elem_spec(
                tb.pos,
                tb.dim,
                pad_pos_spec(tb.pos, tb.frame_w),
                pad_dim_spec(tb.dim, tb.frame_w),
                mouse.pos,
                text_x_spec(*tb),
                old(widths)@,
            );
            let ns = next_state_spec(over, prev, mouse.left);
            match ns.1 {
                Capturing::Uncaptured => {
                    &&& final(text)@ == old(text)@
                    &&& final(widths)@ == old(widths)@
                    &&& r.0 == ns
                    &&& r.1 == false
                },
                Capturing::Captured(i0, c0) => {
                    let st0 = EditSt {
                        text: old(text)@,
                        ws: old(widths)@,
                        idx: i0 as int,
                        cx: c0 as int,
                    };
                    let st1 = frags_fold_spec(
                        st0,
                        entered@.map_values(|v: Vec<char>| v@),
                        entered_widths@.map_values(|v: Vec<i64>| v@),
                        text_limit_spec(*tb),
                        0,
                    );
                    let fin = keys_fold_spec(st1, keys@, 0);
                    &&& final(text)@ == fin.0.text
                    &&& final(widths)@ == fin.0.ws
                    &&& r.0 == State(
                        ns.0,
                        Capturing::Captured(
                            #[verifier::truncate] (fin.0.idx as usize),
                            #[verifier::truncate] (fin.0.cx as i64),
                        ),
                    )
                    &&& r.1 == fin.1
                },
            }
        }),
{
    let ppos = pad_pos(tb.pos, tb.frame_w);
    let pdim = pad_dim(tb.dim, tb.frame_w);
    let text_x = ppos.x + TEXT_PADDING;
    let limit = ppos.x + pdim.w - TEXT_PADDING;
    let over = over_elem(tb.pos, tb.dim, ppos, pdim, mouse.pos, text_x, widths);
    let ns = get_new_state(over, prev, mouse);
    let (i0, c0) = match ns.1 {
        Capturing::Uncaptured => {
            return (ns, false);
        },
        Capturing::Captured(i, c) => (i, c),
    };

    let ghost frags = entered@.map_values(|v: Vec<char>| v@);
    let ghost fws = entered_widths@.map_values(|v: Vec<i64>| v@);
    let ghost st0 = EditSt { text: text@, ws: widths@, idx: i0 as int, cx: c0 as int };
    let ghost full1 = frags_fold_spec(st0, frags, fws, text_limit_spec(*tb), 0);

    let mut idx: usize = i0;
    let mut cx: i128 = c0 as i128;
    let mut k: usize = 0;
    let mut stopped: bool = false;
    while k < entered.len() && !stopped
        invariant
            0 <= k <= entered@.len(),
            frags == entered@.map_values(|v: Vec<char>| v@),
            fws == entered_widths@.map_values(|v: Vec<i64>| v@),
            entered@.len() == entered_widths@.len(),
            forall|j: int|
                0 <= j < entered@.len() ==> (#[trigger] entered@[j])@.len()
                    == entered_widths@[j]@.len(),
            forall|j: int|
                0 <= j < entered_widths@.len() ==> widths_wf((#[trigger] entered_widths@[j])@),
            text@.len() == widths@.len(),
            text@.len() + frags_chars_from(frags, k as int) < usize::MAX,
            forall|j: int| 0 <= j < widths@.len() ==> 0 <= #[trigger] widths@[j] <= MAX_UNIT,
            -(0x8000_0000_0000_0000int) - (k as int) * 0x8000_0000int <= cx as int,
            cx as int <= 0x8000_0000_0000_0000int + (k as int) * 0x8000_0000int,
            text_limit_spec(*tb) == limit as int,
            !stopped ==> full1 == frags_fold_spec(
                EditSt { text: text@, ws: widths@, idx: idx as int, cx: cx as int },
                frags,
                fws,
                text_limit_spec(*tb),
                k as int,
            ),
            stopped ==> full1 == (EditSt {
                text: text@,
                ws: widths@,
                idx: idx as int,
                cx: cx as int,
            }),
        decreases entered@.len() - k,
    {
        let frag = &entered[k];
        let fw = &entered_widths[k];
        proof {
            assert(frags[k as int] == frag@);
            assert(fws[k as int] == fw@);
            assert(frags_chars_from(frags, k as int) == frags[k as int].len()
                + frags_chars_from(frags, k as int + 1));
        }
        let total = sum_widths(fw);
        if cx + total < (limit as i128) && idx <= text.len() {
            let ghost tbefore = text@;
            let ghost wbefore = widths@;
            let mut j: usize = 0;
            while j < frag.len()
                invariant
                    0 <= j <= frag@.len(),
                    frag@.len() == fw@.len(),
                    idx as int + j as int <= text@.len(),
                    text@.len() == tbefore.len() + j as int,
                    widths@.len() == wbefore.len() + j as int,
                    tbefore.len() + frag@.len() < usize::MAX,
                    idx as int <= tbefore.len(),
                    tbefore.len() == wbefore.len(),
                    text@ == tbefore.take(idx as int) + frag@.take(j as int) + tbefore.skip(
                        idx as int,
                    ),
                    widths@ == wbefore.take(idx as int) + fw@.take(j as int) + wbefore.skip(
                        idx as int,
                    ),
                decreases frag@.len() - j,
            {
                text.insert(idx + j, frag[j]);
                widths.insert(idx + j, fw[j]);
                proof {
                    assert(text@ =~= tbefore.take(idx as int) + frag@.take(j as int + 1)
                        + tbefore.skip(idx as int));
                    assert(widths@ =~= wbefore.take(idx as int) + fw@.take(j as int + 1)
                        + wbefore.skip(idx as int));
                }
                j = j + 1;
            }
            proof {
                assert(text@ =~= tbefore.take(idx as int) + frag@ + tbefore.skip(idx as int));
                assert(widths@ =~= wbefore.take(idx as int) + fw@ + wbefore.skip(idx as int));
                assert(frags[k as int] == frag@);
                assert(fws[k as int] == fw@);
            }
            idx = idx + frag.len();
            cx = cx + total;
        } else {
            proof {
                assert(frags[k as int] == frag@);
                assert(fws[k as int] == fw@);
            }
            stopped = true;
        }
        k = k + 1;
    }
    proof {
        assert(full1 == (EditSt { text: text@, ws: widths@, idx: idx as int, cx: cx as int }));
    }

    let ghost full2 = keys_fold_spec(full1, keys@, 0);
    let ghost nf = k as int;
    let mut enter: bool = false;
    let mut q: usize = 0;
    while q < keys.len()
        invariant
            0 <= q <= keys@.len(),
            text@.len() == widths@.len(),
            forall|j: int| 0 <= j < widths@.len() ==> 0 <= #[trigger] widths@[j] <= MAX_UNIT,
            -(0x8000_0000_0000_0000int) - (nf + q as int) * 0x8000_0000int <= cx as int,
            cx as int <= 0x8000_0000_0000_0000int + (nf + q as int) * 0x8000_0000int,
            0 <= nf <= usize::MAX,
            full2.0 == keys_fold_spec(
                EditSt { text: text@, ws: widths@, idx: idx as int, cx: cx as int },
                keys@,
                q as int,
            ).0,
            full2.1 == (enter || keys_fold_spec(
                EditSt { text: text@, ws: widths@, idx: idx as int, cx: cx as int },
                keys@,
                q as int,
            ).1),
        decreases keys@.len() - q,
    {
        let ghost stq = EditSt { text: text@, ws: widths@, idx: idx as int, cx: cx as int };
        match keys[q] {
            Key::Backspace => {
                if text.len() > 0 && idx <= text.len() && idx > 0 {
                    let w = widths[idx - 1];
                    text.remove(idx - 1);
                    widths.remove(idx - 1);
                    idx = idx - 1;
                    cx = cx - (w as i128);
                }
                proof {
                    assert(keys_fold_spec(stq, keys@, q as int).0 == keys_fold_spec(
                        backspace_spec(stq),
                        keys@,
                        q as int + 1,
                    ).0);
                }
            },
            Key::Left => {
                if idx > 0 && idx <= widths.len() {
                    let w = widths[idx - 1];
                    idx = idx - 1;
                    cx = cx - (w as i128);
                }
            },
            Key::Right => {
                if widths.len() > idx {
                    let w = widths[idx];
                    idx = idx + 1;
                    cx = cx + (w as i128);
                }
            },
            Key::Return => {
                if text.len() > 0 {
                    enter = true;
                }
            },
            Key::Other => {},
        }
        q = q + 1;
    }
    proof {
        assert(full2.0 == (EditSt { text: text@, ws: widths@, idx: idx as int, cx: cx as int }));
        assert(full2.1 == enter);
    }
    (State(ns.0, Capturing::Captured(idx, #[verifier::truncate] (cx as i64))), enter)
}

} // verus!
