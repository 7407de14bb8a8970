//! The 2D value pad: a rectangular control that maps the pointer's position
//! inside its pad to a pair of values, one per axis.  The horizontal axis
//! grows rightward with the pixel axis; the vertical axis grows upward,
//! against the pixel axis.

use vstd::prelude::*;
use crate::geometry::{
    dim_wf,
    frame_fits,
    is_over_spec,
    pad_dim,
    pad_dim_spec,
    pad_pos,
    pad_pos_spec,
    point_wf,
    Dimensions,
    Point,
    RectState,
};
use crate::input::{ButtonState, Mouse};
use crate::mapping::{
    clamp,
    clamp_spec,
    frac_map,
    frac_map_spec,
    in_unit_range,
    percentage,
    percentage_spec,
};

verus! {

/// The pad's discrete interaction state, persisted across frames.
#[derive(Clone, Copy, Debug, PartialEq, Eq, Structural)]
pub enum State {
    Normal,
    Highlighted,
    Clicked,
}

impl State {
    /// The fill shade the surrounding rectangle is drawn with.
    pub fn as_rectangle_state(&self) -> (r: RectState)
        ensures
            r == match *self {
                State::Normal => RectState::Normal,
                State::Highlighted => RectState::Highlighted,
                State::Clicked => RectState::Clicked,
            },
    {
        match self {
            State::Normal => RectState::Normal,
            State::Highlighted => RectState::Highlighted,
            State::Clicked => RectState::Clicked,
        }
    }
}

/// The pad's transition table.  A press that starts away from the pad, or
/// one that begins without a hover frame, is ignored; a drag that leaves
/// the pad keeps the capture while the button stays down.
pub open spec fn next_state_spec(is_over: bool, prev: State, left: ButtonState) -> State {
    match (is_over, prev, left) {
        (true, State::Normal, ButtonState::Down) => State::Normal,
        (true, _, ButtonState::Down) => State::Clicked,
        (true, _, ButtonState::Up) => State::Highlighted,
        (false, State::Clicked, ButtonState::Down) => State::Clicked,
        _ => State::Normal,
    }
}

/// Step the pad's state from the previous frame's state and this frame's
/// sampled input.
pub fn get_new_state(is_over: bool, prev: State, mouse: Mouse) -> (r: State)
    ensures
        r == next_state_spec(is_over, prev, mouse.left),
{
    match (is_over, prev, mouse.left) {
        (true, State::Normal, ButtonState::Down) => State::Normal,
        (true, _, ButtonState::Down) => State::Clicked,
        (true, _, ButtonState::Up) => State::Highlighted,
        (false, State::Clicked, ButtonState::Down) => State::Clicked,
        _ => State::Normal,
    }
}

/// Law: hovering is idempotent.  With the pointer over the pad and both
/// buttons up, one frame puts the pad in `Highlighted`, and every further
/// identical frame leaves it there.
pub proof fn lemma_hover_idempotent(prev: State)
    ensures
        next_state_spec(true, prev, ButtonState::Up) == State::Highlighted,
        next_state_spec(true, next_state_spec(true, prev, ButtonState::Up), ButtonState::Up)
            == next_state_spec(true, prev, ButtonState::Up),
{
}

/// The pad's per-frame configuration, fully resolved by the caller before
/// the frame call: geometry, the value ranges of both axes, the current
/// value pair, and the styling sizes the overlay computations read.
#[derive(Clone, Copy, Debug, PartialEq, Eq, Structural)]
pub struct XYPad {
    pub ui_id: u64,
    pub x: i64,
    pub min_x: i64,
    pub max_x: i64,
    pub y: i64,
    pub min_y: i64,
    pub max_y: i64,
    pub line_width: i64,
    pub font_size: u32,
    pub pos: Point,
    pub dim: Dimensions,
    pub frame_w: i64,
}

/// A well-formed pad configuration: bounded geometry, a frame that leaves
/// a nonempty pad, proper value ranges and values within them.
pub open spec fn xy_pad_wf(pad: XYPad) -> bool {
    &&& point_wf(pad.pos)
    &&& dim_wf(pad.dim)
    &&& frame_fits(pad.dim, pad.frame_w)
    &&& in_unit_range(pad.min_x) && in_unit_range(pad.max_x)
    &&& in_unit_range(pad.min_y) && in_unit_range(pad.max_y)
    &&& pad.min_x < pad.max_x
    &&& pad.min_y < pad.max_y
    &&& pad.min_x <= pad.x <= pad.max_x
    &&& pad.min_y <= pad.y <= pad.max_y
}

impl XYPad {
    /// A pad over the given value ranges, with the default geometry and
    /// styling.
    pub fn new(ui_id: u64, x_val: i64, min_x: i64, max_x: i64, y_val: i64, min_y: i64, max_y: i64) -> (r: XYPad)
        ensures
            r == (XYPad {
                ui_id,
                x: x_val,
                min_x,
                max_x,
                y: y_val,
                min_y,
                max_y,
                line_width: 1,
                font_size: 18,
                pos: Point { x: 0, y: 0 },
                dim: Dimensions { w: 128, h: 128 },
                frame_w: 0,
            }),
    {
        XYPad {
            ui_id,
            x: x_val,
            min_x,
            max_x,
            y: y_val,
            min_y,
            max_y,
            line_width: 1,
            font_size: 18,
            pos: Point { x: 0, y: 0 },
            dim: Dimensions { w: 128, h: 128 },
            frame_w: 0,
        }
    }

    /// The same pad with the crosshair line width replaced.
    pub fn line_width(self, width: i64) -> (r: XYPad)
        ensures
            r == (XYPad { line_width: width, ..self }),
    {
        XYPad { line_width: width, ..self }
    }

    /// The same pad with the value label font size replaced.
    pub fn value_font_size(self, size: u32) -> (r: XYPad)
        ensures
            r == (XYPad { font_size: size, ..self }),
    {
        XYPad { font_size: size, ..self }
    }

    /// The same pad moved to `pos`.
    pub fn position(self, pos: Point) -> (r: XYPad)
        ensures
            r == (XYPad { pos, ..self }),
    {
        XYPad { pos, ..self }
    }

    /// The same pad resized to `dim`.
    pub fn size(self, dim: Dimensions) -> (r: XYPad)
        ensures
            r == (XYPad { dim, ..self }),
    {
        XYPad { dim, ..self }
    }

    /// The same pad with the frame width replaced.
    pub fn frame_width(self, frame_w: i64) -> (r: XYPad)
        ensures
            r == (XYPad { frame_w, ..self }),
    {
        XYPad { frame_w, ..self }
    }
}

/// The horizontal value the pointer picks while the pad is clicked: the
/// pointer is clamped into the pad, and its proportion across the pad's
/// width is carried onto the value range.
pub open spec fn picked_x_spec(pad: XYPad, mouse: Mouse) -> int {
    let ppos = pad_pos_spec(pad.pos, pad.frame_w);
    let pdim = pad_dim_spec(pad.dim, pad.frame_w);
    let tx = clamp_spec(mouse.pos.x as int, ppos.x as int, ppos.x + pdim.w);
    frac_map_spec(
        percentage_spec(tx - ppos.x, 0, pdim.w as int),
        pad.min_x as int,
        pad.max_x as int,
    )
}

/// The vertical value the pointer picks while the pad is clicked: as for
/// the horizontal axis, with the span flipped, because the value axis
/// grows upward while the pixel axis grows downward.
pub open spec fn picked_y_spec(pad: XYPad, mouse: Mouse) -> int {
    let ppos = pad_pos_spec(pad.pos, pad.frame_w);
    let pdim = pad_dim_spec(pad.dim, pad.frame_w);
    let ty = clamp_spec(mouse.pos.y as int, ppos.y as int, ppos.y + pdim.h);
    frac_map_spec(
        percentage_spec(ty - ppos.y, pdim.h as int, 0),
        pad.min_y as int,
        pad.max_y as int,
    )
}

/// Everything one frame of the pad decides: the next persisted state, the
/// value pair after the frame, and whether the caller-supplied handler is
/// to be invoked.
#[derive(Clone, Copy, Debug, PartialEq, Eq, Structural)]
pub struct FrameResult {
    pub state: State,
    pub x: i64,
    pub y: i64,
    pub fire: bool,
}

/// The full frame decision as one specification: hit-test, transition,
/// value pick, and the handler rule.  The handler fires when the value
/// pair changed, and also on the two boundary transitions between
/// `Highlighted` and `Clicked`, so that a click without movement still
/// signals intent.
pub open spec fn update_spec(pad: XYPad, prev: State, mouse: Mouse) -> FrameResult {
    let ppos = pad_pos_spec(pad.pos, pad.frame_w);
    let pdim = pad_dim_spec(pad.dim, pad.frame_w);
    let over = is_over_spec(ppos, pdim, mouse.pos);
    let ns = next_state_spec(over, prev, mouse.left);
    let nx = if ns is Clicked { picked_x_spec(pad, mouse) } else { pad.x as int };
    let ny = if ns is Clicked { picked_y_spec(pad, mouse) } else { pad.y as int };
    let fire = nx != pad.x || ny != pad.y || (prev is Highlighted && ns is Clicked) || (prev
        is Clicked && ns is Highlighted);
    FrameResult { state: ns, x: nx as i64, y: ny as i64, fire }
}

/// One frame of the pad: read the previous state, hit-test, step the
/// state, pick the new value pair while clicked, and decide whether the
/// handler fires.  The caller invokes its handler with `(r.x, r.y)` when
/// `r.fire` holds, then persists `r.state`.
pub fn update(pad: &XYPad, prev: State, mouse: Mouse) -> (r: FrameResult)
    requires
        xy_pad_wf(*pad),
    ensures
        r == update_spec(*pad, prev, mouse),
        pad.min_x <= r.x <= pad.max_x,
        pad.min_y <= r.y <= pad.max_y,
{
    let ppos = pad_pos(pad.pos, pad.frame_w);
    let pdim = pad_dim(pad.dim, pad.frame_w);
    let over = crate::geometry::is_over(ppos, pdim, mouse.pos);
    let ns = get_new_state(over, prev, mouse);
    let (nx, ny) = match ns {
        State::Clicked => {
            let tx = clamp(mouse.pos.x, ppos.x, ppos.x + pdim.w);
            let ty = clamp(mouse.pos.y, ppos.y, ppos.y + pdim.h);
            let fx = percentage(tx - ppos.x, 0, pdim.w);
            let fy = percentage(ty - ppos.y, pdim.h, 0);
            (frac_map(fx, pad.min_x, pad.max_x), frac_map(fy, pad.min_y, pad.max_y))
        },
        _ => (pad.x, pad.y),
    };
    let boundary = match (prev, ns) {
        (State::Highlighted, State::Clicked) => true,
        (State::Clicked, State::Highlighted) => true,
        _ => false,
    };
    let fire = nx != pad.x || ny != pad.y || boundary;
    FrameResult { state: ns, x: nx, y: ny, fire }
}

/// Law: a click without movement still fires.  When the pointer rests over
/// the pad and the value pair does not change, the press frame
/// (`Highlighted` to `Clicked`) and the release frame (`Clicked` to
/// `Highlighted`) each invoke the handler exactly once.
pub proof fn lemma_click_without_move_fires(pad: XYPad, prev: State, mouse: Mouse)
    requires
        is_over_spec(
            pad_pos_spec(pad.pos, pad.frame_w),
            pad_dim_spec(pad.dim, pad.frame_w),
            mouse.pos,
        ),
        (prev is Highlighted && mouse.left is Down) || (prev is Clicked && mouse.left is Up),
    ensures
        update_spec(pad, prev, mouse).fire,
        prev is Highlighted ==> update_spec(pad, prev, mouse).state is Clicked,
        prev is Clicked ==> update_spec(pad, prev, mouse).state is Highlighted,
{
}

/// Where the crosshair is drawn while the pad rests: the pad's current
/// value pair carried back onto pad pixels, with the vertical axis
/// flipped.
pub fn crosshair_pos(pad: &XYPad) -> (r: Point)
    requires
        xy_pad_wf(*pad),
    ensures
        r.x == frac_map_spec(
            percentage_spec(pad.x as int, pad.min_x as int, pad.max_x as int),
            pad_pos_spec(pad.pos, pad.frame_w).x as int,
            pad_pos_spec(pad.pos, pad.frame_w).x + pad_dim_spec(pad.dim, pad.frame_w).w,
        ),
        r.y == frac_map_spec(
            percentage_spec(pad.y as int, pad.min_y as int, pad.max_y as int),
            pad_pos_spec(pad.pos, pad.frame_w).y + pad_dim_spec(pad.dim, pad.frame_w).h,
            pad_pos_spec(pad.pos, pad.frame_w).y as int,
        ),
        is_over_spec(
            pad_pos_spec(pad.pos, pad.frame_w),
            pad_dim_spec(pad.dim, pad.frame_w),
            r,
        ),
{
    let ppos = pad_pos(pad.pos, pad.frame_w);
    let pdim = pad_dim(pad.dim, pad.frame_w);
    let fx = percentage(pad.x, pad.min_x, pad.max_x);
    let fy = percentage(pad.y, pad.min_y, pad.max_y);
    let vert_x = frac_map(fx, ppos.x, ppos.x + pdim.w);
    let hori_y = frac_map(fy, ppos.y + pdim.h, ppos.y);
    Point { x: vert_x, y: hori_y }
}

} // verus!
