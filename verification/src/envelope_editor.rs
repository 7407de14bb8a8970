//! The envelope (curve) editor: a pad holding an externally-owned,
//! X-sorted collection of points.  Points are dragged with the left
//! button, removed with the right button, and added by clicking empty pad
//! space; a dragged point may never cross its neighbors in X.

use vstd::prelude::*;
use vstd::arithmetic::mul::lemma_mul_inequality;
use vstd::seq_lib::group_to_multiset_ensures;
use crate::geometry::{
    dim_wf,
    dist2_spec,
    pad_box_wf,
    frame_fits,
    is_over_spec,
    pad_dim,
    pad_dim_spec,
    pad_pos,
    pad_pos_spec,
    pix_point_wf,
    point_wf,
    Dimensions,
    Point,
    RectState,
};
use crate::input::{ButtonState, Mouse};
use crate::mapping::{
    clamp,
    clamp_spec,
    frac_le,
    frac_le_spec,
    frac_map,
    frac_map_spec,
    frac_wf,
    in_unit_range,
    percentage,
    percentage_spec,
    skew_apply,
    skew_unapply,
    skew_unapply_spec,
    pow_frac_spec,
    Frac,
    MAX_UNIT,
};

verus! {

/// The sub-region of the editor under the cursor.  A point element keeps
/// the index it was resolved at and the pixel position it was last seen
/// at; the index is a cross-frame hint that is revalidated against the
/// live collection before every use.
#[derive(Clone, Copy, Debug, PartialEq, Eq, Structural)]
pub enum Element {
    Rect,
    Pad,
    EnvPoint(usize, Point),
    CurvePoint(usize, Point),
}

/// Which mouse button a capture was made with.
#[derive(Clone, Copy, Debug, PartialEq, Eq, Structural)]
pub enum MouseButton {
    Left,
    Right,
}

/// The editor's discrete interaction state, persisted across frames.
#[derive(Clone, Copy, Debug, PartialEq, Eq, Structural)]
pub enum State {
    Normal,
    Highlighted(Element),
    Clicked(Element, MouseButton),
}

impl State {
    /// The fill shade the surrounding rectangle is drawn with.
    pub fn as_rectangle_state(&self) -> (r: RectState)
        ensures
            r == match *self {
                State::Normal => RectState::Normal,
                State::Highlighted(_) => RectState::Highlighted,
                State::Clicked(_, _) => RectState::Clicked,
            },
    {
        match self {
            State::Normal => RectState::Normal,
            State::Highlighted(_) => RectState::Highlighted,
            State::Clicked(_, _) => RectState::Clicked,
        }
    }
}

/// A point element carried through a drag, refreshed with the cursor's
/// latest pixel position; other elements pass through unchanged.
pub open spec fn refresh_elem_spec(e: Element, m: Point) -> Element {
    match e {
        Element::EnvPoint(idx, _) => Element::EnvPoint(idx, m),
        Element::CurvePoint(idx, _) => Element::CurvePoint(idx, m),
        _ => e,
    }
}

/// The editor's transition table.  A press must start from a hover; a
/// hovered element is captured on the press edge together with the
/// button; a capture holds, with the element's position refreshed, while
/// the captured button stays down, on or off the pad; everything else
/// falls back to `Normal`.
pub open spec fn next_state_spec(is_over_elem: Option<Element>, prev: State, mouse: Mouse) -> State {
    match (is_over_elem, prev, mouse.left, mouse.right) {
        (Some(_), State::Normal, ButtonState::Down, ButtonState::Up) => State::Normal,
        (Some(elem), _, ButtonState::Up, ButtonState::Up) => State::Highlighted(elem),
        (Some(elem), State::Highlighted(_), ButtonState::Down, ButtonState::Up) => State::Clicked(
            elem,
            MouseButton::Left,
        ),
        (Some(_), State::Clicked(p_elem, m_button), ButtonState::Down, ButtonState::Up) => State::Clicked(
            refresh_elem_spec(p_elem, mouse.pos),
            m_button,
        ),
        (Some(_), State::Clicked(p_elem, m_button), ButtonState::Up, ButtonState::Down) => State::Clicked(
            refresh_elem_spec(p_elem, mouse.pos),
            m_button,
        ),
        (None, State::Clicked(p_elem, m_button), ButtonState::Down, ButtonState::Up) => State::Clicked(
            if m_button is Left {
                refresh_elem_spec(p_elem, mouse.pos)
            } else {
                p_elem
            },
            MouseButton::Left,
        ),
        (Some(_), State::Highlighted(p_elem), ButtonState::Up, ButtonState::Down) => State::Clicked(
            refresh_elem_spec(p_elem, mouse.pos),
            MouseButton::Right,
        ),
        _ => State::Normal,
    }
}

/// Step the editor's state from the previous frame's state and this
/// frame's sampled input.
pub fn get_new_state(is_over_elem: Option<Element>, prev: State, mouse: Mouse) -> (r: State)
    ensures
        r == next_state_spec(is_over_elem, prev, mouse),
{
    match (is_over_elem, prev, mouse.left, mouse.right) {
        (Some(_), State::Normal, ButtonState::Down, ButtonState::Up) => State::Normal,
        (Some(elem), _, ButtonState::Up, ButtonState::Up) => State::Highlighted(elem),
        (Some(elem), State::Highlighted(_), ButtonState::Down, ButtonState::Up) => State::Clicked(
            elem,
            MouseButton::Left,
        ),
        (Some(_), State::Clicked(p_elem, m_button), ButtonState::Down, ButtonState::Up) => State::Clicked(
            refresh_elem(p_elem, mouse.pos),
            m_button,
        ),
        (Some(_), State::Clicked(p_elem, m_button), ButtonState::Up, ButtonState::Down) => State::Clicked(
            refresh_elem(p_elem, mouse.pos),
            m_button,
        ),
        (None, State::Clicked(p_elem, m_button), ButtonState::Down, ButtonState::Up) => State::Clicked(
            if matches!(m_button, MouseButton::Left) {
                refresh_elem(p_elem, mouse.pos)
            } else {
                p_elem
            },
            MouseButton::Left,
        ),
        (Some(_), State::Highlighted(p_elem), ButtonState::Up, ButtonState::Down) => State::Clicked(
            refresh_elem(p_elem, mouse.pos),
            MouseButton::Right,
        ),
        _ => State::Normal,
    }
}

/// Refresh a point element with the cursor's latest pixel position.
fn refresh_elem(e: Element, m: Point) -> (r: Element)
    ensures
        r == refresh_elem_spec(e, m),
{
    match e {
        Element::EnvPoint(idx, _) => Element::EnvPoint(idx, m),
        Element::CurvePoint(idx, _) => Element::CurvePoint(idx, m),
        _ => e,
    }
}

/// Law: hovering is idempotent.  With the pointer over some element and
/// both buttons up, one frame puts the editor in `Highlighted` on that
/// element, and every further identical frame leaves it there.
pub proof fn lemma_hover_idempotent(elem: Element, prev: State, mouse: Mouse)
    requires
        mouse.left is Up,
        mouse.right is Up,
    ensures
        next_state_spec(Some(elem), prev, mouse) == State::Highlighted(elem),
        next_state_spec(Some(elem), next_state_spec(Some(elem), prev, mouse), mouse)
            == next_state_spec(Some(elem), prev, mouse),
{
}

/// The capability any concrete point type of the caller satisfies to
/// populate the editor's collection: plain getters and setters for the X
/// and Y values and the per-point curve depth, and a constructor.  Each
/// setter changes its own value and keeps the other two.
pub trait EnvelopePoint: Sized {
    /// The point's X value.
    spec fn x_spec(&self) -> i64;

    /// The point's Y value.
    spec fn y_spec(&self) -> i64;

    /// The point's curve depth for the interpolation toward the next
    /// point.
    spec fn curve_spec(&self) -> i64;

    /// Return the X value.
    fn get_x(&self) -> (r: i64)
        ensures
            r == self.x_spec(),
    ;

    /// Return the Y value.
    fn get_y(&self) -> (r: i64)
        ensures
            r == self.y_spec(),
    ;

    /// Set the X value.
    fn set_x(&mut self, x: i64)
        ensures
            final(self).x_spec() == x,
            final(self).y_spec() == old(self).y_spec(),
            final(self).curve_spec() == old(self).curve_spec(),
    ;

    /// Set the Y value.
    fn set_y(&mut self, y: i64)
        ensures
            final(self).y_spec() == y,
            final(self).x_spec() == old(self).x_spec(),
            final(self).curve_spec() == old(self).curve_spec(),
    ;

    /// Return the curve depth.
    fn get_curve(&self) -> (r: i64)
        ensures
            r == self.curve_spec(),
    ;

    /// Set the curve depth.
    fn set_curve(&mut self, curve: i64)
        ensures
            final(self).curve_spec() == curve,
            final(self).x_spec() == old(self).x_spec(),
            final(self).y_spec() == old(self).y_spec(),
    ;

    /// Make a new point at the given values.
    fn new(x: i64, y: i64) -> (r: Self)
        ensures
            r.x_spec() == x,
            r.y_spec() == y,
    ;
}

/// A plain point satisfying the `EnvelopePoint` capability: two values
/// and a curve depth, held directly.
#[derive(Clone, Copy, Debug, PartialEq, Eq, Structural)]
pub struct PlainPoint {
    pub x: i64,
    pub y: i64,
    pub curve: i64,
}

impl EnvelopePoint for PlainPoint {
    open spec fn x_spec(&self) -> i64 {
        self.x
    }

    open spec fn y_spec(&self) -> i64 {
        self.y
    }

    open spec fn curve_spec(&self) -> i64 {
        self.curve
    }

    fn get_x(&self) -> (r: i64) {
        self.x
    }

    fn get_y(&self) -> (r: i64) {
        self.y
    }

    fn set_x(&mut self, x: i64) {
        self.x = x;
    }

    fn set_y(&mut self, y: i64) {
        self.y = y;
    }

    fn get_curve(&self) -> (r: i64) {
        self.curve
    }

    fn set_curve(&mut self, curve: i64) {
        self.curve = curve;
    }

    fn new(x: i64, y: i64) -> (r: Self) {
        PlainPoint { x, y, curve: 0 }
    }
}

/// The collection is sorted by X, ascending; ties are allowed.
pub open spec fn sorted_by_x<E: EnvelopePoint>(s: Seq<E>) -> bool {
    forall|i: int, j: int| 0 <= i < j < s.len() ==> #[trigger] s[i].x_spec() <= #[trigger] s[j].x_spec()
}

/// The editor's per-frame configuration, fully resolved by the caller
/// before the frame call: geometry, both value ranges, the vertical
/// power-law skew exponent, the point capture radius and the styling
/// sizes the overlay computations read.
#[derive(Clone, Copy, Debug, PartialEq, Eq, Structural)]
pub struct EnvelopeEditor {
    pub ui_id: u64,
    pub skew_y_range: u32,
    pub min_x: i64,
    pub max_x: i64,
    pub min_y: i64,
    pub max_y: i64,
    pub pt_radius: i64,
    pub line_width: i64,
    pub font_size: u32,
    pub pos: Point,
    pub dim: Dimensions,
    pub frame_w: i64,
}

/// A well-formed editor configuration: bounded geometry, a frame that
/// leaves a nonempty pad, proper value ranges, a positive skew exponent
/// and a bounded capture radius.
pub open spec fn env_editor_wf(ed: EnvelopeEditor) -> bool {
    &&& point_wf(ed.pos)
    &&& dim_wf(ed.dim)
    &&& frame_fits(ed.dim, ed.frame_w)
    &&& in_unit_range(ed.min_x) && in_unit_range(ed.max_x)
    &&& in_unit_range(ed.min_y) && in_unit_range(ed.max_y)
    &&& ed.min_x < ed.max_x
    &&& ed.min_y < ed.max_y
    &&& ed.skew_y_range >= 1
    &&& 0 <= ed.pt_radius <= MAX_UNIT
}

impl EnvelopeEditor {
    /// An editor over the given value ranges, with the default geometry
    /// and styling and no skew.
    pub fn new(ui_id: u64, min_x: i64, max_x: i64, min_y: i64, max_y: i64) -> (r: EnvelopeEditor)
        ensures
            r == (EnvelopeEditor {
                ui_id,
                skew_y_range: 1,
                min_x,
                max_x,
                min_y,
                max_y,
                pt_radius: 6,
                line_width: 2,
                font_size: 18,
                pos: Point { x: 0, y: 0 },
                dim: Dimensions { w: 256, h: 128 },
                frame_w: 0,
            }),
    {
        EnvelopeEditor {
            ui_id,
            skew_y_range: 1,
            min_x,
            max_x,
            min_y,
            max_y,
            pt_radius: 6,
            line_width: 2,
            font_size: 18,
            pos: Point { x: 0, y: 0 },
            dim: Dimensions { w: 256, h: 128 },
            frame_w: 0,
        }
    }

    /// The same editor with the point capture radius replaced.
    pub fn point_radius(self, radius: i64) -> (r: EnvelopeEditor)
        ensures
            r == (EnvelopeEditor { pt_radius: radius, ..self }),
    {
        EnvelopeEditor { pt_radius: radius, ..self }
    }

    /// The same editor with the envelope line width replaced.
    pub fn line_width(self, width: i64) -> (r: EnvelopeEditor)
        ensures
            r == (EnvelopeEditor { line_width: width, ..self }),
    {
        EnvelopeEditor { line_width: width, ..self }
    }

    /// The same editor with the value label font size replaced.
    pub fn value_font_size(self, size: u32) -> (r: EnvelopeEditor)
        ensures
            r == (EnvelopeEditor { font_size: size, ..self }),
    {
        EnvelopeEditor { font_size: size, ..self }
    }

    /// The same editor with the vertical skew exponent replaced.
    pub fn skew_y(self, skew: u32) -> (r: EnvelopeEditor)
        ensures
            r == (EnvelopeEditor { skew_y_range: skew, ..self }),
    {
        EnvelopeEditor { skew_y_range: skew, ..self }
    }

    /// The same editor moved to `pos`.
    pub fn position(self, pos: Point) -> (r: EnvelopeEditor)
        ensures
            r == (EnvelopeEditor { pos, ..self }),
    {
        EnvelopeEditor { pos, ..self }
    }

    /// The same editor resized to `dim`.
    pub fn size(self, dim: Dimensions) -> (r: EnvelopeEditor)
        ensures
            r == (EnvelopeEditor { dim, ..self }),
    {
        EnvelopeEditor { dim, ..self }
    }

    /// The same editor with the frame width replaced.
    pub fn frame_width(self, frame_w: i64) -> (r: EnvelopeEditor)
        ensures
            r == (EnvelopeEditor { frame_w, ..self }),
    {
        EnvelopeEditor { frame_w, ..self }
    }
}

/// One point of the per-frame percentage snapshot: both values as
/// proportions of their ranges (the vertical one with the skew undone,
/// ready for display), and the curve depth carried through.
#[derive(Clone, Copy, Debug, PartialEq, Eq, Structural)]
pub struct PercPoint {
    pub x: Frac,
    pub y: Frac,
    pub curve: i64,
}

/// The percentage snapshot of one point.  Values are clamped into the
/// configured ranges first, so the snapshot is total whatever the
/// externally-owned collection holds.
pub open spec fn perc_point_spec(x: i64, y: i64, curve: i64, ed: EnvelopeEditor) -> PercPoint {
    PercPoint {
        x: percentage_spec(
            clamp_spec(x as int, ed.min_x as int, ed.max_x as int),
            ed.min_x as int,
            ed.max_x as int,
        ),
        y: skew_unapply_spec(
            percentage_spec(
                clamp_spec(y as int, ed.min_y as int, ed.max_y as int),
                ed.min_y as int,
                ed.max_y as int,
            ),
            ed.skew_y_range as nat,
        ),
        curve,
    }
}

/// The percentage snapshot of the whole collection.
pub open spec fn perc_env_spec<E: EnvelopePoint>(env: Seq<E>, ed: EnvelopeEditor) -> Seq<PercPoint> {
    Seq::new(env.len(), |i: int| perc_point_spec(env[i].x_spec(), env[i].y_spec(), env[i].curve_spec(), ed))
}

/// Build the per-frame percentage snapshot of the collection.
pub fn percentage_env<E: EnvelopePoint>(env: &Vec<E>, ed: &EnvelopeEditor) -> (r: Vec<PercPoint>)
    requires
        env_editor_wf(*ed),
    ensures
        r@ == perc_env_spec(env@, *ed),
        forall|i: int| 0 <= i < r@.len() ==> frac_wf(#[trigger] r@[i].x),
        forall|i: int| 0 <= i < r@.len() ==> frac_wf(#[trigger] r@[i].y),
        forall|i: int| 0 <= i < r@.len() ==> (#[trigger] r@[i].x).den == ed.max_x - ed.min_x,
{
    let mut r: Vec<PercPoint> = Vec::new();
    let mut i: usize = 0;
    while i < env.len()
        invariant
            env_editor_wf(*ed),
            0 <= i <= env@.len(),
            r@.len() == i,
            forall|j: int|
                0 <= j < i ==> r@[j] == perc_point_spec(
                    env@[j].x_spec(),
                    env@[j].y_spec(),
                    env@[j].curve_spec(),
                    *ed,
                ),
            forall|j: int| 0 <= j < i ==> frac_wf(#[trigger] r@[j].x),
            forall|j: int| 0 <= j < i ==> frac_wf(#[trigger] r@[j].y),
            forall|j: int| 0 <= j < i ==> (#[trigger] r@[j].x).den == ed.max_x - ed.min_x,
        decreases env@.len() - i,
    {
        let x = env[i].get_x();
        let y = env[i].get_y();
        let curve = env[i].get_curve();
        let cx = clamp(x, ed.min_x, ed.max_x);
        let cy = clamp(y, ed.min_y, ed.max_y);
        let fx = percentage(cx, ed.min_x, ed.max_x);
        let fy = skew_unapply(percentage(cy, ed.min_y, ed.max_y), ed.skew_y_range);
        r.push(PercPoint { x: fx, y: fy, curve });
        i = i + 1;
    }
    proof {
        assert(r@ =~= perc_env_spec(env@, *ed));
    }
    r
}

/// Where a snapshot point is drawn: its proportions carried onto the pad
/// rectangle, the vertical axis flipped.
pub open spec fn env_pt_pos_spec(p: PercPoint, ppos: Point, pdim: Dimensions) -> Point {
    Point {
        x: frac_map_spec(p.x, ppos.x as int, ppos.x + pdim.w) as i64,
        y: frac_map_spec(p.y, ppos.y + pdim.h, ppos.y as int) as i64,
    }
}

/// Compute a snapshot point's pixel position on the pad.
fn env_pt_pos(p: PercPoint, ppos: Point, pdim: Dimensions) -> (r: Point)
    requires
        frac_wf(p.x),
        frac_wf(p.y),
        pad_box_wf(ppos, pdim),
    ensures
        r == env_pt_pos_spec(p, ppos, pdim),
        pix_point_wf(r),
        is_over_spec(ppos, pdim, r),
{
    let x = frac_map(p.x, ppos.x, ppos.x + pdim.w);
    let y = frac_map(p.y, ppos.y + pdim.h, ppos.y);
    Point { x, y }
}

/// The snapshot point at `p` lies within the capture radius of the
/// pointer.
pub open spec fn within_radius_spec(
    p: PercPoint,
    ppos: Point,
    pdim: Dimensions,
    mouse_pos: Point,
    radius: i64,
) -> bool {
    dist2_spec(mouse_pos, env_pt_pos_spec(p, ppos, pdim)) <= radius * radius
}

/// Hit-test the editor.  Away from the widget nothing is hit; over the
/// frame only the border rectangle is; over the pad, the first point
/// within the capture radius is hit exactly, and otherwise the pad is
/// hit while the earliest of the closest points is reported separately,
/// so a caller can tell pad-hover from point-hover.
pub fn is_over_and_closest(
    pos: Point,
    mouse_pos: Point,
    dim: Dimensions,
    ppos: Point,
    pdim: Dimensions,
    perc_env: &Vec<PercPoint>,
    pt_radius: i64,
) -> (r: (Option<Element>, Option<Element>))
    requires
        pix_point_wf(pos),
        dim_wf(dim),
        point_wf(mouse_pos),
        pad_box_wf(ppos, pdim),
        0 <= pt_radius <= MAX_UNIT,
        forall|i: int| 0 <= i < perc_env@.len() ==> frac_wf(#[trigger] perc_env@[i].x),
        forall|i: int| 0 <= i < perc_env@.len() ==> frac_wf(#[trigger] perc_env@[i].y),
    ensures
        !is_over_spec(pos, dim, mouse_pos) ==> r == (None::<Element>, None::<Element>),
        is_over_spec(pos, dim, mouse_pos) && !is_over_spec(ppos, pdim, mouse_pos) ==> r == (
            Some(Element::Rect),
            Some(Element::Rect),
        ),
        is_over_spec(pos, dim, mouse_pos) && is_over_spec(ppos, pdim, mouse_pos) ==> {
            let pts = perc_env@;
            &&& (exists|j: int|
                0 <= j < pts.len() && within_radius_spec(pts[j], ppos, pdim, mouse_pos, pt_radius))
                ==> (exists|i: int|
                {
                    &&& 0 <= i < pts.len()
                    &&& within_radius_spec(pts[i], ppos, pdim, mouse_pos, pt_radius)
                    &&& forall|j: int|
                        0 <= j < i ==> !within_radius_spec(pts[j], ppos, pdim, mouse_pos, pt_radius)
                    &&& r.0 == Some(
                        Element::EnvPoint(i as usize, env_pt_pos_spec(pts[i], ppos, pdim)),
                    )
                    &&& r.1 == r.0
                })
            &&& (forall|j: int|
                0 <= j < pts.len() ==> !within_radius_spec(pts[j], ppos, pdim, mouse_pos, pt_radius))
                ==> {
                &&& r.0 == Some(Element::Pad)
                &&& pts.len() == 0 ==> r.1 == Some(Element::Pad)
                &&& pts.len() > 0 ==> (exists|k: int|
                    {
                        &&& 0 <= k < pts.len()
                        &&& forall|j: int|
                            0 <= j < pts.len() ==> dist2_spec(
                                mouse_pos,
                                env_pt_pos_spec(pts[k], ppos, pdim),
                            ) <= dist2_spec(mouse_pos, env_pt_pos_spec(pts[j], ppos, pdim))
                        &&& forall|j: int|
                            0 <= j < k ==> dist2_spec(
                                mouse_pos,
                                env_pt_pos_spec(pts[j], ppos, pdim),
                            ) > dist2_spec(mouse_pos, env_pt_pos_spec(pts[k], ppos, pdim))
                        &&& r.1 == Some(
                            Element::EnvPoint(k as usize, env_pt_pos_spec(pts[k], ppos, pdim)),
                        )
                    })
            }
        },
{
    if !crate::geometry::is_over(pos, dim, mouse_pos) {
        return (None, None);
    }
    if !crate::geometry::is_over(ppos, pdim, mouse_pos) {
        return (Some(Element::Rect), Some(Element::Rect));
    }
    proof {
        vstd::arithmetic::mul::lemma_mul_upper_bound(
            pt_radius as int,
            MAX_UNIT as int,
            pt_radius as int,
            MAX_UNIT as int,
        );
        vstd::arithmetic::mul::lemma_mul_nonnegative(pt_radius as int, pt_radius as int);
    }
    let r2: i128 = (pt_radius as i128) * (pt_radius as i128);
    let mut have: bool = false;
    let mut closest_i: usize = 0;
    let mut best_d: i128 = 0;
    let mut i: usize = 0;
    while i < perc_env.len()
        invariant
            point_wf(mouse_pos),
            pad_box_wf(ppos, pdim),
            is_over_spec(pos, dim, mouse_pos),
            is_over_spec(ppos, pdim, mouse_pos),
            0 <= pt_radius <= MAX_UNIT,
            r2 == pt_radius * pt_radius,
            forall|j: int| 0 <= j < perc_env@.len() ==> frac_wf(#[trigger] perc_env@[j].x),
            forall|j: int| 0 <= j < perc_env@.len() ==> frac_wf(#[trigger] perc_env@[j].y),
            0 <= i <= perc_env@.len(),
            forall|j: int|
                0 <= j < i ==> !within_radius_spec(perc_env@[j], ppos, pdim, mouse_pos, pt_radius),
            have == (i > 0),
            have ==> {
                &&& 0 <= closest_i < i
                &&& best_d == dist2_spec(
                    mouse_pos,
                    env_pt_pos_spec(perc_env@[closest_i as int], ppos, pdim),
                )
                &&& forall|j: int| 0 <= j < i ==> best_d <= dist2_spec(
                    mouse_pos,
                    env_pt_pos_spec(perc_env@[j], ppos, pdim),
                )
                &&& forall|j: int| 0 <= j < closest_i ==> best_d < dist2_spec(
                    mouse_pos,
                    env_pt_pos_spec(perc_env@[j], ppos, pdim),
                )
            },
        decreases perc_env@.len() - i,
    {
        let ppt = env_pt_pos(perc_env[i], ppos, pdim);
        let d = crate::geometry::dist2(mouse_pos, ppt);
        if d <= r2 {
            let hit = Some(Element::EnvPoint(i, ppt));
            return (hit, hit);
        }
        if !have || d < best_d {
            have = true;
            closest_i = i;
            best_d = d;
        }
        i = i + 1;
    }
    if have {
        let ppt = env_pt_pos(perc_env[closest_i], ppos, pdim);
        (Some(Element::Pad), Some(Element::EnvPoint(closest_i, ppt)))
    } else {
        (Some(Element::Pad), Some(Element::Pad))
    }
}

/// The X proportions a dragged point at `idx` must stay between: its
/// right neighbor's proportion, or one; its left neighbor's proportion,
/// or zero.
pub open spec fn x_bounds_spec(pts: Seq<PercPoint>, idx: int, den: i64) -> (Frac, Frac) {
    let right = if pts.len() > 0 && pts.len() - 1 > idx {
        pts[idx + 1].x
    } else {
        Frac { num: den, den }
    };
    let left = if pts.len() > 0 && idx > 0 {
        pts[idx - 1].x
    } else {
        Frac { num: 0, den }
    };
    (left, right)
}

/// The left and right X bounds for the point at `idx`, as proportions.
pub fn get_x_bounds(perc_env: &Vec<PercPoint>, idx: usize, den: i64) -> (r: (Frac, Frac))
    requires
        0 < den <= 2 * MAX_UNIT,
        idx < perc_env@.len() || perc_env@.len() == 0,
        forall|i: int| 0 <= i < perc_env@.len() ==> frac_wf(#[trigger] perc_env@[i].x),
    ensures
        r == x_bounds_spec(perc_env@, idx as int, den),
        frac_wf(r.0),
        frac_wf(r.1),
{
    let len = perc_env.len();
    let right = if len > 0 && len - 1 > idx {
        perc_env[idx + 1].x
    } else {
        Frac { num: den, den }
    };
    let left = if len > 0 && idx > 0 {
        perc_env[idx - 1].x
    } else {
        Frac { num: 0, den }
    };
    (left, right)
}

/// The value pair the pointer picks for the dragged point at `idx`: the
/// pointer is clamped into the pad; its horizontal proportion is clamped
/// between the neighbors' proportions and carried onto the X range; its
/// vertical proportion is flipped, skewed, and carried onto the Y range.
pub open spec fn new_value_spec(
    pts: Seq<PercPoint>,
    idx: int,
    mouse_pos: Point,
    ed: EnvelopeEditor,
) -> (int, int) {
    let ppos = pad_pos_spec(ed.pos, ed.frame_w);
    let pdim = pad_dim_spec(ed.dim, ed.frame_w);
    let mx = clamp_spec(mouse_pos.x - ppos.x, 0, pdim.w as int);
    let my = clamp_spec(mouse_pos.y - ppos.y, 0, pdim.h as int);
    let fx = percentage_spec(mx, 0, pdim.w as int);
    let fy0 = percentage_spec(my, pdim.h as int, 0);
    let fy = Frac {
        num: pow_frac_spec(fy0.num as int, fy0.den as int, ed.skew_y_range as nat) as i64,
        den: fy0.den,
    };
    let bounds = x_bounds_spec(pts, idx, (ed.max_x - ed.min_x) as i64);
    let fxc = if !frac_le_spec(fx, bounds.1) {
        bounds.1
    } else if !frac_le_spec(bounds.0, fx) {
        bounds.0
    } else {
        fx
    };
    (
        frac_map_spec(fxc, ed.min_x as int, ed.max_x as int),
        frac_map_spec(fy, ed.min_y as int, ed.max_y as int),
    )
}

/// The value pair the pointer picks for a fresh point: as for a dragged
/// point, without the neighbor clamp.
pub open spec fn fresh_value_spec(mouse_pos: Point, ed: EnvelopeEditor) -> (int, int) {
    let ppos = pad_pos_spec(ed.pos, ed.frame_w);
    let pdim = pad_dim_spec(ed.dim, ed.frame_w);
    let mx = clamp_spec(mouse_pos.x - ppos.x, 0, pdim.w as int);
    let my = clamp_spec(mouse_pos.y - ppos.y, 0, pdim.h as int);
    let fx = percentage_spec(mx, 0, pdim.w as int);
    let fy0 = percentage_spec(my, pdim.h as int, 0);
    let fy = Frac {
        num: pow_frac_spec(fy0.num as int, fy0.den as int, ed.skew_y_range as nat) as i64,
        den: fy0.den,
    };
    (
        frac_map_spec(fx, ed.min_x as int, ed.max_x as int),
        frac_map_spec(fy, ed.min_y as int, ed.max_y as int),
    )
}

/// Compute the value pair for the dragged point at `idx`.
pub fn get_new_value(
    perc_env: &Vec<PercPoint>,
    idx: usize,
    mouse_pos: Point,
    ed: &EnvelopeEditor,
) -> (r: (i64, i64))
    requires
        env_editor_wf(*ed),
        point_wf(mouse_pos),
        idx < perc_env@.len() || perc_env@.len() == 0,
        forall|i: int| 0 <= i < perc_env@.len() ==> frac_wf(#[trigger] perc_env@[i].x),
    ensures
        (r.0 as int, r.1 as int) == new_value_spec(perc_env@, idx as int, mouse_pos, *ed),
        ed.min_x <= r.0 <= ed.max_x,
        ed.min_y <= r.1 <= ed.max_y,
{
    let ppos = pad_pos(ed.pos, ed.frame_w);
    let pdim = pad_dim(ed.dim, ed.frame_w);
    let mx = clamp(mouse_pos.x - ppos.x, 0, pdim.w);
    let my = clamp(mouse_pos.y - ppos.y, 0, pdim.h);
    let fx = percentage(mx, 0, pdim.w);
    let fy = skew_apply(percentage(my, pdim.h, 0), ed.skew_y_range);
    let bounds = get_x_bounds(perc_env, idx, ed.max_x - ed.min_x);
    let fxc = if !frac_le(fx, bounds.1) {
        bounds.1
    } else if !frac_le(bounds.0, fx) {
        bounds.0
    } else {
        fx
    };
    (frac_map(fxc, ed.min_x, ed.max_x), frac_map(fy, ed.min_y, ed.max_y))
}

/// Sort the collection by X ascending with a stable insertion sort: the
/// points are a permutation of the input, equal X values keep their
/// relative order.
pub fn sort_by_x<E: EnvelopePoint>(env: &mut Vec<E>)
    ensures
        final(env)@.len() == old(env)@.len(),
        final(env)@.to_multiset() == old(env)@.to_multiset(),
        sorted_by_x(final(env)@),
{
    broadcast use group_to_multiset_ensures;

    let ghost orig = env@;
    let mut i: usize = 1;
    while i < env.len()
        invariant
            1 <= i,
            env@.len() == orig.len(),
            env@.to_multiset() == orig.to_multiset(),
            forall|a: int, b: int|
                0 <= a < b < i && b < env@.len() ==> #[trigger] env@[a].x_spec()
                    <= #[trigger] env@[b].x_spec(),
        decreases env@.len() - i,
    {
        let xi = env[i].get_x();
        let mut k: usize = 0;
        while k < i && env[k].get_x() <= xi
            invariant
                0 <= k <= i,
                i < env@.len(),
                xi == env@[i as int].x_spec(),
                forall|j: int| 0 <= j < k ==> #[trigger] env@[j].x_spec() <= xi,
            decreases i - k,
        {
            k = k + 1;
        }
        if k < i {
            let ghost before = env@;
            let p = env.remove(i);
            env.insert(k, p);
            proof {
                broadcast use vstd::multiset::group_multiset_axioms;

                let after = env@;
                vstd::seq_lib::to_multiset_remove(before, i as int);
                vstd::seq_lib::to_multiset_insert(before.remove(i as int), k as int, p);
                assert(before.contains(p)) by {
                    assert(before[i as int] == p);
                }
                vstd::seq_lib::to_multiset_contains(before, p);
                assert(before.to_multiset().count(p) > 0);
                assert(after.to_multiset() =~= before.to_multiset());
                assert(after =~= before.subrange(0, k as int).push(p) + before.subrange(
                    k as int,
                    i as int,
                ) + before.subrange(i as int + 1, before.len() as int));
                assert forall|a: int, b: int|
                    0 <= a < b < i + 1 && b < after.len() implies #[trigger] after[a].x_spec()
                    <= #[trigger] after[b].x_spec() by {
                    assert(forall|j: int|
                        0 <= j < after.len() ==> after[j] == (if j < k {
                            before[j]
                        } else if j == k {
                            p
                        } else if j <= i {
                            before[j - 1]
                        } else {
                            before[j]
                        }));
                    assert(before[k as int].x_spec() > xi);
                }
            }
        }
        i = i + 1;
    }
}

/// What one frame of the editor does to the collection, decided by the
/// previous and the next state and the live collection length.  A point
/// index retained in a state is used only after revalidation against the
/// length, so a collection that shrank between frames is never indexed
/// out of bounds: the stale action degrades to `Keep`.
#[derive(Clone, Copy, Debug, PartialEq, Eq, Structural)]
pub enum EnvAction {
    /// Leave the collection as it is.
    Keep,
    /// Write the dragged value pair into the point at the index.
    Adjust(usize),
    /// Remove the point at the index.
    Remove(usize),
    /// Re-write the point at the index while the drag goes on, if the
    /// picked value pair changed.
    Drag(usize),
    /// Add a fresh point at the picked value pair and re-sort.
    Insert,
}

/// The point index the new state rests on, if any.
pub open spec fn clicked_point_of(ns: State) -> Option<usize> {
    match ns {
        State::Clicked(Element::EnvPoint(i, _), _) => Some(i),
        State::Highlighted(Element::EnvPoint(i, _)) => Some(i),
        _ => None,
    }
}

/// The mutation one frame performs, from the previous state, the next
/// state and the collection's live length.
pub open spec fn env_action_spec(prev: State, ns: State, len: nat) -> EnvAction {
    match clicked_point_of(ns) {
        Some(idx) => {
            if idx >= len {
                EnvAction::Keep
            } else {
                match (prev, ns) {
                    (State::Clicked(_, MouseButton::Left), State::Highlighted(_)) => EnvAction::Adjust(idx),
                    (State::Clicked(_, MouseButton::Right), State::Highlighted(_)) => EnvAction::Remove(idx),
                    (
                        State::Clicked(_, MouseButton::Left),
                        State::Clicked(_, MouseButton::Left),
                    ) => EnvAction::Drag(idx),
                    _ => EnvAction::Keep,
                }
            }
        },
        None => {
            match (prev, ns) {
                (State::Clicked(Element::Pad, MouseButton::Left), State::Highlighted(_)) => EnvAction::Insert,
                _ => EnvAction::Keep,
            }
        },
    }
}

/// Compute the value pair for a fresh point from the pointer alone.
fn compute_fresh_value(mouse_pos: Point, ed: &EnvelopeEditor) -> (r: (i64, i64))
    requires
        env_editor_wf(*ed),
        point_wf(mouse_pos),
    ensures
        (r.0 as int, r.1 as int) == fresh_value_spec(mouse_pos, *ed),
        ed.min_x <= r.0 <= ed.max_x,
        ed.min_y <= r.1 <= ed.max_y,
{
    let ppos = pad_pos(ed.pos, ed.frame_w);
    let pdim = pad_dim(ed.dim, ed.frame_w);
    let mx = clamp(mouse_pos.x - ppos.x, 0, pdim.w);
    let my = clamp(mouse_pos.y - ppos.y, 0, pdim.h);
    let fx = percentage(mx, 0, pdim.w);
    let fy = skew_apply(percentage(my, pdim.h, 0), ed.skew_y_range);
    (frac_map(fx, ed.min_x, ed.max_x), frac_map(fy, ed.min_y, ed.max_y))
}

/// One frame of the editor: hit-test against the current geometry, step
/// the state, apply the mutation the transition edge calls for, and say
/// which point index the caller-supplied handler is to be invoked with.
/// The caller invokes its handler with the collection and `r.1`'s index
/// when `r.1` is `Some`, then persists `r.0`.
pub fn update<E: EnvelopePoint>(
    ed: &EnvelopeEditor,
    prev: State,
    env: &mut Vec<E>,
    mouse: Mouse,
) -> (r: (State, Option<usize>))
    requires
        env_editor_wf(*ed),
        point_wf(mouse.pos),
        old(env)@.len() < usize::MAX,
    ensures
        !is_over_spec(ed.pos, ed.dim, mouse.pos) ==> r.0 == next_state_spec(None, prev, mouse),
        is_over_spec(ed.pos, ed.dim, mouse.pos) ==> (exists|e: Element|
            r.0 == next_state_spec(Some(e), prev, mouse)),
        is_over_spec(ed.pos, ed.dim, mouse.pos) && !is_over_spec(
            pad_pos_spec(ed.pos, ed.frame_w),
            pad_dim_spec(ed.dim, ed.frame_w),
            mouse.pos,
        ) ==> r.0 == next_state_spec(Some(Element::Rect), prev, mouse),
        is_over_spec(ed.pos, ed.dim, mouse.pos) && is_over_spec(
            pad_pos_spec(ed.pos, ed.frame_w),
            pad_dim_spec(ed.dim, ed.frame_w),
            mouse.pos,
        ) && (forall|j: int|
            0 <= j < old(env)@.len() ==> !within_radius_spec(
                perc_env_spec(old(env)@, *ed)[j],
                pad_pos_spec(ed.pos, ed.frame_w),
                pad_dim_spec(ed.dim, ed.frame_w),
                mouse.pos,
                ed.pt_radius,
            )) ==> r.0 == next_state_spec(Some(Element::Pad), prev, mouse),
        is_over_spec(ed.pos, ed.dim, mouse.pos) && mouse.left is Up && mouse.right is Up
            ==> r.0 is Highlighted,
        ({
            let act = env_action_spec(prev, r.0, old(env)@.len() as nat);
            match act {
                EnvAction::Keep => final(env)@ == old(env)@ && r.1 is None,
                EnvAction::Adjust(idx) => {
                    let nv = new_value_spec(
                        perc_env_spec(old(env)@, *ed),
                        idx as int,
                        mouse.pos,
                        *ed,
                    );
                    &&& final(env)@.len() == old(env)@.len()
                    &&& final(env)@[idx as int].x_spec() == nv.0
                    &&& final(env)@[idx as int].y_spec() == nv.1
                    &&& final(env)@[idx as int].curve_spec() == old(env)@[idx as int].curve_spec()
                    &&& (forall|j: int|
                        0 <= j < old(env)@.len() && j != idx ==> final(env)@[j] == old(env)@[j])
                    &&& r.1 == Some(idx)
                },
                EnvAction::Remove(idx) => final(env)@ == old(env)@.remove(idx as int) && r.1
                    == Some(idx),
                EnvAction::Drag(idx) => {
                    let nv = new_value_spec(
                        perc_env_spec(old(env)@, *ed),
                        idx as int,
                        mouse.pos,
                        *ed,
                    );
                    if nv != (
                        old(env)@[idx as int].x_spec() as int,
                        old(env)@[idx as int].y_spec() as int,
                    ) {
                        &&& final(env)@.len() == old(env)@.len()
                        &&& final(env)@[idx as int].x_spec() == nv.0
                        &&& final(env)@[idx as int].y_spec() == nv.1
                        &&& final(env)@[idx as int].curve_spec() == old(env)@[
                            idx as int
                        ].curve_spec()
                        &&& (forall|j: int|
                            0 <= j < old(env)@.len() && j != idx ==> final(env)@[j] == old(
                                env,
                            )@[j])
                        &&& r.1 == Some(idx)
                    } else {
                        final(env)@ == old(env)@ && r.1 is None
                    }
                },
                EnvAction::Insert => {
                    let nv = fresh_value_spec(mouse.pos, *ed);
                    &&& final(env)@.len() == old(env)@.len() + 1
                    &&& sorted_by_x(final(env)@)
                    &&& (exists|p: E|
                        p.x_spec() == nv.0 && p.y_spec() == nv.1 && final(env)@.to_multiset()
                            == old(env)@.to_multiset().insert(p))
                    &&& r.1 is None
                },
            }
        }),
{
    let ppos = pad_pos(ed.pos, ed.frame_w);
    let pdim = pad_dim(ed.dim, ed.frame_w);
    let perc_env = percentage_env(env, ed);
    let over = is_over_and_closest(
        ed.pos,
        mouse.pos,
        ed.dim,
        ppos,
        pdim,
        &perc_env,
        ed.pt_radius,
    );
    let new_state = get_new_state(over.0, prev, mouse);
    proof {
        if is_over_spec(ed.pos, ed.dim, mouse.pos) {
            let gppos = pad_pos_spec(ed.pos, ed.frame_w);
            let gpdim = pad_dim_spec(ed.dim, ed.frame_w);
            if is_over_spec(gppos, gpdim, mouse.pos) {
                if exists|j: int|
                    0 <= j < perc_env@.len() && within_radius_spec(
                        perc_env@[j],
                        gppos,
                        gpdim,
                        mouse.pos,
                        ed.pt_radius,
                    ) {
                    let i = choose|i: int|
                        {
                            &&& 0 <= i < perc_env@.len()
                            &&& within_radius_spec(perc_env@[i], gppos, gpdim, mouse.pos, ed.pt_radius)
                            &&& forall|j: int|
                                0 <= j < i ==> !within_radius_spec(
                                    perc_env@[j],
                                    gppos,
                                    gpdim,
                                    mouse.pos,
                                    ed.pt_radius,
                                )
                            &&& over.0 == Some(
                                Element::EnvPoint(
                                    i as usize,
                                    env_pt_pos_spec(perc_env@[i], gppos, gpdim),
                                ),
                            )
                            &&& over.1 == over.0
                        };
                    let e = Element::EnvPoint(
                        i as usize,
                        env_pt_pos_spec(perc_env@[i], gppos, gpdim),
                    );
                    assert(new_state == next_state_spec(Some(e), prev, mouse));
                } else {
                    assert(over.0 == Some(Element::Pad));
                    assert(new_state == next_state_spec(Some(Element::Pad), prev, mouse));
                }
            } else {
                assert(over.0 == Some(Element::Rect));
                assert(new_state == next_state_spec(Some(Element::Rect), prev, mouse));
            }
        }
    }
    let clicked: Option<usize> = match new_state {
        State::Clicked(Element::EnvPoint(i, _), _) => Some(i),
        State::Highlighted(Element::EnvPoint(i, _)) => Some(i),
        _ => None,
    };
    match clicked {
        Some(idx) => {
            if idx >= env.len() {
                // the retained index went stale: the collection shrank
                // since it was captured, so the action is dropped
                return (new_state, None);
            }
            match (prev, new_state) {
                (State::Clicked(_, MouseButton::Left), State::Highlighted(_)) => {
                    let nv = get_new_value(&perc_env, idx, mouse.pos, ed);
                    env[idx].set_x(nv.0);
                    env[idx].set_y(nv.1);
                    (new_state, Some(idx))
                },
                (State::Clicked(_, MouseButton::Right), State::Highlighted(_)) => {
                    env.remove(idx);
                    (new_state, Some(idx))
                },
                (State::Clicked(_, MouseButton::Left), State::Clicked(_, MouseButton::Left)) => {
                    let nv = get_new_value(&perc_env, idx, mouse.pos, ed);
                    let cx = env[idx].get_x();
                    let cy = env[idx].get_y();
                    if nv.0 != cx || nv.1 != cy {
                        env[idx].set_x(nv.0);
                        env[idx].set_y(nv.1);
                        (new_state, Some(idx))
                    } else {
                        (new_state, None)
                    }
                },
                _ => (new_state, None),
            }
        },
        None => {
            match (prev, new_state) {
                (State::Clicked(Element::Pad, MouseButton::Left), State::Highlighted(_)) => {
                    let nv = compute_fresh_value(mouse.pos, ed);
                    add_point(env, nv.0, nv.1);
                    (new_state, None)
                },
                _ => (new_state, None),
            }
        },
    }
}

/// Law: a dragged point never crosses its neighbors.  For a sorted
/// collection whose values lie within the configured range, the X value
/// a drag of the point at `idx` picks stays between the left neighbor's
/// X (or the range's minimum) and the right neighbor's X (or the range's
/// maximum), wherever the pointer goes.
pub proof fn lemma_neighbor_clamp<E: EnvelopePoint>(
    env: Seq<E>,
    idx: int,
    mouse_pos: Point,
    ed: EnvelopeEditor,
)
    requires
        env_editor_wf(ed),
        0 <= idx < env.len(),
        sorted_by_x(env),
        forall|i: int|
            0 <= i < env.len() ==> ed.min_x <= #[trigger] env[i].x_spec() <= ed.max_x,
    ensures
        ({
            let nv = new_value_spec(perc_env_spec(env, ed), idx, mouse_pos, ed);
            &&& ed.min_x <= nv.0 <= ed.max_x
            &&& idx > 0 ==> nv.0 >= env[idx - 1].x_spec()
            &&& idx < env.len() - 1 ==> nv.0 <= env[idx + 1].x_spec()
        }),
{
    let pts = perc_env_spec(env, ed);
    let den = (ed.max_x - ed.min_x) as i64;
    let ppos = pad_pos_spec(ed.pos, ed.frame_w);
    let pdim = pad_dim_spec(ed.dim, ed.frame_w);
    let mx = clamp_spec(mouse_pos.x - ppos.x, 0, pdim.w as int);
    let fx = percentage_spec(mx, 0, pdim.w as int);
    let bounds = x_bounds_spec(pts, idx, den);
    let lb = bounds.0;
    let rb = bounds.1;
    let fxc = if !frac_le_spec(fx, rb) {
        rb
    } else if !frac_le_spec(lb, fx) {
        lb
    } else {
        fx
    };
    let nv0 = frac_map_spec(fxc, ed.min_x as int, ed.max_x as int);

    assert(frac_wf(fx));
    assert(idx > 0 ==> lb == Frac {
        num: (env[idx - 1].x_spec() - ed.min_x) as i64,
        den,
    });
    assert(idx < env.len() - 1 ==> rb == Frac {
        num: (env[idx + 1].x_spec() - ed.min_x) as i64,
        den,
    });
    assert(frac_wf(lb));
    assert(frac_wf(rb));
    // the bounds are ordered: a left neighbor never exceeds a right one
    assert(frac_le_spec(lb, rb)) by {
        if idx > 0 && idx < env.len() - 1 {
            assert(env[idx - 1].x_spec() <= env[idx + 1].x_spec());
        }
        lemma_mul_inequality(lb.num as int, rb.num as int, den as int);
    }
    // so the clamped proportion sits between them
    assert(frac_le_spec(lb, fxc) && frac_le_spec(fxc, rb));
    // carry the ordering onto the value range
    crate::mapping::lemma_frac_map_ordered(lb, fxc, ed.min_x as int, ed.max_x as int);
    crate::mapping::lemma_frac_map_ordered(fxc, rb, ed.min_x as int, ed.max_x as int);
    crate::mapping::lemma_frac_map_bounds(fxc, ed.min_x as int, ed.max_x as int);
    // the neighbors' proportions map back to the neighbors' values
    if idx > 0 {
        crate::mapping::lemma_map_round_trip(
            env[idx - 1].x_spec() as int,
            ed.min_x as int,
            ed.max_x as int,
        );
        assert(frac_map_spec(lb, ed.min_x as int, ed.max_x as int) == env[idx - 1].x_spec());
    }
    if idx < env.len() - 1 {
        crate::mapping::lemma_map_round_trip(
            env[idx + 1].x_spec() as int,
            ed.min_x as int,
            ed.max_x as int,
        );
        assert(frac_map_spec(rb, ed.min_x as int, ed.max_x as int) == env[idx + 1].x_spec());
    }
    assert(nv0 == new_value_spec(pts, idx, mouse_pos, ed).0);
}

/// Add a fresh point at the given values and re-sort the collection by X
/// ascending.  Whatever order the collection arrived in, it leaves
/// sorted: every pair of adjacent points is ordered by X.
pub fn add_point<E: EnvelopePoint>(env: &mut Vec<E>, x: i64, y: i64)
    ensures
        final(env)@.len() == old(env)@.len() + 1,
        sorted_by_x(final(env)@),
        exists|p: E|
            p.x_spec() == x && p.y_spec() == y && final(env)@.to_multiset() == old(
                env,
            )@.to_multiset().insert(p),
{
    broadcast use group_to_multiset_ensures;

    let p = E::new(x, y);
    env.push(p);
    sort_by_x(env);
}

} // verus!
