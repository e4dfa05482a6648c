//! Frame rendering: jitter the current pose and draw the face in a fixed
//! z-order into a fresh frame.
//!
//! Shape rasterization (triangle fill, polyline stroke, circle fill) is an
//! outside capability: each primitive's pixel set is taken on trust as a
//! named function of its geometry, and the verified code owns the clipped
//! writes, the z-order, and everything the frame contents are stated over.

use vstd::prelude::*;

use crate::framebuffer::colored;
use crate::framebuffer::frame_wf;
use crate::framebuffer::paint;
use crate::framebuffer::Framebuffer;
use crate::framebuffer::FRAME_LEN;
use crate::pose::Pose;
use crate::pose::LABEL_COUNT;
use crate::rng::random_in_range;

use embedded_graphics::geometry::Point;
use embedded_graphics::pixelcolor::Rgb565;
use embedded_graphics::prelude::Primitive;
use embedded_graphics::prelude::RgbColor;
use embedded_graphics::primitives::Circle;
use embedded_graphics::primitives::Polyline;
use embedded_graphics::primitives::PrimitiveStyle;
use embedded_graphics::primitives::PrimitiveStyleBuilder;
use embedded_graphics::primitives::Triangle;

verus! {

/// Packed 16-bit color (5-6-5 bit channels): black.
pub const BLACK: u16 = 0x0000;

/// Packed 16-bit color: full blue, the cleared background.
pub const BLUE: u16 = 0x001F;

/// Packed 16-bit color: full green, the face silhouette.
pub const GREEN: u16 = 0x07E0;

/// Packed 16-bit color: purple, the background triangle pair.
pub const PURPLE: u16 = 0x8010;

/// Stroke width of the eyebrow and eye lines, in pixels.
pub const LINE_WIDTH: u32 = 2;

/// Diameter of the pupil circles, in pixels.
pub const PUPIL_DIAMETER: u32 = 10;

/// Smallest per-label jitter offset on each axis.
pub const JITTER_MIN: i32 = 1;

/// Largest per-label jitter offset on each axis.
pub const JITTER_MAX: i32 = 5;

/// Magnitude bound of the secondary corner jitter on each axis.
pub const CORNER_JITTER: i32 = 10;

/// Largest keypoint coordinate magnitude a pose may carry into rendering.
pub const POSE_COORD_LIMIT: i32 = 9000;

/// Largest coordinate magnitude the shape wrappers accept; inside it the
/// outside primitives' internal 32-bit area arithmetic cannot overflow.
pub const SHAPE_COORD_LIMIT: i32 = 10000;

/// The pixel set of a filled triangle with the given corner points, as the
/// outside rasterizer produces it.
pub uninterp spec fn tri_fill_pts(ax: int, ay: int, bx: int, by: int, cx: int, cy: int) -> Seq<
    (i32, i32),
>;

/// The pixel set of a two-point polyline stroked with the given width, as
/// the outside rasterizer produces it.
pub uninterp spec fn polyline_pts(ax: int, ay: int, bx: int, by: int, w: int) -> Seq<(i32, i32)>;

/// The pixel set of a filled circle with the given bounding-box top-left
/// corner and diameter, as the outside rasterizer produces it.
pub uninterp spec fn circle_fill_pts(x: int, y: int, d: int) -> Seq<(i32, i32)>;

/// Relies on embedded_graphics's Triangle with a fill style: `pixels()`
/// yields the pixels `draw` would emit, a function of the three corner
/// points alone (the fill color does not move any pixel).  The coordinate
/// bound keeps the primitive's internal 32-bit area products from
/// overflowing.
#[verifier::external_body]
fn triangle_fill(ax: i32, ay: i32, bx: i32, by: i32, cx: i32, cy: i32) -> (r: Vec<(i32, i32)>)
    requires
        -SHAPE_COORD_LIMIT <= ax <= SHAPE_COORD_LIMIT,
        -SHAPE_COORD_LIMIT <= ay <= SHAPE_COORD_LIMIT,
        -SHAPE_COORD_LIMIT <= bx <= SHAPE_COORD_LIMIT,
        -SHAPE_COORD_LIMIT <= by <= SHAPE_COORD_LIMIT,
        -SHAPE_COORD_LIMIT <= cx <= SHAPE_COORD_LIMIT,
        -SHAPE_COORD_LIMIT <= cy <= SHAPE_COORD_LIMIT,
    ensures
        r@ == tri_fill_pts(ax as int, ay as int, bx as int, by as int, cx as int, cy as int),
{
    let t = Triangle::new(Point::new(ax, ay), Point::new(bx, by), Point::new(cx, cy));
    t.into_styled(PrimitiveStyle::with_fill(Rgb565::GREEN)).pixels().map(|p| (p.0.x, p.0.y)).collect()
}

/// Relies on embedded_graphics's Polyline with a stroke style: `pixels()`
/// yields the pixels `draw` would emit, a function of the two end points
/// and the stroke width alone (the stroke color does not move any pixel).
#[verifier::external_body]
fn polyline_stroke(ax: i32, ay: i32, bx: i32, by: i32, w: u32) -> (r: Vec<(i32, i32)>)
    requires
        -SHAPE_COORD_LIMIT <= ax <= SHAPE_COORD_LIMIT,
        -SHAPE_COORD_LIMIT <= ay <= SHAPE_COORD_LIMIT,
        -SHAPE_COORD_LIMIT <= bx <= SHAPE_COORD_LIMIT,
        -SHAPE_COORD_LIMIT <= by <= SHAPE_COORD_LIMIT,
        w <= 64,
    ensures
        r@ == polyline_pts(ax as int, ay as int, bx as int, by as int, w as int),
{
    let pts = [Point::new(ax, ay), Point::new(bx, by)];
    let style = PrimitiveStyleBuilder::new().stroke_color(Rgb565::BLACK).stroke_width(w).build();
    Polyline::new(&pts).into_styled(style).pixels().map(|p| (p.0.x, p.0.y)).collect()
}

/// Relies on embedded_graphics's Circle with a fill style: `pixels()`
/// yields the pixels `draw` would emit, a function of the bounding-box
/// top-left point and the diameter alone (the fill color does not move any
/// pixel).
#[verifier::external_body]
fn circle_fill(x: i32, y: i32, d: u32) -> (r: Vec<(i32, i32)>)
    requires
        -SHAPE_COORD_LIMIT <= x <= SHAPE_COORD_LIMIT,
        -SHAPE_COORD_LIMIT <= y <= SHAPE_COORD_LIMIT,
        d <= 1024,
    ensures
        r@ == circle_fill_pts(x as int, y as int, d as int),
{
    let c = Circle::new(Point::new(x, y), d);
    c.into_styled(PrimitiveStyle::with_fill(Rgb565::BLACK)).pixels().map(|p| (p.0.x, p.0.y)).collect()
}

/// The per-frame random offsets: one small positive offset per label, and
/// one secondary offset per corner label for the background triangle pair.
pub struct Jitter {
    pub main: Vec<(i32, i32)>,
    pub corners: Vec<(i32, i32)>,
}

/// A jitter set carries one offset per label, each axis in
/// `JITTER_MIN..=JITTER_MAX`, and four corner offsets, each axis within
/// `CORNER_JITTER` of zero.
pub open spec fn jitter_wf(j: Jitter) -> bool {
    &&& j.main@.len() == LABEL_COUNT
    &&& j.corners@.len() == 4
    &&& forall|i: int|
        0 <= i < LABEL_COUNT ==> JITTER_MIN <= (#[trigger] j.main@[i]).0 <= JITTER_MAX
            && JITTER_MIN <= j.main@[i].1 <= JITTER_MAX
    &&& forall|i: int|
        0 <= i < 4 ==> -CORNER_JITTER <= (#[trigger] j.corners@[i]).0 <= CORNER_JITTER
            && -CORNER_JITTER <= j.corners@[i].1 <= CORNER_JITTER
}

/// Draw a fresh jitter set from the random source.
pub fn random_jitter() -> (j: Jitter)
    ensures
        jitter_wf(j),
{
    let mut main: Vec<(i32, i32)> = Vec::new();
    let mut i: usize = 0;
    while i < LABEL_COUNT
        invariant
            i <= LABEL_COUNT,
            main@.len() == i,
            forall|k: int|
                0 <= k < i ==> JITTER_MIN <= (#[trigger] main@[k]).0 <= JITTER_MAX && JITTER_MIN
                    <= main@[k].1 <= JITTER_MAX,
        decreases LABEL_COUNT - i,
    {
        let dx = random_in_range(JITTER_MIN, JITTER_MAX);
        let dy = random_in_range(JITTER_MIN, JITTER_MAX);
        main.push((dx, dy));
        i = i + 1;
    }
    let mut corners: Vec<(i32, i32)> = Vec::new();
    let mut c: usize = 0;
    while c < 4
        invariant
            c <= 4,
            corners@.len() == c,
            forall|k: int|
                0 <= k < c ==> -CORNER_JITTER <= (#[trigger] corners@[k]).0 <= CORNER_JITTER
                    && -CORNER_JITTER <= corners@[k].1 <= CORNER_JITTER,
        decreases 4 - c,
    {
        let dx = random_in_range(-CORNER_JITTER, CORNER_JITTER);
        let dy = random_in_range(-CORNER_JITTER, CORNER_JITTER);
        corners.push((dx, dy));
        c = c + 1;
    }
    Jitter { main, corners }
}

/// Every label of the pose carries a keypoint.
pub open spec fn pose_complete(p: Pose) -> bool {
    forall|k: int| 0 <= k < LABEL_COUNT ==> (#[trigger] p.spec_get(k)) is Some
}

/// Every keypoint of the pose lies within the given coordinate magnitude.
pub open spec fn pose_bounded(p: Pose, b: int) -> bool {
    forall|k: int|
        0 <= k < LABEL_COUNT ==> -b <= (#[trigger] p.spec_get(k))->0.x <= b && -b <= p.spec_get(
            k,
        )->0.y <= b
}

/// The x coordinate of label `k`'s keypoint with its per-label jitter.
pub open spec fn jit_x(pose: Pose, jit: Jitter, k: int) -> int {
    pose.spec_get(k)->0.x + jit.main@[k].0
}

/// The y coordinate of label `k`'s keypoint with its per-label jitter.
pub open spec fn jit_y(pose: Pose, jit: Jitter, k: int) -> int {
    pose.spec_get(k)->0.y + jit.main@[k].1
}

/// The x coordinate of corner label `k` with both jitters applied.
pub open spec fn corner_x(pose: Pose, jit: Jitter, k: int) -> int {
    jit_x(pose, jit, k) + jit.corners@[k].0
}

/// The y coordinate of corner label `k` with both jitters applied.
pub open spec fn corner_y(pose: Pose, jit: Jitter, k: int) -> int {
    jit_y(pose, jit, k) + jit.corners@[k].1
}

/// The frame `draw_ui` produces: a blue-cleared frame overdrawn in a fixed
/// z-order, so every later draw occludes the earlier ones at overlapping
/// pixels.  The corner labels are the first four of the alphabet; the six
/// eyebrow and eye lines pair the next twelve; the last two labels place
/// the pupils.
pub open spec fn render_spec(pose: Pose, jit: Jitter) -> Seq<u16> {
    let base = Seq::new(FRAME_LEN as nat, |i: int| BLUE);
    let b1 = paint(
        base,
        colored(
            tri_fill_pts(
                corner_x(pose, jit, 0),
                corner_y(pose, jit, 0),
                corner_x(pose, jit, 1),
                corner_y(pose, jit, 1),
                corner_x(pose, jit, 2),
                corner_y(pose, jit, 2),
            ),
            PURPLE,
        ),
    );
    let b2 = paint(
        b1,
        colored(
            tri_fill_pts(
                corner_x(pose, jit, 2),
                corner_y(pose, jit, 2),
                corner_x(pose, jit, 3),
                corner_y(pose, jit, 3),
                corner_x(pose, jit, 0),
                corner_y(pose, jit, 0),
            ),
            PURPLE,
        ),
    );
    let b3 = paint(
        b2,
        colored(
            tri_fill_pts(
                jit_x(pose, jit, 0),
                jit_y(pose, jit, 0),
                jit_x(pose, jit, 1),
                jit_y(pose, jit, 1),
                jit_x(pose, jit, 2),
                jit_y(pose, jit, 2),
            ),
            GREEN,
        ),
    );
    let b4 = paint(
        b3,
        colored(
            tri_fill_pts(
                jit_x(pose, jit, 2),
                jit_y(pose, jit, 2),
                jit_x(pose, jit, 3),
                jit_y(pose, jit, 3),
                jit_x(pose, jit, 0),
                jit_y(pose, jit, 0),
            ),
            GREEN,
        ),
    );
    let b5 = paint(b4, colored(seg_pts(pose, jit, 4), BLACK));
    let b6 = paint(b5, colored(seg_pts(pose, jit, 6), BLACK));
    let b7 = paint(b6, colored(seg_pts(pose, jit, 8), BLACK));
    let b8 = paint(b7, colored(seg_pts(pose, jit, 10), BLACK));
    let b9 = paint(b8, colored(seg_pts(pose, jit, 12), BLACK));
    let b10 = paint(b9, colored(seg_pts(pose, jit, 14), BLACK));
    let b11 = paint(
        b10,
        colored(
            circle_fill_pts(jit_x(pose, jit, 16), jit_y(pose, jit, 16), PUPIL_DIAMETER as int),
            BLACK,
        ),
    );
    let b12 = paint(
        b11,
        colored(
            circle_fill_pts(jit_x(pose, jit, 17), jit_y(pose, jit, 17), PUPIL_DIAMETER as int),
            BLACK,
        ),
    );
    b12
}

/// The pixel set of the stroked line from label `k` to label `k + 1`.
pub open spec fn seg_pts(pose: Pose, jit: Jitter, k: int) -> Seq<(i32, i32)> {
    polyline_pts(
        jit_x(pose, jit, k),
        jit_y(pose, jit, k),
        jit_x(pose, jit, k + 1),
        jit_y(pose, jit, k + 1),
        LINE_WIDTH as int,
    )
}

/// With a fixed jitter set the frame is reproducible: rendering
/// slot-for-slot equal poses under jitter sets with equal offsets gives
/// byte-for-byte the same frame.
pub proof fn lemma_render_deterministic(p1: Pose, p2: Pose, j1: Jitter, j2: Jitter)
    requires
        crate::pose::pose_eq(p1, p2),
        j1.main@ == j2.main@,
        j1.corners@ == j2.corners@,
    ensures
        render_spec(p1, j1) == render_spec(p2, j2),
{
    assert forall|k: int| 0 <= k < LABEL_COUNT implies jit_x(p1, j1, k) == jit_x(p2, j2, k)
        && jit_y(p1, j1, k) == jit_y(p2, j2, k) by {
        assert(p1.spec_get(k) == p2.spec_get(k));
    }
    assert forall|k: int| 0 <= k < 4 implies corner_x(p1, j1, k) == corner_x(p2, j2, k)
        && corner_y(p1, j1, k) == corner_y(p2, j2, k) by {
        assert(p1.spec_get(k) == p2.spec_get(k));
    }
}

/// Whether a pose may be rendered: every label present, every coordinate
/// within the rendering bound.
pub fn pose_renderable(pose: &Pose) -> (r: bool)
    requires
        pose.wf(),
    ensures
        r == (pose_complete(*pose) && pose_bounded(*pose, POSE_COORD_LIMIT as int)),
{
    let mut k: usize = 0;
    let mut ok = true;
    while k < LABEL_COUNT
        invariant
            pose.wf(),
            k <= LABEL_COUNT,
            ok == (forall|j: int|
                0 <= j < k ==> (#[trigger] pose.spec_get(j)) is Some && -POSE_COORD_LIMIT
                    <= pose.spec_get(j)->0.x <= POSE_COORD_LIMIT && -POSE_COORD_LIMIT
                    <= pose.spec_get(j)->0.y <= POSE_COORD_LIMIT),
        decreases LABEL_COUNT - k,
    {
        match pose.get(k) {
            Some(p) => {
                if p.x < -POSE_COORD_LIMIT || p.x > POSE_COORD_LIMIT || p.y < -POSE_COORD_LIMIT
                    || p.y > POSE_COORD_LIMIT {
                    ok = false;
                }
            },
            None => {
                ok = false;
            },
        }
        k = k + 1;
    }
    ok
}

/// Produce one frame from a snapshot of the current pose and a fresh
/// jitter set: clear to blue, paint the jittered background triangle pair,
/// the face silhouette, the eyebrow and eye lines, and the pupils, in that
/// z-order.  The frame is a function of the pose and the jitter alone, so
/// a fixed jitter set reproduces it exactly.
pub fn draw_ui(pose: &Pose, jit: &Jitter) -> (frame: Vec<u16>)
    requires
        pose.wf(),
        pose_complete(*pose),
        pose_bounded(*pose, POSE_COORD_LIMIT as int),
        jitter_wf(*jit),
    ensures
        frame_wf(frame@),
        frame@ == render_spec(*pose, *jit),
{
    let mut fb = Framebuffer::new(BLACK);
    fb.clear(BLUE);
    proof {
        assert(fb@ =~= Seq::new(FRAME_LEN as nat, |i: int| BLUE));
    }
    let mut jpts: Vec<(i32, i32)> = Vec::new();
    let mut k: usize = 0;
    while k < LABEL_COUNT
        invariant
            pose.wf(),
            pose_complete(*pose),
            pose_bounded(*pose, POSE_COORD_LIMIT as int),
            jitter_wf(*jit),
            k <= LABEL_COUNT,
            jpts@.len() == k,
            forall|j: int|
                0 <= j < k ==> (#[trigger] jpts@[j]).0 == jit_x(*pose, *jit, j) && jpts@[j].1
                    == jit_y(*pose, *jit, j),
        decreases LABEL_COUNT - k,
    {
        let p = pose.get(k).unwrap();
        let (dx, dy) = jit.main[k];
        jpts.push((p.x + dx, p.y + dy));
        k = k + 1;
    }
    let (ax, ay) = jpts[0];
    let (bx, by) = jpts[1];
    let (cx, cy) = jpts[2];
    let (dx, dy) = jpts[3];
    let (s0x, s0y) = jit.corners[0];
    let (s1x, s1y) = jit.corners[1];
    let (s2x, s2y) = jit.corners[2];
    let (s3x, s3y) = jit.corners[3];

    let t1 = triangle_fill(ax + s0x, ay + s0y, bx + s1x, by + s1y, cx + s2x, cy + s2y);
    fb.draw_points(&t1, PURPLE);
    let t2 = triangle_fill(cx + s2x, cy + s2y, dx + s3x, dy + s3y, ax + s0x, ay + s0y);
    fb.draw_points(&t2, PURPLE);

    let t3 = triangle_fill(ax, ay, bx, by, cx, cy);
    fb.draw_points(&t3, GREEN);
    let t4 = triangle_fill(cx, cy, dx, dy, ax, ay);
    fb.draw_points(&t4, GREEN);

    let l1 = polyline_stroke(jpts[4].0, jpts[4].1, jpts[5].0, jpts[5].1, LINE_WIDTH);
    fb.draw_points(&l1, BLACK);
    let l2 = polyline_stroke(jpts[6].0, jpts[6].1, jpts[7].0, jpts[7].1, LINE_WIDTH);
    fb.draw_points(&l2, BLACK);
    let l3 = polyline_stroke(jpts[8].0, jpts[8].1, jpts[9].0, jpts[9].1, LINE_WIDTH);
    fb.draw_points(&l3, BLACK);
    let l4 = polyline_stroke(jpts[10].0, jpts[10].1, jpts[11].0, jpts[11].1, LINE_WIDTH);
    fb.draw_points(&l4, BLACK);
    let l5 = polyline_stroke(jpts[12].0, jpts[12].1, jpts[13].0, jpts[13].1, LINE_WIDTH);
    fb.draw_points(&l5, BLACK);
    let l6 = polyline_stroke(jpts[14].0, jpts[14].1, jpts[15].0, jpts[15].1, LINE_WIDTH);
    fb.draw_points(&l6, BLACK);

    let p1 = circle_fill(jpts[16].0, jpts[16].1, PUPIL_DIAMETER);
    fb.draw_points(&p1, BLACK);
    let p2 = circle_fill(jpts[17].0, jpts[17].1, PUPIL_DIAMETER);
    fb.draw_points(&p2, BLACK);

    fb.into_frame()
}

} // verus!
