//! The rasterization target: a fixed-size pixel buffer with clipped
//! point-set writes.
//!
//! Cells are packed 16-bit colors, row-major, addressed by `y * WIDTH + x`.
//! Out-of-bounds points are silently dropped, never an error.

use vstd::prelude::*;

verus! {

/// Width of the fixed-size pixel surface.
pub const WIDTH: usize = 240;

/// Height of the fixed-size pixel surface.
pub const HEIGHT: usize = 240;

/// How many cells the frame holds.
pub const FRAME_LEN: usize = WIDTH * HEIGHT;

/// A frame holds exactly one cell per pixel of the surface.
pub open spec fn frame_wf(buf: Seq<u16>) -> bool {
    buf.len() == FRAME_LEN
}

/// Whether a point lies on the surface.
pub open spec fn in_bounds(x: int, y: int) -> bool {
    0 <= x < WIDTH && 0 <= y < HEIGHT
}

/// The row-major cell an on-surface point addresses.
pub open spec fn cell_index(x: int, y: int) -> int {
    y * WIDTH + x
}

/// Whether a colored point lies on the surface and addresses cell `idx`.
pub open spec fn maps_to(p: (i32, i32, u16), idx: int) -> bool {
    in_bounds(p.0 as int, p.1 as int) && cell_index(p.0 as int, p.1 as int) == idx
}

/// One clipped point write: overwrite the addressed cell if the point lies
/// on the surface, do nothing otherwise.
pub open spec fn paint_at(buf: Seq<u16>, x: int, y: int, c: u16) -> Seq<u16> {
    if in_bounds(x, y) {
        buf.update(cell_index(x, y), c)
    } else {
        buf
    }
}

/// The frame after writing the colored points from position `i` on, in
/// order.
pub open spec fn paint_from(buf: Seq<u16>, px: Seq<(i32, i32, u16)>, i: int) -> Seq<u16>
    decreases px.len() - i,
{
    if i < 0 || i >= px.len() {
        buf
    } else {
        paint_from(paint_at(buf, px[i].0 as int, px[i].1 as int, px[i].2), px, i + 1)
    }
}

/// The frame after writing a whole colored point set, in order, with
/// out-of-bounds points dropped.
pub open spec fn paint(buf: Seq<u16>, px: Seq<(i32, i32, u16)>) -> Seq<u16> {
    paint_from(buf, px, 0)
}

/// A uniformly colored copy of a bare point set.
pub open spec fn colored(pts: Seq<(i32, i32)>, c: u16) -> Seq<(i32, i32, u16)> {
    pts.map_values(|p: (i32, i32)| (p.0, p.1, c))
}

/// Attach one color to every point of a set.
pub fn with_color(pts: &Vec<(i32, i32)>, c: u16) -> (r: Vec<(i32, i32, u16)>)
    ensures
        r@ == colored(pts@, c),
{
    let mut r: Vec<(i32, i32, u16)> = Vec::new();
    let mut i: usize = 0;
    while i < pts.len()
        invariant
            i <= pts@.len(),
            r@.len() == i,
            forall|j: int| 0 <= j < i ==> r@[j] == (pts@[j].0, pts@[j].1, c),
        decreases pts@.len() - i,
    {
        let (x, y) = pts[i];
        r.push((x, y, c));
        i = i + 1;
    }
    proof {
        assert(r@ =~= colored(pts@, c));
    }
    r
}

/// What one cell holds after the writes from position `i` on, starting
/// from the value `orig`: each covering point overwrites it in turn.
pub open spec fn cell_from(px: Seq<(i32, i32, u16)>, i: int, idx: int, orig: u16) -> u16
    decreases px.len() - i,
{
    if i < 0 || i >= px.len() {
        orig
    } else {
        cell_from(
            px,
            i + 1,
            idx,
            if maps_to(px[i], idx) {
                px[i].2
            } else {
                orig
            },
        )
    }
}

proof fn lemma_paint_from_cell(buf: Seq<u16>, px: Seq<(i32, i32, u16)>, i: int, idx: int)
    requires
        frame_wf(buf),
        0 <= idx < FRAME_LEN,
        0 <= i,
    ensures
        paint_from(buf, px, i).len() == buf.len(),
        paint_from(buf, px, i)[idx] == cell_from(px, i, idx, buf[idx]),
    decreases px.len() - i,
{
    if i < px.len() {
        let x = px[i].0 as int;
        let y = px[i].1 as int;
        assert(in_bounds(x, y) ==> 0 <= cell_index(x, y) < FRAME_LEN) by (nonlinear_arith)
            requires
                FRAME_LEN == WIDTH * HEIGHT,
        ;
        lemma_paint_from_cell(paint_at(buf, x, y, px[i].2), px, i + 1, idx);
    }
}

/// Writing a point set never reaches past the frame: it keeps the frame's
/// length, and each cell ends up holding exactly what the on-surface
/// points addressing it wrote over it, in order.
pub proof fn lemma_paint_cells(buf: Seq<u16>, px: Seq<(i32, i32, u16)>, idx: int)
    requires
        frame_wf(buf),
        0 <= idx < FRAME_LEN,
    ensures
        paint(buf, px).len() == buf.len(),
        paint(buf, px)[idx] == cell_from(px, 0, idx, buf[idx]),
{
    lemma_paint_from_cell(buf, px, 0, idx);
}

proof fn lemma_cell_from_untouched(px: Seq<(i32, i32, u16)>, i: int, idx: int, orig: u16)
    requires
        0 <= i,
        forall|j: int| i <= j < px.len() ==> !maps_to(#[trigger] px[j], idx),
    ensures
        cell_from(px, i, idx, orig) == orig,
    decreases px.len() - i,
{
    if i < px.len() {
        lemma_cell_from_untouched(px, i + 1, idx, orig);
    }
}

/// A cell no on-surface point addresses keeps its value: the draw never
/// writes outside `[0, WIDTH) x [0, HEIGHT)`, whatever the input
/// coordinates, negative ones included.
pub proof fn lemma_paint_untouched(buf: Seq<u16>, px: Seq<(i32, i32, u16)>, idx: int)
    requires
        frame_wf(buf),
        0 <= idx < FRAME_LEN,
        forall|j: int| 0 <= j < px.len() ==> !maps_to(#[trigger] px[j], idx),
    ensures
        paint(buf, px)[idx] == buf[idx],
{
    lemma_paint_cells(buf, px, idx);
    lemma_cell_from_untouched(px, 0, idx, buf[idx]);
}

proof fn lemma_cell_from_last(px: Seq<(i32, i32, u16)>, i: int, j: int, idx: int, orig: u16)
    requires
        0 <= i <= j < px.len(),
        maps_to(px[j], idx),
        forall|j2: int| j < j2 < px.len() ==> !maps_to(#[trigger] px[j2], idx),
    ensures
        cell_from(px, i, idx, orig) == px[j].2,
    decreases px.len() - i,
{
    if i < j {
        lemma_cell_from_last(
            px,
            i + 1,
            j,
            idx,
            if maps_to(px[i], idx) {
                px[i].2
            } else {
                orig
            },
        );
    } else {
        lemma_cell_from_untouched(px, j + 1, idx, px[j].2);
    }
}

/// Later draws occlude earlier ones: a cell takes the color of the last
/// on-surface point that addresses it.
pub proof fn lemma_paint_last_write_wins(
    buf: Seq<u16>,
    px: Seq<(i32, i32, u16)>,
    j: int,
    idx: int,
)
    requires
        frame_wf(buf),
        0 <= idx < FRAME_LEN,
        0 <= j < px.len(),
        maps_to(px[j], idx),
        forall|j2: int| j < j2 < px.len() ==> !maps_to(#[trigger] px[j2], idx),
    ensures
        paint(buf, px)[idx] == px[j].2,
{
    lemma_paint_cells(buf, px, idx);
    lemma_cell_from_last(px, 0, j, idx, buf[idx]);
}

/// An addressable pixel buffer of the fixed surface size.
pub struct Framebuffer {
    buf: Vec<u16>,
}

impl View for Framebuffer {
    type V = Seq<u16>;

    closed spec fn view(&self) -> Seq<u16> {
        self.buf@
    }
}

impl Framebuffer {
    /// A fresh frame with every cell set to the given color.
    pub fn new(color: u16) -> (r: Framebuffer)
        ensures
            frame_wf(r@),
            forall|i: int| 0 <= i < FRAME_LEN ==> r@[i] == color,
    {
        let mut buf: Vec<u16> = Vec::new();
        let mut i: usize = 0;
        while i < FRAME_LEN
            invariant
                i <= FRAME_LEN,
                buf@.len() == i,
                forall|j: int| 0 <= j < i ==> buf@[j] == color,
            decreases FRAME_LEN - i,
        {
            buf.push(color);
            i = i + 1;
        }
        Framebuffer { buf }
    }

    /// The fixed (width, height) the surface was constructed with.
    pub fn dimensions(&self) -> (r: (usize, usize))
        ensures
            r.0 == WIDTH,
            r.1 == HEIGHT,
    {
        (WIDTH, HEIGHT)
    }

    /// Set every cell to the given color.
    pub fn clear(&mut self, color: u16)
        requires
            frame_wf(old(self)@),
        ensures
            frame_wf(final(self)@),
            forall|i: int| 0 <= i < FRAME_LEN ==> final(self)@[i] == color,
    {
        let mut i: usize = 0;
        while i < FRAME_LEN
            invariant
                i <= FRAME_LEN,
                self@.len() == FRAME_LEN,
                forall|j: int| 0 <= j < i ==> self@[j] == color,
            decreases FRAME_LEN - i,
        {
            self.buf.set(i, color);
            i = i + 1;
        }
    }

    /// Write every colored point of the set, in order; points off the
    /// surface are silently dropped.
    pub fn draw_iter(&mut self, px: &Vec<(i32, i32, u16)>)
        requires
            frame_wf(old(self)@),
        ensures
            frame_wf(final(self)@),
            final(self)@ == paint(old(self)@, px@),
    {
        let ghost orig = self@;
        let mut i: usize = 0;
        while i < px.len()
            invariant
                i <= px@.len(),
                self@.len() == FRAME_LEN,
                paint(orig, px@) == paint_from(self@, px@, i as int),
            decreases px@.len() - i,
        {
            let (x, y, c) = px[i];
            if x >= 0 && y >= 0 && (x as usize) < WIDTH && (y as usize) < HEIGHT {
                let idx = (y as usize) * WIDTH + (x as usize);
                proof {
                    assert((y as usize) * WIDTH + (x as usize) < FRAME_LEN) by (nonlinear_arith)
                        requires
                            (y as usize) < HEIGHT,
                            (x as usize) < WIDTH,
                            FRAME_LEN == WIDTH * HEIGHT,
                    ;
                }
                self.buf.set(idx, c);
            }
            i = i + 1;
        }
    }

    /// Write every point of a set in one color, in order; points off the
    /// surface are silently dropped.
    pub fn draw_points(&mut self, pts: &Vec<(i32, i32)>, color: u16)
        requires
            frame_wf(old(self)@),
        ensures
            frame_wf(final(self)@),
            final(self)@ == paint(old(self)@, colored(pts@, color)),
    {
        let px = with_color(pts, color);
        self.draw_iter(&px);
    }

    /// Hand the finished frame over; ownership transfers to the caller.
    pub fn into_frame(self) -> (r: Vec<u16>)
        ensures
            r@ == self@,
    {
        self.buf
    }
}

} // verus!
