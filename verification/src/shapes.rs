//! The primitive assembler: shape descriptors become counter-clockwise
//! triangles in the frame batch, in normalized device coordinates.
//!
//! Every vertex first rotates about its shape's centroid, then maps from
//! pixel space to the device's `-FX_ONE..FX_ONE` square; the Y axis flips
//! because pixel space grows downward. All shapes share one color and
//! one rotation-about-centroid model, and all triangles are wound the
//! same way, since a frame is drawn by a single indexed call under
//! back-face culling.

use vstd::prelude::*;

verus! {

use crate::batch::Vertex;
use crate::color::Color;
use crate::fixed::{COORD_LIMIT, FX_ONE, div_trunc, fx_div, lemma_div_trunc_bound};
use crate::renderer::{Phase, RenderState, Renderer, appended};
use crate::trig::{Rotation, rotate_point, rotate_x, rotate_y, rotation_from_millidegrees,
    spec_rotation};

/// The normalized X coordinate of pixel-space `x` on a surface `w` wide:
/// `2x/w - 1`, in fixed point.
pub open spec fn ndc_x(x: int, w: int) -> int
    recommends
        w >= 1,
{
    div_trunc(2 * x, w) - 65536
}

/// The normalized Y coordinate of pixel-space `y` on a surface `h` tall:
/// `-(2y/h - 1)`, in fixed point; pixel Y grows downward, device Y
/// upward.
pub open spec fn ndc_y(y: int, h: int) -> int
    recommends
        h >= 1,
{
    65536 - div_trunc(2 * y, h)
}

/// The batched vertex a pixel-space point becomes.
pub open spec fn ndc_vertex(x: int, y: int, color: Color, w: int, h: int) -> Vertex {
    Vertex { x: ndc_x(x, w) as i64, y: ndc_y(y, h) as i64, color }
}

/// Pixel-space magnitude every assembled world coordinate stays inside:
/// rotation can at most double an offset bounded by `COORD_LIMIT`, and
/// translation adds two more of them.
pub const WORLD_LIMIT: i64 = 0x800_0000_0000;

impl Renderer {
    /// Maps a pixel-space point to normalized device coordinates on the
    /// current surface size.
    pub fn to_ndc(&self, x: i64, y: i64) -> (p: (i64, i64))
        requires
            self.wf(),
            -WORLD_LIMIT <= x <= WORLD_LIMIT,
            -WORLD_LIMIT <= y <= WORLD_LIMIT,
        ensures
            p.0 == ndc_x(x as int, self.width as int),
            p.1 == ndc_y(y as int, self.height as int),
    {
        proof {
            lemma_ndc_div_bounded(x as int, self.width as int);
            lemma_ndc_div_bounded(y as int, self.height as int);
        }
        let nx = fx_div(2 * x, self.width as i64) - FX_ONE;
        let ny = FX_ONE - fx_div(2 * y, self.height as i64);
        (nx, ny)
    }

    /// The batched vertex for a pixel-space point on the current
    /// surface.
    fn ndc_vertex_at(&self, x: i64, y: i64, color: Color) -> (v: Vertex)
        requires
            self.wf(),
            -WORLD_LIMIT <= x <= WORLD_LIMIT,
            -WORLD_LIMIT <= y <= WORLD_LIMIT,
        ensures
            v == ndc_vertex(x as int, y as int, color, self.width as int, self.height as int),
    {
        let p = self.to_ndc(x, y);
        Vertex { x: p.0, y: p.1, color }
    }
}

/// The truncated quotient of the normalized transform stays within twice
/// the world limit, so the subtraction of `FX_ONE` cannot overflow.
proof fn lemma_ndc_div_bounded(x: int, w: int)
    requires
        w >= 1,
        -0x800_0000_0000 <= x <= 0x800_0000_0000,
    ensures
        -0x1000_0000_0000 <= div_trunc(2 * x, w) <= 0x1000_0000_0000,
{
    assert(0x1000_0000_0000 <= 0x1000_0000_0000 * w) by (nonlinear_arith)
        requires
            w >= 1,
    ;
    lemma_div_trunc_bound(2 * x, w, 0x1000_0000_0000);
}

/// One corner of a rectangle: offsets of half the extents from the
/// centroid, rotated, translated back, and normalized. Corners are
/// numbered 0 top-left, 1 top-right, 2 bottom-right, 3 bottom-left.
pub open spec fn spec_rect_vertex(
    x: int,
    y: int,
    w: int,
    h: int,
    rot: Rotation,
    color: Color,
    sw: int,
    sh: int,
    k: int,
) -> Vertex {
    let hw = div_trunc(w, 2);
    let hh = div_trunc(h, 2);
    let cx = x + hw;
    let cy = y + hh;
    let ox = if k == 0 || k == 3 {
        -hw
    } else {
        hw
    };
    let oy = if k == 0 || k == 1 {
        -hh
    } else {
        hh
    };
    ndc_vertex(cx + rotate_x(rot, ox, oy), cy + rotate_y(rot, ox, oy), color, sw, sh)
}

/// The four corners a rectangle contributes, in push order.
pub open spec fn spec_rect_vertices(
    x: int,
    y: int,
    w: int,
    h: int,
    rot: Rotation,
    color: Color,
    sw: int,
    sh: int,
) -> Seq<Vertex> {
    Seq::new(4, |k: int| spec_rect_vertex(x, y, w, h, rot, color, sw, sh, k))
}

/// The two counter-clockwise triangles of a rectangle, relative to its
/// first corner: {bottom-right, top-right, top-left} and {bottom-left,
/// bottom-right, top-left}.
pub open spec fn rect_rel_indices() -> Seq<u16> {
    seq![2u16, 1u16, 0u16, 3u16, 2u16, 0u16]
}

/// The renderer state after drawing one rectangle.
pub open spec fn rect_drawn(
    s: RenderState,
    x: int,
    y: int,
    w: int,
    h: int,
    color: Color,
    angle: int,
) -> RenderState {
    appended(
        s,
        spec_rect_vertices(x, y, w, h, spec_rotation(angle), color, s.width as int, s.height as int),
        rect_rel_indices(),
    )
}

/// The closed-form transform of the four unrotated corners: the origin
/// corner itself, and the corners a full (twice-half) extent away, each
/// mapped straight to normalized device coordinates.
pub open spec fn spec_rect_plain_vertices(
    x: int,
    y: int,
    w: int,
    h: int,
    color: Color,
    sw: int,
    sh: int,
) -> Seq<Vertex> {
    let hw = div_trunc(w, 2);
    let hh = div_trunc(h, 2);
    seq![
        ndc_vertex(x, y, color, sw, sh),
        ndc_vertex(x + 2 * hw, y, color, sw, sh),
        ndc_vertex(x + 2 * hw, y + 2 * hh, color, sw, sh),
        ndc_vertex(x, y + 2 * hh, color, sw, sh),
    ]
}

/// The identity matrix moves no point: multiplying by `FX_ONE` and
/// scaling back down is exact.
proof fn lemma_rotate_identity(ox: int, oy: int)
    ensures
        rotate_x(Rotation { cos: 65536 as i64, sin: 0 as i64 }, ox, oy) == ox,
        rotate_y(Rotation { cos: 65536 as i64, sin: 0 as i64 }, ox, oy) == oy,
{
    assert(65536 * ox - 0 * oy == 65536 * ox);
    assert(0 * ox + 65536 * oy == 65536 * oy);
    crate::fixed::lemma_div_trunc_exact(ox, 65536);
    crate::fixed::lemma_div_trunc_exact(oy, 65536);
}

/// Law: with rotation zero, the four assembled vertices are exactly the
/// closed-form transform of the four unrotated corners — the rotation
/// machinery is the identity at angle zero.
pub proof fn lemma_rect_zero_rotation(
    x: int,
    y: int,
    w: int,
    h: int,
    color: Color,
    sw: int,
    sh: int,
)
    ensures
        spec_rect_vertices(x, y, w, h, spec_rotation(0), color, sw, sh)
            == spec_rect_plain_vertices(x, y, w, h, color, sw, sh),
{
    crate::trig::lemma_rotation_zero_is_identity();
    let rot = spec_rotation(0);
    let hw = div_trunc(w, 2);
    let hh = div_trunc(h, 2);
    lemma_rotate_identity(-hw, -hh);
    lemma_rotate_identity(hw, -hh);
    lemma_rotate_identity(hw, hh);
    lemma_rotate_identity(-hw, hh);
    assert(spec_rect_vertices(x, y, w, h, rot, color, sw, sh) =~= spec_rect_plain_vertices(
        x,
        y,
        w,
        h,
        color,
        sw,
        sh,
    ));
}

/// Law: rotating a rectangle by one more full turn reproduces exactly
/// the vertices of the unshifted angle.
pub proof fn lemma_rect_full_turn(
    s: RenderState,
    x: int,
    y: int,
    w: int,
    h: int,
    color: Color,
    angle: int,
)
    ensures
        rect_drawn(s, x, y, w, h, color, angle + 360000) == rect_drawn(s, x, y, w, h, color, angle),
{
    crate::trig::lemma_rotation_full_turn(angle);
}

/// One vertex of a triangle, rotated about the centroid of the three
/// given points.
pub open spec fn spec_tri_vertex(
    x1: int,
    y1: int,
    x2: int,
    y2: int,
    x3: int,
    y3: int,
    rot: Rotation,
    color: Color,
    sw: int,
    sh: int,
    k: int,
) -> Vertex {
    let cx = div_trunc(x1 + x2 + x3, 3);
    let cy = div_trunc(y1 + y2 + y3, 3);
    let px = if k == 0 {
        x1
    } else if k == 1 {
        x2
    } else {
        x3
    };
    let py = if k == 0 {
        y1
    } else if k == 1 {
        y2
    } else {
        y3
    };
    ndc_vertex(cx + rotate_x(rot, px - cx, py - cy), cy + rotate_y(rot, px - cx, py - cy), color, sw, sh)
}

/// The three vertices a triangle contributes, in caller order.
pub open spec fn spec_tri_vertices(
    x1: int,
    y1: int,
    x2: int,
    y2: int,
    x3: int,
    y3: int,
    rot: Rotation,
    color: Color,
    sw: int,
    sh: int,
) -> Seq<Vertex> {
    Seq::new(3, |k: int| spec_tri_vertex(x1, y1, x2, y2, x3, y3, rot, color, sw, sh, k))
}

/// A triangle keeps its caller's winding: one triple in order.
pub open spec fn tri_rel_indices() -> Seq<u16> {
    seq![0u16, 1u16, 2u16]
}

/// The renderer state after drawing one triangle.
pub open spec fn tri_drawn(
    s: RenderState,
    x1: int,
    y1: int,
    x2: int,
    y2: int,
    x3: int,
    y3: int,
    color: Color,
    angle: int,
) -> RenderState {
    appended(
        s,
        spec_tri_vertices(
            x1,
            y1,
            x2,
            y2,
            x3,
            y3,
            spec_rotation(angle),
            color,
            s.width as int,
            s.height as int,
        ),
        tri_rel_indices(),
    )
}

/// How many triangles approximate a disk: a fixed fan count that keeps
/// the ring visually closed at game scales.
pub const CIRCLE_SEGMENTS: usize = 36;

/// Millidegrees swept by one circle segment.
pub const SEGMENT_MILLIDEG: i64 = 10_000;

/// One vertex of the circle fan: the center for `k == 0`, and for
/// `k >= 1` the point of the ring at `(k - 1)` segments around it.
pub open spec fn spec_circle_vertex(
    cx: int,
    cy: int,
    radius: int,
    color: Color,
    sw: int,
    sh: int,
    k: int,
) -> Vertex {
    if k == 0 {
        ndc_vertex(cx, cy, color, sw, sh)
    } else {
        let rot = spec_rotation((k - 1) * 10000);
        ndc_vertex(
            cx + rotate_x(rot, radius, 0),
            cy + rotate_y(rot, radius, 0),
            color,
            sw,
            sh,
        )
    }
}

/// The 37 vertices a circle contributes: the center, then the ring.
pub open spec fn spec_circle_vertices(
    cx: int,
    cy: int,
    radius: int,
    color: Color,
    sw: int,
    sh: int,
) -> Seq<Vertex> {
    Seq::new(37, |k: int| spec_circle_vertex(cx, cy, radius, color, sw, sh, k))
}

/// Index `i` of the fan's index stream: triangle `i / 3` is the center,
/// the next ring point (wrapping at the top), and the ring point at the
/// triangle's own angle — the order that keeps the fan counter-clockwise
/// in device coordinates.
pub open spec fn circle_rel_index(i: int) -> u16 {
    let j = i / 3;
    if i % 3 == 0 {
        0u16
    } else if i % 3 == 1 {
        if j == 35 {
            1u16
        } else {
            (j + 2) as u16
        }
    } else {
        (j + 1) as u16
    }
}

/// The 108 indices of the circle fan, three per segment.
pub open spec fn circle_rel_indices() -> Seq<u16> {
    Seq::new(108, |i: int| circle_rel_index(i))
}

/// The renderer state after drawing one circle.
pub open spec fn circle_drawn(
    s: RenderState,
    cx: int,
    cy: int,
    radius: int,
    color: Color,
) -> RenderState {
    appended(
        s,
        spec_circle_vertices(cx, cy, radius, color, s.width as int, s.height as int),
        circle_rel_indices(),
    )
}

/// Positions `3j`, `3j + 1` and `3j + 2` of the fan's index stream all
/// belong to triangle `j`.
proof fn lemma_triangle_slot(j: int, r: int)
    requires
        0 <= r < 3,
    ensures
        (3 * j + r) / 3 == j,
        (3 * j + r) % 3 == r,
{
    vstd::arithmetic::div_mod::lemma_div_multiples_vanish_fancy(j, r, 3);
    vstd::arithmetic::div_mod::lemma_mod_multiples_vanish(j, r, 3);
}

impl Renderer {
    /// Appends a disk approximated as a fan of `CIRCLE_SEGMENTS`
    /// counter-clockwise triangles around the center point. A zero or
    /// negative radius yields only zero-area or back-facing (culled)
    /// triangles: nothing visible, no error.
    pub fn draw_circle(&mut self, cx: i64, cy: i64, radius: i64, color: Color)
        requires
            old(self).wf(),
            old(self)@.phase == Phase::Batching,
            -COORD_LIMIT <= cx <= COORD_LIMIT,
            -COORD_LIMIT <= cy <= COORD_LIMIT,
            -COORD_LIMIT <= radius <= COORD_LIMIT,
        ensures
            final(self).wf(),
            final(self)@ == circle_drawn(old(self)@, cx as int, cy as int, radius as int, color),
    {
        let ghost s0 = self@;
        let mut verts: Vec<Vertex> = Vec::new();
        verts.push(self.ndc_vertex_at(cx, cy, color));
        let mut k: usize = 1;
        while k <= CIRCLE_SEGMENTS
            invariant
                1 <= k <= 37,
                self.wf(),
                *self == *old(self),
                s0 == self@,
                -COORD_LIMIT <= cx <= COORD_LIMIT,
                -COORD_LIMIT <= cy <= COORD_LIMIT,
                -COORD_LIMIT <= radius <= COORD_LIMIT,
                verts@.len() == k,
                forall|i: int|
                    0 <= i < k ==> verts@[i] == spec_circle_vertex(
                        cx as int,
                        cy as int,
                        radius as int,
                        color,
                        s0.width as int,
                        s0.height as int,
                        i,
                    ),
            decreases 37 - k,
        {
            let rot = rotation_from_millidegrees(((k - 1) as i64) * SEGMENT_MILLIDEG);
            let p = rotate_point(rot, radius, 0);
            verts.push(self.ndc_vertex_at(cx + p.0, cy + p.1, color));
            k = k + 1;
        }
        let mut rel: Vec<u16> = Vec::new();
        let mut j: usize = 0;
        while j < CIRCLE_SEGMENTS
            invariant
                j <= 36,
                rel@.len() == 3 * j,
                forall|i: int| 0 <= i < 3 * j ==> rel@[i] == circle_rel_index(i),
            decreases 36 - j,
        {
            rel.push(0);
            if j == 35 {
                rel.push(1);
            } else {
                rel.push((j + 2) as u16);
            }
            rel.push((j + 1) as u16);
            proof {
                lemma_triangle_slot(j as int, 0);
                lemma_triangle_slot(j as int, 1);
                lemma_triangle_slot(j as int, 2);
            }
            j = j + 1;
        }
        proof {
            assert(verts@ =~= spec_circle_vertices(
                cx as int,
                cy as int,
                radius as int,
                color,
                s0.width as int,
                s0.height as int,
            ));
            assert(rel@ =~= circle_rel_indices());
            assert forall|i: int| 0 <= i < rel@.len() implies (rel@[i] as int) < verts@.len() by {
                lemma_triangle_slot(i / 3, i % 3);
            }
        }
        self.batch.append(&verts, &rel);
        proof {
            assert(self@ =~= circle_drawn(s0, cx as int, cy as int, radius as int, color));
        }
    }
}

impl Renderer {
    /// Appends a rectangle, rotated the given angle in millidegrees
    /// about its centroid: four vertices and six indices forming two
    /// counter-clockwise triangles. Zero or negative extents produce
    /// zero-area or back-facing (culled) triangles: nothing visible, no
    /// error.
    pub fn draw_rectangle(
        &mut self,
        x: i64,
        y: i64,
        width: i64,
        height: i64,
        color: Color,
        angle_millideg: i64,
    )
        requires
            old(self).wf(),
            old(self)@.phase == Phase::Batching,
            -COORD_LIMIT <= x <= COORD_LIMIT,
            -COORD_LIMIT <= y <= COORD_LIMIT,
            -COORD_LIMIT <= width <= COORD_LIMIT,
            -COORD_LIMIT <= height <= COORD_LIMIT,
            i64::MIN < angle_millideg <= i64::MAX - 90_000,
        ensures
            final(self).wf(),
            final(self)@ == rect_drawn(
                old(self)@,
                x as int,
                y as int,
                width as int,
                height as int,
                color,
                angle_millideg as int,
            ),
    {
        let ghost s0 = self@;
        let rot = rotation_from_millidegrees(angle_millideg);
        let hw = fx_div(width, 2);
        let hh = fx_div(height, 2);
        proof {
            lemma_div_trunc_bound(width as int, 2, COORD_LIMIT as int);
            lemma_div_trunc_bound(height as int, 2, COORD_LIMIT as int);
        }
        let cx = x + hw;
        let cy = y + hh;
        let mut verts: Vec<Vertex> = Vec::new();
        let p0 = rotate_point(rot, -hw, -hh);
        verts.push(self.ndc_vertex_at(cx + p0.0, cy + p0.1, color));
        let p1 = rotate_point(rot, hw, -hh);
        verts.push(self.ndc_vertex_at(cx + p1.0, cy + p1.1, color));
        let p2 = rotate_point(rot, hw, hh);
        verts.push(self.ndc_vertex_at(cx + p2.0, cy + p2.1, color));
        let p3 = rotate_point(rot, -hw, hh);
        verts.push(self.ndc_vertex_at(cx + p3.0, cy + p3.1, color));
        let mut rel: Vec<u16> = Vec::new();
        rel.push(2);
        rel.push(1);
        rel.push(0);
        rel.push(3);
        rel.push(2);
        rel.push(0);
        proof {
            assert(verts@ =~= spec_rect_vertices(
                x as int,
                y as int,
                width as int,
                height as int,
                rot,
                color,
                s0.width as int,
                s0.height as int,
            ));
            assert(rel@ =~= rect_rel_indices());
        }
        self.batch.append(&verts, &rel);
        proof {
            assert(self@ =~= rect_drawn(
                s0,
                x as int,
                y as int,
                width as int,
                height as int,
                color,
                angle_millideg as int,
            ));
        }
    }

    /// Appends a triangle of three pixel-space points, rotated the given
    /// angle in millidegrees about their centroid; three vertices and
    /// three indices in caller order.
    pub fn draw_triangle(
        &mut self,
        x1: i64,
        y1: i64,
        x2: i64,
        y2: i64,
        x3: i64,
        y3: i64,
        color: Color,
        angle_millideg: i64,
    )
        requires
            old(self).wf(),
            old(self)@.phase == Phase::Batching,
            -COORD_LIMIT <= x1 <= COORD_LIMIT,
            -COORD_LIMIT <= y1 <= COORD_LIMIT,
            -COORD_LIMIT <= x2 <= COORD_LIMIT,
            -COORD_LIMIT <= y2 <= COORD_LIMIT,
            -COORD_LIMIT <= x3 <= COORD_LIMIT,
            -COORD_LIMIT <= y3 <= COORD_LIMIT,
            i64::MIN < angle_millideg <= i64::MAX - 90_000,
        ensures
            final(self).wf(),
            final(self)@ == tri_drawn(
                old(self)@,
                x1 as int,
                y1 as int,
                x2 as int,
                y2 as int,
                x3 as int,
                y3 as int,
                color,
                angle_millideg as int,
            ),
    {
        let ghost s0 = self@;
        let rot = rotation_from_millidegrees(angle_millideg);
        let cx = fx_div(x1 + x2 + x3, 3);
        let cy = fx_div(y1 + y2 + y3, 3);
        proof {
            lemma_div_trunc_bound(x1 + x2 + x3, 3, COORD_LIMIT as int);
            lemma_div_trunc_bound(y1 + y2 + y3, 3, COORD_LIMIT as int);
        }
        let mut verts: Vec<Vertex> = Vec::new();
        let p1 = rotate_point(rot, x1 - cx, y1 - cy);
        verts.push(self.ndc_vertex_at(cx + p1.0, cy + p1.1, color));
        let p2 = rotate_point(rot, x2 - cx, y2 - cy);
        verts.push(self.ndc_vertex_at(cx + p2.0, cy + p2.1, color));
        let p3 = rotate_point(rot, x3 - cx, y3 - cy);
        verts.push(self.ndc_vertex_at(cx + p3.0, cy + p3.1, color));
        let mut rel: Vec<u16> = Vec::new();
        rel.push(0);
        rel.push(1);
        rel.push(2);
        proof {
            assert(verts@ =~= spec_tri_vertices(
                x1 as int,
                y1 as int,
                x2 as int,
                y2 as int,
                x3 as int,
                y3 as int,
                rot,
                color,
                s0.width as int,
                s0.height as int,
            ));
            assert(rel@ =~= tri_rel_indices());
        }
        self.batch.append(&verts, &rel);
        proof {
            assert(self@ =~= tri_drawn(
                s0,
                x1 as int,
                y1 as int,
                x2 as int,
                y2 as int,
                x3 as int,
                y3 as int,
                color,
                angle_millideg as int,
            ));
        }
    }
}

} // verus!
