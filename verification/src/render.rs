//! Building one frame: rotate, project, select, and list the drawn segments.
//!
//! A frame is described as data: the clear color and the list of line
//! segments, in drawing order, that the platform layer then paints onto its
//! canvas. Projection is orthographic: the depth is dropped and the remaining
//! two coordinates are brought back to model units, truncating toward zero,
//! and translated to the middle of the screen.

use vstd::prelude::*;
use crate::geometry::{
    cube_edges, cube_vertices, spec_cube_vertices, spec_twelve_edges, Vec3,
};
use crate::rotation::{
    lemma_rotation_bounded, rotate_vertex, spec_rotated_x, spec_rotated_y, spec_rotated_z, Trig,
    ROTATED_LIMIT, SCALE2,
};

verus! {

/// A color, one byte per channel.
#[derive(Clone, Copy, Debug, PartialEq, Eq, Structural)]
pub struct Rgb {
    pub r: u8,
    pub g: u8,
    pub b: u8,
}

/// The clear color of every frame.
pub open spec fn spec_black() -> Rgb {
    Rgb { r: 0, g: 0, b: 0 }
}

/// The accent color every edge is drawn in.
pub open spec fn spec_cyan() -> Rgb {
    Rgb { r: 0, g: 255, b: 255 }
}

/// Builds the clear color.
pub fn black() -> (c: Rgb)
    ensures
        c == spec_black(),
{
    Rgb { r: 0, g: 0, b: 0 }
}

/// Builds the accent color.
pub fn cyan() -> (c: Rgb)
    ensures
        c == spec_cyan(),
{
    Rgb { r: 0, g: 255, b: 255 }
}

/// One drawn line segment on the pixel grid.
#[derive(Clone, Copy, Debug, PartialEq, Eq, Structural)]
pub struct Segment {
    pub x0: i32,
    pub y0: i32,
    pub x1: i32,
    pub y1: i32,
    pub color: Rgb,
    pub thickness: u8,
}

/// One fully described frame: the clear color and the segments to draw.
#[derive(Debug, PartialEq, Eq)]
pub struct Frame {
    pub background: Rgb,
    pub segments: Vec<Segment>,
}

/// Division that truncates toward zero, as the cast to the pixel grid does.
pub open spec fn spec_div_trunc(a: int, b: int) -> int {
    if a >= 0 {
        a / b
    } else {
        -((-a) / b)
    }
}

/// The horizontal pixel of a rotated coordinate: back to model units,
/// truncating toward zero, then moved to the middle of the screen.
pub open spec fn spec_screen_x(rx: int, width: u32) -> int {
    spec_div_trunc(rx, SCALE2 as int) + width / 2
}

/// The vertical pixel of a rotated coordinate.
pub open spec fn spec_screen_y(ry: int, height: u32) -> int {
    spec_div_trunc(ry, SCALE2 as int) + height / 2
}

/// Projects one rotated vertex orthographically: the depth is dropped.
pub fn project(r: &Vec3, width: u32, height: u32) -> (p: (i32, i32))
    requires
        -ROTATED_LIMIT <= r.x <= ROTATED_LIMIT,
        -ROTATED_LIMIT <= r.y <= ROTATED_LIMIT,
        width <= 100_000,
        height <= 100_000,
    ensures
        p.0 == spec_screen_x(r.x as int, width),
        p.1 == spec_screen_y(r.y as int, height),
{
    let qx: i64 = r.x / SCALE2;
    let qy: i64 = r.y / SCALE2;
    let px: i32 = (qx + (width / 2) as i64) as i32;
    let py: i32 = (qy + (height / 2) as i64) as i32;
    (px, py)
}

/// The segment that one selected edge contributes to a frame.
pub open spec fn spec_segment_for(a: Vec3, b: Vec3, tx: Trig, ty: Trig, width: u32, height: u32) -> Segment {
    Segment {
        x0: spec_screen_x(spec_rotated_x(a, tx, ty), width) as i32,
        y0: spec_screen_y(spec_rotated_y(a, tx), height) as i32,
        x1: spec_screen_x(spec_rotated_x(b, tx, ty), width) as i32,
        y1: spec_screen_y(spec_rotated_y(b, tx), height) as i32,
        color: spec_cyan(),
        thickness: 1,
    }
}

/// The twelve segments of a frame, in drawing order.
pub open spec fn spec_frame_segments(tx: Trig, ty: Trig, width: u32, height: u32) -> Seq<Segment> {
    Seq::new(
        12,
        |k: int|
            spec_segment_for(
                spec_cube_vertices()[spec_twelve_edges()[k].0 as int],
                spec_cube_vertices()[spec_twelve_edges()[k].1 as int],
                tx,
                ty,
                width,
                height,
            ),
    )
}

/// Every endpoint of a drawn segment stays within the window of the cube's
/// largest rotated extent around the screen center.
pub open spec fn spec_segment_in_window(s: Segment, width: u32, height: u32) -> bool {
    width / 2 - 150 <= s.x0 <= width / 2 + 150 && width / 2 - 150 <= s.x1 <= width / 2 + 150
        && height / 2 - 150 <= s.y0 <= height / 2 + 150 && height / 2 - 150 <= s.y1 <= height / 2
        + 150
}

/// Builds one frame of the rotating cube: every vertex rotated at the given
/// sine/cosine pairs, every true edge projected and listed in scan order,
/// each segment in the accent color at thickness one, over a black clear.
pub fn render_frame(tx: &Trig, ty: &Trig, width: u32, height: u32) -> (f: Frame)
    requires
        tx.wf(),
        ty.wf(),
        width <= 100_000,
        height <= 100_000,
    ensures
        f.background == spec_black(),
        f.segments@ == spec_frame_segments(*tx, *ty, width, height),
        f.segments@.len() == 12,
        forall|m: int|
            0 <= m < 12 ==> spec_segment_in_window(#[trigger] f.segments@[m], width, height)
                && f.segments@[m].color == spec_cyan() && f.segments@[m].thickness == 1,
{
    let vs = cube_vertices();
    let mut rotated: Vec<Vec3> = Vec::new();
    let mut i: usize = 0;
    while i < 8
        invariant
            tx.wf(),
            ty.wf(),
            vs@ == spec_cube_vertices(),
            vs@.len() == 8,
            forall|m: int|
                0 <= m < 8 ==> -50 <= #[trigger] vs@[m].x <= 50 && -50 <= vs@[m].y <= 50 && -50
                    <= vs@[m].z <= 50,
            i <= 8,
            rotated@.len() == i,
            forall|m: int|
                0 <= m < i ==> (#[trigger] rotated@[m]).x == spec_rotated_x(vs@[m], *tx, *ty)
                    && rotated@[m].y == spec_rotated_y(vs@[m], *tx) && rotated@[m].z
                    == spec_rotated_z(vs@[m], *tx, *ty) && -ROTATED_LIMIT <= rotated@[m].x
                    <= ROTATED_LIMIT && -ROTATED_LIMIT <= rotated@[m].y <= ROTATED_LIMIT,
        decreases 8 - i,
    {
        let r = rotate_vertex(&vs[i], tx, ty);
        rotated.push(r);
        i = i + 1;
    }
    let edges = cube_edges();
    let mut segs: Vec<Segment> = Vec::new();
    let mut k: usize = 0;
    while k < 12
        invariant
            tx.wf(),
            ty.wf(),
            width <= 100_000,
            height <= 100_000,
            vs@ == spec_cube_vertices(),
            vs@.len() == 8,
            forall|m: int|
                0 <= m < 8 ==> -50 <= #[trigger] vs@[m].x <= 50 && -50 <= vs@[m].y <= 50 && -50
                    <= vs@[m].z <= 50,
            rotated@.len() == 8,
            forall|m: int|
                0 <= m < 8 ==> (#[trigger] rotated@[m]).x == spec_rotated_x(vs@[m], *tx, *ty)
                    && rotated@[m].y == spec_rotated_y(vs@[m], *tx) && rotated@[m].z
                    == spec_rotated_z(vs@[m], *tx, *ty) && -ROTATED_LIMIT <= rotated@[m].x
                    <= ROTATED_LIMIT && -ROTATED_LIMIT <= rotated@[m].y <= ROTATED_LIMIT,
            edges@ == spec_twelve_edges(),
            edges@.len() == 12,
            forall|m: int|
                0 <= m < 12 ==> (#[trigger] edges@[m]).0 < (#[trigger] edges@[m]).1 && edges@[m].1
                    < 8,
            k <= 12,
            segs@.len() == k,
            forall|m: int|
                0 <= m < k ==> #[trigger] segs@[m] == spec_frame_segments(
                    *tx,
                    *ty,
                    width,
                    height,
                )[m] && spec_segment_in_window(segs@[m], width, height),
        decreases 12 - k,
    {
        let e = edges[k];
        let a = rotated[e.0];
        let b = rotated[e.1];
        let pa = project(&a, width, height);
        let pb = project(&b, width, height);
        let seg = Segment {
            x0: pa.0,
            y0: pa.1,
            x1: pb.0,
            y1: pb.1,
            color: cyan(),
            thickness: 1,
        };
        proof {
            lemma_rotation_bounded(vs@[e.0 as int], *tx, *ty, 50);
            lemma_rotation_bounded(vs@[e.1 as int], *tx, *ty, 50);
            assert(seg == spec_frame_segments(*tx, *ty, width, height)[k as int]);
        }
        segs.push(seg);
        k = k + 1;
    }
    proof {
        assert(segs@ =~= spec_frame_segments(*tx, *ty, width, height));
    }
    Frame { background: black(), segments: segs }
}

/// A frame is a pure function of its inputs: any two frames that meet the
/// rendering contract at the same angles and screen size list exactly the
/// same segments.
pub proof fn lemma_render_deterministic(
    f1: Frame,
    f2: Frame,
    tx: Trig,
    ty: Trig,
    width: u32,
    height: u32,
)
    requires
        f1.segments@ == spec_frame_segments(tx, ty, width, height),
        f2.segments@ == spec_frame_segments(tx, ty, width, height),
    ensures
        f1.segments@ == f2.segments@,
{
}

} // verus!

