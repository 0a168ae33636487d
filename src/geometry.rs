//! Pointer coordinates and the clamp that keeps the pointer on the primary output.
use vstd::prelude::*;

verus! {

/// Sub-pixel steps per logical pixel: positions and deltas are fixed-point
/// numbers with this many steps to the pixel.
pub const SUBPIXELS: i64 = 120;

/// A point in the logical coordinate space, in sub-pixel steps.
#[derive(Clone, Copy, Debug, PartialEq, Eq, Structural)]
pub struct Point {
    pub x: i64,
    pub y: i64,
}

/// An output's rectangle in the logical coordinate space, in whole pixels.
#[derive(Clone, Copy, Debug, PartialEq, Eq, Structural)]
pub struct OutputGeometry {
    pub x: i32,
    pub y: i32,
    pub width: i32,
    pub height: i32,
}

impl Point {
    /// The point at whole-pixel coordinates `(x, y)`.
    pub fn from_pixels(x: i32, y: i32) -> (r: Point)
        ensures
            r.x == x * SUBPIXELS,
            r.y == y * SUBPIXELS,
    {
        Point { x: x as i64 * SUBPIXELS, y: y as i64 * SUBPIXELS }
    }
}

/// `v` limited to `[0, hi]`: `min(max(v, 0), hi)`.
pub open spec fn clamp_axis(v: int, hi: int) -> int {
    let lo_bounded = if v < 0 { 0 } else { v };
    if lo_bounded > hi { hi } else { lo_bounded }
}

/// `v` limited to the range of `i64`.
pub open spec fn saturate(v: int) -> int {
    if v < i64::MIN { i64::MIN as int } else if v > i64::MAX { i64::MAX as int } else { v }
}

/// Width of an output in sub-pixel steps.
pub open spec fn extent(pixels: i32) -> int {
    pixels * SUBPIXELS
}

/// Where a point at `(x, y)` comes to rest: each coordinate limited to
/// `[0, size]` of the primary output, or, with no output, unconstrained but
/// for the range of `i64`.
pub open spec fn clamp_spec(x: int, y: int, output: Option<OutputGeometry>) -> (int, int) {
    match output {
        Some(o) => (clamp_axis(x, extent(o.width)), clamp_axis(y, extent(o.height))),
        None => (saturate(x), saturate(y)),
    }
}

/// Whether `(x, y)` is a resting place of the pointer, that is, one that the
/// clamp leaves where it is.
pub open spec fn within(x: int, y: int, output: Option<OutputGeometry>) -> bool {
    match output {
        Some(o) => 0 <= x <= extent(o.width) && 0 <= y <= extent(o.height),
        None => i64::MIN <= x <= i64::MAX && i64::MIN <= y <= i64::MAX,
    }
}

/// The spec view of a position as a pair of integers.
pub open spec fn pos(p: Point) -> (int, int) {
    (p.x as int, p.y as int)
}

fn clamp_wide(v: i128, hi: i64) -> (r: i64)
    ensures
        r == clamp_axis(v as int, hi as int),
{
    let lo_bounded: i128 = if v < 0 { 0 } else { v };
    if lo_bounded > hi as i128 {
        hi
    } else {
        lo_bounded as i64
    }
}

fn saturate_wide(v: i128) -> (r: i64)
    ensures
        r == saturate(v as int),
{
    if v < i64::MIN as i128 {
        i64::MIN
    } else if v > i64::MAX as i128 {
        i64::MAX
    } else {
        v as i64
    }
}

/// Clamps the point `(x, y)`, given with room beyond `i64`.
pub fn clamp_point(x: i128, y: i128, output: Option<OutputGeometry>) -> (r: Point)
    ensures
        pos(r) == clamp_spec(x as int, y as int, output),
{
    match output {
        Some(o) => {
            let w: i64 = o.width as i64 * SUBPIXELS;
            let h: i64 = o.height as i64 * SUBPIXELS;
            Point { x: clamp_wide(x, w), y: clamp_wide(y, h) }
        },
        None => Point { x: saturate_wide(x), y: saturate_wide(y) },
    }
}

/// Clamping twice is clamping once.
pub proof fn lemma_clamp_idempotent(x: int, y: int, output: Option<OutputGeometry>)
    ensures
        clamp_spec(clamp_spec(x, y, output).0, clamp_spec(x, y, output).1, output) == clamp_spec(
            x,
            y,
            output,
        ),
{
}

/// Whether an output's rectangle has no negative side.
pub open spec fn valid_output(output: Option<OutputGeometry>) -> bool {
    match output {
        Some(o) => o.width >= 0 && o.height >= 0,
        None => true,
    }
}

/// A clamped point is a resting place, and a resting place is its own clamp.
pub proof fn lemma_clamp_within(x: int, y: int, output: Option<OutputGeometry>)
    requires
        valid_output(output),
    ensures
        within(x, y, output) <==> clamp_spec(x, y, output) == (x, y),
        within(clamp_spec(x, y, output).0, clamp_spec(x, y, output).1, output),
{
}

/// Sum of the horizontal components of a run of deltas.
pub open spec fn sum_x(deltas: Seq<Point>) -> int
    decreases deltas.len(),
{
    if deltas.len() == 0 {
        0
    } else {
        sum_x(deltas.drop_last()) + deltas.last().x
    }
}

/// Sum of the vertical components of a run of deltas.
pub open spec fn sum_y(deltas: Seq<Point>) -> int
    decreases deltas.len(),
{
    if deltas.len() == 0 {
        0
    } else {
        sum_y(deltas.drop_last()) + deltas.last().y
    }
}

/// Where the pointer rests after relative moves by `deltas` from `start`,
/// clamped after each.
pub open spec fn follow(start: (int, int), deltas: Seq<Point>, output: Option<OutputGeometry>) -> (
    int,
    int,
)
    decreases deltas.len(),
{
    if deltas.len() == 0 {
        start
    } else {
        let q = follow(start, deltas.drop_last(), output);
        clamp_spec(q.0 + deltas.last().x, q.1 + deltas.last().y, output)
    }
}

/// A run of relative moves ends at the clamp of the start plus the sum of
/// the deltas, as long as no move before the last one was clamped.
pub proof fn lemma_follow_is_clamped_sum(
    start: (int, int),
    deltas: Seq<Point>,
    output: Option<OutputGeometry>,
)
    requires
        valid_output(output),
        within(start.0, start.1, output),
        forall|k: int|
            0 < k < deltas.len() ==> within(
                start.0 + sum_x(#[trigger] deltas.take(k)),
                start.1 + sum_y(deltas.take(k)),
                output,
            ),
    ensures
        follow(start, deltas, output) == clamp_spec(
            start.0 + sum_x(deltas),
            start.1 + sum_y(deltas),
            output,
        ),
    decreases deltas.len(),
{
    lemma_clamp_within(start.0, start.1, output);
    if deltas.len() > 0 {
        let rest = deltas.drop_last();
        assert forall|k: int| 0 < k < rest.len() implies within(
            start.0 + sum_x(#[trigger] rest.take(k)),
            start.1 + sum_y(rest.take(k)),
            output,
        ) by {
            assert(rest.take(k) =~= deltas.take(k));
        }
        lemma_follow_is_clamped_sum(start, rest, output);
        if rest.len() > 0 {
            let n = rest.len() as int;
            assert(deltas.take(n) =~= rest);
            lemma_clamp_within(start.0 + sum_x(rest), start.1 + sum_y(rest), output);
        }
    }
}

} // verus!
