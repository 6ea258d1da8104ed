//! Geometry of the decorative pattern drawn on the canvas, in canvas units
//! measured from the canvas's top-left corner.
use vstd::prelude::*;

verus! {

/// Lines on each side of the middle; the pattern has `2 * LINES + 1` of each kind.
pub const LINES: i64 = 5;

/// Width and height of the square drawing surface.
pub const CANVAS_SIZE: i64 = 3000;

/// -1, 0 or 1, after the sign of `i`.
pub open spec fn sign(i: int) -> int {
    if i < 0 { -1 } else if i > 0 { 1 } else { 0 }
}

/// `sign(l) * l * l` for `l = i / LINES`, scaled by `LINES * LINES`: the quadratic
/// spacing of the lines, from -1 to 1 on [-LINES, LINES] once scaled back.
pub open spec fn signed_square(i: int) -> int {
    sign(i) * i * i
}

/// Where line `i` stands: `(sign(l) * l * l + 1) * CANVAS_SIZE / 2` with
/// `l = i / LINES`, so 0 at `i == -LINES`, the middle at 0, `CANVAS_SIZE` at `LINES`.
pub open spec fn line_coord(i: int) -> int {
    (LINES * LINES + signed_square(i)) * CANVAS_SIZE / (2 * LINES * LINES)
}

/// Computes `line_coord(i)`.
pub fn line_coord_at(i: i64) -> (r: i64)
    requires
        -LINES <= i <= LINES,
    ensures
        r == line_coord(i as int),
        0 <= r <= CANVAS_SIZE,
{
    proof {
        assert(0 <= i * i <= LINES * LINES) by (nonlinear_arith)
            requires
                -LINES <= i <= LINES,
        ;
        lemma_line_coord_value(i as int);
    }
    let square: i64 = i * i;
    let signed: i64 = if i < 0 { -square } else { square };
    assert(signed == signed_square(i as int));
    (LINES * LINES + signed) * CANVAS_SIZE / (2 * LINES * LINES)
}

/// The coordinates of all lines, for `i` from `-LINES` to `LINES` in order.
pub fn line_coords() -> (r: Vec<i64>)
    ensures
        r@.len() == 2 * LINES + 1,
        forall|k: int| 0 <= k < r@.len() ==> r@[k] == line_coord(k - LINES),
{
    let mut coords: Vec<i64> = Vec::new();
    let mut i: i64 = -LINES;
    while i <= LINES
        invariant
            -LINES <= i <= LINES + 1,
            coords@.len() == i + LINES,
            forall|k: int| 0 <= k < coords@.len() ==> coords@[k] == line_coord(k - LINES),
        decreases LINES + 1 - i,
    {
        coords.push(line_coord_at(i));
        i = i + 1;
    }
    coords
}

/// The line offsets are odd: `f(-i) == -f(i)` for the signed square `f`. Mapped into
/// the canvas, line `-i` mirrors line `i` about the middle; the middle line stands at
/// half the canvas and the outermost lines at its two edges.
pub proof fn lemma_line_coords_symmetric(i: int)
    requires
        -LINES <= i <= LINES,
    ensures
        signed_square(-i) == -signed_square(i),
        line_coord(-i) == CANVAS_SIZE - line_coord(i),
        line_coord(0) == CANVAS_SIZE / 2,
        line_coord(LINES as int) == CANVAS_SIZE,
        line_coord(-LINES) == 0,
{
    assert(signed_square(-i) == -signed_square(i)) by (nonlinear_arith);
    lemma_line_coord_value(i);
    lemma_line_coord_value(-i);
    lemma_line_coord_value(0);
    lemma_line_coord_value(LINES as int);
    lemma_line_coord_value(-LINES);
}

/// A point on the canvas.
#[derive(Clone, Copy, Debug, PartialEq, Eq, Structural)]
pub struct CanvasPoint {
    pub x: i64,
    pub y: i64,
}

/// One stroke of the pattern.
#[derive(Clone, Copy, Debug, PartialEq, Eq, Structural)]
pub enum Shape {
    /// A grid line at this `x`, from 0 to `CANVAS_SIZE` down.
    VLine { x: i64 },
    /// A grid line at this `y`, from 0 to `CANVAS_SIZE` across.
    HLine { y: i64 },
    /// A diagonal between an edge and the opposite side.
    Segment { from: CanvasPoint, to: CanvasPoint },
    /// A circle outline.
    Circle { center: CanvasPoint, radius: i64 },
}

/// The canvas point at `(x, y)`.
pub open spec fn point(x: int, y: int) -> CanvasPoint {
    CanvasPoint { x: x as i64, y: y as i64 }
}

/// The seven strokes drawn for a line at coordinate `c` on a canvas of the given
/// size: two grid lines, four diagonals, one circle about the canvas middle.
pub open spec fn shapes_for(c: int, width: int, height: int) -> Seq<Shape> {
    seq![
        Shape::VLine { x: c as i64 },
        Shape::HLine { y: c as i64 },
        Shape::Segment { from: point(0, c), to: point(c, 0) },
        Shape::Segment { from: point(width, c), to: point(width - c, 0) },
        Shape::Segment { from: point(0, c), to: point(width - c, height) },
        Shape::Segment { from: point(width, height - c), to: point(width - c, height) },
        Shape::Circle { center: point(CANVAS_SIZE / 2, CANVAS_SIZE / 2), radius: c as i64 },
    ]
}

/// The strokes of the first `n` lines, in order.
pub open spec fn pattern(width: int, height: int, n: nat) -> Seq<Shape>
    decreases n,
{
    if n == 0 {
        Seq::empty()
    } else {
        pattern(width, height, (n - 1) as nat) + shapes_for(
            line_coord(n - 1 - LINES),
            width,
            height,
        )
    }
}

fn push_shapes(out: &mut Vec<Shape>, c: i64, width: i64, height: i64)
    requires
        0 <= c <= CANVAS_SIZE,
        0 <= width <= u32::MAX,
        0 <= height <= u32::MAX,
    ensures
        final(out)@ == old(out)@ + shapes_for(c as int, width as int, height as int),
{
    let center = CanvasPoint { x: CANVAS_SIZE / 2, y: CANVAS_SIZE / 2 };
    out.push(Shape::VLine { x: c });
    out.push(Shape::HLine { y: c });
    out.push(Shape::Segment { from: CanvasPoint { x: 0, y: c }, to: CanvasPoint { x: c, y: 0 } });
    out.push(
        Shape::Segment {
            from: CanvasPoint { x: width, y: c },
            to: CanvasPoint { x: width - c, y: 0 },
        },
    );
    out.push(
        Shape::Segment {
            from: CanvasPoint { x: 0, y: c },
            to: CanvasPoint { x: width - c, y: height },
        },
    );
    out.push(
        Shape::Segment {
            from: CanvasPoint { x: width, y: height - c },
            to: CanvasPoint { x: width - c, y: height },
        },
    );
    out.push(Shape::Circle { center, radius: c });
    assert(final(out)@ =~= old(out)@ + shapes_for(c as int, width as int, height as int));
}

/// Every stroke of the pattern on a canvas of the given size: for each line coordinate,
/// in order, its two grid lines, four diagonals and one circle.
pub fn canvas_shapes(width: u32, height: u32) -> (r: Vec<Shape>)
    ensures
        r@ == pattern(width as int, height as int, (2 * LINES + 1) as nat),
        r@.len() == 7 * (2 * LINES + 1),
{
    let coords = line_coords();
    let mut shapes: Vec<Shape> = Vec::new();
    let mut k: usize = 0;
    while k < coords.len()
        invariant
            coords@.len() == 2 * LINES + 1,
            forall|j: int| 0 <= j < coords@.len() ==> coords@[j] == line_coord(j - LINES),
            0 <= k <= coords@.len(),
            shapes@ == pattern(width as int, height as int, k as nat),
            shapes@.len() == 7 * k,
        decreases coords@.len() - k,
    {
        let c = coords[k];
        proof {
            lemma_line_coord_value(k - LINES);
        }
        push_shapes(&mut shapes, c, width as i64, height as i64);
        k = k + 1;
    }
    shapes
}

proof fn lemma_line_coord_value(i: int)
    requires
        -LINES <= i <= LINES,
    ensures
        signed_square(i) == (if i < 0 { -(i * i) } else { i * i }),
        -LINES * LINES <= signed_square(i) <= LINES * LINES,
        line_coord(i) == CANVAS_SIZE / 2 + 60 * signed_square(i),
        0 <= line_coord(i) <= CANVAS_SIZE,
{
    let q = signed_square(i);
    if i < 0 {
        assert(-1 * i * i == -(i * i)) by (nonlinear_arith);
    } else if i == 0 {
        assert(0 * i * i == 0) by (nonlinear_arith);
    } else {
        assert(1 * i * i == i * i) by (nonlinear_arith);
    }
    assert(-LINES * LINES <= q <= LINES * LINES) by (nonlinear_arith)
        requires
            -LINES <= i <= LINES,
            q == sign(i) * i * i,
    ;
    assert(LINES * LINES == 25);
    vstd::arithmetic::div_mod::lemma_div_multiples_vanish(60, 50);
    let x = (25 + q) * 60;
    assert((25 + q) * 3000 == 50 * x);
    vstd::arithmetic::div_mod::lemma_div_multiples_vanish(x, 50);
}

} // verus!
