//! Rasterising a circle outline on an integer grid.
//!
//! The outline is traced row by row through the first octant, starting on the
//! horizontal axis, and every traced offset is mirrored into the other
//! octants.  On each row the outline takes the column whose centre lies
//! nearest to the true circle; [`is_arc_x`] says so in whole numbers, and
//! [`mid_point`] is proved to find exactly these columns.

use vstd::prelude::*;

verus! {

/// Whether `x` is the column, relative to the centre, that lies nearest to
/// the circle of radius `r` on row `y`.
///
/// The circle crosses the row at `sqrt(r^2 - y^2)`.  The column `x` is the
/// nearest one when the crossing lies no more than half a cell to its left
/// and less than half a cell to its right, which in whole numbers reads
/// `(x - 1/2)^2 <= r^2 - y^2 + 1/4 < (x + 1/2)^2`.
pub open spec fn is_arc_x(r: nat, y: nat, x: int) -> bool {
    x * x - x + y * y <= r * r < x * x + x + y * y
}

/// The column of the outline of radius `r` on row `y`: the nearest one to
/// the circle.  There is exactly one on every row from `0` to `r`, by
/// [`lemma_arc_x_exists`] and [`lemma_arc_x_unique`].
pub open spec fn arc_x(r: nat, y: nat) -> int {
    choose|x: int| is_arc_x(r, y, x)
}

/// The last row at or above `y` that still belongs to the first octant:
/// rows are counted upwards for as long as the column of the next row is
/// not to the left of the diagonal.
pub open spec fn arc_rows(r: nat, y: nat) -> nat
    decreases r - y,
{
    if y < r && arc_x(r, y + 1) >= y + 1 {
        arc_rows(r, y + 1)
    } else {
        y
    }
}

/// The offset `(dx, dy)` mirrored across both axes, as absolute positions
/// around the centre `(xc, yc)`.
pub open spec fn mirrored(xc: int, yc: int, dx: int, dy: int) -> Seq<(int, int)> {
    seq![(xc + dx, yc + dy), (xc - dx, yc + dy), (xc + dx, yc - dy), (xc - dx, yc - dy)]
}

/// The points contributed by one row above the axis: the offset `(x, y)`
/// mirrored, followed by the transposed offset `(y, x)` mirrored unless the
/// point lies on the diagonal.
pub open spec fn row_points(xc: int, yc: int, x: int, y: int) -> Seq<(int, int)> {
    if x != y {
        mirrored(xc, yc, x, y) + mirrored(xc, yc, y, x)
    } else {
        mirrored(xc, yc, x, y)
    }
}

/// The points that open the outline: the right and left ends of the
/// horizontal diameter and then the upper end of the vertical diameter, which
/// is listed twice.  A circle of radius zero is its centre alone.
pub open spec fn axis_points(xc: int, yc: int, r: nat) -> Seq<(int, int)> {
    if r > 0 {
        seq![(xc + r, yc), (xc - r, yc), (xc, yc + r), (xc, yc + r)]
    } else {
        seq![(xc, yc)]
    }
}

/// The points of rows `1..=n`, in row order.
pub open spec fn rows_points(xc: int, yc: int, r: nat, n: nat) -> Seq<(int, int)>
    decreases n,
{
    if n == 0 {
        Seq::empty()
    } else {
        rows_points(xc, yc, r, (n - 1) as nat) + row_points(xc, yc, arc_x(r, n), n as int)
    }
}

/// The whole outline of the circle of radius `r` around `(xc, yc)`, in the
/// order in which it is traced: the axis points, then the rows of the first
/// octant from the bottom up, each with its mirror images.
pub open spec fn circle_points(xc: int, yc: int, r: nat) -> Seq<(int, int)> {
    axis_points(xc, yc, r) + rows_points(xc, yc, r, arc_rows(r, 0))
}

/// A list of grid cells read as mathematical coordinates.
pub open spec fn coords(cells: Seq<(usize, usize)>) -> Seq<(int, int)> {
    Seq::new(cells.len(), |i: int| (cells[i].0 as int, cells[i].1 as int))
}

/// Whether the cell `cell` lies in the ring of width one around the circle
/// of radius `r` about `(xc, yc)`: its squared distance from the centre
/// differs from `r^2` by at most `r`.
pub open spec fn on_ring(xc: int, yc: int, r: nat, cell: (int, int)) -> bool {
    let dx = cell.0 - xc;
    let dy = cell.1 - yc;
    r * r - r <= dx * dx + dy * dy <= r * r + r
}

/// Whether `n` lies between the products `x (x - 1)` and `x (x + 1)`.
spec fn brackets(n: int, x: int) -> bool {
    x * x - x <= n < x * x + x
}

/// The product `x (x - 1)` grows with `x` from one onwards.
proof fn lemma_products_grow(a: int, b: int)
    requires
        1 <= a <= b,
    ensures
        a * a - a <= b * b - b,
{
    assert(a * (a - 1) <= b * (b - 1)) by (nonlinear_arith)
        requires
            1 <= a <= b,
    ;
    assert(a * (a - 1) == a * a - a) by (nonlinear_arith);
    assert(b * (b - 1) == b * b - b) by (nonlinear_arith);
}

/// Every natural number lies in the bracket of some `x`.
proof fn lemma_bracket_exists(n: nat)
    ensures
        exists|x: int| brackets(n as int, x),
    decreases n,
{
    if n == 0 {
        assert(brackets(0, 1));
    } else {
        let m = (n - 1) as nat;
        lemma_bracket_exists(m);
        let x = choose|x: int| brackets(m as int, x);
        if n < x * x + x {
            assert(brackets(n as int, x));
        } else {
            assert((x + 1) * (x + 1) == x * x + 2 * x + 1) by (nonlinear_arith);
            assert(brackets(n as int, x + 1));
        }
    }
}

/// On every row from `0` to `r` there is a nearest column, and [`arc_x`] is
/// one.
pub proof fn lemma_arc_x_exists(r: nat, y: nat)
    requires
        y <= r,
    ensures
        is_arc_x(r, y, arc_x(r, y)),
{
    assert(y * y <= r * r) by (nonlinear_arith)
        requires
            y <= r,
    ;
    let n = (r * r - y * y) as nat;
    lemma_bracket_exists(n);
    let x = choose|x: int| brackets(n as int, x);
    assert(is_arc_x(r, y, x));
}

/// No row has two nearest columns.
pub proof fn lemma_arc_x_unique(r: nat, y: nat, x1: int, x2: int)
    requires
        is_arc_x(r, y, x1),
        is_arc_x(r, y, x2),
    ensures
        x1 == x2,
{
    if x1 < x2 {
        lemma_products_grow(x1 + 1, x2);
        assert((x1 + 1) * (x1 + 1) == x1 * x1 + 2 * x1 + 1) by (nonlinear_arith);
    } else if x2 < x1 {
        lemma_products_grow(x2 + 1, x1);
        assert((x2 + 1) * (x2 + 1) == x2 * x2 + 2 * x2 + 1) by (nonlinear_arith);
    }
}

/// A column that is known to be the nearest one on its row is the column of
/// the outline there.
pub proof fn lemma_arc_x_is(r: nat, y: nat, x: int)
    requires
        is_arc_x(r, y, x),
    ensures
        arc_x(r, y) == x,
{
    lemma_arc_x_unique(r, y, x, arc_x(r, y));
}

/// A column whose right-hand midpoint lies outside the circle bounds the
/// column of the outline from the right.
pub proof fn lemma_arc_x_at_most(r: nat, y: nat, x: int)
    requires
        y <= r,
        0 <= x,
        r * r < x * x + x + y * y,
    ensures
        arc_x(r, y) <= x,
{
    lemma_arc_x_exists(r, y);
    let a = arc_x(r, y);
    if a > x {
        lemma_products_grow(x + 1, a);
        assert((x + 1) * (x + 1) == x * x + 2 * x + 1) by (nonlinear_arith);
    }
}

/// The column of the outline lies within the radius, and its cell in the
/// ring of width one around the circle.
pub proof fn lemma_arc_x_in_ring(r: nat, y: nat)
    requires
        0 < r,
        y <= r,
    ensures
        1 <= arc_x(r, y) <= r,
        r * r - r <= arc_x(r, y) * arc_x(r, y) + y * y <= r * r + r,
{
    lemma_arc_x_exists(r, y);
    lemma_arc_x_at_most(r, y, r as int);
}

/// Every row from `y + 1` up to the last row of the octant lies within the
/// radius and has its column on or to the right of the diagonal.
pub proof fn lemma_rows_stay_in_octant(r: nat, y: nat, n: nat)
    requires
        y < n <= arc_rows(r, y),
    ensures
        n <= r,
        n <= arc_x(r, n),
    decreases r - y,
{
    if n > y + 1 {
        lemma_rows_stay_in_octant(r, y + 1, n);
    }
}

proof fn lemma_mirrored_on_ring(xc: int, yc: int, r: nat, dx: int, dy: int, i: int)
    requires
        r * r - r <= dx * dx + dy * dy <= r * r + r,
        0 <= i < 4,
    ensures
        on_ring(xc, yc, r, mirrored(xc, yc, dx, dy)[i]),
        on_ring(xc, yc, r, mirrored(xc, yc, dy, dx)[i]),
{
    assert((-dx) * (-dx) == dx * dx) by (nonlinear_arith);
    assert((-dy) * (-dy) == dy * dy) by (nonlinear_arith);
}

proof fn lemma_rows_points_on_ring(xc: int, yc: int, r: nat, n: nat, i: int)
    requires
        n <= arc_rows(r, 0),
        0 <= i < rows_points(xc, yc, r, n).len(),
    ensures
        on_ring(xc, yc, r, rows_points(xc, yc, r, n)[i]),
    decreases n,
{
    if n > 0 {
        let below = rows_points(xc, yc, r, (n - 1) as nat);
        if i < below.len() {
            lemma_rows_points_on_ring(xc, yc, r, (n - 1) as nat, i);
        } else {
            let x = arc_x(r, n);
            lemma_rows_stay_in_octant(r, 0, n);
            lemma_arc_x_in_ring(r, n);
            let j = i - below.len();
            if j < 4 {
                lemma_mirrored_on_ring(xc, yc, r, x, n as int, j);
            } else {
                lemma_mirrored_on_ring(xc, yc, r, x, n as int, j - 4);
            }
        }
    }
}

/// Every cell of the outline lies in the ring of width one around the true
/// circle.
pub proof fn lemma_circle_points_on_ring(xc: int, yc: int, r: nat, i: int)
    requires
        0 <= i < circle_points(xc, yc, r).len(),
    ensures
        on_ring(xc, yc, r, circle_points(xc, yc, r)[i]),
{
    let axis = axis_points(xc, yc, r);
    if i < axis.len() {
        let cell = axis[i];
        let dx = cell.0 - xc;
        let dy = cell.1 - yc;
        assert((dx == r || dx == -r) && dy == 0 || dx == 0 && dy == r);
        assert(dx * dx + dy * dy == r * r) by (nonlinear_arith)
            requires
                (dx == r || dx == -r) && dy == 0 || dx == 0 && dy == r,
        ;
    } else {
        lemma_rows_points_on_ring(xc, yc, r, arc_rows(r, 0), i - axis.len());
    }
}

/// Appends the four mirror images of the offset `(dx, dy)`.
fn push_mirrored(
    points: &mut Vec<(usize, usize)>,
    x_center: usize,
    y_center: usize,
    dx: usize,
    dy: usize,
)
    requires
        dx <= x_center,
        dy <= y_center,
        x_center + dx <= usize::MAX,
        y_center + dy <= usize::MAX,
    ensures
        coords(final(points)@) == coords(old(points)@) + mirrored(
            x_center as int,
            y_center as int,
            dx as int,
            dy as int,
        ),
{
    let x_add = x_center + dx;
    let y_add = y_center + dy;
    let x_min = x_center - dx;
    let y_min = y_center - dy;
    points.push((x_add, y_add));
    points.push((x_min, y_add));
    points.push((x_add, y_min));
    points.push((x_min, y_min));
    assert(coords(points@) =~= coords(old(points)@) + mirrored(
        x_center as int,
        y_center as int,
        dx as int,
        dy as int,
    ));
}

/// Traces the outline of the circle of radius `radius` around
/// `(x_center, y_center)` with the midpoint method and returns its cells in
/// tracing order.
///
/// The circle has to fit on the grid: the centre is at least `radius` away
/// from the low edges, and `centre + radius` is representable.
pub fn mid_point(x_center: usize, y_center: usize, radius: usize) -> (points: Vec<(usize, usize)>)
    requires
        radius <= x_center,
        radius <= y_center,
        x_center + radius <= usize::MAX,
        y_center + radius <= usize::MAX,
    ensures
        coords(points@) == circle_points(x_center as int, y_center as int, radius as nat),
{
    let ghost xc = x_center as int;
    let ghost yc = y_center as int;
    let ghost r = radius as nat;
    let mut x: usize = radius;
    let mut y: usize = 0;
    let mut points: Vec<(usize, usize)> = Vec::new();

    if radius > 0 {
        points.push((x_center + radius, y_center));
        points.push((x_center - radius, y_center));
        points.push((x_center, y_center + radius));
        points.push((x_center, y_center + radius));
    } else {
        points.push((x_center, y_center));
    }
    assert(coords(points@) =~= axis_points(xc, yc, r) + rows_points(xc, yc, r, 0));

    // The decision variable x^2 - x + (y + 1)^2 - r^2: it is positive exactly
    // when, on the next row, the midpoint between this column and its left
    // neighbour lies outside the circle.
    let mut p: i128 = 1 - radius as i128;
    assert(p == x * x - x + (y + 1) * (y + 1) - r * r) by (nonlinear_arith)
        requires
            x == r,
            y == 0,
            p == 1 - r,
    ;

    while x > y
        invariant_except_break
            y <= x <= radius,
            r > 0 ==> is_arc_x(r, y as nat, x as int),
            p == x * x - x + (y + 1) * (y + 1) - r * r,
            arc_rows(r, 0) == arc_rows(r, y as nat),
            x == y ==> arc_rows(r, y as nat) == y,
            coords(points@) == axis_points(xc, yc, r) + rows_points(xc, yc, r, y as nat),
        invariant
            radius <= x_center,
            radius <= y_center,
            x_center + radius <= usize::MAX,
            y_center + radius <= usize::MAX,
            xc == x_center as int,
            yc == y_center as int,
            r == radius as nat,
        ensures
            coords(points@) == circle_points(xc, yc, r),
        decreases x - y,
    {
        let ghost x0 = x as int;
        let ghost y0 = y as int;
        proof {
            assert((y0 + 1) * (y0 + 1) == y0 * y0 + 2 * y0 + 1) by (nonlinear_arith);
            assert((y0 + 2) * (y0 + 2) == y0 * y0 + 4 * y0 + 4) by (nonlinear_arith);
            assert((x0 - 1) * (x0 - 1) == x0 * x0 - 2 * x0 + 1) by (nonlinear_arith);
        }
        y += 1;

        if p <= 0 {
            p = p + 2 * (y as i128) + 1;
        } else {
            x -= 1;
            p = p + 2 * (y as i128) - 2 * (x as i128) + 1;
        }

        if x < y {
            proof {
                // The column of this row lies left of the diagonal, so the
                // row below was the last one of the octant.
                if y <= r {
                    lemma_arc_x_at_most(r, y as nat, x as int);
                }
            }
            break ;
        }
        proof {
            lemma_arc_x_is(r, y as nat, x as int);
            if x == y && y < r {
                // The column sits on the diagonal, so the column of the next
                // row lies left of it.
                lemma_arc_x_at_most(r, (y + 1) as nat, x as int);
            }
        }

        push_mirrored(&mut points, x_center, y_center, x, y);
        if x != y {
            push_mirrored(&mut points, x_center, y_center, y, x);
        }
        assert(coords(points@) =~= axis_points(xc, yc, r) + (rows_points(xc, yc, r, y0 as nat)
            + row_points(xc, yc, x as int, y as int)));
    }
    points
}

} // verus!
