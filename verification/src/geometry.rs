//! Axis-aligned rectangles on integer coordinates and their overlap test.
//!
//! A rectangle is given by its centre and its full extent. Edges are compared
//! in doubled coordinates (`2 * centre - extent` and `2 * centre + extent`), so
//! that odd extents need no rounding.

use vstd::prelude::*;

verus! {

/// A point or an extent in the plane. The vertical axis points upward.
#[derive(Clone, Copy, Debug, PartialEq, Eq, Structural)]
pub struct Vec2 {
    pub x: i64,
    pub y: i64,
}

/// A rectangle by centre and full extent.
#[derive(Clone, Copy, Debug, PartialEq, Eq, Structural)]
pub struct Rect {
    pub centre: Vec2,
    pub size: Vec2,
}

/// The side of the second rectangle on which the first one lies.
#[derive(Clone, Copy, Debug, PartialEq, Eq, Structural)]
pub enum Collision {
    Left,
    Right,
    Top,
    Bottom,
    /// The first rectangle sticks out on neither axis in a single direction.
    Inside,
}

/// How one rectangle lies against another along a single axis.
pub enum AxisHit {
    /// It reaches in over the lower edge, by the given doubled depth.
    Low(int),
    /// It reaches in over the upper edge, by the given doubled depth.
    High(int),
    /// Neither: it lies within the other, covers it, or shares an edge coordinate.
    Within,
}

/// Twice the lower edge of an interval with the given centre and extent.
pub open spec fn low_edge(centre: i64, extent: i64) -> int {
    2 * (centre as int) - (extent as int)
}

/// Twice the upper edge of an interval with the given centre and extent.
pub open spec fn high_edge(centre: i64, extent: i64) -> int {
    2 * (centre as int) + (extent as int)
}

/// The two intervals share more than an end point.
pub open spec fn axis_overlaps(a_pos: i64, a_size: i64, b_pos: i64, b_size: i64) -> bool {
    low_edge(a_pos, a_size) < high_edge(b_pos, b_size)
        && high_edge(a_pos, a_size) > low_edge(b_pos, b_size)
}

/// The two rectangles overlap on both axes.
pub open spec fn overlaps(a_pos: Vec2, a_size: Vec2, b_pos: Vec2, b_size: Vec2) -> bool {
    axis_overlaps(a_pos.x, a_size.x, b_pos.x, b_size.x)
        && axis_overlaps(a_pos.y, a_size.y, b_pos.y, b_size.y)
}

/// Classifies interval `a` against interval `b` on one axis.
pub open spec fn axis_hit(a_pos: i64, a_size: i64, b_pos: i64, b_size: i64) -> AxisHit {
    let a_lo = low_edge(a_pos, a_size);
    let a_hi = high_edge(a_pos, a_size);
    let b_lo = low_edge(b_pos, b_size);
    let b_hi = high_edge(b_pos, b_size);
    if a_lo < b_lo && b_lo < a_hi && a_hi < b_hi {
        AxisHit::Low(a_hi - b_lo)
    } else if b_lo < a_lo && a_lo < b_hi && b_hi < a_hi {
        AxisHit::High(b_hi - a_lo)
    } else {
        AxisHit::Within
    }
}

/// The vertical classification decides only when it names a side and reaches
/// in strictly less deep than the horizontal one. On equal depths, and
/// whenever the vertical axis names no side, the horizontal one decides.
pub open spec fn vertical_decides(x_hit: AxisHit, y_hit: AxisHit) -> bool {
    match (x_hit, y_hit) {
        (_, AxisHit::Within) => false,
        (AxisHit::Within, _) => true,
        (AxisHit::Low(dx), AxisHit::Low(dy)) => dy < dx,
        (AxisHit::Low(dx), AxisHit::High(dy)) => dy < dx,
        (AxisHit::High(dx), AxisHit::Low(dy)) => dy < dx,
        (AxisHit::High(dx), AxisHit::High(dy)) => dy < dx,
    }
}

/// The side that a horizontal classification names.
pub open spec fn horizontal_side(hit: AxisHit) -> Collision {
    match hit {
        AxisHit::Low(_) => Collision::Left,
        AxisHit::High(_) => Collision::Right,
        AxisHit::Within => Collision::Inside,
    }
}

/// The side that a vertical classification names.
pub open spec fn vertical_side(hit: AxisHit) -> Collision {
    match hit {
        AxisHit::Low(_) => Collision::Bottom,
        AxisHit::High(_) => Collision::Top,
        AxisHit::Within => Collision::Inside,
    }
}

/// The outcome of testing rectangle `a` against rectangle `b`: nothing when
/// they do not overlap on both axes, else the side of `b` that `a` reaches
/// in over by the smaller depth, the horizontal side winning a tie.
pub open spec fn collide_spec(a_pos: Vec2, a_size: Vec2, b_pos: Vec2, b_size: Vec2) -> Option<
    Collision,
> {
    if !overlaps(a_pos, a_size, b_pos, b_size) {
        None
    } else {
        let x_hit = axis_hit(a_pos.x, a_size.x, b_pos.x, b_size.x);
        let y_hit = axis_hit(a_pos.y, a_size.y, b_pos.y, b_size.y);
        if vertical_decides(x_hit, y_hit) {
            Some(vertical_side(y_hit))
        } else {
            Some(horizontal_side(x_hit))
        }
    }
}

/// Tests rectangle `a` against rectangle `b`, each given by centre and extent.
pub fn collide(a_pos: Vec2, a_size: Vec2, b_pos: Vec2, b_size: Vec2) -> (r: Option<Collision>)
    ensures
        r == collide_spec(a_pos, a_size, b_pos, b_size),
        r.is_some() <==> overlaps(a_pos, a_size, b_pos, b_size),
{
    let a_lo_x: i128 = 2 * (a_pos.x as i128) - (a_size.x as i128);
    let a_hi_x: i128 = 2 * (a_pos.x as i128) + (a_size.x as i128);
    let b_lo_x: i128 = 2 * (b_pos.x as i128) - (b_size.x as i128);
    let b_hi_x: i128 = 2 * (b_pos.x as i128) + (b_size.x as i128);
    let a_lo_y: i128 = 2 * (a_pos.y as i128) - (a_size.y as i128);
    let a_hi_y: i128 = 2 * (a_pos.y as i128) + (a_size.y as i128);
    let b_lo_y: i128 = 2 * (b_pos.y as i128) - (b_size.y as i128);
    let b_hi_y: i128 = 2 * (b_pos.y as i128) + (b_size.y as i128);

    if !(a_lo_x < b_hi_x && a_hi_x > b_lo_x && a_lo_y < b_hi_y && a_hi_y > b_lo_y) {
        return None;
    }
    // `None` as a depth stands for "names no side".
    let (x_side, x_depth): (Collision, Option<i128>) = if a_lo_x < b_lo_x && a_hi_x < b_hi_x {
        (Collision::Left, Some(a_hi_x - b_lo_x))
    } else if b_lo_x < a_lo_x && b_hi_x < a_hi_x {
        (Collision::Right, Some(b_hi_x - a_lo_x))
    } else {
        (Collision::Inside, None)
    };
    let (y_side, y_depth): (Collision, Option<i128>) = if a_lo_y < b_lo_y && a_hi_y < b_hi_y {
        (Collision::Bottom, Some(a_hi_y - b_lo_y))
    } else if b_lo_y < a_lo_y && b_hi_y < a_hi_y {
        (Collision::Top, Some(b_hi_y - a_lo_y))
    } else {
        (Collision::Inside, None)
    };
    let vertical: bool = match (x_depth, y_depth) {
        (_, None) => false,
        (None, Some(_)) => true,
        (Some(dx), Some(dy)) => dy < dx,
    };
    if vertical {
        Some(y_side)
    } else {
        Some(x_side)
    }
}

/// The vector with both parts multiplied by `factor`.
pub open spec fn scaled_vec(v: Vec2, factor: i64) -> Vec2 {
    Vec2 { x: (v.x * factor) as i64, y: (v.y * factor) as i64 }
}

/// The rectangle with centre and extent multiplied by `factor`.
pub open spec fn scaled_rect(rect: Rect, factor: i64) -> Rect {
    Rect { centre: scaled_vec(rect.centre, factor), size: scaled_vec(rect.size, factor) }
}

/// Both parts of the vector can be multiplied by `factor` within an `i64`.
pub open spec fn scales(v: Vec2, factor: i64) -> bool {
    &&& i64::MIN <= v.x * factor <= i64::MAX
    &&& i64::MIN <= v.y * factor <= i64::MAX
}

/// The classification with its depth multiplied by `factor`.
pub open spec fn scaled_hit(hit: AxisHit, factor: i64) -> AxisHit {
    match hit {
        AxisHit::Low(d) => AxisHit::Low(factor * d),
        AxisHit::High(d) => AxisHit::High(factor * d),
        AxisHit::Within => AxisHit::Within,
    }
}

/// Multiplying by a positive number keeps the order.
proof fn lemma_scaled_order(k: int, a: int, b: int)
    requires
        k > 0,
    ensures
        (a < b) == (k * a < k * b),
{
    assert((a < b) == (k * a < k * b)) by (nonlinear_arith)
        requires
            k > 0,
    ;
}

/// Twice an edge of a scaled interval is the scaled double of the edge.
proof fn lemma_scaled_edges(centre: i64, extent: i64, k: i64)
    requires
        i64::MIN <= centre * k <= i64::MAX,
        i64::MIN <= extent * k <= i64::MAX,
    ensures
        low_edge((centre * k) as i64, (extent * k) as i64) == k * low_edge(centre, extent),
        high_edge((centre * k) as i64, (extent * k) as i64) == k * high_edge(centre, extent),
{
    assert(2 * (centre * k) - extent * k == k * (2 * centre - extent)) by (nonlinear_arith);
    assert(2 * (centre * k) + extent * k == k * (2 * centre + extent)) by (nonlinear_arith);
}

/// On a grid `k` times as fine, two intervals overlap as before and lie
/// against each other as before, `k` times as deep.
proof fn lemma_axis_on_finer_grid(a_pos: i64, a_size: i64, b_pos: i64, b_size: i64, k: i64)
    requires
        k >= 1,
        i64::MIN <= a_pos * k <= i64::MAX,
        i64::MIN <= a_size * k <= i64::MAX,
        i64::MIN <= b_pos * k <= i64::MAX,
        i64::MIN <= b_size * k <= i64::MAX,
    ensures
        axis_overlaps(
            (a_pos * k) as i64,
            (a_size * k) as i64,
            (b_pos * k) as i64,
            (b_size * k) as i64,
        ) == axis_overlaps(a_pos, a_size, b_pos, b_size),
        axis_hit((a_pos * k) as i64, (a_size * k) as i64, (b_pos * k) as i64, (b_size * k) as i64)
            == scaled_hit(axis_hit(a_pos, a_size, b_pos, b_size), k),
{
    let a_lo = low_edge(a_pos, a_size);
    let a_hi = high_edge(a_pos, a_size);
    let b_lo = low_edge(b_pos, b_size);
    let b_hi = high_edge(b_pos, b_size);
    lemma_scaled_edges(a_pos, a_size, k);
    lemma_scaled_edges(b_pos, b_size, k);
    lemma_scaled_order(k as int, a_lo, b_hi);
    lemma_scaled_order(k as int, b_lo, a_hi);
    lemma_scaled_order(k as int, a_lo, b_lo);
    lemma_scaled_order(k as int, a_hi, b_hi);
    lemma_scaled_order(k as int, b_lo, a_lo);
    lemma_scaled_order(k as int, b_hi, a_hi);
    assert(k * a_hi - k * b_lo == k * (a_hi - b_lo)) by (nonlinear_arith);
    assert(k * b_hi - k * a_lo == k * (b_hi - a_lo)) by (nonlinear_arith);
}

/// The depth of a classification that names a side.
spec fn depth(hit: AxisHit) -> int {
    match hit {
        AxisHit::Low(d) => d,
        AxisHit::High(d) => d,
        AxisHit::Within => 0,
    }
}

/// The outcome of the overlap test does not depend on how fine the grid is:
/// with every coordinate and extent multiplied by the same factor of at
/// least one, the rectangles collide as before and on the same side.
pub proof fn law_collide_on_finer_grid(
    a_pos: Vec2,
    a_size: Vec2,
    b_pos: Vec2,
    b_size: Vec2,
    factor: i64,
)
    requires
        factor >= 1,
        scales(a_pos, factor),
        scales(a_size, factor),
        scales(b_pos, factor),
        scales(b_size, factor),
    ensures
        collide_spec(
            scaled_vec(a_pos, factor),
            scaled_vec(a_size, factor),
            scaled_vec(b_pos, factor),
            scaled_vec(b_size, factor),
        ) == collide_spec(a_pos, a_size, b_pos, b_size),
{
    lemma_axis_on_finer_grid(a_pos.x, a_size.x, b_pos.x, b_size.x, factor);
    lemma_axis_on_finer_grid(a_pos.y, a_size.y, b_pos.y, b_size.y, factor);
    let x_hit = axis_hit(a_pos.x, a_size.x, b_pos.x, b_size.x);
    let y_hit = axis_hit(a_pos.y, a_size.y, b_pos.y, b_size.y);
    lemma_scaled_order(factor as int, depth(y_hit), depth(x_hit));
    assert(vertical_decides(scaled_hit(x_hit, factor), scaled_hit(y_hit, factor))
        == vertical_decides(x_hit, y_hit));
}

/// A side is named only where the first rectangle sticks out of the second
/// on that side and stays inside it on the other; its centre then lies
/// nearer to that side of the second rectangle than to the opposite one.
pub proof fn law_side_is_the_nearer_one(a_pos: Vec2, a_size: Vec2, b_pos: Vec2, b_size: Vec2)
    ensures
        collide_spec(a_pos, a_size, b_pos, b_size) == Some(Collision::Left) ==> {
            &&& low_edge(a_pos.x, a_size.x) < low_edge(b_pos.x, b_size.x)
            &&& high_edge(a_pos.x, a_size.x) < high_edge(b_pos.x, b_size.x)
            &&& a_pos.x < b_pos.x
        },
        collide_spec(a_pos, a_size, b_pos, b_size) == Some(Collision::Right) ==> {
            &&& low_edge(b_pos.x, b_size.x) < low_edge(a_pos.x, a_size.x)
            &&& high_edge(b_pos.x, b_size.x) < high_edge(a_pos.x, a_size.x)
            &&& a_pos.x > b_pos.x
        },
        collide_spec(a_pos, a_size, b_pos, b_size) == Some(Collision::Bottom) ==> {
            &&& low_edge(a_pos.y, a_size.y) < low_edge(b_pos.y, b_size.y)
            &&& high_edge(a_pos.y, a_size.y) < high_edge(b_pos.y, b_size.y)
            &&& a_pos.y < b_pos.y
        },
        collide_spec(a_pos, a_size, b_pos, b_size) == Some(Collision::Top) ==> {
            &&& low_edge(b_pos.y, b_size.y) < low_edge(a_pos.y, a_size.y)
            &&& high_edge(b_pos.y, b_size.y) < high_edge(a_pos.y, a_size.y)
            &&& a_pos.y > b_pos.y
        },
        collide_spec(a_pos, a_size, b_pos, b_size) is Some <==> overlaps(
            a_pos,
            a_size,
            b_pos,
            b_size,
        ),
{
}

} // verus!
