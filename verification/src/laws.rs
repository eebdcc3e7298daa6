use vstd::prelude::*;

use crate::frac::Frac;
use crate::geom::{Box2, Point2};
use crate::plot::{
    is_point_quad, is_x_axis_quad, is_y_axis_quad, spec_tx_num, spec_ty_num, Quad, LINE_WIDTH,
    POINT_RADIUS,
};

verus! {

/// `lk` is `l` scaled by the factor `k` about the origin.
pub open spec fn scaled_box(l: Box2, lk: Box2, k: int) -> bool {
    &&& lk.min.x == k * l.min.x
    &&& lk.min.y == k * l.min.y
    &&& lk.max.x == k * l.max.x
    &&& lk.max.y == k * l.max.y
}

/// Scaling the layout rectangle by `k` scales the transformed x position
/// of any data `x` by `k`, over the unchanged denominator.
proof fn lemma_tx_num_scaling(bounds: Box2, l: Box2, lk: Box2, k: int, x: int)
    requires
        lk.min.x == k * l.min.x,
        lk.max.x == k * l.max.x,
    ensures
        spec_tx_num(bounds, lk, x) == k * spec_tx_num(bounds, l, x),
{
    assert(k * l.min.x * (bounds.max.x - bounds.min.x) + (x - bounds.min.x) * (k * l.max.x - k
        * l.min.x) == k * (l.min.x * (bounds.max.x - bounds.min.x) + (x - bounds.min.x) * (l.max.x
        - l.min.x))) by (nonlinear_arith);
}

/// Scaling the layout rectangle by `k` scales the transformed y position
/// of any data `y` by `k`, over the unchanged denominator.
proof fn lemma_ty_num_scaling(bounds: Box2, l: Box2, lk: Box2, k: int, y: int)
    requires
        lk.min.y == k * l.min.y,
        lk.max.y == k * l.max.y,
    ensures
        spec_ty_num(bounds, lk, y) == k * spec_ty_num(bounds, l, y),
{
    assert(k * l.min.y * (bounds.max.y - bounds.min.y) + (-y - bounds.min.y) * (k * l.max.y - k
        * l.min.y) == k * (l.min.y * (bounds.max.y - bounds.min.y) + (-y - bounds.min.y) * (l.max.y
        - l.min.y))) by (nonlinear_arith);
}

/// Law: a point quad's extent is the fixed `2 * POINT_RADIUS` in both
/// dimensions, whatever the data bounds, the layout rectangle and the
/// point.
pub proof fn lemma_point_quad_fixed_size(q: Quad, bounds: Box2, layout: Box2, p: Point2)
    requires
        is_point_quad(q, bounds, layout, p),
    ensures
        q.width == (Frac { num: (2 * POINT_RADIUS) as i128, den: 1 }),
        q.height == (Frac { num: (2 * POINT_RADIUS) as i128, den: 1 }),
{
}

/// Law: an axis line is exactly `LINE_WIDTH` thick in its perpendicular
/// dimension, whatever the data bounds and the layout rectangle.
pub proof fn lemma_axis_line_fixed_thickness(xq: Quad, yq: Quad, bounds: Box2, layout: Box2)
    requires
        is_x_axis_quad(xq, bounds, layout),
        is_y_axis_quad(yq, bounds, layout),
    ensures
        xq.height == (Frac { num: LINE_WIDTH as i128, den: 1 }),
        yq.width == (Frac { num: LINE_WIDTH as i128, den: 1 }),
{
}

/// Law: with the data bounds unchanged, scaling the layout rectangle by
/// a factor `k` (about the origin) scales a point quad's center position
/// by `k` — over the unchanged denominators — while its extent, the
/// fixed point radius, stays constant. The center is the quad corner
/// plus `POINT_RADIUS`.
pub proof fn lemma_point_quad_layout_scaling(
    bounds: Box2,
    l: Box2,
    lk: Box2,
    k: int,
    p: Point2,
    q: Quad,
    qk: Quad,
)
    requires
        is_point_quad(q, bounds, l, p),
        is_point_quad(qk, bounds, lk, p),
        scaled_box(l, lk, k),
    ensures
        qk.x.den == q.x.den,
        qk.y.den == q.y.den,
        qk.x.num + POINT_RADIUS * qk.x.den == k * (q.x.num + POINT_RADIUS * q.x.den),
        qk.y.num + POINT_RADIUS * qk.y.den == k * (q.y.num + POINT_RADIUS * q.y.den),
        qk.width == q.width,
        qk.height == q.height,
{
    lemma_tx_num_scaling(bounds, l, lk, k, p.x as int);
    lemma_ty_num_scaling(bounds, l, lk, k, p.y as int);
}

/// Law: with the data bounds unchanged, scaling the layout rectangle by
/// a factor `k` (about the origin) scales the x-axis line's left end and
/// vertical center position by `k` — over the unchanged denominators —
/// and scales its length by `k`, while its thickness stays the fixed
/// `LINE_WIDTH`. The vertical center is the quad's top edge plus half
/// the line width.
pub proof fn lemma_x_axis_layout_scaling(
    bounds: Box2,
    l: Box2,
    lk: Box2,
    k: int,
    q: Quad,
    qk: Quad,
)
    requires
        is_x_axis_quad(q, bounds, l),
        is_x_axis_quad(qk, bounds, lk),
        scaled_box(l, lk, k),
    ensures
        qk.x.den == q.x.den,
        qk.y.den == q.y.den,
        qk.width.den == q.width.den,
        qk.x.num == k * q.x.num,
        2 * qk.y.num + LINE_WIDTH * qk.y.den == k * (2 * q.y.num + LINE_WIDTH * q.y.den),
        qk.width.num == k * q.width.num,
        qk.height == q.height,
{
    lemma_tx_num_scaling(bounds, l, lk, k, bounds.min.x as int);
    lemma_ty_num_scaling(bounds, l, lk, k, 0);
    assert((bounds.max.x - bounds.min.x) * (lk.max.x - lk.min.x) == k * ((bounds.max.x
        - bounds.min.x) * (l.max.x - l.min.x))) by (nonlinear_arith)
        requires
            lk.min.x == k * l.min.x,
            lk.max.x == k * l.max.x,
    ;
    assert(2 * qk.y.num + LINE_WIDTH * qk.y.den == k * (2 * q.y.num + LINE_WIDTH * q.y.den))
        by (nonlinear_arith)
        requires
            qk.y.num == 2 * spec_ty_num(bounds, lk, 0) - LINE_WIDTH * bounds.spec_height(),
            qk.y.den == 2 * bounds.spec_height(),
            q.y.num == 2 * spec_ty_num(bounds, l, 0) - LINE_WIDTH * bounds.spec_height(),
            q.y.den == 2 * bounds.spec_height(),
            spec_ty_num(bounds, lk, 0) == k * spec_ty_num(bounds, l, 0),
    ;
}

/// Law: with the data bounds unchanged, scaling the layout rectangle by
/// a factor `k` (about the origin) scales the y-axis line's horizontal
/// center and top end position by `k` — over the unchanged denominators
/// — and scales its length by `k`, while its thickness stays the fixed
/// `LINE_WIDTH`. The horizontal center is the quad's left edge plus half
/// the line width.
pub proof fn lemma_y_axis_layout_scaling(
    bounds: Box2,
    l: Box2,
    lk: Box2,
    k: int,
    q: Quad,
    qk: Quad,
)
    requires
        is_y_axis_quad(q, bounds, l),
        is_y_axis_quad(qk, bounds, lk),
        scaled_box(l, lk, k),
    ensures
        qk.x.den == q.x.den,
        qk.y.den == q.y.den,
        qk.height.den == q.height.den,
        2 * qk.x.num + LINE_WIDTH * qk.x.den == k * (2 * q.x.num + LINE_WIDTH * q.x.den),
        qk.y.num == k * q.y.num,
        qk.height.num == k * q.height.num,
        qk.width == q.width,
{
    lemma_tx_num_scaling(bounds, l, lk, k, 0);
    lemma_ty_num_scaling(bounds, l, lk, k, bounds.max.y as int);
    assert((bounds.max.y - bounds.min.y) * (lk.max.y - lk.min.y) == k * ((bounds.max.y
        - bounds.min.y) * (l.max.y - l.min.y))) by (nonlinear_arith)
        requires
            lk.min.y == k * l.min.y,
            lk.max.y == k * l.max.y,
    ;
    assert(2 * qk.x.num + LINE_WIDTH * qk.x.den == k * (2 * q.x.num + LINE_WIDTH * q.x.den))
        by (nonlinear_arith)
        requires
            qk.x.num == 2 * spec_tx_num(bounds, lk, 0) - LINE_WIDTH * bounds.spec_width(),
            qk.x.den == 2 * bounds.spec_width(),
            q.x.num == 2 * spec_tx_num(bounds, l, 0) - LINE_WIDTH * bounds.spec_width(),
            q.x.den == 2 * bounds.spec_width(),
            spec_tx_num(bounds, lk, 0) == k * spec_tx_num(bounds, l, 0),
    ;
}

} // verus!
