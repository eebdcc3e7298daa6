use vstd::prelude::*;

use crate::frac::Frac;
use crate::geom::{Box2, Point2, COORD_LIMIT};

verus! {

/// Radius of a plotted point, in pixel units.
pub const POINT_RADIUS: i64 = 2;

/// Thickness of an axis line, in pixel units.
pub const LINE_WIDTH: i64 = 1;

/// An RGBA color with 8-bit channels.
#[derive(Clone, Copy, Debug, PartialEq, Eq, Structural)]
pub struct Rgba {
    pub red: u8,
    pub green: u8,
    pub blue: u8,
    pub alpha: u8,
}

/// Opaque black.
pub open spec fn spec_black() -> Rgba {
    Rgba { red: 0, green: 0, blue: 0, alpha: 255 }
}

/// Fully transparent.
pub open spec fn spec_transparent() -> Rgba {
    Rgba { red: 0, green: 0, blue: 0, alpha: 0 }
}

/// Opaque black.
pub fn black() -> (c: Rgba)
    ensures
        c == spec_black(),
{
    Rgba { red: 0, green: 0, blue: 0, alpha: 255 }
}

/// Fully transparent.
pub fn transparent() -> (c: Rgba)
    ensures
        c == spec_transparent(),
{
    Rgba { red: 0, green: 0, blue: 0, alpha: 0 }
}

/// Numerator of the pixel-space x position of data-space `x`:
/// `layout.min.x + (x - bounds.min.x) / bounds.width * layout.width`,
/// brought over the common denominator `bounds.width`.
pub open spec fn spec_tx_num(bounds: Box2, layout: Box2, x: int) -> int {
    layout.min.x * bounds.spec_width() + (x - bounds.min.x) * layout.spec_width()
}

/// Numerator of the pixel-space y position of data-space `y`:
/// `layout.min.y + (-y - bounds.min.y) / bounds.height * layout.height`,
/// brought over the common denominator `bounds.height`. The negation of
/// `y` flips the vertical axis: data-space "up" is positive, pixel-space
/// "down" is positive.
pub open spec fn spec_ty_num(bounds: Box2, layout: Box2, y: int) -> int {
    layout.min.y * bounds.spec_height() + (-y - bounds.min.y) * layout.spec_height()
}

/// `|a * b| <= ba * bb` whenever `|a| <= ba` and `|b| <= bb`.
proof fn lemma_abs_mul_le(a: int, b: int, ba: int, bb: int)
    by (nonlinear_arith)
    requires
        -ba <= a <= ba,
        -bb <= b <= bb,
    ensures
        -(ba * bb) <= a * b <= ba * bb,
{
}

/// Transform a data-space point into pixel space: x and y position as
/// exact fractions over the bounds' width and height respectively.
pub fn transform_point(bounds: &Box2, layout: &Box2, p: &Point2) -> (r: (Frac, Frac))
    requires
        bounds.in_range(),
        layout.in_range(),
        p.in_range(),
        bounds.proper(),
    ensures
        r.0.num == spec_tx_num(*bounds, *layout, p.x as int),
        r.0.den == bounds.spec_width(),
        r.1.num == spec_ty_num(*bounds, *layout, p.y as int),
        r.1.den == bounds.spec_height(),
        r.0.wf(),
        r.1.wf(),
        -6 * (COORD_LIMIT as int) * (COORD_LIMIT as int) <= r.0.num
            <= 6 * (COORD_LIMIT as int) * (COORD_LIMIT as int),
        -6 * (COORD_LIMIT as int) * (COORD_LIMIT as int) <= r.1.num
            <= 6 * (COORD_LIMIT as int) * (COORD_LIMIT as int),
{
    let bw: i128 = (bounds.max.x as i128) - (bounds.min.x as i128);
    let bh: i128 = (bounds.max.y as i128) - (bounds.min.y as i128);
    let lw: i128 = (layout.max.x as i128) - (layout.min.x as i128);
    let lh: i128 = (layout.max.y as i128) - (layout.min.y as i128);
    proof {
        let k: int = COORD_LIMIT as int;
        lemma_abs_mul_le(layout.min.x as int, bw as int, k, 2 * k);
        lemma_abs_mul_le(p.x - bounds.min.x, lw as int, 2 * k, 2 * k);
        lemma_abs_mul_le(layout.min.y as int, bh as int, k, 2 * k);
        lemma_abs_mul_le(-(p.y as int) - bounds.min.y, lh as int, 2 * k, 2 * k);
    }
    let nx: i128 = (layout.min.x as i128) * bw + ((p.x as i128) - (bounds.min.x as i128)) * lw;
    let ny: i128 = (layout.min.y as i128) * bh + (-(p.y as i128) - (bounds.min.y as i128)) * lh;
    (Frac { num: nx, den: bw }, Frac { num: ny, den: bh })
}

/// Scale a data-space extent `(w, h)` into pixel space without
/// translation, reusing the per-axis scale factors of the point
/// transform.
pub fn transform_size(bounds: &Box2, layout: &Box2, w: i64, h: i64) -> (r: (Frac, Frac))
    requires
        bounds.in_range(),
        layout.in_range(),
        bounds.proper(),
        -2 * COORD_LIMIT <= w <= 2 * COORD_LIMIT,
        -2 * COORD_LIMIT <= h <= 2 * COORD_LIMIT,
    ensures
        r.0.num == w * layout.spec_width(),
        r.0.den == bounds.spec_width(),
        r.1.num == h * layout.spec_height(),
        r.1.den == bounds.spec_height(),
        r.0.wf(),
        r.1.wf(),
{
    let bw: i128 = (bounds.max.x as i128) - (bounds.min.x as i128);
    let bh: i128 = (bounds.max.y as i128) - (bounds.min.y as i128);
    let lw: i128 = (layout.max.x as i128) - (layout.min.x as i128);
    let lh: i128 = (layout.max.y as i128) - (layout.min.y as i128);
    proof {
        let k: int = COORD_LIMIT as int;
        lemma_abs_mul_le(w as int, lw as int, 2 * k, 2 * k);
        lemma_abs_mul_le(h as int, lh as int, 2 * k, 2 * k);
    }
    let nw: i128 = (w as i128) * lw;
    let nh: i128 = (h as i128) * lh;
    (Frac { num: nw, den: bw }, Frac { num: nh, den: bh })
}

/// A filled quadrilateral: position of its top-left corner, extent, fill
/// color, border radius and border stroke.
#[derive(Clone, Copy, Debug, PartialEq, Eq, Structural)]
pub struct Quad {
    pub x: Frac,
    pub y: Frac,
    pub width: Frac,
    pub height: Frac,
    pub background: Rgba,
    pub border_radius: u16,
    pub border_width: u16,
    pub border_color: Rgba,
}

/// An atomic drawing instruction: a filled quad, or an ordered group of
/// further instructions.
#[derive(Debug, PartialEq)]
pub enum Primitive {
    Quad(Quad),
    Group(Vec<Primitive>),
}

/// `q` is the quad that plots data point `p`: a black circular quad of
/// fixed extent `2 * POINT_RADIUS`, centered on the transformed point.
pub open spec fn is_point_quad(q: Quad, bounds: Box2, layout: Box2, p: Point2) -> bool {
    &&& q.x.num == spec_tx_num(bounds, layout, p.x as int) - POINT_RADIUS * bounds.spec_width()
    &&& q.x.den == bounds.spec_width()
    &&& q.y.num == spec_ty_num(bounds, layout, p.y as int) - POINT_RADIUS * bounds.spec_height()
    &&& q.y.den == bounds.spec_height()
    &&& q.width == (Frac { num: (2 * POINT_RADIUS) as i128, den: 1 })
    &&& q.height == (Frac { num: (2 * POINT_RADIUS) as i128, den: 1 })
    &&& q.background == spec_black()
    &&& q.border_radius == POINT_RADIUS
    &&& q.border_width == 0
    &&& q.border_color == spec_transparent()
}

/// `q` is the x-axis line: a black horizontal quad of thickness
/// `LINE_WIDTH` centered on the pixel row of data `y = 0`, spanning the
/// full transformed width of the data bounds from their left edge.
pub open spec fn is_x_axis_quad(q: Quad, bounds: Box2, layout: Box2) -> bool {
    &&& q.x.num == spec_tx_num(bounds, layout, bounds.min.x as int)
    &&& q.x.den == bounds.spec_width()
    &&& q.y.num == 2 * spec_ty_num(bounds, layout, 0) - LINE_WIDTH * bounds.spec_height()
    &&& q.y.den == 2 * bounds.spec_height()
    &&& q.width.num == bounds.spec_width() * layout.spec_width()
    &&& q.width.den == bounds.spec_width()
    &&& q.height == (Frac { num: LINE_WIDTH as i128, den: 1 })
    &&& q.background == spec_black()
    &&& q.border_radius == 0
    &&& q.border_width == 0
    &&& q.border_color == spec_transparent()
}

/// `q` is the y-axis line: a black vertical quad of thickness
/// `LINE_WIDTH` centered on the pixel column of data `x = 0`, spanning
/// the full transformed height of the data bounds, anchored at the
/// transformed maximum data y.
pub open spec fn is_y_axis_quad(q: Quad, bounds: Box2, layout: Box2) -> bool {
    &&& q.x.num == 2 * spec_tx_num(bounds, layout, 0) - LINE_WIDTH * bounds.spec_width()
    &&& q.x.den == 2 * bounds.spec_width()
    &&& q.y.num == spec_ty_num(bounds, layout, bounds.max.y as int)
    &&& q.y.den == bounds.spec_height()
    &&& q.width == (Frac { num: LINE_WIDTH as i128, den: 1 })
    &&& q.height.num == bounds.spec_height() * layout.spec_height()
    &&& q.height.den == bounds.spec_height()
    &&& q.background == spec_black()
    &&& q.border_radius == 0
    &&& q.border_width == 0
    &&& q.border_color == spec_transparent()
}

/// Build the quad that plots data point `p`.
pub fn point_quad(bounds: &Box2, layout: &Box2, p: &Point2) -> (q: Quad)
    requires
        bounds.in_range(),
        layout.in_range(),
        p.in_range(),
        bounds.proper(),
    ensures
        is_point_quad(q, *bounds, *layout, *p),
{
    let (cx, cy) = transform_point(bounds, layout, p);
    proof {
        lemma_abs_mul_le(POINT_RADIUS as int, cx.den as int, POINT_RADIUS as int, 2 * COORD_LIMIT);
        lemma_abs_mul_le(POINT_RADIUS as int, cy.den as int, POINT_RADIUS as int, 2 * COORD_LIMIT);
    }
    Quad {
        x: Frac { num: cx.num - POINT_RADIUS as i128 * cx.den, den: cx.den },
        y: Frac { num: cy.num - POINT_RADIUS as i128 * cy.den, den: cy.den },
        width: Frac { num: 2 * POINT_RADIUS as i128, den: 1 },
        height: Frac { num: 2 * POINT_RADIUS as i128, den: 1 },
        background: black(),
        border_radius: POINT_RADIUS as u16,
        border_width: 0,
        border_color: transparent(),
    }
}

/// Build the x-axis line quad.
pub fn x_axis_quad(bounds: &Box2, layout: &Box2) -> (q: Quad)
    requires
        bounds.in_range(),
        layout.in_range(),
        bounds.proper(),
    ensures
        is_x_axis_quad(q, *bounds, *layout),
{
    let origin = Point2 { x: bounds.min.x, y: 0 };
    let (ax, ay) = transform_point(bounds, layout, &origin);
    let (w, _h) = transform_size(bounds, layout, bounds.width(), 0);
    proof {
        lemma_abs_mul_le(LINE_WIDTH as int, ay.den as int, LINE_WIDTH as int, 2 * COORD_LIMIT);
    }
    Quad {
        x: ax,
        y: Frac { num: 2 * ay.num - LINE_WIDTH as i128 * ay.den, den: 2 * ay.den },
        width: w,
        height: Frac { num: LINE_WIDTH as i128, den: 1 },
        background: black(),
        border_radius: 0,
        border_width: 0,
        border_color: transparent(),
    }
}

/// Build the y-axis line quad.
pub fn y_axis_quad(bounds: &Box2, layout: &Box2) -> (q: Quad)
    requires
        bounds.in_range(),
        layout.in_range(),
        bounds.proper(),
    ensures
        is_y_axis_quad(q, *bounds, *layout),
{
    let anchor = Point2 { x: 0, y: bounds.max.y };
    let (ax, ay) = transform_point(bounds, layout, &anchor);
    let (_w, h) = transform_size(bounds, layout, 0, bounds.height());
    proof {
        lemma_abs_mul_le(LINE_WIDTH as int, ax.den as int, LINE_WIDTH as int, 2 * COORD_LIMIT);
    }
    Quad {
        x: Frac { num: 2 * ax.num - LINE_WIDTH as i128 * ax.den, den: 2 * ax.den },
        y: ay,
        width: Frac { num: LINE_WIDTH as i128, den: 1 },
        height: h,
        background: black(),
        border_radius: 0,
        border_width: 0,
        border_color: transparent(),
    }
}

/// How a widget wants to be sized along one axis by the host layout
/// engine.
#[derive(Clone, Copy, Debug, PartialEq, Eq, Structural)]
pub enum Length {
    Fill,
    Shrink,
    Units(u16),
}

/// A widget's preferred size in logical units.
#[derive(Clone, Copy, Debug, PartialEq, Eq, Structural)]
pub struct Size {
    pub width: u32,
    pub height: u32,
}

/// Cursor-icon hint returned alongside the primitives.
#[derive(Clone, Copy, Debug, PartialEq, Eq, Structural)]
pub enum MouseCursor {
    Idle,
    OutOfBounds,
}

/// Why a plot could not be drawn.
#[derive(Clone, Copy, Debug, PartialEq, Eq, Structural)]
pub enum PlotError {
    /// The data bounds span no positive extent on some axis, so the
    /// data-to-pixel transform would divide by zero.
    DegenerateBounds,
}

/// `pr` is the quad primitive that plots data point `p`.
pub open spec fn is_point_prim(pr: Primitive, bounds: Box2, layout: Box2, p: Point2) -> bool {
    pr matches Primitive::Quad(q) && is_point_quad(q, bounds, layout, p)
}

/// `pr` is the x-axis quad primitive.
pub open spec fn is_x_axis_prim(pr: Primitive, bounds: Box2, layout: Box2) -> bool {
    pr matches Primitive::Quad(q) && is_x_axis_quad(q, bounds, layout)
}

/// `pr` is the y-axis quad primitive.
pub open spec fn is_y_axis_prim(pr: Primitive, bounds: Box2, layout: Box2) -> bool {
    pr matches Primitive::Quad(q) && is_y_axis_quad(q, bounds, layout)
}

/// `ps` is exactly the primitive list of one draw pass: one point quad
/// per data point, in input order, then the x-axis line, then the y-axis
/// line, so that the axes draw on top of the points.
pub open spec fn is_plot_primitives(
    ps: Seq<Primitive>,
    bounds: Box2,
    points: Seq<Point2>,
    layout: Box2,
) -> bool {
    &&& ps.len() == points.len() + 2
    &&& forall|i: int|
        0 <= i < points.len() ==> is_point_prim(#[trigger] ps[i], bounds, layout, points[i])
    &&& is_x_axis_prim(ps[points.len() as int], bounds, layout)
    &&& is_y_axis_prim(ps[points.len() as int + 1], bounds, layout)
}

/// A scatter plot of a borrowed, read-only sequence of data points
/// inside a fixed data-space bounding box. Both are fixed for the
/// widget's lifetime: one render pass.
pub struct ScatterPlot<'a> {
    pub bounds: Box2,
    pub points: &'a [Point2],
}

impl<'a> ScatterPlot<'a> {
    /// Every coordinate the plot reads is an acceptable input
    /// coordinate.
    pub open spec fn in_range(self) -> bool {
        &&& self.bounds.in_range()
        &&& forall|i: int| 0 <= i < self.points@.len() ==> (#[trigger] self.points@[i]).in_range()
    }

    /// Make a plot of `points` within the data-space box `bounds`.
    pub fn new(bounds: Box2, points: &'a [Point2]) -> (r: Self)
        ensures
            r.bounds == bounds,
            r.points@ == points@,
    {
        Self { bounds, points }
    }

    /// The widget asks to fill the available width.
    pub fn width(&self) -> (r: Length)
        ensures
            r == Length::Fill,
    {
        Length::Fill
    }

    /// The widget asks to fill the available height.
    pub fn height(&self) -> (r: Length)
        ensures
            r == Length::Fill,
    {
        Length::Fill
    }

    /// The fixed size the widget reports to the host layout engine,
    /// whatever its data; the layout rectangle actually assigned at
    /// draw time may differ.
    pub fn preferred_size(&self) -> (r: Size)
        ensures
            r == (Size { width: 500, height: 500 }),
    {
        Size { width: 500, height: 500 }
    }

    /// Emit the primitives of one draw pass into the assigned layout
    /// rectangle: one fixed-size black quad per data point, in input
    /// order, then the two axis lines on top. Degenerate data bounds
    /// (no positive extent on some axis) are rejected instead of
    /// dividing by zero.
    pub fn draw_primitives(&self, layout: &Box2) -> (r: Result<Vec<Primitive>, PlotError>)
        requires
            self.in_range(),
            layout.in_range(),
        ensures
            r is Ok <==> self.bounds.proper(),
            r matches Ok(ps) ==> is_plot_primitives(ps@, self.bounds, self.points@, *layout),
            r matches Err(e) ==> e == PlotError::DegenerateBounds,
    {
        if self.bounds.max.x <= self.bounds.min.x || self.bounds.max.y <= self.bounds.min.y {
            return Err(PlotError::DegenerateBounds);
        }
        let n = self.points.len();
        let mut primitives: Vec<Primitive> = Vec::new();
        for i in 0..n
            invariant
                n == self.points@.len(),
                self.in_range(),
                layout.in_range(),
                self.bounds.proper(),
                primitives@.len() == i,
                forall|j: int|
                    0 <= j < i ==> is_point_prim(
                        #[trigger] primitives@[j],
                        self.bounds,
                        *layout,
                        self.points@[j],
                    ),
        {
            let q = point_quad(&self.bounds, layout, &self.points[i]);
            primitives.push(Primitive::Quad(q));
        }
        primitives.push(Primitive::Quad(x_axis_quad(&self.bounds, layout)));
        primitives.push(Primitive::Quad(y_axis_quad(&self.bounds, layout)));
        Ok(primitives)
    }

    /// One full draw pass: the primitives of `draw_primitives` wrapped
    /// as a single group, paired with the hint that the cursor is
    /// outside any interactive region (the plot is non-interactive).
    pub fn draw(&self, layout: &Box2) -> (r: Result<(Primitive, MouseCursor), PlotError>)
        requires
            self.in_range(),
            layout.in_range(),
        ensures
            r is Ok <==> self.bounds.proper(),
            r matches Ok(out) ==> {
                &&& out.0 matches Primitive::Group(ps) && is_plot_primitives(
                    ps@,
                    self.bounds,
                    self.points@,
                    *layout,
                )
                &&& out.1 == MouseCursor::OutOfBounds
            },
            r matches Err(e) ==> e == PlotError::DegenerateBounds,
    {
        match self.draw_primitives(layout) {
            Ok(primitives) => Ok((Primitive::Group(primitives), MouseCursor::OutOfBounds)),
            Err(e) => Err(e),
        }
    }
}

} // verus!

