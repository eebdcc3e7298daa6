use scatter_plot::frac::Frac;
use scatter_plot::geom::{Box2, Point2};
use scatter_plot::plot::{Length, MouseCursor, PlotError, Primitive, Quad, ScatterPlot, Size};

fn boxed(min_x: i64, min_y: i64, max_x: i64, max_y: i64) -> Box2 {
    Box2 { min: Point2 { x: min_x, y: min_y }, max: Point2 { x: max_x, y: max_y } }
}

fn quad_of(p: &Primitive) -> &Quad {
    match p {
        Primitive::Quad(q) => q,
        Primitive::Group(_) => panic!("expected a quad primitive"),
    }
}

/// The fraction `f` denotes exactly the whole number `v`.
fn frac_is(f: Frac, v: i128) -> bool {
    f.den > 0 && f.num == v * f.den
}

/// Center of a point quad along one axis: corner plus the point radius.
fn point_center(f: Frac) -> Frac {
    Frac { num: f.num + 2 * f.den, den: f.den }
}

/// Center of an axis line across its thickness: edge plus half the line
/// width, over a doubled denominator.
fn line_center(f: Frac) -> Frac {
    Frac { num: 2 * f.num + f.den, den: 2 * f.den }
}

#[test]
fn center_point_maps_to_layout_center() {
    let bounds = boxed(-5, -5, 5, 5);
    let layout = boxed(0, 0, 500, 500);
    let points = [Point2 { x: 0, y: 0 }];
    let plot = ScatterPlot::new(bounds, &points);
    let prims = plot.draw_primitives(&layout).unwrap();
    let q = quad_of(&prims[0]);
    assert!(frac_is(point_center(q.x), 250));
    assert!(frac_is(point_center(q.y), 250));
}

#[test]
fn vertical_axis_is_flipped() {
    let bounds = boxed(-5, -5, 5, 5);
    let layout = boxed(0, 0, 500, 500);
    let points = [Point2 { x: 0, y: 5 }, Point2 { x: 0, y: -5 }];
    let plot = ScatterPlot::new(bounds, &points);
    let prims = plot.draw_primitives(&layout).unwrap();
    // Data "up" (y = 5) lands at the top of the pixel rectangle (y = 0),
    // data "down" (y = -5) at its bottom (y = 500).
    assert!(frac_is(point_center(quad_of(&prims[0]).y), 0));
    assert!(frac_is(point_center(quad_of(&prims[1]).y), 500));
}

#[test]
fn group_holds_points_in_order_then_axes() {
    let bounds = boxed(-5, -5, 5, 5);
    let layout = boxed(0, 0, 500, 500);
    let points = [
        Point2 { x: -5, y: 0 },
        Point2 { x: 0, y: 0 },
        Point2 { x: 5, y: 0 },
    ];
    let plot = ScatterPlot::new(bounds, &points);
    let prims = plot.draw_primitives(&layout).unwrap();
    assert_eq!(prims.len(), points.len() + 2);
    // The first n primitives correspond 1:1, in order, to the input points.
    assert!(frac_is(point_center(quad_of(&prims[0]).x), 0));
    assert!(frac_is(point_center(quad_of(&prims[1]).x), 250));
    assert!(frac_is(point_center(quad_of(&prims[2]).x), 500));
    // The x axis follows: full width, at the pixel row of data y = 0.
    let xa = quad_of(&prims[3]);
    assert!(frac_is(xa.x, 0));
    assert!(frac_is(xa.width, 500));
    assert!(frac_is(xa.height, 1));
    assert!(frac_is(line_center(xa.y), 250));
    // The y axis comes last: full height, at the pixel column of data x = 0.
    let ya = quad_of(&prims[4]);
    assert!(frac_is(ya.y, 0));
    assert!(frac_is(ya.height, 500));
    assert!(frac_is(ya.width, 1));
    assert!(frac_is(line_center(ya.x), 250));
}

#[test]
fn point_quads_have_fixed_size() {
    let layouts = [boxed(0, 0, 500, 500), boxed(10, 20, 1310, 720)];
    let bounds = [boxed(-5, -5, 5, 5), boxed(-1000, -2, 3000, 7)];
    for bounds in bounds.iter() {
        for layout in layouts.iter() {
            let points = [Point2 { x: 0, y: 0 }, Point2 { x: 1, y: 1 }];
            let plot = ScatterPlot::new(*bounds, &points);
            let prims = plot.draw_primitives(layout).unwrap();
            for p in &prims[..2] {
                let q = quad_of(p);
                assert!(frac_is(q.width, 4));
                assert!(frac_is(q.height, 4));
                assert_eq!(q.border_radius, 2);
                assert_eq!(q.border_width, 0);
            }
        }
    }
}

#[test]
fn axis_lines_have_fixed_thickness() {
    let layouts = [boxed(0, 0, 500, 500), boxed(10, 20, 1310, 720)];
    let bounds = [boxed(-5, -5, 5, 5), boxed(-1000, -2, 3000, 7)];
    for bounds in bounds.iter() {
        for layout in layouts.iter() {
            let plot = ScatterPlot::new(*bounds, &[]);
            let prims = plot.draw_primitives(layout).unwrap();
            assert!(frac_is(quad_of(&prims[0]).height, 1));
            assert!(frac_is(quad_of(&prims[1]).width, 1));
        }
    }
}

#[test]
fn scaling_layout_scales_positions_but_not_fixed_sizes() {
    let bounds = boxed(-5, -5, 5, 5);
    let layout = boxed(0, 0, 500, 500);
    let doubled = boxed(0, 0, 1000, 1000);
    let points = [Point2 { x: 1, y: 2 }];
    let prims = ScatterPlot::new(bounds, &points).draw_primitives(&layout).unwrap();
    let prims2 = ScatterPlot::new(bounds, &points).draw_primitives(&doubled).unwrap();

    // Point centers scale by 2; the point quad's extent does not.
    let (q, q2) = (quad_of(&prims[0]), quad_of(&prims2[0]));
    assert!(frac_is(point_center(q.x), 300));
    assert!(frac_is(point_center(q2.x), 600));
    assert!(frac_is(point_center(q.y), 150));
    assert!(frac_is(point_center(q2.y), 300));
    assert!(frac_is(q.width, 4) && frac_is(q2.width, 4));
    assert!(frac_is(q.height, 4) && frac_is(q2.height, 4));

    // Axis lengths and centers scale by 2; their thickness does not.
    let (xa, xa2) = (quad_of(&prims[1]), quad_of(&prims2[1]));
    assert!(frac_is(xa.width, 500) && frac_is(xa2.width, 1000));
    assert!(frac_is(line_center(xa.y), 250) && frac_is(line_center(xa2.y), 500));
    assert!(frac_is(xa.height, 1) && frac_is(xa2.height, 1));
    let (ya, ya2) = (quad_of(&prims[2]), quad_of(&prims2[2]));
    assert!(frac_is(ya.height, 500) && frac_is(ya2.height, 1000));
    assert!(frac_is(line_center(ya.x), 250) && frac_is(line_center(ya2.x), 500));
    assert!(frac_is(ya.width, 1) && frac_is(ya2.width, 1));
}

#[test]
fn empty_points_yield_only_the_axes() {
    let plot = ScatterPlot::new(boxed(-5, -5, 5, 5), &[]);
    let prims = plot.draw_primitives(&boxed(0, 0, 500, 500)).unwrap();
    assert_eq!(prims.len(), 2);
    assert!(frac_is(quad_of(&prims[0]).height, 1));
    assert!(frac_is(quad_of(&prims[1]).width, 1));
}

#[test]
fn degenerate_bounds_are_rejected() {
    let layout = boxed(0, 0, 500, 500);
    let zero_width = ScatterPlot::new(boxed(3, -5, 3, 5), &[]);
    assert_eq!(zero_width.draw_primitives(&layout), Err(PlotError::DegenerateBounds));
    let zero_height = ScatterPlot::new(boxed(-5, 4, 5, 4), &[]);
    assert_eq!(zero_height.draw_primitives(&layout), Err(PlotError::DegenerateBounds));
    let inverted = ScatterPlot::new(boxed(5, -5, -5, 5), &[]);
    assert_eq!(inverted.draw_primitives(&layout), Err(PlotError::DegenerateBounds));
    let proper = ScatterPlot::new(boxed(-5, -5, 5, 5), &[]);
    assert!(proper.draw_primitives(&layout).is_ok());
}

#[test]
fn draw_wraps_a_group_and_reports_the_cursor_outside() {
    let points = [Point2 { x: 1, y: 1 }];
    let plot = ScatterPlot::new(boxed(-5, -5, 5, 5), &points);
    let (group, cursor) = plot.draw(&boxed(0, 0, 500, 500)).unwrap();
    assert_eq!(cursor, MouseCursor::OutOfBounds);
    match group {
        Primitive::Group(prims) => assert_eq!(prims.len(), 3),
        Primitive::Quad(_) => panic!("expected a group primitive"),
    }
}

#[test]
fn widget_reports_constant_sizing() {
    let plot = ScatterPlot::new(boxed(-5, -5, 5, 5), &[]);
    assert_eq!(plot.width(), Length::Fill);
    assert_eq!(plot.height(), Length::Fill);
    assert_eq!(plot.preferred_size(), Size { width: 500, height: 500 });
}

#[test]
fn quad_colors_are_black_fill_with_transparent_border() {
    let points = [Point2 { x: 0, y: 0 }];
    let plot = ScatterPlot::new(boxed(-5, -5, 5, 5), &points);
    let prims = plot.draw_primitives(&boxed(0, 0, 500, 500)).unwrap();
    for p in &prims {
        let q = quad_of(p);
        assert_eq!((q.background.red, q.background.green, q.background.blue), (0, 0, 0));
        assert_eq!(q.background.alpha, 255);
        assert_eq!(q.border_color.alpha, 0);
    }
}

#[test]
fn asymmetric_bounds_anchor_the_y_axis_at_max_data_y() {
    // Bounds whose y range is [0, 10]: the y axis is anchored at the
    // transformed maximum data y, which lies above the layout rectangle
    // after the vertical flip (-10 maps to relative -1).
    let bounds = boxed(-5, 0, 5, 10);
    let layout = boxed(0, 0, 500, 500);
    let plot = ScatterPlot::new(bounds, &[]);
    let prims = plot.draw_primitives(&layout).unwrap();
    let ya = quad_of(&prims[1]);
    assert!(frac_is(ya.y, -500));
    assert!(frac_is(ya.height, 500));
}
