use mltg::brush::{Brush, GradientMode, GradientStop, GradientStopCollection, GRADIENT_POSITION_SCALE, INVALID_ARG_CODE};
use mltg::error::Error;
use mltg::geometry::{Circle, Point, Rect, RectCorners, Rgba, Size, Vector};
use mltg::image::{Image, Interpolation};
use mltg::path::{FigureEnd, PathBuilder, PathSegment};
use mltg::path::{FilledPath, HollowPath};
use mltg::stroke_style::{CapStyle, Dash, DashStyle, LineJoin, StrokeStyle, StrokeStyleProperties};

#[test]
fn rect_corners_round_trip() {
    let r = Rect::new(Point::new(10, -20), Size::new(30, 40));
    let c = r.to_corners();
    assert_eq!(c, RectCorners { left: 10, top: -20, right: 40, bottom: 20 });
    let back = c.to_rect();
    assert_eq!(back, r);
}

#[test]
fn rect_corners_round_trip_zero_size() {
    let r = Rect::new(Point::new(-5, 7), Size::new(0, 0));
    let back = r.to_corners().to_rect();
    assert_eq!(back, r);
}

#[test]
fn corners_rect_round_trip() {
    let c = RectCorners { left: -3, top: 4, right: 9, bottom: 11 };
    assert_eq!(c.to_rect().to_corners(), c);
}

#[test]
fn rect_endpoint() {
    let r = Rect::new(Point::new(2, 3), Size::new(7, 9));
    let e = r.endpoint();
    assert_eq!((e.x, e.y), (9, 12));
}

#[test]
fn circle_to_ellipse_has_equal_radii() {
    let e = Circle::new(Point::new(1, 2), 5).to_ellipse();
    assert_eq!(e.center, Point::new(1, 2));
    assert_eq!(e.radius, Vector::new(5, 5));
}

#[test]
fn gradient_stops_preserve_count_and_order() {
    let stops = vec![
        GradientStop::new(0, Rgba::new(255, 0, 0, 255)),
        GradientStop::new(GRADIENT_POSITION_SCALE / 4, Rgba::new(0, 255, 0, 255)),
        GradientStop::new(GRADIENT_POSITION_SCALE / 2, Rgba::new(0, 0, 255, 255)),
        GradientStop::new(GRADIENT_POSITION_SCALE, Rgba::new(255, 255, 255, 255)),
    ];
    let col = GradientStopCollection::new(GradientMode::Clamp, &stops).unwrap();
    assert_eq!(col.len(), stops.len());
    for (held, given) in col.stops.iter().zip(stops.iter()) {
        assert_eq!(held, given);
    }
    for pair in col.stops.windows(2) {
        assert!(pair[0].position < pair[1].position);
    }
}

#[test]
fn gradient_stop_out_of_range_is_rejected() {
    let stops = vec![GradientStop::new(GRADIENT_POSITION_SCALE + 1, Rgba::new(0, 0, 0, 255))];
    let r = GradientStopCollection::new(GradientMode::Wrap, &stops);
    assert_eq!(r.unwrap_err(), Error::Other(INVALID_ARG_CODE));
}

#[test]
fn gradient_mode_codes() {
    assert_eq!(GradientMode::Clamp.to_raw(), 0);
    assert_eq!(GradientMode::Wrap.to_raw(), 1);
    assert_eq!(GradientMode::Mirror.to_raw(), 2);
}

#[test]
fn solid_color_brush_keeps_color() {
    let b = Brush::solid_color(Rgba::new(1, 2, 3, 4)).unwrap();
    match b {
        Brush::SolidColor(s) => assert_eq!(s.color, Rgba::new(1, 2, 3, 4)),
        _ => panic!("expected a solid color brush"),
    }
}

#[test]
fn linear_gradient_brush_keeps_axis_and_stops() {
    let stops = vec![
        GradientStop::new(0, Rgba::new(0, 0, 0, 255)),
        GradientStop::new(GRADIENT_POSITION_SCALE, Rgba::new(255, 255, 255, 255)),
    ];
    let col = GradientStopCollection::new(GradientMode::Mirror, &stops).unwrap();
    let b = Brush::linear_gradient(Point::new(0, 0), Point::new(100, 0), &col).unwrap();
    match b {
        Brush::LinearGradient(g) => {
            assert_eq!(g.start, Point::new(0, 0));
            assert_eq!(g.end, Point::new(100, 0));
            assert_eq!(g.stops.mode, GradientMode::Mirror);
            assert_eq!(g.stops.len(), 2);
        }
        _ => panic!("expected a linear gradient brush"),
    }
}

#[test]
fn stroke_style_default_descriptor() {
    let s = StrokeStyle::new(&StrokeStyleProperties::default()).unwrap();
    assert_eq!(s.start_cap, 0);
    assert_eq!(s.end_cap, 0);
    assert_eq!(s.dash_cap, 0);
    assert_eq!(s.line_join, 0);
    assert_eq!(s.miter_limit, 100);
    assert_eq!(s.dash_style, 0);
    assert_eq!(s.dash_offset, 0);
    assert!(s.dashes.is_none());
}

#[test]
fn stroke_style_custom_dashes() {
    let props = StrokeStyleProperties {
        start_cap: CapStyle::Round,
        end_cap: CapStyle::Triangle,
        line_join: LineJoin::MiterOrBevel(250),
        dash: Some(Dash {
            cap: CapStyle::Square,
            style: DashStyle::Custom(vec![200, 100, 50]),
            offset: 25,
        }),
    };
    let s = StrokeStyle::new(&props).unwrap();
    assert_eq!(s.start_cap, 2);
    assert_eq!(s.end_cap, 3);
    assert_eq!(s.dash_cap, 1);
    assert_eq!(s.line_join, 3);
    assert_eq!(s.miter_limit, 250);
    assert_eq!(s.dash_style, 5);
    assert_eq!(s.dash_offset, 25);
    assert_eq!(s.dashes.unwrap(), vec![200, 100, 50]);
}

#[test]
fn stroke_style_stock_dash() {
    let props = StrokeStyleProperties {
        start_cap: CapStyle::Flat,
        end_cap: CapStyle::Flat,
        line_join: LineJoin::Round,
        dash: Some(Dash { cap: CapStyle::Flat, style: DashStyle::DashDotDot, offset: 0 }),
    };
    let s = StrokeStyle::new(&props).unwrap();
    assert_eq!(s.line_join, 2);
    assert_eq!(s.dash_style, 4);
    assert!(s.dashes.is_none());
}

#[test]
fn unit_square_filled_path() {
    let builder: PathBuilder<FilledPath> = PathBuilder::new();
    let path = builder
        .begin(Point::new(0, 0))
        .line_to(Point::new(100, 0))
        .line_to(Point::new(100, 100))
        .line_to(Point::new(0, 100))
        .end(FigureEnd::Closed)
        .unwrap()
        .close()
        .unwrap();
    assert_eq!(path.0.len(), 1);
    let figure = &path.0.figures[0];
    assert_eq!(figure.start, Point::new(0, 0));
    assert_eq!(figure.end, FigureEnd::Closed);
    assert!(figure.filled);
    assert_eq!(
        figure.segments,
        vec![
            PathSegment::Line(Point::new(100, 0)),
            PathSegment::Line(Point::new(100, 100)),
            PathSegment::Line(Point::new(0, 100)),
        ]
    );
}

#[test]
fn hollow_path_open_figure() {
    let builder: PathBuilder<HollowPath> = PathBuilder::new();
    let path = builder
        .begin(Point::new(5, 5))
        .quadratic_bezier_to(Point::new(10, 0), Point::new(20, 5))
        .cubic_bezier_to(Point::new(25, 10), Point::new(30, 10), Point::new(35, 5))
        .end(FigureEnd::Open)
        .unwrap()
        .close()
        .unwrap();
    assert_eq!(path.0.len(), 1);
    let figure = &path.0.figures[0];
    assert_eq!(figure.end, FigureEnd::Open);
    assert!(!figure.filled);
    assert_eq!(figure.segments.len(), 2);
}

#[test]
fn path_lines_batch() {
    let builder: PathBuilder<FilledPath> = PathBuilder::new();
    let points = [Point::new(1, 0), Point::new(2, 0), Point::new(3, 0)];
    let path = builder
        .begin(Point::new(0, 0))
        .lines(&points)
        .end(FigureEnd::Closed)
        .unwrap()
        .close()
        .unwrap();
    assert_eq!(path.0.figures[0].segments.len(), 3);
    assert_eq!(path.0.figures[0].segments[2], PathSegment::Line(Point::new(3, 0)));
}

#[test]
fn image_reports_size() {
    let im = Image::new(mltg::geometry::PhysicalSize::new(320, 200));
    assert_eq!(im.size(), mltg::geometry::PhysicalSize::new(320, 200));
}

#[test]
fn interpolation_codes() {
    assert_eq!(Interpolation::NearestNeighbor.to_raw(), 0);
    assert_eq!(Interpolation::Linear.to_raw(), 1);
    assert_eq!(Interpolation::HighQualityCubic.to_raw(), 5);
}

#[test]
fn shape_helpers() {
    let l = mltg::shape::line(Point::new(0, 0), Point::new(5, 5));
    assert_eq!((l.0, l.1), (Point::new(0, 0), Point::new(5, 5)));
    let rr = mltg::shape::rounded_rect(
        Rect::new(Point::new(0, 0), Size::new(10, 10)),
        Vector::new(2, 3),
    );
    assert_eq!(rr.radius, Vector::new(2, 3));
}

#[test]
fn path_build_keeps_figures() {
    let builder: PathBuilder<FilledPath> = PathBuilder::new();
    let path = builder
        .begin(Point::new(0, 0))
        .line_to(Point::new(1, 1))
        .end(FigureEnd::Open)
        .unwrap()
        .build();
    assert_eq!(path.len(), 1);
    assert_eq!(path.figures[0].segments.len(), 1);
}

#[test]
fn rect_round_trip_at_extremes() {
    let r = Rect::new(Point::new(i32::MAX - 5, i32::MIN), Size::new(5, 7));
    assert_eq!(r.to_corners().to_rect(), r);
    let e = r.endpoint();
    assert_eq!((e.x, e.y), (i32::MAX, i32::MIN + 7));
}

#[test]
fn gradient_stops_with_equal_positions_are_kept() {
    let stops = vec![
        GradientStop::new(500_000, Rgba::new(1, 1, 1, 255)),
        GradientStop::new(500_000, Rgba::new(2, 2, 2, 255)),
    ];
    let col = GradientStopCollection::new(GradientMode::Clamp, &stops).unwrap();
    assert_eq!(col.len(), 2);
    assert_eq!(col.stops[0].color, Rgba::new(1, 1, 1, 255));
    assert_eq!(col.stops[1].color, Rgba::new(2, 2, 2, 255));
}
