//! The drawable shapes a frame can fill or stroke, gathered in one closed
//! union so a recorded drawing operation can carry any of them.

use vstd::prelude::*;
use crate::geometry::{Circle, Ellipse, Point, Rect, Vector};
use crate::path::{FilledPath, HollowPath, PathFigure};

verus! {

/// A straight line between two points.
#[derive(Clone, Copy, PartialEq, Eq, Structural, Debug)]
pub struct Line(pub Point, pub Point);

impl Line {
    pub fn new(from: Point, to: Point) -> (l: Line)
        ensures
            l.0 == from,
            l.1 == to,
    {
        Line(from, to)
    }
}

/// A rectangle with elliptically rounded corners.
#[derive(Clone, Copy, PartialEq, Eq, Structural, Debug)]
pub struct RoundedRect {
    pub rect: Rect,
    pub radius: Vector,
}

impl RoundedRect {
    pub fn new(rect: Rect, radius: Vector) -> (r: RoundedRect)
        ensures
            r.rect == rect,
            r.radius == radius,
    {
        RoundedRect { rect, radius }
    }
}

/// A straight line between two points.
pub fn line(from: Point, to: Point) -> (l: Line)
    ensures
        l.0 == from,
        l.1 == to,
{
    Line(from, to)
}

/// A rounded rectangle.
pub fn rounded_rect(rect: Rect, radius: Vector) -> (r: RoundedRect)
    ensures
        r.rect == rect,
        r.radius == radius,
{
    RoundedRect { rect, radius }
}

/// Two figures hold the same start, segments, end and fill mode.
pub open spec fn spec_same_figure(a: PathFigure, b: PathFigure) -> bool {
    a.start == b.start && a.segments@ == b.segments@ && a.end == b.end && a.filled == b.filled
}

/// Two figure sequences agree pairwise.
pub open spec fn spec_same_figures(a: Seq<PathFigure>, b: Seq<PathFigure>) -> bool {
    a.len() == b.len() && forall|k: int| 0 <= k < a.len() ==> spec_same_figure(a[k], b[k])
}

/// Anything a frame can fill or stroke.
#[derive(PartialEq, Eq, Debug)]
pub enum Shape {
    Rect(Rect),
    Circle(Circle),
    Ellipse(Ellipse),
    RoundedRect(RoundedRect),
    Line(Line),
    Filled(FilledPath),
    Hollow(HollowPath),
}

/// Two shapes describe the same geometry.
pub open spec fn spec_same_shape(a: Shape, b: Shape) -> bool {
    match (a, b) {
        (Shape::Rect(x), Shape::Rect(y)) => x == y,
        (Shape::Circle(x), Shape::Circle(y)) => x == y,
        (Shape::Ellipse(x), Shape::Ellipse(y)) => x == y,
        (Shape::RoundedRect(x), Shape::RoundedRect(y)) => x == y,
        (Shape::Line(x), Shape::Line(y)) => x == y,
        (Shape::Filled(x), Shape::Filled(y)) => spec_same_figures(x.0.figures@, y.0.figures@),
        (Shape::Hollow(x), Shape::Hollow(y)) => spec_same_figures(x.0.figures@, y.0.figures@),
        _ => false,
    }
}

/// Clones a figure list entry by entry, keeping each figure's content.
fn clone_figures(figures: &Vec<PathFigure>) -> (c: Vec<PathFigure>)
    ensures
        spec_same_figures(c@, figures@),
{
    let mut out: Vec<PathFigure> = Vec::new();
    let mut i: usize = 0;
    while i < figures.len()
        invariant
            i <= figures@.len(),
            out@.len() == i,
            forall|k: int| 0 <= k < i ==> spec_same_figure(out@[k], figures@[k]),
        decreases figures@.len() - i,
    {
        let f = &figures[i];
        let segments = f.segments.clone();
        proof {
            assert(segments@ =~= f.segments@);
        }
        out.push(PathFigure { start: f.start, segments, end: f.end, filled: f.filled });
        i += 1;
    }
    out
}

impl Clone for Shape {
    fn clone(&self) -> (c: Self)
        ensures
            spec_same_shape(*self, c),
    {
        match self {
            Shape::Rect(x) => Shape::Rect(*x),
            Shape::Circle(x) => Shape::Circle(*x),
            Shape::Ellipse(x) => Shape::Ellipse(*x),
            Shape::RoundedRect(x) => Shape::RoundedRect(*x),
            Shape::Line(x) => Shape::Line(*x),
            Shape::Filled(x) => Shape::Filled(
                FilledPath(crate::path::Path { figures: clone_figures(&x.0.figures) }),
            ),
            Shape::Hollow(x) => Shape::Hollow(
                HollowPath(crate::path::Path { figures: clone_figures(&x.0.figures) }),
            ),
        }
    }
}

} // verus!
