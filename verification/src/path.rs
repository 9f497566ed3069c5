//! Path geometry: a type-state builder that opens figures, collects their
//! segments, and seals the whole into an immutable path.
//!
//! The builder moves through its states by consuming ownership — a figure
//! accepts segments only while open, and nothing can be added to a path once
//! it is closed — so the platform's figure protocol cannot be violated.

use vstd::prelude::*;
use core::marker::PhantomData;
use crate::error::Error;
use crate::geometry::Point;

verus! {

/// How a figure ends: left open (valid only for stroking) or closed into a
/// sealed outline (required for a filled region).
#[derive(Clone, Copy, PartialEq, Eq, Structural, Debug)]
pub enum FigureEnd {
    Open,
    Closed,
}

impl FigureEnd {
    /// The platform's figure-end code for this value.
    pub fn to_raw(self) -> (r: u32)
        ensures
            self is Open ==> r == 0,
            self is Closed ==> r == 1,
    {
        match self {
            FigureEnd::Open => 0,
            FigureEnd::Closed => 1,
        }
    }
}

/// A quadratic Bezier segment: control point and endpoint.
#[derive(Clone, Copy, PartialEq, Eq, Structural, Debug)]
pub struct QuadraticBezierSegment {
    pub ctrl: Point,
    pub to: Point,
}

/// A cubic Bezier segment: two control points and the endpoint.
#[derive(Clone, Copy, PartialEq, Eq, Structural, Debug)]
pub struct CubicBezierSegment {
    pub c0: Point,
    pub c1: Point,
    pub to: Point,
}

/// One segment of a figure.
#[derive(Clone, Copy, PartialEq, Eq, Structural, Debug)]
pub enum PathSegment {
    Line(Point),
    QuadraticBezier(QuadraticBezierSegment),
    CubicBezier(CubicBezierSegment),
}

/// One contiguous contour of a path: where it starts, its segments in order,
/// how it ends, and whether it was opened for filling.
#[derive(Clone, PartialEq, Eq, Debug)]
pub struct PathFigure {
    pub start: Point,
    pub segments: Vec<PathSegment>,
    pub end: FigureEnd,
    pub filled: bool,
}

/// The figure holds exactly the given pieces.
pub open spec fn spec_figure_is(
    f: PathFigure,
    start: Point,
    segments: Seq<PathSegment>,
    end: FigureEnd,
    filled: bool,
) -> bool {
    f.start == start && f.segments@ == segments && f.end == end && f.filled == filled
}

/// A sealed sequence of figures; immutable once built.
#[derive(Clone, PartialEq, Eq, Debug)]
pub struct Path {
    pub figures: Vec<PathFigure>,
}

impl Path {
    /// Every figure is closed, so the path bounds a sealed region and is fit
    /// for filling.
    pub open spec fn spec_all_closed(self) -> bool {
        forall|i: int| 0 <= i < self.figures@.len() ==> #[trigger] self.figures@[i].end
            == FigureEnd::Closed
    }

    /// How many figures the path holds.
    pub fn len(&self) -> (n: usize)
        ensures
            n == self.figures@.len(),
    {
        self.figures.len()
    }
}

/// A path whose figures were opened for filling; usable for fill and stroke.
#[derive(Clone, PartialEq, Eq, Debug)]
pub struct FilledPath(pub Path);

/// A path whose figures were opened hollow; usable for stroking only.
#[derive(Clone, PartialEq, Eq, Debug)]
pub struct HollowPath(pub Path);

/// A path builder with no open figure; `T` names the kind of path being
/// built. It may open another figure or be closed into the final path.
pub struct PathBuilder<T> {
    pub figures: Vec<PathFigure>,
    pub _t: PhantomData<T>,
}

/// An open figure accepting segments; ends back in the builder state.
pub struct Figure<T> {
    pub figures: Vec<PathFigure>,
    pub start: Point,
    pub segments: Vec<PathSegment>,
    pub filled: bool,
    pub _t: PhantomData<T>,
}

impl<T> PathBuilder<T> {
    /// A fresh builder with no figures yet.
    pub fn new() -> (b: PathBuilder<T>)
        ensures
            b.figures@.len() == 0,
    {
        PathBuilder { figures: Vec::new(), _t: PhantomData }
    }
}

impl<T> Figure<T> {
    /// Appends a straight line to the given point.
    pub fn line_to(self, point: Point) -> (f: Figure<T>)
        ensures
            f.figures@ == self.figures@,
            f.start == self.start,
            f.filled == self.filled,
            f.segments@ == self.segments@.push(PathSegment::Line(point)),
    {
        let mut segments = self.segments;
        segments.push(PathSegment::Line(point));
        Figure { figures: self.figures, start: self.start, segments, filled: self.filled, _t: PhantomData }
    }

    /// Appends one straight line per given point, in order.
    pub fn lines(self, points: &[Point]) -> (f: Figure<T>)
        ensures
            f.figures@ == self.figures@,
            f.start == self.start,
            f.filled == self.filled,
            f.segments@ == self.segments@ + points@.map_values(|p: Point| PathSegment::Line(p)),
    {
        let mut segments = self.segments;
        let ghost mapped = points@.map_values(|p: Point| PathSegment::Line(p));
        let mut i: usize = 0;
        while i < points.len()
            invariant
                i <= points@.len(),
                mapped == points@.map_values(|p: Point| PathSegment::Line(p)),
                segments@ == self.segments@ + mapped.subrange(0, i as int),
            decreases points@.len() - i,
        {
            segments.push(PathSegment::Line(points[i]));
            proof {
                assert(mapped.subrange(0, i + 1) =~= mapped.subrange(0, i as int).push(
                    mapped[i as int],
                ));
            }
            i += 1;
        }
        proof {
            assert(mapped.subrange(0, points@.len() as int) =~= mapped);
        }
        Figure { figures: self.figures, start: self.start, segments, filled: self.filled, _t: PhantomData }
    }

    /// Appends a quadratic Bezier segment.
    pub fn quadratic_bezier_to(self, ctrl: Point, to: Point) -> (f: Figure<T>)
        ensures
            f.figures@ == self.figures@,
            f.start == self.start,
            f.filled == self.filled,
            f.segments@ == self.segments@.push(
                PathSegment::QuadraticBezier(QuadraticBezierSegment { ctrl, to }),
            ),
    {
        let mut segments = self.segments;
        segments.push(PathSegment::QuadraticBezier(QuadraticBezierSegment { ctrl, to }));
        Figure { figures: self.figures, start: self.start, segments, filled: self.filled, _t: PhantomData }
    }

    /// Appends each given quadratic Bezier segment, in order.
    pub fn quadratic_beziers(self, given: &[QuadraticBezierSegment]) -> (f: Figure<T>)
        ensures
            f.figures@ == self.figures@,
            f.start == self.start,
            f.filled == self.filled,
            f.segments@ == self.segments@ + given@.map_values(
                |s: QuadraticBezierSegment| PathSegment::QuadraticBezier(s),
            ),
    {
        let mut segments = self.segments;
        let ghost mapped = given@.map_values(
            |s: QuadraticBezierSegment| PathSegment::QuadraticBezier(s),
        );
        let mut i: usize = 0;
        while i < given.len()
            invariant
                i <= given@.len(),
                mapped == given@.map_values(
                    |s: QuadraticBezierSegment| PathSegment::QuadraticBezier(s),
                ),
                segments@ == self.segments@ + mapped.subrange(0, i as int),
            decreases given@.len() - i,
        {
            segments.push(PathSegment::QuadraticBezier(given[i]));
            proof {
                assert(mapped.subrange(0, i + 1) =~= mapped.subrange(0, i as int).push(
                    mapped[i as int],
                ));
            }
            i += 1;
        }
        proof {
            assert(mapped.subrange(0, given@.len() as int) =~= mapped);
        }
        Figure { figures: self.figures, start: self.start, segments, filled: self.filled, _t: PhantomData }
    }

    /// Appends a cubic Bezier segment.
    pub fn cubic_bezier_to(self, c0: Point, c1: Point, to: Point) -> (f: Figure<T>)
        ensures
            f.figures@ == self.figures@,
            f.start == self.start,
            f.filled == self.filled,
            f.segments@ == self.segments@.push(
                PathSegment::CubicBezier(CubicBezierSegment { c0, c1, to }),
            ),
    {
        let mut segments = self.segments;
        segments.push(PathSegment::CubicBezier(CubicBezierSegment { c0, c1, to }));
        Figure { figures: self.figures, start: self.start, segments, filled: self.filled, _t: PhantomData }
    }

    /// Appends each given cubic Bezier segment, in order.
    pub fn cubic_beziers(self, given: &[CubicBezierSegment]) -> (f: Figure<T>)
        ensures
            f.figures@ == self.figures@,
            f.start == self.start,
            f.filled == self.filled,
            f.segments@ == self.segments@ + given@.map_values(
                |s: CubicBezierSegment| PathSegment::CubicBezier(s),
            ),
    {
        let mut segments = self.segments;
        let ghost mapped = given@.map_values(|s: CubicBezierSegment| PathSegment::CubicBezier(s));
        let mut i: usize = 0;
        while i < given.len()
            invariant
                i <= given@.len(),
                mapped == given@.map_values(|s: CubicBezierSegment| PathSegment::CubicBezier(s)),
                segments@ == self.segments@ + mapped.subrange(0, i as int),
            decreases given@.len() - i,
        {
            segments.push(PathSegment::CubicBezier(given[i]));
            proof {
                assert(mapped.subrange(0, i + 1) =~= mapped.subrange(0, i as int).push(
                    mapped[i as int],
                ));
            }
            i += 1;
        }
        proof {
            assert(mapped.subrange(0, given@.len() as int) =~= mapped);
        }
        Figure { figures: self.figures, start: self.start, segments, filled: self.filled, _t: PhantomData }
    }

    /// Ends the open figure, recording it after the earlier ones, and hands
    /// the builder back.
    pub fn end(self, end: FigureEnd) -> (r: Result<PathBuilder<T>, Error>)
        ensures
            r matches Ok(b) && {
                &&& b.figures@.len() == self.figures@.len() + 1
                &&& forall|k: int| 0 <= k < self.figures@.len() ==> b.figures@[k]
                    == self.figures@[k]
                &&& spec_figure_is(
                    b.figures@.last(),
                    self.start,
                    self.segments@,
                    end,
                    self.filled,
                )
            },
    {
        let mut figures = self.figures;
        figures.push(
            PathFigure { start: self.start, segments: self.segments, end, filled: self.filled },
        );
        Ok(PathBuilder { figures, _t: PhantomData })
    }
}

impl PathBuilder<FilledPath> {
    /// Opens a figure for filling, starting at the given point.
    pub fn begin(self, start: Point) -> (f: Figure<FilledPath>)
        ensures
            f.figures@ == self.figures@,
            f.start == start,
            f.segments@.len() == 0,
            f.filled,
    {
        Figure {
            figures: self.figures,
            start,
            segments: Vec::new(),
            filled: true,
            _t: PhantomData,
        }
    }

    /// Seals the recorded figures into an immutable filled path.
    pub fn close(self) -> (r: Result<FilledPath, Error>)
        ensures
            r matches Ok(p) && p.0.figures@ == self.figures@,
    {
        Ok(FilledPath(Path { figures: self.figures }))
    }

    /// Seals the recorded figures into a bare path.
    pub fn build(self) -> (p: Path)
        ensures
            p.figures@ == self.figures@,
    {
        Path { figures: self.figures }
    }
}

impl PathBuilder<HollowPath> {
    /// Opens a hollow figure, starting at the given point.
    pub fn begin(self, start: Point) -> (f: Figure<HollowPath>)
        ensures
            f.figures@ == self.figures@,
            f.start == start,
            f.segments@.len() == 0,
            !f.filled,
    {
        Figure {
            figures: self.figures,
            start,
            segments: Vec::new(),
            filled: false,
            _t: PhantomData,
        }
    }

    /// Seals the recorded figures into an immutable hollow path.
    pub fn close(self) -> (r: Result<HollowPath, Error>)
        ensures
            r matches Ok(p) && p.0.figures@ == self.figures@,
    {
        Ok(HollowPath(Path { figures: self.figures }))
    }
}

} // verus!
