//! Brush definitions: solid color, linear gradient and radial gradient, and
//! the ordered gradient stop collections the gradient brushes are built from.
//!
//! A gradient stop position runs from 0 to [`GRADIENT_POSITION_SCALE`],
//! standing for the platform's 0.0 to 1.0 range.

use vstd::prelude::*;
use crate::error::Error;
use crate::geometry::{Ellipse, Point, Rgba};

verus! {

/// The position value that stands for the far end (1.0) of a gradient axis.
pub const GRADIENT_POSITION_SCALE: u32 = 1_000_000;

/// The platform code handed back when a stop position lies outside the
/// gradient axis (`E_INVALIDARG`).
pub const INVALID_ARG_CODE: u32 = 0x8007_0057;

/// One gradient stop: a position on the gradient axis and its color.
#[derive(Clone, Copy, PartialEq, Eq, Structural, Debug)]
pub struct GradientStop {
    pub position: u32,
    pub color: Rgba,
}

impl GradientStop {
    pub fn new(position: u32, color: Rgba) -> (s: GradientStop)
        ensures
            s.position == position,
            s.color == color,
    {
        GradientStop { position, color }
    }
}

/// How a gradient continues beyond its last stop.
#[derive(Clone, Copy, PartialEq, Eq, Structural, Debug)]
pub enum GradientMode {
    Clamp,
    Mirror,
    Wrap,
}

impl GradientMode {
    /// The platform's extend-mode code for this mode.
    pub fn to_raw(self) -> (r: u32)
        ensures
            self is Clamp ==> r == 0,
            self is Wrap ==> r == 1,
            self is Mirror ==> r == 2,
    {
        match self {
            GradientMode::Clamp => 0,
            GradientMode::Wrap => 1,
            GradientMode::Mirror => 2,
        }
    }
}

/// Every stop position lies on the gradient axis.
pub open spec fn spec_stops_in_range(stops: Seq<GradientStop>) -> bool {
    forall|i: int| 0 <= i < stops.len() ==> #[trigger] stops[i].position <= GRADIENT_POSITION_SCALE
}

/// The stop positions are strictly increasing.
pub open spec fn spec_stops_strictly_ordered(stops: Seq<GradientStop>) -> bool {
    forall|i: int, j: int|
        0 <= i < j < stops.len() ==> #[trigger] stops[i].position < #[trigger] stops[j].position
}

/// The mathematical content of a stop collection: its mode and its stops in
/// order.
pub struct GradientStopsView {
    pub mode: GradientMode,
    pub stops: Seq<GradientStop>,
}

/// An ordered sequence of gradient stops plus an extend mode; immutable after
/// creation and consumed by the gradient brush constructors.
#[derive(Debug)]
pub struct GradientStopCollection {
    pub mode: GradientMode,
    pub stops: Vec<GradientStop>,
}

impl View for GradientStopCollection {
    type V = GradientStopsView;

    open spec fn view(&self) -> GradientStopsView {
        GradientStopsView { mode: self.mode, stops: self.stops@ }
    }
}

impl Clone for GradientStopCollection {
    fn clone(&self) -> (c: Self)
        ensures
            c@ == self@,
    {
        let stops = self.stops.clone();
        proof {
            assert(stops@ =~= self.stops@);
        }
        GradientStopCollection { mode: self.mode, stops }
    }
}

impl GradientStopCollection {
    /// All held positions lie on the gradient axis.
    pub open spec fn wf(self) -> bool {
        spec_stops_in_range(self.stops@)
    }

    /// Builds a collection from the given stops, keeping their count and
    /// order exactly; rejects a stop whose position lies beyond the axis.
    pub fn new(mode: GradientMode, stops: &Vec<GradientStop>) -> (r: Result<
        GradientStopCollection,
        Error,
    >)
        ensures
            r is Ok <==> spec_stops_in_range(stops@),
            r matches Ok(c) ==> c.mode == mode && c.stops@ == stops@ && c.wf(),
            r is Err ==> r == Result::<GradientStopCollection, Error>::Err(
                Error::Other(INVALID_ARG_CODE),
            ),
    {
        let mut i: usize = 0;
        while i < stops.len()
            invariant
                i <= stops@.len(),
                forall|k: int| 0 <= k < i ==> #[trigger] stops@[k].position
                    <= GRADIENT_POSITION_SCALE,
            decreases stops@.len() - i,
        {
            if stops[i].position > GRADIENT_POSITION_SCALE {
                return Err(Error::Other(INVALID_ARG_CODE));
            }
            i += 1;
        }
        let copied = stops.clone();
        proof {
            assert(copied@ =~= stops@);
        }
        Ok(GradientStopCollection { mode, stops: copied })
    }

    /// How many stops the collection holds.
    pub fn len(&self) -> (n: usize)
        ensures
            n == self.stops@.len(),
    {
        self.stops.len()
    }
}

/// Order preservation law: a collection built from stops at strictly
/// increasing positions holds exactly as many stops, still strictly ordered,
/// and each stop unchanged.
pub proof fn lemma_collection_preserves_ordered_stops(
    c: GradientStopCollection,
    given: Seq<GradientStop>,
)
    requires
        c.stops@ == given,
        spec_stops_strictly_ordered(given),
    ensures
        c.stops@.len() == given.len(),
        spec_stops_strictly_ordered(c.stops@),
        forall|i: int| 0 <= i < given.len() ==> c.stops@[i] == given[i],
{
}

/// A solid color brush definition.
#[derive(Clone, Copy, PartialEq, Eq, Structural, Debug)]
pub struct SolidColorBrush {
    pub color: Rgba,
}

/// A linear gradient brush definition: the gradient axis and its stops.
#[derive(Debug)]
pub struct LinearGradientBrush {
    pub start: Point,
    pub end: Point,
    pub stops: GradientStopCollection,
}

/// A radial gradient brush definition: the gradient ellipse, the origin
/// offset, and the stops.
#[derive(Debug)]
pub struct RadialGradientBrush {
    pub ellipse: Ellipse,
    pub offset: Point,
    pub stops: GradientStopCollection,
}

/// The mathematical content of a brush.
pub enum BrushView {
    SolidColor(Rgba),
    LinearGradient(Point, Point, GradientStopsView),
    RadialGradient(Ellipse, Point, GradientStopsView),
}

/// A brush: a closed tagged union over the three brush kinds. Independent of
/// any render target and reusable across frames.
#[derive(Debug)]
pub enum Brush {
    SolidColor(SolidColorBrush),
    LinearGradient(LinearGradientBrush),
    RadialGradient(RadialGradientBrush),
}

impl View for Brush {
    type V = BrushView;

    open spec fn view(&self) -> BrushView {
        match *self {
            Brush::SolidColor(b) => BrushView::SolidColor(b.color),
            Brush::LinearGradient(b) => BrushView::LinearGradient(b.start, b.end, b.stops@),
            Brush::RadialGradient(b) => BrushView::RadialGradient(b.ellipse, b.offset, b.stops@),
        }
    }
}

impl Clone for Brush {
    fn clone(&self) -> (c: Self)
        ensures
            c@ == self@,
    {
        match self {
            Brush::SolidColor(b) => Brush::SolidColor(SolidColorBrush { color: b.color }),
            Brush::LinearGradient(b) => Brush::LinearGradient(
                LinearGradientBrush { start: b.start, end: b.end, stops: b.stops.clone() },
            ),
            Brush::RadialGradient(b) => Brush::RadialGradient(
                RadialGradientBrush {
                    ellipse: b.ellipse,
                    offset: b.offset,
                    stops: b.stops.clone(),
                },
            ),
        }
    }
}

impl Brush {
    /// Defines a solid color brush.
    pub fn solid_color(color: Rgba) -> (r: Result<Brush, Error>)
        ensures
            r matches Ok(b) && b@ == BrushView::SolidColor(color),
    {
        Ok(Brush::SolidColor(SolidColorBrush { color }))
    }

    /// Defines a linear gradient brush over the axis from `start` to `end`.
    pub fn linear_gradient(start: Point, end: Point, stops: &GradientStopCollection) -> (r: Result<
        Brush,
        Error,
    >)
        ensures
            r matches Ok(b) && b@ == BrushView::LinearGradient(start, end, stops@),
    {
        Ok(Brush::LinearGradient(LinearGradientBrush { start, end, stops: stops.clone() }))
    }

    /// Defines a radial gradient brush over the given ellipse.
    pub fn radial_gradient(
        ellipse: Ellipse,
        offset: Point,
        stops: &GradientStopCollection,
    ) -> (r: Result<Brush, Error>)
        ensures
            r matches Ok(b) && b@ == BrushView::RadialGradient(ellipse, offset, stops@),
    {
        Ok(Brush::RadialGradient(RadialGradientBrush { ellipse, offset, stops: stops.clone() }))
    }
}

} // verus!
