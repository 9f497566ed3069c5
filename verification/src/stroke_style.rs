//! Stroke style definitions: cap styles, line join, dash pattern, and the
//! computation of the platform's stroke-style descriptor from them.
//!
//! Lengths that the platform keeps in floating point (miter limit, dash
//! lengths, dash offset) are held in hundredths, so the mapping is exact.

use vstd::prelude::*;
use crate::error::Error;

verus! {

/// How a stroke ends: at a figure end or at a dash end.
#[derive(Clone, Copy, PartialEq, Eq, Structural, Debug)]
pub enum CapStyle {
    Flat,
    Square,
    Round,
    Triangle,
}

/// The platform's cap-style code.
pub open spec fn spec_cap_raw(c: CapStyle) -> u32 {
    match c {
        CapStyle::Flat => 0,
        CapStyle::Square => 1,
        CapStyle::Round => 2,
        CapStyle::Triangle => 3,
    }
}

impl CapStyle {
    /// The platform's cap-style code for this style.
    pub fn to_raw(self) -> (r: u32)
        ensures
            r == spec_cap_raw(self),
    {
        match self {
            CapStyle::Flat => 0,
            CapStyle::Square => 1,
            CapStyle::Round => 2,
            CapStyle::Triangle => 3,
        }
    }
}

/// How two stroke segments meet; the miter-or-bevel join carries its miter
/// limit in hundredths.
#[derive(Clone, Copy, PartialEq, Eq, Structural, Debug)]
pub enum LineJoin {
    Miter,
    Bevel,
    Round,
    MiterOrBevel(u32),
}

/// The platform's line-join code.
pub open spec fn spec_join_raw(j: LineJoin) -> u32 {
    match j {
        LineJoin::Miter => 0,
        LineJoin::Bevel => 1,
        LineJoin::Round => 2,
        LineJoin::MiterOrBevel(_) => 3,
    }
}

/// The miter limit handed to the platform, in hundredths: the join's own for
/// a miter-or-bevel join, and 1.0 otherwise.
pub open spec fn spec_miter_limit(j: LineJoin) -> u32 {
    match j {
        LineJoin::MiterOrBevel(limit) => limit,
        _ => 100,
    }
}

/// A dash pattern: one of the stock patterns, or custom dash lengths in
/// hundredths.
#[derive(Clone, PartialEq, Eq, Debug)]
pub enum DashStyle {
    Solid,
    Dash,
    Dot,
    DashDot,
    DashDotDot,
    Custom(Vec<u32>),
}

/// The platform's dash-style code.
pub open spec fn spec_dash_style_raw(d: DashStyle) -> u32 {
    match d {
        DashStyle::Solid => 0,
        DashStyle::Dash => 1,
        DashStyle::Dot => 2,
        DashStyle::DashDot => 3,
        DashStyle::DashDotDot => 4,
        DashStyle::Custom(_) => 5,
    }
}

/// Dashing of a stroke: the cap drawn at dash ends, the pattern, and the
/// offset into the pattern in hundredths.
#[derive(Clone, PartialEq, Eq, Debug)]
pub struct Dash {
    pub cap: CapStyle,
    pub style: DashStyle,
    pub offset: i32,
}

impl Default for Dash {
    fn default() -> (d: Dash)
        ensures
            d.cap == CapStyle::Flat,
            d.style == DashStyle::Solid,
            d.offset == 0,
    {
        Dash { cap: CapStyle::Flat, style: DashStyle::Solid, offset: 0 }
    }
}

/// Everything a stroke style is built from.
#[derive(Clone, PartialEq, Eq, Debug)]
pub struct StrokeStyleProperties {
    pub start_cap: CapStyle,
    pub end_cap: CapStyle,
    pub line_join: LineJoin,
    pub dash: Option<Dash>,
}

impl Default for StrokeStyleProperties {
    fn default() -> (p: StrokeStyleProperties)
        ensures
            p.start_cap == CapStyle::Flat,
            p.end_cap == CapStyle::Flat,
            p.line_join == LineJoin::Miter,
            p.dash is None,
    {
        StrokeStyleProperties {
            start_cap: CapStyle::Flat,
            end_cap: CapStyle::Flat,
            line_join: LineJoin::Miter,
            dash: None,
        }
    }
}

/// An immutable stroke style, held as the platform's descriptor: raw codes
/// for the caps, join and dash style, the miter limit and dash offset in
/// hundredths, and the custom dash lengths if any.
#[derive(PartialEq, Eq, Debug)]
pub struct StrokeStyle {
    pub start_cap: u32,
    pub end_cap: u32,
    pub dash_cap: u32,
    pub line_join: u32,
    pub miter_limit: u32,
    pub dash_style: u32,
    pub dash_offset: i32,
    pub dashes: Option<Vec<u32>>,
}

/// Two stroke styles hold the same descriptor.
pub open spec fn spec_same_stroke_style(a: StrokeStyle, b: StrokeStyle) -> bool {
    &&& a.start_cap == b.start_cap
    &&& a.end_cap == b.end_cap
    &&& a.dash_cap == b.dash_cap
    &&& a.line_join == b.line_join
    &&& a.miter_limit == b.miter_limit
    &&& a.dash_style == b.dash_style
    &&& a.dash_offset == b.dash_offset
    &&& match (a.dashes, b.dashes) {
        (Some(x), Some(y)) => x@ == y@,
        (None, None) => true,
        _ => false,
    }
}

impl Clone for StrokeStyle {
    fn clone(&self) -> (c: Self)
        ensures
            spec_same_stroke_style(*self, c),
    {
        let dashes = match &self.dashes {
            Some(lengths) => {
                let copied = lengths.clone();
                proof {
                    assert(copied@ =~= lengths@);
                }
                Some(copied)
            },
            None => None,
        };
        StrokeStyle {
            start_cap: self.start_cap,
            end_cap: self.end_cap,
            dash_cap: self.dash_cap,
            line_join: self.line_join,
            miter_limit: self.miter_limit,
            dash_style: self.dash_style,
            dash_offset: self.dash_offset,
            dashes,
        }
    }
}

impl StrokeStyle {
    /// Computes the platform descriptor for the given properties: the join
    /// and its miter limit, then the dash cap, style, offset and custom
    /// lengths (a missing dash means a flat-capped solid stroke), then the
    /// two end caps.
    pub fn new(props: &StrokeStyleProperties) -> (r: Result<StrokeStyle, Error>)
        ensures
            r matches Ok(s) && {
                &&& s.start_cap == spec_cap_raw(props.start_cap)
                &&& s.end_cap == spec_cap_raw(props.end_cap)
                &&& s.line_join == spec_join_raw(props.line_join)
                &&& s.miter_limit == spec_miter_limit(props.line_join)
                &&& match props.dash {
                    Some(dash) => {
                        &&& s.dash_cap == spec_cap_raw(dash.cap)
                        &&& s.dash_style == spec_dash_style_raw(dash.style)
                        &&& s.dash_offset == dash.offset
                        &&& match dash.style {
                            DashStyle::Custom(lengths) => s.dashes matches Some(held) && held@
                                == lengths@,
                            _ => s.dashes is None,
                        }
                    },
                    None => {
                        &&& s.dash_cap == 0
                        &&& s.dash_style == 0
                        &&& s.dash_offset == 0
                        &&& s.dashes is None
                    },
                }
            },
    {
        let (line_join, miter_limit): (u32, u32) = match props.line_join {
            LineJoin::Miter => (0, 100),
            LineJoin::Bevel => (1, 100),
            LineJoin::Round => (2, 100),
            LineJoin::MiterOrBevel(limit) => (3, limit),
        };
        let (dash_cap, dash_style, dash_offset, dashes): (u32, u32, i32, Option<Vec<u32>>) =
            match &props.dash {
            Some(dash) => {
                let cap = dash.cap.to_raw();
                let (style, lengths): (u32, Option<Vec<u32>>) = match &dash.style {
                    DashStyle::Solid => (0, None),
                    DashStyle::Dash => (1, None),
                    DashStyle::Dot => (2, None),
                    DashStyle::DashDot => (3, None),
                    DashStyle::DashDotDot => (4, None),
                    DashStyle::Custom(lengths) => {
                        let copied = lengths.clone();
                        proof {
                            assert(copied@ =~= lengths@);
                        }
                        (5, Some(copied))
                    },
                };
                (cap, style, dash.offset, lengths)
            },
            None => (0, 0, 0, None),
        };
        Ok(
            StrokeStyle {
                start_cap: props.start_cap.to_raw(),
                end_cap: props.end_cap.to_raw(),
                dash_cap,
                line_join,
                miter_limit,
                dash_style,
                dash_offset,
                dashes,
            },
        )
    }
}

} // verus!
