//! Text: font selection, text formats, and laid-out text with hit-testing.
//!
//! The shaping engine's measurements for one laid-out line are taken in as
//! [`TextMetrics`]: the caret position of every character boundary, left to
//! right, plus the line height. Hit-testing and its inverse are computed —
//! and proved — against those boundaries.

use vstd::prelude::*;
use crate::error::Error;
use crate::geometry::{Point, Size};

verus! {

/// The thickness of a font's strokes.
#[derive(Clone, Copy, PartialEq, Eq, Structural, Debug, Hash)]
pub enum FontWeight {
    Thin,
    UltraLight,
    Light,
    SemiLight,
    Regular,
    Medium,
    SemiBold,
    Bold,
    UltraBold,
    Heavy,
    UltraBlack,
}

/// The platform's weight code.
pub open spec fn spec_weight_raw(w: FontWeight) -> u32 {
    match w {
        FontWeight::Thin => 100,
        FontWeight::UltraLight => 200,
        FontWeight::Light => 300,
        FontWeight::SemiLight => 350,
        FontWeight::Regular => 400,
        FontWeight::Medium => 500,
        FontWeight::SemiBold => 600,
        FontWeight::Bold => 700,
        FontWeight::UltraBold => 800,
        FontWeight::Heavy => 900,
        FontWeight::UltraBlack => 950,
    }
}

impl FontWeight {
    /// The platform's weight code for this weight.
    pub fn to_raw(self) -> (r: u32)
        ensures
            r == spec_weight_raw(self),
    {
        match self {
            FontWeight::Thin => 100,
            FontWeight::UltraLight => 200,
            FontWeight::Light => 300,
            FontWeight::SemiLight => 350,
            FontWeight::Regular => 400,
            FontWeight::Medium => 500,
            FontWeight::SemiBold => 600,
            FontWeight::Bold => 700,
            FontWeight::UltraBold => 800,
            FontWeight::Heavy => 900,
            FontWeight::UltraBlack => 950,
        }
    }
}

/// The slant of a font.
#[derive(Clone, Copy, PartialEq, Eq, Structural, Debug, Hash)]
pub enum FontStyle {
    Normal,
    Oblique,
    Italic,
}

impl FontStyle {
    /// The platform's style code for this style.
    pub fn to_raw(self) -> (r: u32)
        ensures
            self is Normal ==> r == 0,
            self is Oblique ==> r == 1,
            self is Italic ==> r == 2,
    {
        match self {
            FontStyle::Normal => 0,
            FontStyle::Oblique => 1,
            FontStyle::Italic => 2,
        }
    }
}

/// The width class of a font.
#[derive(Clone, Copy, PartialEq, Eq, Structural, Debug, Hash)]
pub enum FontStretch {
    Undefined,
    UltraCondensed,
    ExtraCondensed,
    Condensed,
    SemiCondensed,
    Medium,
    SemiExpanded,
    Expanded,
    ExtraExpanded,
    UltraExpanded,
}

/// The platform's stretch code.
pub open spec fn spec_stretch_raw(s: FontStretch) -> u32 {
    match s {
        FontStretch::Undefined => 0,
        FontStretch::UltraCondensed => 1,
        FontStretch::ExtraCondensed => 2,
        FontStretch::Condensed => 3,
        FontStretch::SemiCondensed => 4,
        FontStretch::Medium => 5,
        FontStretch::SemiExpanded => 6,
        FontStretch::Expanded => 7,
        FontStretch::ExtraExpanded => 8,
        FontStretch::UltraExpanded => 9,
    }
}

impl FontStretch {
    /// The platform's stretch code for this stretch.
    pub fn to_raw(self) -> (r: u32)
        ensures
            r == spec_stretch_raw(self),
    {
        match self {
            FontStretch::Undefined => 0,
            FontStretch::UltraCondensed => 1,
            FontStretch::ExtraCondensed => 2,
            FontStretch::Condensed => 3,
            FontStretch::SemiCondensed => 4,
            FontStretch::Medium => 5,
            FontStretch::SemiExpanded => 6,
            FontStretch::Expanded => 7,
            FontStretch::ExtraExpanded => 8,
            FontStretch::UltraExpanded => 9,
        }
    }
}

/// Weight, slant and stretch together.
#[derive(Clone, Copy, PartialEq, Eq, Structural, Debug, Hash)]
pub struct TextStyle {
    pub weight: FontWeight,
    pub style: FontStyle,
    pub stretch: FontStretch,
}

/// The style used when none is given: regular weight, normal slant, medium
/// stretch.
pub open spec fn spec_default_text_style() -> TextStyle {
    TextStyle { weight: FontWeight::Regular, style: FontStyle::Normal, stretch: FontStretch::Medium }
}

impl Default for TextStyle {
    fn default() -> (s: TextStyle)
        ensures
            s == spec_default_text_style(),
    {
        TextStyle {
            weight: FontWeight::Regular,
            style: FontStyle::Normal,
            stretch: FontStretch::Medium,
        }
    }
}

/// Where text sits inside its layout box.
#[derive(Clone, Copy, PartialEq, Eq, Structural, Debug)]
pub enum TextAlignment {
    Leading,
    Center,
    Trailing,
    Justified,
}

/// The platform's alignment code.
pub open spec fn spec_alignment_raw(a: TextAlignment) -> u32 {
    match a {
        TextAlignment::Leading => 0,
        TextAlignment::Trailing => 1,
        TextAlignment::Center => 2,
        TextAlignment::Justified => 3,
    }
}

impl TextAlignment {
    /// The platform's alignment code for this alignment.
    pub fn to_raw(self) -> (r: u32)
        ensures
            r == spec_alignment_raw(self),
    {
        match self {
            TextAlignment::Leading => 0,
            TextAlignment::Trailing => 1,
            TextAlignment::Center => 2,
            TextAlignment::Justified => 3,
        }
    }

    /// The alignment a platform code stands for.
    pub fn from_raw(raw: u32) -> (a: TextAlignment)
        requires
            raw <= 3,
        ensures
            spec_alignment_raw(a) == raw,
    {
        if raw == 0 {
            TextAlignment::Leading
        } else if raw == 1 {
            TextAlignment::Trailing
        } else if raw == 2 {
            TextAlignment::Center
        } else {
            TextAlignment::Justified
        }
    }
}

/// How line heights are decided.
#[derive(Clone, Copy, PartialEq, Eq, Structural, Debug)]
pub enum LineSpacingMethod {
    Default,
    Uniform,
    Proportional,
}

impl LineSpacingMethod {
    /// The line-spacing method a platform code stands for.
    pub fn from_raw(raw: u32) -> (m: LineSpacingMethod)
        requires
            raw <= 2,
        ensures
            m is Default <==> raw == 0,
            m is Uniform <==> raw == 1,
            m is Proportional <==> raw == 2,
    {
        if raw == 0 {
            LineSpacingMethod::Default
        } else if raw == 1 {
            LineSpacingMethod::Uniform
        } else {
            LineSpacingMethod::Proportional
        }
    }
}

/// A format's line spacing; height and baseline in hundredths.
#[derive(Clone, Copy, PartialEq, Eq, Structural, Debug)]
pub struct LineSpacing {
    pub method: LineSpacingMethod,
    pub height: i32,
    pub baseline: i32,
}

/// Where a font comes from: the system collection, a font file on disk, or
/// an in-memory font buffer; each with the face name to select.
#[derive(PartialEq, Eq, Debug)]
pub enum Font {
    System(String),
    File(String, String),
    Memory(Vec<u8>, String),
}

/// The mathematical content of a font selection.
pub enum FontView {
    System(Seq<char>),
    File(Seq<char>, Seq<char>),
    Memory(Seq<u8>, Seq<char>),
}

impl View for Font {
    type V = FontView;

    open spec fn view(&self) -> FontView {
        match *self {
            Font::System(name) => FontView::System(name@),
            Font::File(path, name) => FontView::File(path@, name@),
            Font::Memory(data, name) => FontView::Memory(data@, name@),
        }
    }
}

impl Clone for Font {
    fn clone(&self) -> (c: Self)
        ensures
            c@ == self@,
    {
        match self {
            Font::System(name) => Font::System(name.clone()),
            Font::File(path, name) => Font::File(path.clone(), name.clone()),
            Font::Memory(data, name) => {
                let copied = data.clone();
                proof {
                    assert(copied@ =~= data@);
                }
                Font::Memory(copied, name.clone())
            },
        }
    }
}

/// An immutable text format: font selection, size in hundredths of a
/// device-independent pixel, style, and locale.
#[derive(PartialEq, Eq, Debug)]
pub struct TextFormat {
    pub font: Font,
    pub size: u32,
    pub style: TextStyle,
    pub locale: String,
}

/// The mathematical content of a text format.
pub struct TextFormatView {
    pub font: FontView,
    pub size: u32,
    pub style: TextStyle,
    pub locale: Seq<char>,
}

impl View for TextFormat {
    type V = TextFormatView;

    open spec fn view(&self) -> TextFormatView {
        TextFormatView {
            font: self.font@,
            size: self.size,
            style: self.style,
            locale: self.locale@,
        }
    }
}

impl Clone for TextFormat {
    fn clone(&self) -> (c: Self)
        ensures
            c@ == self@,
    {
        TextFormat {
            font: self.font.clone(),
            size: self.size,
            style: self.style,
            locale: self.locale.clone(),
        }
    }
}

impl TextFormat {
    /// Builds a format from a font selection and size; a missing style means
    /// the default style, a missing locale the neutral (empty) locale.
    pub fn new(font: Font, size: u32, style: Option<&TextStyle>, locale: Option<&str>) -> (r:
        Result<TextFormat, Error>)
        ensures
            r matches Ok(f) && {
                &&& f.font@ == font@
                &&& f.size == size
                &&& match style {
                    Some(s) => f.style == *s,
                    None => f.style == spec_default_text_style(),
                }
                &&& match locale {
                    Some(l) => f.locale@ == l@,
                    None => f.locale@ == Seq::<char>::empty(),
                }
            },
    {
        let style = match style {
            Some(s) => *s,
            None => TextStyle {
                weight: FontWeight::Regular,
                style: FontStyle::Normal,
                stretch: FontStretch::Medium,
            },
        };
        let locale = match locale {
            Some(l) => String::from_str(l),
            None => String::new(),
        };
        Ok(TextFormat { font, size, style, locale })
    }
}

/// What a point-to-text hit test found: the character index hit, whether the
/// point lay inside the laid-out text, and whether it fell in the trailing
/// half of the character's cell.
#[derive(Clone, Copy, PartialEq, Eq, Structural, Debug)]
pub struct HitTestResult {
    pub text_position: usize,
    pub inside: bool,
    pub trailing_hit: bool,
}

/// The shaping engine's measurements for one laid-out line: the caret
/// position of every character boundary from the leading edge to the
/// trailing edge — one more boundary than there are characters — and the
/// line height.
#[derive(PartialEq, Eq, Debug)]
pub struct TextMetrics {
    pub boundaries: Vec<i32>,
    pub height: i32,
}

impl Clone for TextMetrics {
    fn clone(&self) -> (c: Self)
        ensures
            c.boundaries@ == self.boundaries@,
            c.height == self.height,
    {
        let boundaries = self.boundaries.clone();
        proof {
            assert(boundaries@ =~= self.boundaries@);
        }
        TextMetrics { boundaries, height: self.height }
    }
}

impl TextMetrics {
    /// The boundaries are nonnegative and strictly increasing — each
    /// character occupies a cell of positive width — and the line has
    /// positive height.
    pub open spec fn wf(self) -> bool {
        &&& self.boundaries@.len() >= 1
        &&& forall|k: int| 0 <= k < self.boundaries@.len() ==> 0 <= #[trigger] self.boundaries@[k]
        &&& forall|i: int, j: int|
            0 <= i < j < self.boundaries@.len() ==> #[trigger] self.boundaries@[i]
                < #[trigger] self.boundaries@[j]
        &&& self.height > 0
    }

    /// How many characters the measured line holds.
    pub open spec fn spec_char_count(self) -> int {
        self.boundaries@.len() - 1
    }

    /// Takes the engine-measured boundaries in, checking what the model
    /// relies on: at least the leading edge, nonnegative and strictly
    /// increasing positions, and a positive height.
    pub fn new(boundaries: Vec<i32>, height: i32) -> (r: Result<TextMetrics, Error>)
        ensures
            r matches Ok(m) ==> m.boundaries@ == boundaries@ && m.height == height && m.wf(),
            r is Err ==> r == Result::<TextMetrics, Error>::Err(
                Error::Other(crate::brush::INVALID_ARG_CODE),
            ),
            r is Ok <==> (TextMetrics { boundaries, height }).wf(),
    {
        if boundaries.len() == 0 || height <= 0 {
            return Err(Error::Other(crate::brush::INVALID_ARG_CODE));
        }
        if boundaries[0] < 0 {
            return Err(Error::Other(crate::brush::INVALID_ARG_CODE));
        }
        let mut i: usize = 0;
        while i < boundaries.len() - 1
            invariant
                boundaries@.len() >= 1,
                i < boundaries@.len(),
                0 <= boundaries@[0],
                forall|k: int| 0 <= k < i ==> #[trigger] boundaries@[k] < boundaries@[k + 1],
            decreases boundaries@.len() - i,
        {
            if boundaries[i] >= boundaries[i + 1] {
                return Err(Error::Other(crate::brush::INVALID_ARG_CODE));
            }
            i += 1;
        }
        proof {
            let b = boundaries@;
            assert forall|p: int, q: int| 0 <= p < q < b.len() implies #[trigger] b[p]
                < #[trigger] b[q] by {
                lemma_adjacent_increasing_implies_increasing(b, p, q);
            }
            assert forall|k: int| 0 <= k < b.len() implies 0 <= #[trigger] b[k] by {
                if k > 0 {
                    lemma_adjacent_increasing_implies_increasing(b, 0, k);
                }
            }
        }
        Ok(TextMetrics { boundaries, height })
    }
}

/// In a sequence whose adjacent entries increase, every earlier entry is
/// smaller than every later one.
proof fn lemma_adjacent_increasing_implies_increasing(b: Seq<i32>, p: int, q: int)
    requires
        forall|k: int| 0 <= k < b.len() - 1 ==> #[trigger] b[k] < b[k + 1],
        0 <= p < q < b.len(),
    ensures
        b[p] < b[q],
    decreases q - p,
{
    if p + 1 == q {
        assert(b[p] < b[p + 1]);
    } else {
        lemma_adjacent_increasing_implies_increasing(b, p, q - 1);
        assert(b[q - 1] < b[q]);
    }
}

/// Laid-out text: the text, its format, alignment, the engine's
/// measurements, and the layout box size.
#[derive(PartialEq, Eq, Debug)]
pub struct TextLayout {
    pub text: String,
    pub format: TextFormat,
    pub alignment: TextAlignment,
    pub metrics: TextMetrics,
    pub size: Size,
}

impl Clone for TextLayout {
    fn clone(&self) -> (c: Self)
        ensures
            c.text@ == self.text@,
            c.format@ == self.format@,
            c.alignment == self.alignment,
            c.metrics.boundaries@ == self.metrics.boundaries@,
            c.metrics.height == self.metrics.height,
            c.size == self.size,
    {
        TextLayout {
            text: self.text.clone(),
            format: self.format.clone(),
            alignment: self.alignment,
            metrics: self.metrics.clone(),
            size: self.size,
        }
    }
}

impl TextLayout {
    /// The measurements are well-formed and measure exactly this text.
    pub open spec fn wf(self) -> bool {
        &&& self.metrics.wf()
        &&& self.metrics.spec_char_count() == self.text@.len()
    }

    /// The size the measurements report: the span of the boundaries by the
    /// line height.
    pub open spec fn spec_natural_size(metrics: TextMetrics) -> Size {
        Size {
            width: (metrics.boundaries@.last() - metrics.boundaries@[0]) as i32,
            height: metrics.height,
        }
    }

    /// Lays text out: the text and its measurements must agree; the layout
    /// box is the given size, or exactly the measured size when none is
    /// given.
    pub fn new(
        text: &str,
        format: &TextFormat,
        alignment: TextAlignment,
        size: Option<Size>,
        metrics: TextMetrics,
    ) -> (r: Result<TextLayout, Error>)
        requires
            metrics.wf(),
        ensures
            r is Ok <==> metrics.spec_char_count() == text@.len(),
            r matches Ok(l) ==> {
                &&& l.text@ == text@
                &&& l.format@ == format@
                &&& l.alignment == alignment
                &&& l.metrics.boundaries@ == metrics.boundaries@
                &&& l.metrics.height == metrics.height
                &&& l.size == match size {
                    Some(s) => s,
                    None => TextLayout::spec_natural_size(metrics),
                }
                &&& l.wf()
            },
            r is Err ==> r == Result::<TextLayout, Error>::Err(
                Error::Other(crate::brush::INVALID_ARG_CODE),
            ),
    {
        let chars = text.unicode_len();
        if chars != metrics.boundaries.len() - 1 {
            return Err(Error::Other(crate::brush::INVALID_ARG_CODE));
        }
        let size = match size {
            Some(s) => s,
            None => {
                let b0 = metrics.boundaries[0];
                let bn = metrics.boundaries[metrics.boundaries.len() - 1];
                proof {
                    if metrics.boundaries@.len() > 1 {
                        assert(metrics.boundaries@[0] < metrics.boundaries@.last());
                    }
                }
                Size { width: bn - b0, height: metrics.height }
            },
        };
        Ok(
            TextLayout {
                text: String::from_str(text),
                format: format.clone(),
                alignment,
                metrics,
                size,
            },
        )
    }

    /// The format the layout was made with.
    pub fn format(&self) -> (f: &TextFormat)
        ensures
            f@ == self.format@,
    {
        &self.format
    }

    /// The layout box size.
    pub fn size(&self) -> (s: Size)
        ensures
            s == self.size,
    {
        self.size
    }

    /// Sets the layout box back to the measured size.
    pub fn reset_size(&mut self)
        requires
            old(self).wf(),
        ensures
            final(self).size == TextLayout::spec_natural_size(old(self).metrics),
            final(self).text@ == old(self).text@,
            final(self).format@ == old(self).format@,
            final(self).alignment == old(self).alignment,
            final(self).metrics == old(self).metrics,
    {
        let b0 = self.metrics.boundaries[0];
        let bn = self.metrics.boundaries[self.metrics.boundaries.len() - 1];
        proof {
            if self.metrics.boundaries@.len() > 1 {
                assert(self.metrics.boundaries@[0] < self.metrics.boundaries@.last());
            }
        }
        self.size = Size { width: bn - b0, height: self.metrics.height };
    }

    /// Sets the layout box size.
    pub fn set_size(&mut self, size: Size)
        ensures
            final(self).size == size,
            final(self).text@ == old(self).text@,
            final(self).format@ == old(self).format@,
            final(self).alignment == old(self).alignment,
            final(self).metrics == old(self).metrics,
    {
        self.size = size;
    }

    /// The current alignment.
    pub fn alignment(&self) -> (a: TextAlignment)
        ensures
            a == self.alignment,
    {
        self.alignment
    }

    /// Sets the alignment.
    pub fn set_alignment(&mut self, align: TextAlignment)
        ensures
            final(self).alignment == align,
            final(self).text@ == old(self).text@,
            final(self).format@ == old(self).format@,
            final(self).size == old(self).size,
            final(self).metrics == old(self).metrics,
    {
        self.alignment = align;
    }

    /// What a hit test at `pt` must report. A point left of the leading
    /// edge reports the first character, outside; a point at or past the
    /// trailing edge reports the last character's trailing half, outside;
    /// a point within the line reports the character whose cell holds it,
    /// inside exactly when the point's height falls within the line, and a
    /// trailing hit exactly when the point sits in the trailing half of the
    /// cell.
    pub open spec fn spec_hit_result(self, pt: Point, h: HitTestResult) -> bool {
        let b = self.metrics.boundaries@;
        let n = b.len() - 1;
        if n == 0 {
            h.text_position == 0 && !h.inside && !h.trailing_hit
        } else if pt.x < b[0] {
            h.text_position == 0 && !h.inside && !h.trailing_hit
        } else if pt.x >= b[n] {
            h.text_position == n - 1 && !h.inside && h.trailing_hit
        } else {
            let i = h.text_position as int;
            &&& 0 <= i < n
            &&& b[i] <= pt.x < b[i + 1]
            &&& h.inside == (0 <= pt.y < self.metrics.height)
            &&& h.trailing_hit == (2 * (pt.x - b[i]) >= b[i + 1] - b[i])
        }
    }

    /// Maps a point to the character position under it.
    pub fn hit_test(&self, pt: Point) -> (r: Result<HitTestResult, Error>)
        requires
            self.wf(),
        ensures
            r matches Ok(h) && self.spec_hit_result(pt, h),
    {
        let n = self.metrics.boundaries.len() - 1;
        if n == 0 {
            return Ok(HitTestResult { text_position: 0, inside: false, trailing_hit: false });
        }
        if pt.x < self.metrics.boundaries[0] {
            return Ok(HitTestResult { text_position: 0, inside: false, trailing_hit: false });
        }
        if pt.x >= self.metrics.boundaries[n] {
            return Ok(HitTestResult { text_position: n - 1, inside: false, trailing_hit: true });
        }
        let mut i: usize = 0;
        while self.metrics.boundaries[i + 1] <= pt.x
            invariant
                self.wf(),
                n == self.metrics.boundaries@.len() - 1,
                n >= 1,
                i < n,
                self.metrics.boundaries@[i as int] <= pt.x,
                pt.x < self.metrics.boundaries@[n as int],
            decreases n - i,
        {
            i += 1;
        }
        let b_i = self.metrics.boundaries[i];
        let b_next = self.metrics.boundaries[i + 1];
        let inside = 0 <= pt.y && pt.y < self.metrics.height;
        let trailing = 2 * (pt.x as i64 - b_i as i64) >= b_next as i64 - b_i as i64;
        Ok(HitTestResult { text_position: i, inside, trailing_hit: trailing })
    }

    /// The caret point the inverse mapping must report: the leading edge of
    /// the character's cell, or its trailing edge for a trailing hit; a
    /// position past the text reports the line's trailing edge. The height
    /// reported is the top of the line.
    pub open spec fn spec_caret_point(self, position: int, trailing: bool) -> Point {
        let b = self.metrics.boundaries@;
        let n = b.len() - 1;
        let p = if position > n { n } else { position };
        let x = if !trailing {
            b[p]
        } else if p < n {
            b[p + 1]
        } else {
            b[n]
        };
        Point { x, y: 0 }
    }

    /// Maps a character position back to its caret point.
    pub fn text_position_to_point(&self, position: usize, trailing_hit: bool) -> (r: Result<
        Point,
        Error,
    >)
        requires
            self.wf(),
        ensures
            r matches Ok(p) && p == self.spec_caret_point(position as int, trailing_hit),
    {
        let n = self.metrics.boundaries.len() - 1;
        let p = if position > n {
            n
        } else {
            position
        };
        let x = if !trailing_hit {
            self.metrics.boundaries[p]
        } else if p < n {
            self.metrics.boundaries[p + 1]
        } else {
            self.metrics.boundaries[n]
        };
        Ok(Point { x, y: 0 })
    }
}

/// Hit-testing law: a point within character `i`'s cell, at a height within
/// the line, is reported as character `i`, inside.
pub proof fn lemma_hit_test_identifies_cell(l: TextLayout, i: int, pt: Point, h: HitTestResult)
    requires
        l.wf(),
        0 <= i < l.metrics.spec_char_count(),
        l.metrics.boundaries@[i] <= pt.x < l.metrics.boundaries@[i + 1],
        0 <= pt.y < l.metrics.height,
        l.spec_hit_result(pt, h),
    ensures
        h.text_position == i,
        h.inside,
{
    let b = l.metrics.boundaries@;
    let n = b.len() - 1;
    assert(b[0] <= b[i] || i == 0);
    assert(b[i + 1] <= b[n] || i + 1 == n);
    let j = h.text_position as int;
    if j < i {
        assert(b[j + 1] <= b[i]);
    }
    if j > i {
        assert(b[i + 1] <= b[j]);
    }
}

/// Hit-testing law, monotonicity: along the line, a point no further right
/// is never reported as a later character.
pub proof fn lemma_hit_test_monotonic(
    l: TextLayout,
    pt1: Point,
    pt2: Point,
    h1: HitTestResult,
    h2: HitTestResult,
)
    requires
        l.wf(),
        l.spec_hit_result(pt1, h1),
        l.spec_hit_result(pt2, h2),
        pt1.x <= pt2.x,
    ensures
        h1.text_position <= h2.text_position,
{
    let b = l.metrics.boundaries@;
    let n = b.len() - 1;
    if n > 0 && b[0] <= pt1.x < b[n] && b[0] <= pt2.x < b[n] {
        let i = h1.text_position as int;
        let j = h2.text_position as int;
        if j < i {
            assert(b[j + 1] <= b[i]);
        }
    }
}

/// Inverse law: the caret point of character `i`'s leading edge hit-tests
/// back to character `i`.
pub proof fn lemma_caret_round_trip(l: TextLayout, i: int, h: HitTestResult)
    requires
        l.wf(),
        0 <= i < l.metrics.spec_char_count(),
        l.spec_hit_result(l.spec_caret_point(i, false), h),
    ensures
        h.text_position == i,
        h.inside,
{
    let pt = l.spec_caret_point(i, false);
    assert(l.metrics.boundaries@[i] <= pt.x < l.metrics.boundaries@[i + 1]);
    lemma_hit_test_identifies_cell(l, i, pt, h);
}

} // verus!
