//! The top-level drawing context: the backend abstraction, the shared
//! device-context state, the frame bracket that every drawn frame must pass
//! through, and the recorded drawing commands of one frame.
//!
//! A frame runs `begin_frame` — the backend acquires the target — then the
//! user records operations on the [`DrawCommand`], then `end_frame` closes
//! the bracket: whatever the frame's outcome, the backend releases the
//! target, so its acquire and release counts stand equal after every frame.

use vstd::prelude::*;
use crate::brush::{Brush, GradientMode, GradientStop, GradientStopCollection};
use crate::error::{check_hresult, Error};
use crate::geometry::{Ellipse, PhysicalSize, Point, Rect, Rgba, Size};
use crate::image::{Image, Interpolation};
use crate::path::{FilledPath, HollowPath, PathBuilder};
use crate::shape::{spec_same_shape, Shape};
use crate::stroke_style::{spec_same_stroke_style, StrokeStyle, StrokeStyleProperties};
use crate::text::{Font, TextAlignment, TextFormat, TextLayout, TextMetrics, TextStyle};

verus! {

/// A drawable surface the device context can render into: its identity
/// generation — fresh after every recreation — and its pixel size.
#[derive(Clone, Copy, PartialEq, Eq, Structural, Debug)]
pub struct Bitmap {
    pub generation: u64,
    pub size: PhysicalSize,
}

/// A presentable surface chain: its buffer size and how many buffers rotate
/// through it.
#[derive(Clone, Copy, PartialEq, Eq, Structural, Debug)]
pub struct SwapChain {
    pub size: PhysicalSize,
    pub buffer_count: u32,
}

/// What a caller-supplied texture declares of itself: its pixel size,
/// whether it was created with render-target capability, and which GPU
/// resource it is.
#[derive(Clone, Copy, PartialEq, Eq, Structural, Debug)]
pub struct TextureDesc {
    pub size: PhysicalSize,
    pub allows_render_target: bool,
    pub resource: u64,
}

/// Any drawable surface: it exposes its bitmap and sizes, however it is
/// backed.
pub trait Target {
    /// The drawable bitmap, while the target holds one.
    spec fn spec_bitmap(&self) -> Option<Bitmap>;

    /// The held bitmap.
    fn bitmap(&self) -> (b: Bitmap)
        requires
            self.spec_bitmap() is Some,
        ensures
            self.spec_bitmap() matches Some(held) && b == held,
    ;

    /// The pixel size of the held bitmap.
    fn physical_size(&self) -> (s: PhysicalSize)
        requires
            self.spec_bitmap() is Some,
        ensures
            self.spec_bitmap() matches Some(held) && s == held.size,
    ;

    /// The logical size of the held bitmap, at the default scale.
    fn size(&self) -> (s: Size)
        requires
            self.spec_bitmap() matches Some(held) && held.size.width <= 0x7fff_ffff
                && held.size.height <= 0x7fff_ffff,
        ensures
            self.spec_bitmap() matches Some(held) && s.width == held.size.width
                && s.height == held.size.height,
    ;
}

/// A device technology behind the shared device context. A backend prepares
/// a target for a frame and releases it afterwards; what those steps mean —
/// a no-op, a present, or an interop acquire/release — is the backend's own.
pub trait Backend: Sized {
    type RenderTarget: Target;

    /// The target may open a frame bracket.
    spec fn spec_ready(t: Self::RenderTarget) -> bool;

    /// The target stands inside an open frame bracket.
    spec fn spec_in_frame(t: Self::RenderTarget) -> bool;

    /// The target's frame bracket stands closed.
    spec fn spec_released(t: Self::RenderTarget) -> bool;

    /// The target's interop acquires and releases stand equal.
    spec fn spec_balanced(t: Self::RenderTarget) -> bool;

    /// Everything a frame must keep of a target besides its bracket state.
    spec fn spec_same_surface(a: Self::RenderTarget, b: Self::RenderTarget) -> bool;

    /// The frame result this backend reports, given the device's
    /// close-of-frame result and the present status.
    spec fn spec_end_result(ret: Result<(), Error>, present_status: u32) -> Result<(), Error>;

    /// Prepares the target for drawing.
    fn begin_draw(&self, target: &mut Self::RenderTarget)
        requires
            Self::spec_ready(*old(target)),
        ensures
            Self::spec_in_frame(*final(target)),
            Self::spec_same_surface(*old(target), *final(target)),
            final(target).spec_bitmap() == old(target).spec_bitmap(),
    ;

    /// Releases the target after drawing; runs on every frame outcome.
    fn end_draw(
        &mut self,
        target: &mut Self::RenderTarget,
        ret: Result<(), Error>,
        present_status: u32,
    ) -> (r: Result<(), Error>)
        requires
            Self::spec_in_frame(*old(target)),
        ensures
            Self::spec_released(*final(target)),
            Self::spec_balanced(*final(target)),
            Self::spec_same_surface(*old(target), *final(target)),
            final(target).spec_bitmap() == old(target).spec_bitmap(),
            r == Self::spec_end_result(ret, present_status),
    ;
}

/// The shared 2D device context's state: whether a target is bound, whether
/// a draw bracket is open, and the scale in hundredths of a dot per inch.
#[derive(Clone, Copy, PartialEq, Eq, Structural, Debug)]
pub struct DeviceContext {
    pub target_set: bool,
    pub drawing: bool,
    pub dpi: u32,
}

/// The default scale: 96 dots per inch, in hundredths.
pub const DEFAULT_DPI: u32 = 9600;

impl DeviceContext {
    /// No target bound and no bracket open.
    pub open spec fn spec_idle(self) -> bool {
        !self.target_set && !self.drawing
    }
}

/// One recorded drawing operation of a frame, in call order.
#[derive(Debug)]
pub enum DrawOp {
    Clear(Rgba),
    Fill(Shape, Brush),
    Stroke(Shape, Brush, i32, Option<StrokeStyle>),
    DrawImage(Image, Rect, Option<Rect>, Interpolation),
    DrawText(TextLayout, Point, Brush),
    PushClip(Rect),
    PopClip,
    SetOffset(Point),
}

/// The new operation list is the old with exactly one more entry.
pub open spec fn spec_ops_extended(old_ops: Seq<DrawOp>, new_ops: Seq<DrawOp>) -> bool {
    new_ops.len() == old_ops.len() + 1 && forall|k: int|
        0 <= k < old_ops.len() ==> new_ops[k] == old_ops[k]
}

/// Two laid-out texts agree in all content.
pub open spec fn spec_same_layout(a: TextLayout, b: TextLayout) -> bool {
    &&& a.text@ == b.text@
    &&& a.format@ == b.format@
    &&& a.alignment == b.alignment
    &&& a.metrics.boundaries@ == b.metrics.boundaries@
    &&& a.metrics.height == b.metrics.height
    &&& a.size == b.size
}

/// The drawing capability handed to a frame: it records the frame's
/// operations in call order, and tracks the clip stack so an unmatched pop
/// is remembered, as the device would report it when the bracket closes.
#[derive(Debug)]
pub struct DrawCommand {
    pub ops: Vec<DrawOp>,
    pub clip_depth: usize,
    pub unbalanced: bool,
}

impl DrawCommand {
    /// Clip pushes and pops in these operations stand matched so far.
    pub open spec fn spec_clip_ok(self) -> bool {
        self.clip_depth == 0 && !self.unbalanced
    }

    /// Records clearing the whole target to one color.
    pub fn clear(&mut self, color: Rgba)
        ensures
            spec_ops_extended(old(self).ops@, final(self).ops@),
            final(self).ops@.last() == DrawOp::Clear(color),
            final(self).clip_depth == old(self).clip_depth,
            final(self).unbalanced == old(self).unbalanced,
    {
        self.ops.push(DrawOp::Clear(color));
    }

    /// Records filling a shape with a brush.
    pub fn fill(&mut self, object: &Shape, brush: &Brush)
        ensures
            spec_ops_extended(old(self).ops@, final(self).ops@),
            final(self).ops@.last() matches DrawOp::Fill(s, b) && spec_same_shape(*object, s)
                && b@ == brush@,
            final(self).clip_depth == old(self).clip_depth,
            final(self).unbalanced == old(self).unbalanced,
    {
        self.ops.push(DrawOp::Fill(object.clone(), brush.clone()));
    }

    /// Records stroking a shape's outline with a brush, a width in
    /// hundredths, and an optional stroke style.
    pub fn stroke(
        &mut self,
        object: &Shape,
        brush: &Brush,
        width: i32,
        stroke_style: Option<&StrokeStyle>,
    )
        ensures
            spec_ops_extended(old(self).ops@, final(self).ops@),
            final(self).ops@.last() matches DrawOp::Stroke(s, b, w, st) && spec_same_shape(
                *object,
                s,
            ) && b@ == brush@ && w == width && match stroke_style {
                Some(given) => st matches Some(held) && spec_same_stroke_style(*given, held),
                None => st is None,
            },
            final(self).clip_depth == old(self).clip_depth,
            final(self).unbalanced == old(self).unbalanced,
    {
        let held = match stroke_style {
            Some(s) => Some(s.clone()),
            None => None,
        };
        self.ops.push(DrawOp::Stroke(object.clone(), brush.clone(), width, held));
    }

    /// Records drawing an image into a destination rectangle, optionally
    /// from a source cut-out, with the given resampling.
    pub fn draw_image(
        &mut self,
        image: &Image,
        dest_rect: Rect,
        src_rect: Option<Rect>,
        interpolation: Interpolation,
    )
        ensures
            spec_ops_extended(old(self).ops@, final(self).ops@),
            final(self).ops@.last() == DrawOp::DrawImage(*image, dest_rect, src_rect, interpolation),
            final(self).clip_depth == old(self).clip_depth,
            final(self).unbalanced == old(self).unbalanced,
    {
        self.ops.push(DrawOp::DrawImage(*image, dest_rect, src_rect, interpolation));
    }

    /// Records drawing laid-out text at an origin with a brush.
    pub fn draw_text(&mut self, layout: &TextLayout, origin: Point, brush: &Brush)
        ensures
            spec_ops_extended(old(self).ops@, final(self).ops@),
            final(self).ops@.last() matches DrawOp::DrawText(l, p, b) && spec_same_layout(
                *layout,
                l,
            ) && p == origin && b@ == brush@,
            final(self).clip_depth == old(self).clip_depth,
            final(self).unbalanced == old(self).unbalanced,
    {
        self.ops.push(DrawOp::DrawText(layout.clone(), origin, brush.clone()));
    }

    /// Records pushing an axis-aligned clip rectangle.
    pub fn push_clip(&mut self, rect: Rect)
        requires
            old(self).clip_depth < usize::MAX,
        ensures
            spec_ops_extended(old(self).ops@, final(self).ops@),
            final(self).ops@.last() == DrawOp::PushClip(rect),
            final(self).clip_depth == old(self).clip_depth + 1,
            final(self).unbalanced == old(self).unbalanced,
    {
        self.ops.push(DrawOp::PushClip(rect));
        self.clip_depth = self.clip_depth + 1;
    }

    /// Records popping the innermost clip rectangle; a pop with none open is
    /// remembered as an imbalance, as the device would report it when the
    /// bracket closes.
    pub fn pop_clip(&mut self)
        ensures
            spec_ops_extended(old(self).ops@, final(self).ops@),
            final(self).ops@.last() == DrawOp::PopClip,
            old(self).clip_depth > 0 ==> final(self).clip_depth == old(self).clip_depth - 1
                && final(self).unbalanced == old(self).unbalanced,
            old(self).clip_depth == 0 ==> final(self).clip_depth == 0 && final(self).unbalanced,
    {
        self.ops.push(DrawOp::PopClip);
        if self.clip_depth > 0 {
            self.clip_depth = self.clip_depth - 1;
        } else {
            self.unbalanced = true;
        }
    }

    /// Records translating every later operation by an offset.
    pub fn set_offset(&mut self, point: Point)
        ensures
            spec_ops_extended(old(self).ops@, final(self).ops@),
            final(self).ops@.last() == DrawOp::SetOffset(point),
            final(self).clip_depth == old(self).clip_depth,
            final(self).unbalanced == old(self).unbalanced,
    {
        self.ops.push(DrawOp::SetOffset(point));
    }
}

/// Creates resources; every resource is a pure definition the device uploads
/// later, so creation never depends on a live frame.
#[derive(Clone, Copy, Debug)]
pub struct Factory {}

impl Factory {
    /// Defines a solid color brush.
    pub fn create_solid_color_brush(&self, color: Rgba) -> (r: Result<Brush, Error>)
        ensures
            r matches Ok(b) && b@ == crate::brush::BrushView::SolidColor(color),
    {
        Brush::solid_color(color)
    }

    /// Builds a gradient stop collection; count and order are preserved.
    pub fn create_gradient_stop_collection(
        &self,
        mode: GradientMode,
        stops: &Vec<GradientStop>,
    ) -> (r: Result<GradientStopCollection, Error>)
        ensures
            r is Ok <==> crate::brush::spec_stops_in_range(stops@),
            r matches Ok(c) ==> c.mode == mode && c.stops@ == stops@,
    {
        GradientStopCollection::new(mode, stops)
    }

    /// Defines a linear gradient brush.
    pub fn create_linear_gradient_brush(
        &self,
        start: Point,
        end: Point,
        stops: &GradientStopCollection,
    ) -> (r: Result<Brush, Error>)
        ensures
            r matches Ok(b) && b@ == crate::brush::BrushView::LinearGradient(start, end, stops@),
    {
        Brush::linear_gradient(start, end, stops)
    }

    /// Defines a radial gradient brush.
    pub fn create_radial_gradient_brush(
        &self,
        ellipse: Ellipse,
        offset: Point,
        stops: &GradientStopCollection,
    ) -> (r: Result<Brush, Error>)
        ensures
            r matches Ok(b) && b@ == crate::brush::BrushView::RadialGradient(
                ellipse,
                offset,
                stops@,
            ),
    {
        Brush::radial_gradient(ellipse, offset, stops)
    }

    /// Builds a text format.
    pub fn create_text_format(
        &self,
        font: Font,
        size: u32,
        style: Option<&TextStyle>,
        locale: Option<&str>,
    ) -> (r: Result<TextFormat, Error>)
        ensures
            r matches Ok(f) && {
                &&& f.font@ == font@
                &&& f.size == size
                &&& match style {
                    Some(s) => f.style == *s,
                    None => f.style == crate::text::spec_default_text_style(),
                }
                &&& match locale {
                    Some(l) => f.locale@ == l@,
                    None => f.locale@ == Seq::<char>::empty(),
                }
            },
    {
        TextFormat::new(font, size, style, locale)
    }

    /// Lays text out against the engine's measurements.
    pub fn create_text_layout(
        &self,
        text: &str,
        format: &TextFormat,
        alignment: TextAlignment,
        size: Option<Size>,
        metrics: TextMetrics,
    ) -> (r: Result<TextLayout, Error>)
        requires
            metrics.wf(),
        ensures
            r is Ok <==> metrics.spec_char_count() == text@.len(),
            r matches Ok(l) ==> {
                &&& l.text@ == text@
                &&& l.format@ == format@
                &&& l.alignment == alignment
                &&& l.metrics.boundaries@ == metrics.boundaries@
                &&& l.metrics.height == metrics.height
                &&& l.size == match size {
                    Some(s) => s,
                    None => TextLayout::spec_natural_size(metrics),
                }
                &&& l.wf()
            },
    {
        TextLayout::new(text, format, alignment, size, metrics)
    }

    /// Computes a stroke style's platform descriptor.
    pub fn create_stroke_style(&self, props: &StrokeStyleProperties) -> (r: Result<
        StrokeStyle,
        Error,
    >)
        ensures
            r is Ok,
            r matches Ok(s) ==> s.start_cap == crate::stroke_style::spec_cap_raw(props.start_cap)
                && s.end_cap == crate::stroke_style::spec_cap_raw(props.end_cap) && s.line_join
                == crate::stroke_style::spec_join_raw(props.line_join) && s.miter_limit
                == crate::stroke_style::spec_miter_limit(props.line_join),
    {
        StrokeStyle::new(props)
    }

    /// Opens a builder for a path whose figures are filled.
    pub fn create_filled_path(&self) -> (r: Result<PathBuilder<FilledPath>, Error>)
        ensures
            r matches Ok(b) && b.figures@.len() == 0,
    {
        Ok(PathBuilder::new())
    }

    /// Opens a builder for a hollow path.
    pub fn create_hollow_path(&self) -> (r: Result<PathBuilder<HollowPath>, Error>)
        ensures
            r matches Ok(b) && b.figures@.len() == 0,
    {
        Ok(PathBuilder::new())
    }
}

/// The top-level object: owns the chosen backend and the shared device
/// context state, and brackets every frame.
#[derive(Debug)]
pub struct Context<T> {
    pub backend: T,
    pub device_context: DeviceContext,
}

impl<T: Backend> Context<T> {
    /// Wraps a backend; the shared device context starts idle at the
    /// default scale.
    pub fn new(backend: T) -> (r: Result<Context<T>, Error>)
        ensures
            r matches Ok(c) && c.backend == backend && c.device_context.spec_idle()
                && c.device_context.dpi == DEFAULT_DPI,
    {
        Ok(
            Context {
                backend,
                device_context: DeviceContext { target_set: false, drawing: false, dpi: DEFAULT_DPI },
            },
        )
    }

    /// Hands out the resource factory.
    pub fn create_factory(&self) -> (f: Factory) {
        Factory {  }
    }

    /// The backend this context drives.
    pub fn backend(&self) -> (b: &T)
        ensures
            b == &self.backend,
    {
        &self.backend
    }

    /// Scales all later device-independent drawing by `dpi / 96`, with the
    /// value in hundredths of a dot per inch.
    pub fn set_dpi(&mut self, dpi: u32)
        ensures
            final(self).device_context.dpi == dpi,
            final(self).device_context.target_set == old(self).device_context.target_set,
            final(self).device_context.drawing == old(self).device_context.drawing,
            final(self).backend == old(self).backend,
    {
        self.device_context.dpi = dpi;
    }

    /// Opens a frame on a target: the backend prepares the target, the
    /// target's bitmap is bound, the draw bracket opens, and an empty
    /// command recorder is handed out.
    pub fn begin_frame(&mut self, target: &mut T::RenderTarget) -> (cmd: DrawCommand)
        requires
            old(self).device_context.spec_idle(),
            T::spec_ready(*old(target)),
            old(target).spec_bitmap() is Some,
        ensures
            final(self).device_context.drawing,
            final(self).device_context.target_set,
            final(self).device_context.dpi == old(self).device_context.dpi,
            final(self).backend == old(self).backend,
            T::spec_in_frame(*final(target)),
            T::spec_same_surface(*old(target), *final(target)),
            final(target).spec_bitmap() == old(target).spec_bitmap(),
            cmd.ops@.len() == 0,
            cmd.spec_clip_ok(),
    {
        self.backend.begin_draw(target);
        self.device_context.target_set = true;
        self.device_context.drawing = true;
        DrawCommand { ops: Vec::new(), clip_depth: 0, unbalanced: false }
    }

    /// Closes a frame: the bracket closes whatever the device reported, the
    /// target is unbound and released by the backend — its acquires and
    /// releases stand equal afterwards — and the device's close-of-frame
    /// status, classified, decides the frame's result.
    pub fn end_frame(
        &mut self,
        target: &mut T::RenderTarget,
        device_status: u32,
        present_status: u32,
    ) -> (r: Result<(), Error>)
        requires
            old(self).device_context.drawing,
            T::spec_in_frame(*old(target)),
        ensures
            final(self).device_context.spec_idle(),
            final(self).device_context.dpi == old(self).device_context.dpi,
            T::spec_released(*final(target)),
            T::spec_balanced(*final(target)),
            T::spec_same_surface(*old(target), *final(target)),
            final(target).spec_bitmap() == old(target).spec_bitmap(),
            r == T::spec_end_result(
                crate::error::spec_classified_result(device_status),
                present_status,
            ),
    {
        let ret = check_hresult(device_status);
        self.device_context.drawing = false;
        self.device_context.target_set = false;
        self.backend.end_draw(target, ret, present_status)
    }
}

} // verus!
