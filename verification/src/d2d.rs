//! The swap-chain-backed backend: the render target owns the swap chain and
//! the bitmap wrapping its current back buffer, presents after a successful
//! frame, and is resized by releasing the old bitmap, resizing the buffers,
//! and wrapping a fresh one — an old bitmap is never used again.

use vstd::prelude::*;
use crate::context::{Backend, Bitmap, Context, SwapChain, Target};
use crate::error::{check_hresult, spec_classified_result, spec_is_failure_code, Error};
use crate::geometry::{PhysicalSize, Size};

verus! {

/// A presentable render target: its swap chain, the bitmap over the current
/// back buffer while one is held, how often the bitmap was recreated, and
/// the present interval.
#[derive(Clone, Copy, PartialEq, Eq, Structural, Debug)]
pub struct RenderTarget {
    pub swap_chain: SwapChain,
    pub bitmap: Option<Bitmap>,
    pub bitmap_generation: u64,
    pub interval: u32,
}

impl RenderTarget {
    /// The held bitmap wraps the current buffers: same size, and stamped
    /// with the latest generation.
    pub open spec fn wf(self) -> bool {
        self.bitmap matches Some(b) ==> b.size == self.swap_chain.size && b.generation
            == self.bitmap_generation
    }

    /// Sets how many vertical blanks a present waits for.
    pub fn set_interval(&mut self, interval: u32)
        ensures
            final(self).interval == interval,
            final(self).swap_chain == old(self).swap_chain,
            final(self).bitmap == old(self).bitmap,
            final(self).bitmap_generation == old(self).bitmap_generation,
    {
        self.interval = interval;
    }
}

impl Target for RenderTarget {
    open spec fn spec_bitmap(&self) -> Option<Bitmap> {
        self.bitmap
    }

    fn bitmap(&self) -> (b: Bitmap) {
        self.bitmap.unwrap()
    }

    fn physical_size(&self) -> (s: PhysicalSize) {
        self.bitmap.unwrap().size
    }

    fn size(&self) -> (s: Size) {
        let b = self.bitmap.unwrap();
        Size { width: b.size.width as i32, height: b.size.height as i32 }
    }
}

/// The swap-chain backend: device creation and presentation live with the
/// platform; the frame bracket itself needs no per-target preparation.
#[derive(Clone, Copy, Debug)]
pub struct Direct2D {}

impl Direct2D {
    /// Creates the underlying device and factory.
    pub fn new() -> (r: Result<Direct2D, Error>)
        ensures
            r is Ok,
    {
        Ok(Direct2D {  })
    }
}

impl Backend for Direct2D {
    type RenderTarget = RenderTarget;

    open spec fn spec_ready(t: RenderTarget) -> bool {
        true
    }

    open spec fn spec_in_frame(t: RenderTarget) -> bool {
        true
    }

    open spec fn spec_released(t: RenderTarget) -> bool {
        true
    }

    /// Nothing is ever acquired, so the counts stand trivially equal.
    open spec fn spec_balanced(t: RenderTarget) -> bool {
        true
    }

    open spec fn spec_same_surface(a: RenderTarget, b: RenderTarget) -> bool {
        a == b
    }

    /// A failed frame keeps its error; a successful frame presents, and the
    /// present's status, classified, is the frame's result.
    open spec fn spec_end_result(ret: Result<(), Error>, present_status: u32) -> Result<
        (),
        Error,
    > {
        match ret {
            Err(e) => Err(e),
            Ok(_) => spec_classified_result(present_status),
        }
    }

    fn begin_draw(&self, target: &mut RenderTarget) {
    }

    /// Presents the frame when the device closed it cleanly; a frame error
    /// is kept and nothing is presented.
    fn end_draw(
        &mut self,
        target: &mut RenderTarget,
        ret: Result<(), Error>,
        present_status: u32,
    ) -> (r: Result<(), Error>) {
        match ret {
            Err(e) => Err(e),
            Ok(_) => check_hresult(present_status),
        }
    }
}

impl Context<Direct2D> {
    /// Creates a swap chain of two buffers for a window surface of the
    /// given size, and wraps its back buffer as the target's first bitmap.
    pub fn create_render_target(&self, size: PhysicalSize) -> (r: Result<RenderTarget, Error>)
        ensures
            r matches Ok(t) && {
                &&& t.swap_chain == (SwapChain { size, buffer_count: 2 })
                &&& t.bitmap == Some(Bitmap { generation: 1, size })
                &&& t.bitmap_generation == 1
                &&& t.interval == 1
                &&& t.wf()
            },
    {
        Ok(
            RenderTarget {
                swap_chain: SwapChain { size, buffer_count: 2 },
                bitmap: Some(Bitmap { generation: 1, size }),
                bitmap_generation: 1,
                interval: 1,
            },
        )
    }

    /// Resizes a target: the old bitmap is released before the buffers are
    /// resized and is never used again; after a successful resize the
    /// target holds a fresh bitmap of exactly the new size. `resize_status`
    /// is what the platform reported for the buffer resize itself; on a
    /// failure the target is left without a bitmap and the error is
    /// classified as every frame error is.
    pub fn resize_target(
        &self,
        target: &mut RenderTarget,
        size: PhysicalSize,
        resize_status: u32,
    ) -> (r: Result<(), Error>)
        requires
            old(target).bitmap_generation < u64::MAX,
        ensures
            r == spec_classified_result(resize_status),
            final(target).interval == old(target).interval,
            final(target).swap_chain.buffer_count == old(target).swap_chain.buffer_count,
            final(target).bitmap_generation > old(target).bitmap_generation,
            spec_is_failure_code(resize_status) ==> final(target).bitmap is None
                && final(target).swap_chain == old(target).swap_chain,
            !spec_is_failure_code(resize_status) ==> {
                &&& final(target).swap_chain.size == size
                &&& final(target).bitmap == Some(
                    Bitmap { generation: (old(target).bitmap_generation + 1) as u64, size },
                )
                &&& final(target).wf()
            },
            (old(target).wf() && !spec_is_failure_code(resize_status) && old(target).bitmap
                is Some) ==> (final(target).bitmap is Some
                && final(target).bitmap->Some_0.generation > old(
                target,
            ).bitmap->Some_0.generation),
    {
        target.bitmap = None;
        target.bitmap_generation = target.bitmap_generation + 1;
        let r = check_hresult(resize_status);
        if r.is_err() {
            return r;
        }
        target.swap_chain.size = size;
        target.bitmap = Some(Bitmap { generation: target.bitmap_generation, size });
        Ok(())
    }
}

} // verus!
