//! The plain texture backend: a device-context-compatible device is derived
//! directly from the caller's device, swap-chain buffers and textures are
//! wrapped as bitmaps, and the frame bracket needs no extra preparation.

use vstd::prelude::*;
use crate::context::{Backend, Bitmap, Context, SwapChain, Target, TextureDesc};
use crate::error::Error;
use crate::geometry::{PhysicalSize, Size};

verus! {

/// A texture-backed render target: one drawable bitmap.
#[derive(Clone, Copy, PartialEq, Eq, Structural, Debug)]
pub struct RenderTarget {
    pub bitmap: Bitmap,
}

impl Target for RenderTarget {
    open spec fn spec_bitmap(&self) -> Option<Bitmap> {
        Some(self.bitmap)
    }

    fn bitmap(&self) -> (b: Bitmap) {
        self.bitmap
    }

    fn physical_size(&self) -> (s: PhysicalSize) {
        self.bitmap.size
    }

    fn size(&self) -> (s: Size) {
        Size { width: self.bitmap.size.width as i32, height: self.bitmap.size.height as i32 }
    }
}

/// The direct backend: no interop and no presentation of its own.
#[derive(Clone, Copy, Debug)]
pub struct Direct3D11 {}

impl Direct3D11 {
    /// Wraps a caller-supplied device.
    pub fn new() -> (r: Result<Direct3D11, Error>)
        ensures
            r is Ok,
    {
        Ok(Direct3D11 {  })
    }
}

impl Backend for Direct3D11 {
    type RenderTarget = RenderTarget;

    /// A texture target is always ready: no acquisition precedes a frame.
    open spec fn spec_ready(t: RenderTarget) -> bool {
        true
    }

    open spec fn spec_in_frame(t: RenderTarget) -> bool {
        true
    }

    open spec fn spec_released(t: RenderTarget) -> bool {
        true
    }

    /// Nothing is ever acquired, so the counts stand trivially equal.
    open spec fn spec_balanced(t: RenderTarget) -> bool {
        true
    }

    open spec fn spec_same_surface(a: RenderTarget, b: RenderTarget) -> bool {
        a == b
    }

    /// This backend neither presents nor retries: the device's own result is
    /// the frame's result.
    open spec fn spec_end_result(ret: Result<(), Error>, present_status: u32) -> Result<
        (),
        Error,
    > {
        ret
    }

    fn begin_draw(&self, target: &mut RenderTarget) {
    }

    fn end_draw(
        &mut self,
        target: &mut RenderTarget,
        ret: Result<(), Error>,
        present_status: u32,
    ) -> (r: Result<(), Error>) {
        ret
    }
}

impl Context<Direct3D11> {
    /// Wraps the first buffer of a swap chain as a render target.
    pub fn create_render_target_from_swap_chain(&self, swap_chain: &SwapChain) -> (r: Result<
        RenderTarget,
        Error,
    >)
        ensures
            r matches Ok(t) && t.bitmap.size == swap_chain.size && t.bitmap.generation == 0,
    {
        Ok(RenderTarget { bitmap: Bitmap { generation: 0, size: swap_chain.size } })
    }

    /// Wraps a caller-supplied texture as a render target; the texture must
    /// have been created with render-target capability.
    pub fn create_render_target(&self, texture: &TextureDesc) -> (r: Result<RenderTarget, Error>)
        requires
            texture.allows_render_target,
        ensures
            r matches Ok(t) && t.bitmap.size == texture.size && t.bitmap.generation == 0,
    {
        Ok(RenderTarget { bitmap: Bitmap { generation: 0, size: texture.size } })
    }
}

} // verus!
