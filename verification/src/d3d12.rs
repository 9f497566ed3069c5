//! The command-list-device interop backend: a 2D device context renders
//! into the command-list device's textures through wrapped resources. A
//! frame must acquire the target's wrapper before drawing and release it
//! afterwards — on every outcome — or the command-list side would observe
//! resource-state corruption; the pairing law below pins that down.

use vstd::prelude::*;
use crate::context::{Backend, Bitmap, Context, SwapChain, Target, TextureDesc};
use crate::error::Error;
use crate::geometry::{PhysicalSize, Size};

verus! {

/// The interop wrapper of one GPU resource: whether the 2D side holds it
/// now, and how often it was acquired and released.
#[derive(Clone, Copy, PartialEq, Eq, Structural, Debug)]
pub struct InteropWrapper {
    pub resource: u64,
    pub acquired: bool,
    pub acquires: u64,
    pub releases: u64,
}

impl InteropWrapper {
    /// Acquires and releases alternate: the counts differ by one exactly
    /// while the wrapper is held.
    pub open spec fn wf(self) -> bool {
        if self.acquired {
            self.acquires == self.releases + 1
        } else {
            self.acquires == self.releases
        }
    }
}

/// A render target of the interop backend: the wrapped resource bridging
/// the two device object models, and the bitmap the 2D side draws into.
#[derive(Clone, Copy, PartialEq, Eq, Structural, Debug)]
pub struct RenderTarget {
    pub wrapper: InteropWrapper,
    pub bitmap: Bitmap,
}

impl Target for RenderTarget {
    open spec fn spec_bitmap(&self) -> Option<Bitmap> {
        Some(self.bitmap)
    }

    fn bitmap(&self) -> (b: Bitmap) {
        self.bitmap
    }

    fn physical_size(&self) -> (s: PhysicalSize) {
        self.bitmap.size
    }

    fn size(&self) -> (s: Size) {
        Size { width: self.bitmap.size.width as i32, height: self.bitmap.size.height as i32 }
    }
}

/// The interop backend: it counts the flushes and state clears it forces on
/// the bridge device when a frame ends.
#[derive(Clone, Copy, PartialEq, Eq, Structural, Debug)]
pub struct Direct3D12 {
    pub flushes: u64,
    pub state_clears: u64,
}

impl Direct3D12 {
    /// Bridges a command-list device and its queue into the 2D device
    /// object model.
    pub fn new() -> (r: Result<Direct3D12, Error>)
        ensures
            r matches Ok(b) && b.flushes == 0 && b.state_clears == 0,
    {
        Ok(Direct3D12 { flushes: 0, state_clears: 0 })
    }
}

impl Backend for Direct3D12 {
    type RenderTarget = RenderTarget;

    /// Ready: the wrapper alternates correctly, is not currently held, and
    /// its counters have room for another frame.
    open spec fn spec_ready(t: RenderTarget) -> bool {
        t.wrapper.wf() && !t.wrapper.acquired && t.wrapper.releases < u64::MAX
    }

    /// In a frame: the wrapper alternates correctly and is held.
    open spec fn spec_in_frame(t: RenderTarget) -> bool {
        t.wrapper.wf() && t.wrapper.acquired
    }

    /// Released: the wrapper alternates correctly and is not held.
    open spec fn spec_released(t: RenderTarget) -> bool {
        t.wrapper.wf() && !t.wrapper.acquired
    }

    /// The acquire and release counts stand equal.
    open spec fn spec_balanced(t: RenderTarget) -> bool {
        t.wrapper.acquires == t.wrapper.releases
    }

    /// A frame keeps the wrapped resource and the bitmap, and moves each
    /// count at most one step forward.
    open spec fn spec_same_surface(a: RenderTarget, b: RenderTarget) -> bool {
        &&& b.wrapper.resource == a.wrapper.resource
        &&& b.bitmap == a.bitmap
        &&& a.wrapper.acquires <= b.wrapper.acquires <= a.wrapper.acquires + 1
        &&& a.wrapper.releases <= b.wrapper.releases <= a.wrapper.releases + 1
    }

    /// This backend neither presents nor retries: the device's own result is
    /// the frame's result.
    open spec fn spec_end_result(ret: Result<(), Error>, present_status: u32) -> Result<
        (),
        Error,
    > {
        ret
    }

    /// Acquires the wrapped resource, transitioning it into a state the 2D
    /// renderer can write.
    fn begin_draw(&self, target: &mut RenderTarget) {
        target.wrapper.acquired = true;
        target.wrapper.acquires = target.wrapper.acquires + 1;
    }

    /// Releases the wrapped resource, then flushes the bridge device's
    /// pending work and clears its transient state, so later command-list
    /// submissions observe a consistent resource state.
    fn end_draw(
        &mut self,
        target: &mut RenderTarget,
        ret: Result<(), Error>,
        present_status: u32,
    ) -> (r: Result<(), Error>) {
        target.wrapper.acquired = false;
        target.wrapper.releases = target.wrapper.releases + 1;
        self.flushes = self.flushes.wrapping_add(1);
        self.state_clears = self.state_clears.wrapping_add(1);
        ret
    }
}

/// Begin/end pairing law: across one frame — a target made ready, taken
/// into a frame, then released — the wrapper is acquired exactly once and
/// released exactly once, the two counts stand equal afterwards, and the
/// wrapper is no longer held.
pub proof fn lemma_frame_brackets_balance(
    before: RenderTarget,
    during: RenderTarget,
    after: RenderTarget,
)
    requires
        Direct3D12::spec_ready(before),
        Direct3D12::spec_in_frame(during),
        Direct3D12::spec_same_surface(before, during),
        Direct3D12::spec_balanced(after),
        Direct3D12::spec_same_surface(during, after),
    ensures
        during.wrapper.acquires == before.wrapper.acquires + 1,
        during.wrapper.releases == before.wrapper.releases,
        after.wrapper.acquires == before.wrapper.acquires + 1,
        after.wrapper.releases == before.wrapper.releases + 1,
        after.wrapper.acquires == after.wrapper.releases,
        after.wrapper.resource == before.wrapper.resource,
{
}

impl Context<Direct3D12> {
    /// Wraps every buffer of a swap chain as its own render target, each
    /// with an independently wrapped resource, numbered upward from
    /// `first_resource`.
    pub fn create_render_target_from_swap_chain(
        &self,
        swap_chain: &SwapChain,
        first_resource: u64,
    ) -> (r: Result<Vec<RenderTarget>, Error>)
        requires
            first_resource + swap_chain.buffer_count <= u64::MAX,
        ensures
            r matches Ok(targets) && {
                &&& targets@.len() == swap_chain.buffer_count
                &&& forall|i: int| 0 <= i < targets@.len() ==> (#[trigger] targets@[i]).wrapper
                    == (InteropWrapper {
                    resource: (first_resource + i) as u64,
                    acquired: false,
                    acquires: 0,
                    releases: 0,
                })
                &&& forall|i: int, j: int|
                    0 <= i < j < targets@.len() ==> (#[trigger] targets@[i]).wrapper.resource != (
                    #[trigger] targets@[j]).wrapper.resource
                &&& forall|i: int| 0 <= i < targets@.len() ==> Direct3D12::spec_ready(
                    #[trigger] targets@[i],
                )
                &&& forall|i: int| 0 <= i < targets@.len() ==> (#[trigger] targets@[i]).bitmap
                    == (Bitmap { generation: 0, size: swap_chain.size })
            },
    {
        let mut targets: Vec<RenderTarget> = Vec::new();
        let mut i: u32 = 0;
        while i < swap_chain.buffer_count
            invariant
                i <= swap_chain.buffer_count,
                first_resource + swap_chain.buffer_count <= u64::MAX,
                targets@.len() == i,
                forall|k: int| 0 <= k < i ==> (#[trigger] targets@[k]).wrapper == (InteropWrapper {
                    resource: (first_resource + k) as u64,
                    acquired: false,
                    acquires: 0,
                    releases: 0,
                }),
                forall|k: int| 0 <= k < i ==> (#[trigger] targets@[k]).bitmap == (Bitmap {
                    generation: 0,
                    size: swap_chain.size,
                }),
            decreases swap_chain.buffer_count - i,
        {
            targets.push(
                RenderTarget {
                    wrapper: InteropWrapper {
                        resource: first_resource + i as u64,
                        acquired: false,
                        acquires: 0,
                        releases: 0,
                    },
                    bitmap: Bitmap { generation: 0, size: swap_chain.size },
                },
            );
            i += 1;
        }
        Ok(targets)
    }

    /// Wraps a caller-supplied texture as a render target; the texture must
    /// have been created with render-target capability.
    pub fn create_render_target(&self, texture: &TextureDesc) -> (r: Result<RenderTarget, Error>)
        requires
            texture.allows_render_target,
        ensures
            r matches Ok(t) && t.wrapper == (InteropWrapper {
                resource: texture.resource,
                acquired: false,
                acquires: 0,
                releases: 0,
            }) && t.bitmap == (Bitmap { generation: 0, size: texture.size })
                && Direct3D12::spec_ready(t),
    {
        Ok(
            RenderTarget {
                wrapper: InteropWrapper {
                    resource: texture.resource,
                    acquired: false,
                    acquires: 0,
                    releases: 0,
                },
                bitmap: Bitmap { generation: 0, size: texture.size },
            },
        )
    }

    /// Forces the bridge device to submit its pending work now.
    pub fn flush(&mut self)
        ensures
            final(self).device_context == old(self).device_context,
            final(self).backend.flushes == old(self).backend.flushes.wrapping_add(1),
            final(self).backend.state_clears == old(self).backend.state_clears,
    {
        self.backend.flushes = self.backend.flushes.wrapping_add(1);
    }
}

} // verus!
