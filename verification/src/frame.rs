//! The per-frame procedure: the shared bindings of a frame, the
//! traversal of every renderer, the resize rule, and the classification
//! of per-frame surface faults.

use crate::dispatch::model_commands;
use crate::dispatch::BindGroupRef;
use crate::dispatch::DrawModel;
use crate::dispatch::RecordedPass;
use crate::renderer::ModelRenderer;
use vstd::prelude::*;

verus! {

/// The pixel extent the surface is currently configured with.
#[derive(Clone, Copy, PartialEq, Eq, Structural, Debug)]
pub struct SurfaceExtent {
    pub width: u32,
    pub height: u32,
}

/// A fault reported while acquiring or presenting a frame.
#[derive(Clone, Copy, PartialEq, Eq, Structural, Debug)]
pub enum SurfaceFault {
    /// The surface was lost and must be rebuilt.
    Lost,
    /// The surface no longer matches the window; the next frame self-heals.
    Outdated,
    /// Acquiring a frame took too long; the next frame self-heals.
    Timeout,
    /// The device is out of memory.
    OutOfMemory,
}

/// What the frame driver does about a [`SurfaceFault`].
#[derive(Clone, Copy, PartialEq, Eq, Structural, Debug)]
pub enum FrameAction {
    /// Reconfigure the surface and depth target with the last known size.
    Reconfigure,
    /// Log the fault and skip this frame.
    SkipFrame,
    /// Terminate: the fault is fatal at the process level.
    Exit,
}

impl SurfaceExtent {
    /// Apply a resize request. A request with a zero width or height is
    /// ignored; otherwise the extent takes the new size. Returns whether
    /// the surface must be reconfigured.
    pub fn apply_resize(&mut self, new_width: u32, new_height: u32) -> (changed: bool)
        ensures
            changed <==> (new_width > 0 && new_height > 0),
            changed ==> *final(self) == (SurfaceExtent { width: new_width, height: new_height }),
            !changed ==> *final(self) == *old(self),
    {
        if new_width > 0 && new_height > 0 {
            self.width = new_width;
            self.height = new_height;
            true
        } else {
            false
        }
    }
}

/// The bind groups shared by every draw of a frame, in the fixed order
/// the slot assignment relies on: camera, then light.
pub fn frame_shared_bind_groups() -> (r: Vec<BindGroupRef>)
    ensures
        r@ == seq![BindGroupRef::Camera, BindGroupRef::Light],
{
    let r = vec![BindGroupRef::Camera, BindGroupRef::Light];
    proof {
        assert(r@ =~= seq![BindGroupRef::Camera, BindGroupRef::Light]);
    }
    r
}

/// Record one frame: traverse every renderer, in order, against one
/// shared camera-and-light binding, producing each renderer's command
/// sequence. Element `i` of the result is exactly what drawing
/// renderer `i` records into the frame's one render pass.
pub fn record_frame(renderers: &Vec<ModelRenderer>, bind_groups: &Vec<BindGroupRef>) -> (r: Vec<
    RecordedPass,
>)
    requires
        forall|i: int| 0 <= i < renderers@.len() ==> (#[trigger] renderers@[i]).wf(),
        bind_groups@.len() + 1 <= u32::MAX,
    ensures
        r@.len() == renderers@.len(),
        forall|i: int|
            0 <= i < renderers@.len() ==> (#[trigger] r@[i]).commands@ == model_commands(
                renderers@[i],
                bind_groups@,
            ),
{
    let mut r: Vec<RecordedPass> = Vec::new();
    let mut i: usize = 0;
    while i < renderers.len()
        invariant
            0 <= i <= renderers@.len(),
            forall|t: int| 0 <= t < renderers@.len() ==> (#[trigger] renderers@[t]).wf(),
            bind_groups@.len() + 1 <= u32::MAX,
            r@.len() == i,
            forall|t: int|
                0 <= t < i ==> (#[trigger] r@[t]).commands@ == model_commands(
                    renderers@[t],
                    bind_groups@,
                ),
        decreases renderers@.len() - i,
    {
        let mut pass = RecordedPass::new();
        pass.draw_model(&renderers[i], bind_groups);
        r.push(pass);
        i = i + 1;
    }
    r
}

/// Classify a per-frame fault: a lost surface is reconfigured with the
/// last known size, memory exhaustion ends the process, and everything
/// else is logged and skipped.
pub fn classify_render_fault(fault: SurfaceFault) -> (action: FrameAction)
    ensures
        fault == SurfaceFault::Lost ==> action == FrameAction::Reconfigure,
        fault == SurfaceFault::OutOfMemory ==> action == FrameAction::Exit,
        (fault == SurfaceFault::Outdated || fault == SurfaceFault::Timeout)
            ==> action == FrameAction::SkipFrame,
{
    match fault {
        SurfaceFault::Lost => FrameAction::Reconfigure,
        SurfaceFault::OutOfMemory => FrameAction::Exit,
        SurfaceFault::Outdated => FrameAction::SkipFrame,
        SurfaceFault::Timeout => FrameAction::SkipFrame,
    }
}

} // verus!
