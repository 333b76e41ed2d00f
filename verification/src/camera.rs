//! Camera input handling and the camera's render-side uniform.
//!
//! The view-projection matrix itself is floating-point work the host
//! performs; the render side receives it as an opaque block of matrix
//! bits and stages it like any other buffer.  Keyboard state is folded
//! into a direction set here, while the vector math that moves the eye
//! stays with the host.

use vstd::prelude::*;

use crate::buffer::{spec_empty_buffer, spec_write, GpuBuffer};
use crate::bind_group::BindGroupKey;

verus! {

/// The camera uniform: a four-by-four view-projection matrix, row by row,
/// each entry the bit pattern of a 32-bit float.  Recomputed from the
/// simulation camera every extraction and never mutated in place.
#[derive(Clone, Copy, Debug, PartialEq)]
pub struct CameraUniform {
    pub view_proj: [u32; 16],
}

/// The set of directions a camera move asks for.
#[derive(Clone, Copy, Debug, PartialEq, Eq, Structural)]
pub struct CameraDirection {
    pub forward: bool,
    pub backward: bool,
    pub left: bool,
    pub right: bool,
    pub up: bool,
    pub down: bool,
}

impl CameraDirection {
    /// The empty direction set.
    pub open spec fn spec_none() -> CameraDirection {
        CameraDirection {
            forward: false,
            backward: false,
            left: false,
            right: false,
            up: false,
            down: false,
        }
    }

    /// The empty direction set.
    pub fn none() -> (d: CameraDirection)
        ensures
            d == CameraDirection::spec_none(),
    {
        CameraDirection {
            forward: false,
            backward: false,
            left: false,
            right: false,
            up: false,
            down: false,
        }
    }
}

/// A camera event raised by input handling.
#[derive(Clone, Copy, Debug, PartialEq, Eq, Structural)]
pub enum CameraEvent {
    /// Move the camera in every direction the set names.
    MoveCamera(CameraDirection),
}

/// Fold one frame's key state into a camera event: W, S, A and D map to
/// forward, backward, left and right, and an event is raised exactly when
/// at least one of them is down.
pub fn handle_camera_input(w_down: bool, s_down: bool, a_down: bool, d_down: bool) -> (r: Option<
    CameraEvent,
>)
    ensures
        r is Some <==> (w_down || s_down || a_down || d_down),
        r is Some ==> r->0 == CameraEvent::MoveCamera(
            CameraDirection {
                forward: w_down,
                backward: s_down,
                left: a_down,
                right: d_down,
                up: false,
                down: false,
            },
        ),
{
    let direction = CameraDirection {
        forward: w_down,
        backward: s_down,
        left: a_down,
        right: d_down,
        up: false,
        down: false,
    };
    if direction == CameraDirection::none() {
        None
    } else {
        Some(CameraEvent::MoveCamera(direction))
    }
}

/// The render-side camera buffer: the staged uniform, and whether its
/// bind-group layout and bind group have been initialized.
pub struct CameraBuffer {
    pub buf: GpuBuffer<CameraUniform>,
    pub layout_ready: bool,
    pub bind_group_ready: bool,
}

impl CameraBuffer {
    /// A fresh camera buffer: nothing staged, nothing initialized.
    pub fn new() -> (c: Self)
        ensures
            c.buf@ == spec_empty_buffer::<CameraUniform>(),
            !c.layout_ready,
            !c.bind_group_ready,
    {
        CameraBuffer { buf: GpuBuffer::new(), layout_ready: false, bind_group_ready: false }
    }

    /// Record that the host created the camera bind-group layout.
    pub fn init_bind_group_layout(&mut self)
        ensures
            final(self).layout_ready,
            final(self).bind_group_ready == old(self).bind_group_ready,
            final(self).buf == old(self).buf,
    {
        self.layout_ready = true;
    }

    /// Build the camera bind group if its layout exists: reports whether
    /// it did.  Without the layout nothing changes and the next frame
    /// retries.
    pub fn try_init_bind_group(&mut self) -> (built: bool)
        ensures
            built == old(self).layout_ready,
            final(self).layout_ready == old(self).layout_ready,
            final(self).bind_group_ready == (old(self).bind_group_ready || old(self).layout_ready),
            final(self).buf == old(self).buf,
    {
        if self.layout_ready {
            self.bind_group_ready = true;
            true
        } else {
            false
        }
    }
}

/// Replace the staged camera uniform with this frame's view-projection
/// matrix: the staging holds exactly the one fresh uniform, marked
/// changed for the next upload.
pub fn extract_camera(camera_buffer: &mut CameraBuffer, uniform: CameraUniform)
    ensures
        final(camera_buffer).buf@ == spec_write(old(camera_buffer).buf@, seq![uniform]),
        final(camera_buffer).layout_ready == old(camera_buffer).layout_ready,
        final(camera_buffer).bind_group_ready == old(camera_buffer).bind_group_ready,
{
    let mut contents: Vec<CameraUniform> = Vec::new();
    contents.push(uniform);
    proof {
        assert(contents@ =~= seq![uniform]);
    }
    camera_buffer.buf.write(contents);
}

/// The identity the camera bind group is cached under: the camera layout
/// binding the camera uniform buffer alone.
pub fn camera_bind_group_key(layout: u64, camera_buffer_id: u64) -> (k: BindGroupKey)
    ensures
        k@.layout == layout,
        k@.resources =~= seq![camera_buffer_id],
{
    let mut resources: Vec<u64> = Vec::new();
    resources.push(camera_buffer_id);
    BindGroupKey { layout, resources }
}

} // verus!
