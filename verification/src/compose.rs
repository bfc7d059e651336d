//! Framebuffer and controller composition: binding a buffer to a
//! framebuffer id and a framebuffer to a controller and its connectors.
//!
//! Both operations are single kernel calls; the request values are built
//! and checked here, the calls themselves are issued by the surrounding
//! program. The legacy bind path below and the atomic property-commit
//! path are mutually exclusive mechanisms for the same outcome and must
//! not be interleaved against the same controller within one session
//! without re-snapshotting the registry.

use vstd::prelude::*;
use crate::buffer::IsBuffer;
use crate::mode::{info_encodes, Mode, ModeInfo};

verus! {

/// The add-framebuffer call's request and reply: the caller describes
/// the backing buffer, the kernel fills in the new framebuffer id.
#[derive(Debug, PartialEq, Eq)]
pub struct FramebufferRequest {
    pub fb_id: u32,
    pub width: u32,
    pub height: u32,
    pub pitch: u32,
    pub bpp: u32,
    pub depth: u32,
    pub handle: u32,
}

/// Derives the add-framebuffer request from anything with the buffer
/// capability: geometry, layout and handle are taken from the buffer,
/// the id field is left for the kernel to fill.
pub fn framebuffer_request<B: IsBuffer>(buffer: &B) -> (r: FramebufferRequest)
    ensures
        r.fb_id == 0,
        r.width == buffer.spec_size().0,
        r.height == buffer.spec_size().1,
        r.pitch == buffer.spec_stride(),
        r.bpp == buffer.spec_bpp(),
        r.depth == buffer.spec_depth(),
        r.handle == buffer.spec_handle(),
{
    let (width, height) = buffer.size();
    FramebufferRequest {
        fb_id: 0,
        width,
        height,
        pitch: buffer.stride(),
        bpp: buffer.bpp(),
        depth: buffer.depth(),
        handle: buffer.handle(),
    }
}

/// A framebuffer resource: the id the add-framebuffer call returned.
/// Removing it is the single remove-framebuffer call on that id.
#[derive(Debug, PartialEq, Eq)]
pub struct Framebuffer {
    pub id: u32,
}

impl Framebuffer {
    /// Records the framebuffer the kernel created for a request.
    pub fn from_reply(reply: &FramebufferRequest) -> (r: Framebuffer)
        ensures
            r.id == reply.fb_id,
    {
        Framebuffer { id: reply.fb_id }
    }
}

/// The set-controller call's request: controller id, framebuffer id, the
/// connectors to drive, the scanout position, and the timing mode — or
/// no mode, which clears the controller.
#[derive(Debug, PartialEq, Eq)]
pub struct ControllerRequest {
    pub crtc_id: u32,
    pub fb_id: u32,
    pub connectors: Vec<u32>,
    pub x: u32,
    pub y: u32,
    pub mode_valid: u32,
    pub mode: Option<ModeInfo>,
}

/// Builds the legacy (non-atomic) bind call: the controller scans the
/// framebuffer out to the given connectors under the given mode. Omitting
/// the mode clears the controller instead of setting it.
pub fn bind_request(
    controller: u32,
    framebuffer: u32,
    connectors: &Vec<u32>,
    position: (u32, u32),
    mode: Option<&Mode>,
) -> (r: ControllerRequest)
    ensures
        r.crtc_id == controller,
        r.fb_id == framebuffer,
        r.connectors@ == connectors@,
        r.x == position.0,
        r.y == position.1,
        mode matches Some(m) ==> r.mode_valid == 1 && (r.mode matches Some(info) && info_encodes(
            info,
            *m,
        )),
        mode is None ==> r.mode_valid == 0 && r.mode is None,
{
    let (mode_valid, info) = match mode {
        Some(m) => (1u32, Some(m.to_info())),
        None => (0u32, None),
    };
    ControllerRequest {
        crtc_id: controller,
        fb_id: framebuffer,
        connectors: copy_ids(connectors),
        x: position.0,
        y: position.1,
        mode_valid,
        mode: info,
    }
}

/// Copies an id list, element for element.
pub fn copy_ids(v: &Vec<u32>) -> (r: Vec<u32>)
    ensures
        r@ == v@,
{
    let mut out: Vec<u32> = Vec::new();
    let mut i: usize = 0;
    while i < v.len()
        invariant
            i <= v@.len(),
            out@ == v@.take(i as int),
        decreases v@.len() - i,
    {
        out.push(v[i]);
        proof {
            assert(out@ =~= v@.take(i + 1int));
        }
        i = i + 1;
    }
    proof {
        assert(out@ =~= v@);
    }
    out
}

} // verus!
