//! Builders for the framebuffer call records.
//!
//! Each function packs one call's semantic arguments into its fixed-layout
//! record, with every unreferenced field zero so the kernel sees a fully
//! defined baseline.  The caller hands the record to the kernel and reads the
//! kernel's answers out of the record it gets back.

use vstd::prelude::*;

use crate::records::{ClipRect, DirtyFbCmd, FbCmd, FbCmd2};

verus! {

/// Request record asking for the description of framebuffer `fb_id`.
pub fn get_framebuffer(fb_id: u32) -> (r: FbCmd)
    ensures
        r.fb_id == fb_id,
        r.width == 0,
        r.height == 0,
        r.pitch == 0,
        r.bpp == 0,
        r.depth == 0,
        r.handle == 0,
{
    FbCmd { fb_id, width: 0, height: 0, pitch: 0, bpp: 0, depth: 0, handle: 0 }
}

/// Request record registering a new framebuffer over the buffer `handle`.
/// The kernel writes the allocated identifier into `fb_id`, which starts 0.
pub fn add_fb(width: u32, height: u32, pitch: u32, bpp: u32, depth: u32, handle: u32) -> (r:
    FbCmd)
    ensures
        r.fb_id == 0,
        r.width == width,
        r.height == height,
        r.pitch == pitch,
        r.bpp == bpp,
        r.depth == depth,
        r.handle == handle,
{
    FbCmd { fb_id: 0, width, height, pitch, bpp, depth, handle }
}

/// Request record asking for the description of framebuffer `fb_id`,
/// including per-plane handles and layout modifiers.
pub fn get_framebuffer2(fb_id: u32) -> (r: FbCmd2)
    ensures
        r.fb_id == fb_id,
        r.width == 0,
        r.height == 0,
        r.pixel_format == 0,
        r.flags == 0,
        forall|i: int| 0 <= i < 4 ==> r.handles@[i] == 0u32,
        forall|i: int| 0 <= i < 4 ==> r.pitches@[i] == 0u32,
        forall|i: int| 0 <= i < 4 ==> r.offsets@[i] == 0u32,
        forall|i: int| 0 <= i < 4 ==> r.modifier@[i] == 0u64,
{
    FbCmd2 {
        fb_id,
        width: 0,
        height: 0,
        pixel_format: 0,
        flags: 0,
        handles: [0u32; 4],
        pitches: [0u32; 4],
        offsets: [0u32; 4],
        modifier: [0u64; 4],
    }
}

/// Request record registering a new multi-plane framebuffer.  The kernel
/// writes the allocated identifier into `fb_id`, which starts 0.
pub fn add_fb2(
    width: u32,
    height: u32,
    fmt: u32,
    handles: &[u32; 4],
    pitches: &[u32; 4],
    offsets: &[u32; 4],
    modifier: &[u64; 4],
    flags: u32,
) -> (r: FbCmd2)
    ensures
        r.fb_id == 0,
        r.width == width,
        r.height == height,
        r.pixel_format == fmt,
        r.flags == flags,
        r.handles == *handles,
        r.pitches == *pitches,
        r.offsets == *offsets,
        r.modifier == *modifier,
{
    FbCmd2 {
        fb_id: 0,
        width,
        height,
        pixel_format: fmt,
        flags,
        handles: *handles,
        pitches: *pitches,
        offsets: *offsets,
        modifier: *modifier,
    }
}

/// The removal call's record is the bare framebuffer identifier.
pub fn rm_fb(id: u32) -> (r: u32)
    ensures
        r == id,
{
    id
}

/// Request record marking framebuffer `fb_id` dirty; the clip rectangles
/// travel beside the record, which carries their number.
pub fn dirty_fb(fb_id: u32, clips: &Vec<ClipRect>) -> (r: DirtyFbCmd)
    requires
        clips@.len() <= u32::MAX,
    ensures
        r.fb_id == fb_id,
        r.flags == 0,
        r.color == 0,
        r.num_clips == clips@.len(),
{
    DirtyFbCmd { fb_id, flags: 0, color: 0, num_clips: clips.len() as u32 }
}

} // verus!
