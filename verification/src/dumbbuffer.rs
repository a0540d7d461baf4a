//! Builders for the scanout ("dumb") buffer call records: plain,
//! driver-independent allocations usable for scanout only, not rendering.

use vstd::prelude::*;

use crate::records::{CreateDumb, DestroyDumb, MapDumb};

verus! {

/// Request record allocating a scanout buffer of `width` x `height` pixels
/// at `bpp` bits per pixel.  The kernel writes the allocated handle, the
/// computed row pitch and the byte size into the zeroed fields.
pub fn create(width: u32, height: u32, bpp: u32, flags: u32) -> (r: CreateDumb)
    ensures
        r.width == width,
        r.height == height,
        r.bpp == bpp,
        r.flags == flags,
        r.handle == 0,
        r.pitch == 0,
        r.size == 0,
{
    CreateDumb { height, width, bpp, flags, handle: 0, pitch: 0, size: 0 }
}

/// Request record freeing the scanout buffer behind `handle`.
pub fn destroy(handle: u32) -> (r: DestroyDumb)
    ensures
        r.handle == handle,
{
    DestroyDumb { handle }
}

/// Request record preparing the scanout buffer behind `handle` for a memory
/// mapping; the kernel overwrites `offset` with the mappable offset.
pub fn map(handle: u32, pad: u32, offset: u64) -> (r: MapDumb)
    ensures
        r.handle == handle,
        r.pad == pad,
        r.offset == offset,
{
    MapDumb { handle, pad, offset }
}

} // verus!
