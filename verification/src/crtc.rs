//! Builders for the CRTC call records: state get/set, gamma ramps, the
//! legacy cursor calls, page flips and atomic commits.

use vstd::prelude::*;

use crate::records::{AtomicRequest, Crtc, CrtcLut, Cursor, Cursor2, ModeInfo, PageFlip};

verus! {

/// Cursor call flag selecting the "install buffer" operation.
pub const CURSOR_FLAG_BO: u32 = 1;

/// Cursor call flag selecting the "move" operation.
pub const CURSOR_FLAG_MOVE: u32 = 2;

/// Request record asking for the state of CRTC `crtc_id`.
pub fn get_crtc(crtc_id: u32) -> (r: Crtc)
    ensures
        r.crtc_id == crtc_id,
        r.count_connectors == 0,
        r.fb_id == 0,
        r.x == 0,
        r.y == 0,
        r.gamma_size == 0,
        r.mode_valid == 0,
        r.mode == ModeInfo::zero_spec(),
{
    Crtc {
        count_connectors: 0,
        crtc_id,
        fb_id: 0,
        x: 0,
        y: 0,
        gamma_size: 0,
        mode_valid: 0,
        mode: ModeInfo::zeroed(),
    }
}

/// Request record programming CRTC `crtc_id`: scan out `fb_id` from position
/// `(x, y)`, attach the connectors travelling beside the record, and switch
/// to `mode` if one is given (`mode_valid` says whether one is).
pub fn set_crtc(crtc_id: u32, fb_id: u32, x: u32, y: u32, conns: &Vec<u32>, mode: Option<
    ModeInfo,
>) -> (r: Crtc)
    requires
        conns@.len() <= u32::MAX,
    ensures
        r.crtc_id == crtc_id,
        r.fb_id == fb_id,
        r.x == x,
        r.y == y,
        r.count_connectors == conns@.len(),
        r.gamma_size == 0,
        r.mode_valid == (if mode is Some { 1u32 } else { 0u32 }),
        (mode matches Some(m) ==> r.mode == m),
        mode is None ==> r.mode == ModeInfo::zero_spec(),
{
    let (mode_valid, mode_rec) = match mode {
        Some(m) => (1u32, m),
        None => (0u32, ModeInfo::zeroed()),
    };
    Crtc {
        count_connectors: conns.len() as u32,
        crtc_id,
        fb_id,
        x,
        y,
        gamma_size: 0,
        mode_valid,
        mode: mode_rec,
    }
}

/// Request record reading the gamma ramp of CRTC `crtc_id`; the three
/// channel arrays, each of `size` entries, travel beside the record.
pub fn get_gamma(crtc_id: u32, size: usize) -> (r: CrtcLut)
    requires
        size <= u32::MAX,
    ensures
        r.crtc_id == crtc_id,
        r.gamma_size == size,
{
    CrtcLut { crtc_id, gamma_size: size as u32 }
}

/// Request record writing the gamma ramp of CRTC `crtc_id`; the three
/// channel arrays, each of `size` entries, travel beside the record.
pub fn set_gamma(crtc_id: u32, size: usize) -> (r: CrtcLut)
    requires
        size <= u32::MAX,
    ensures
        r.crtc_id == crtc_id,
        r.gamma_size == size,
{
    CrtcLut { crtc_id, gamma_size: size as u32 }
}

/// Request record installing buffer `buf_id` as the cursor of CRTC
/// `crtc_id`.  Retained for compatibility with existing consumers; new ones
/// should place a cursor plane instead.
pub fn set_cursor(crtc_id: u32, buf_id: u32, width: u32, height: u32) -> (r: Cursor)
    ensures
        r.flags == CURSOR_FLAG_BO,
        r.crtc_id == crtc_id,
        r.handle == buf_id,
        r.width == width,
        r.height == height,
        r.x == 0,
        r.y == 0,
{
    Cursor { flags: CURSOR_FLAG_BO, crtc_id, x: 0, y: 0, width, height, handle: buf_id }
}

/// Request record installing buffer `buf_id` as the cursor of CRTC
/// `crtc_id`, with the hotspot position used to align guest and host
/// cursors under virtualization.  Retained for compatibility; new consumers
/// should place a cursor plane instead.
pub fn set_cursor2(
    crtc_id: u32,
    buf_id: u32,
    width: u32,
    height: u32,
    hot_x: i32,
    hot_y: i32,
) -> (r: Cursor2)
    ensures
        r.flags == CURSOR_FLAG_BO,
        r.crtc_id == crtc_id,
        r.handle == buf_id,
        r.width == width,
        r.height == height,
        r.hot_x == hot_x,
        r.hot_y == hot_y,
        r.x == 0,
        r.y == 0,
{
    Cursor2 {
        flags: CURSOR_FLAG_BO,
        crtc_id,
        x: 0,
        y: 0,
        width,
        height,
        handle: buf_id,
        hot_x,
        hot_y,
    }
}

/// Request record moving the cursor of CRTC `crtc_id` to `(x, y)`.
/// Retained for compatibility; new consumers should move a cursor plane.
pub fn move_cursor(crtc_id: u32, x: i32, y: i32) -> (r: Cursor)
    ensures
        r.flags == CURSOR_FLAG_MOVE,
        r.crtc_id == crtc_id,
        r.x == x,
        r.y == y,
        r.width == 0,
        r.height == 0,
        r.handle == 0,
{
    Cursor { flags: CURSOR_FLAG_MOVE, crtc_id, x, y, width: 0, height: 0, handle: 0 }
}

/// Request record scheduling a page flip of CRTC `crtc_id` to `fb_id`.  The
/// `sequence` rides in the record's spare target field, and the CRTC
/// identifier doubles as the completion event's user data, as the interface
/// expects.
pub fn page_flip(crtc_id: u32, fb_id: u32, flags: u32, sequence: u32) -> (r: PageFlip)
    ensures
        r.crtc_id == crtc_id,
        r.fb_id == fb_id,
        r.flags == flags,
        r.sequence == sequence,
        r.user_data == crtc_id,
{
    PageFlip { crtc_id, fb_id, flags, sequence, user_data: crtc_id as u64 }
}

/// Request record for an atomic property commit over `objs` objects; the
/// object, per-object property count, property and value arrays travel
/// beside the record.
pub fn atomic_commit(flags: u32, objs: &Vec<u32>) -> (r: AtomicRequest)
    requires
        objs@.len() <= u32::MAX,
    ensures
        r.flags == flags,
        r.count_objs == objs@.len(),
        r.reserved == 0,
        r.user_data == 0,
{
    AtomicRequest { flags, count_objs: objs.len() as u32, reserved: 0, user_data: 0 }
}

} // verus!
