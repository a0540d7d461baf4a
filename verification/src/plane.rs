//! The plane calls: plane enumeration and the plane getter, each with one
//! kernel-owned array under the fetch protocol, and the fixed-size plane
//! setter.

use vstd::prelude::*;

use crate::fetch::{resized, single_on_reply, single_start, SingleCall, SingleStep};
use crate::records::{GetPlane, PlaneRes, SetPlane};

verus! {

// --------------------------------------------------------------------------
// get_plane_resources: the plane identifiers of the card.
// --------------------------------------------------------------------------
/// A plane enumeration fetch in flight.
pub struct PlaneResCall {
    pub core: SingleCall<u32>,
}

impl PlaneResCall {
    /// The record to hand to the kernel for the next fetch: `count_planes`
    /// carries the buffer's capacity.
    pub fn request(&self) -> (r: PlaneRes)
        ensures
            r.count_planes == self.core.size,
    {
        PlaneRes { count_planes: self.core.size }
    }
}

/// One step of the `get_plane_resources` session.
pub enum PlaneResStep {
    /// The call is complete; a given buffer's length equals the record's
    /// reported count.
    Done(PlaneRes, Option<Vec<u32>>),
    /// A fetch must be issued with `PlaneResCall::request`.
    Fetch(PlaneResCall),
}

/// The probe record of `get_plane_resources`: count zero and no
/// destination buffer, so the kernel only writes back its current count.
pub fn get_plane_resources() -> (r: PlaneRes)
    ensures
        r.count_planes == 0,
{
    PlaneRes { count_planes: 0 }
}

/// Absorb the kernel's answer to the probe.  With no buffer the probe is
/// the whole call — the buffer is untouched and no fetch is ever issued;
/// otherwise the buffer is sized to the probed count and a fetch is due.
pub fn plane_res_after_probe(reply: PlaneRes, planes: Option<Vec<u32>>) -> (r: PlaneResStep)
    ensures
        planes is None ==> r == PlaneResStep::Done(reply, planes),
        planes matches Some(p) ==> (r matches PlaneResStep::Fetch(c) && c.core.size
            == reply.count_planes
            && c.core.fill == 0u32
            && resized(p@, c.core.buf@, reply.count_planes as int, 0u32)),
{
    match planes {
        None => PlaneResStep::Done(reply, None),
        Some(p) => PlaneResStep::Fetch(
            PlaneResCall { core: single_start(reply.count_planes, p, 0u32) },
        ),
    }
}

/// Absorb the kernel's answer to a fetch.  The fetch is authoritative
/// exactly when the reported count equals the count the buffer was sized
/// to; then the buffer's length is the reported count — never a stale
/// length, never the capacity.  Otherwise the reported count becomes the
/// new sizing and the fetch must be reissued.
pub fn plane_res_on_fetch(call: PlaneResCall, reply: PlaneRes) -> (r: PlaneResStep)
    ensures
        reply.count_planes == call.core.size ==> (r matches PlaneResStep::Done(info, p) && info
            == reply
            && (p matches Some(pv) && resized(
            call.core.buf@,
            pv@,
            reply.count_planes as int,
            call.core.fill,
        ))),
        reply.count_planes != call.core.size ==> (r matches PlaneResStep::Fetch(c) && c.core.size
            == reply.count_planes
            && resized(call.core.buf@, c.core.buf@, reply.count_planes as int, call.core.fill)),
{
    match single_on_reply(call.core, reply.count_planes) {
        SingleStep::Done(buf) => PlaneResStep::Done(reply, Some(buf)),
        SingleStep::Fetch(c) => PlaneResStep::Fetch(PlaneResCall { core: c }),
    }
}

// --------------------------------------------------------------------------
// get_plane: one plane's description and its format-type array.
// --------------------------------------------------------------------------
/// A plane fetch in flight.
pub struct PlaneCall {
    pub plane_id: u32,
    pub core: SingleCall<u32>,
}

impl PlaneCall {
    /// The record to hand to the kernel for the next fetch:
    /// `count_format_types` carries the buffer's capacity.
    pub fn request(&self) -> (r: GetPlane)
        ensures
            r.plane_id == self.plane_id,
            r.count_format_types == self.core.size,
            r.crtc_id == 0 && r.fb_id == 0 && r.possible_crtcs == 0 && r.gamma_size == 0,
    {
        GetPlane {
            plane_id: self.plane_id,
            crtc_id: 0,
            fb_id: 0,
            possible_crtcs: 0,
            gamma_size: 0,
            count_format_types: self.core.size,
        }
    }
}

/// One step of the `get_plane` session.
pub enum PlaneStep {
    /// The call is complete; a given buffer's length equals the record's
    /// reported count.
    Done(GetPlane, Option<Vec<u32>>),
    /// A fetch must be issued with `PlaneCall::request`.
    Fetch(PlaneCall),
}

/// The probe record of `get_plane`: the plane's identifier and no
/// destination buffer, so the kernel only writes back its current count.
pub fn get_plane(plane_id: u32) -> (r: GetPlane)
    ensures
        r.plane_id == plane_id,
        r.crtc_id == 0,
        r.fb_id == 0,
        r.possible_crtcs == 0,
        r.gamma_size == 0,
        r.count_format_types == 0,
{
    GetPlane {
        plane_id,
        crtc_id: 0,
        fb_id: 0,
        possible_crtcs: 0,
        gamma_size: 0,
        count_format_types: 0,
    }
}

/// Absorb the kernel's answer to the probe.  With no buffer the probe is
/// the whole call; otherwise the buffer is sized to the probed count and a
/// fetch is due.
pub fn plane_after_probe(reply: GetPlane, formats: Option<Vec<u32>>) -> (r: PlaneStep)
    ensures
        formats is None ==> r == PlaneStep::Done(reply, formats),
        formats matches Some(f) ==> (r matches PlaneStep::Fetch(c) && c.plane_id == reply.plane_id
            && c.core.size == reply.count_format_types
            && c.core.fill == 0u32
            && resized(f@, c.core.buf@, reply.count_format_types as int, 0u32)),
{
    match formats {
        None => PlaneStep::Done(reply, None),
        Some(f) => PlaneStep::Fetch(
            PlaneCall {
                plane_id: reply.plane_id,
                core: single_start(reply.count_format_types, f, 0u32),
            },
        ),
    }
}

/// Absorb the kernel's answer to a fetch.  The fetch is authoritative
/// exactly when the reported count equals the count the buffer was sized
/// to; then the buffer's length is the reported count.  Otherwise the
/// reported count becomes the new sizing and the fetch must be reissued.
pub fn plane_on_fetch(call: PlaneCall, reply: GetPlane) -> (r: PlaneStep)
    ensures
        reply.count_format_types == call.core.size ==> (r matches PlaneStep::Done(info, f) && info
            == reply
            && (f matches Some(fv) && resized(
            call.core.buf@,
            fv@,
            reply.count_format_types as int,
            call.core.fill,
        ))),
        reply.count_format_types != call.core.size ==> (r matches PlaneStep::Fetch(c) && c.plane_id
            == call.plane_id
            && c.core.size == reply.count_format_types
            && resized(
            call.core.buf@,
            c.core.buf@,
            reply.count_format_types as int,
            call.core.fill,
        )),
{
    let PlaneCall { plane_id, core } = call;
    match single_on_reply(core, reply.count_format_types) {
        SingleStep::Done(buf) => PlaneStep::Done(reply, Some(buf)),
        SingleStep::Fetch(c) => PlaneStep::Fetch(PlaneCall { plane_id, core: c }),
    }
}

// --------------------------------------------------------------------------
// set_plane: fixed-size.
// --------------------------------------------------------------------------
/// Request record programming plane `plane_id`: scan out the `src_*`
/// window of `fb_id` (in 16.16 fixed point) into the `crtc_*` window of
/// CRTC `crtc_id`.
pub fn set_plane(
    plane_id: u32,
    crtc_id: u32,
    fb_id: u32,
    flags: u32,
    crtc_x: i32,
    crtc_y: i32,
    crtc_w: u32,
    crtc_h: u32,
    src_x: u32,
    src_y: u32,
    src_w: u32,
    src_h: u32,
) -> (r: SetPlane)
    ensures
        r.plane_id == plane_id,
        r.crtc_id == crtc_id,
        r.fb_id == fb_id,
        r.flags == flags,
        r.crtc_x == crtc_x,
        r.crtc_y == crtc_y,
        r.crtc_w == crtc_w,
        r.crtc_h == crtc_h,
        r.src_x == src_x,
        r.src_y == src_y,
        r.src_w == src_w,
        r.src_h == src_h,
{
    SetPlane {
        plane_id,
        crtc_id,
        fb_id,
        flags,
        crtc_x,
        crtc_y,
        crtc_w,
        crtc_h,
        src_x,
        src_y,
        src_h,
        src_w,
    }
}

} // verus!
