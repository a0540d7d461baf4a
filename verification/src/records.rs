//! Models of the fixed-layout records exchanged with the kernel.
//!
//! Each struct here mirrors one kernel call record, holding its scalar fields
//! as plain values.  The pointer fields of the wire layout are deliberately
//! absent: a destination buffer travels beside its record as an owned
//! sequence, and the caller derives the (pointer, length) view only at the
//! call boundary, never keeping it past the call.  For every variable-length
//! array the record keeps the corresponding count field; before a fetch that
//! field carries the caller's capacity, after a call it carries the count the
//! kernel reported.

use vstd::prelude::*;

verus! {

/// A display mode descriptor.
#[derive(Clone, Copy)]
#[verifier::ext_equal]
pub struct ModeInfo {
    pub clock: u32,
    pub hdisplay: u16,
    pub hsync_start: u16,
    pub hsync_end: u16,
    pub htotal: u16,
    pub hskew: u16,
    pub vdisplay: u16,
    pub vsync_start: u16,
    pub vsync_end: u16,
    pub vtotal: u16,
    pub vscan: u16,
    pub vrefresh: u32,
    pub flags: u32,
    pub mode_type: u32,
    pub name: [u8; 32],
}

impl ModeInfo {
    /// The all-zero baseline record.
    pub fn zeroed() -> (r: ModeInfo)
        ensures
            r == ModeInfo::zero_spec(),
    {
        ModeInfo {
            clock: 0,
            hdisplay: 0,
            hsync_start: 0,
            hsync_end: 0,
            htotal: 0,
            hskew: 0,
            vdisplay: 0,
            vsync_start: 0,
            vsync_end: 0,
            vtotal: 0,
            vscan: 0,
            vrefresh: 0,
            flags: 0,
            mode_type: 0,
            name: [0u8; 32],
        }
    }

    /// The all-zero record, as a value.
    pub open spec fn zero_spec() -> ModeInfo {
        ModeInfo {
            clock: 0,
            hdisplay: 0,
            hsync_start: 0,
            hsync_end: 0,
            htotal: 0,
            hskew: 0,
            vdisplay: 0,
            vsync_start: 0,
            vsync_end: 0,
            vtotal: 0,
            vscan: 0,
            vrefresh: 0,
            flags: 0,
            mode_type: 0,
            name: vstd::array::spec_array_fill_for_copy_type(0u8),
        }
    }
}

/// Card resource enumeration record: four handle arrays and the size bounds.
#[derive(Clone, Copy)]
#[verifier::ext_equal]
pub struct CardRes {
    pub count_fbs: u32,
    pub count_crtcs: u32,
    pub count_connectors: u32,
    pub count_encoders: u32,
    pub min_width: u32,
    pub max_width: u32,
    pub min_height: u32,
    pub max_height: u32,
}

/// Plane resource enumeration record: one handle array.
#[derive(Clone, Copy)]
#[verifier::ext_equal]
pub struct PlaneRes {
    pub count_planes: u32,
}

/// Framebuffer record.
#[derive(Clone, Copy)]
#[verifier::ext_equal]
pub struct FbCmd {
    pub fb_id: u32,
    pub width: u32,
    pub height: u32,
    pub pitch: u32,
    pub bpp: u32,
    pub depth: u32,
    pub handle: u32,
}

/// Framebuffer record with per-plane handles and layout modifiers.
#[derive(Clone, Copy)]
#[verifier::ext_equal]
pub struct FbCmd2 {
    pub fb_id: u32,
    pub width: u32,
    pub height: u32,
    pub pixel_format: u32,
    pub flags: u32,
    pub handles: [u32; 4],
    pub pitches: [u32; 4],
    pub offsets: [u32; 4],
    pub modifier: [u64; 4],
}

/// One dirty rectangle.
#[derive(Clone, Copy)]
#[verifier::ext_equal]
pub struct ClipRect {
    pub x1: u16,
    pub y1: u16,
    pub x2: u16,
    pub y2: u16,
}

/// Framebuffer dirty notification record; the clip array travels beside it.
#[derive(Clone, Copy)]
#[verifier::ext_equal]
pub struct DirtyFbCmd {
    pub fb_id: u32,
    pub flags: u32,
    pub color: u32,
    pub num_clips: u32,
}

/// CRTC state record; the connector array travels beside it.
#[derive(Clone, Copy)]
#[verifier::ext_equal]
pub struct Crtc {
    pub count_connectors: u32,
    pub crtc_id: u32,
    pub fb_id: u32,
    pub x: u32,
    pub y: u32,
    pub gamma_size: u32,
    pub mode_valid: u32,
    pub mode: ModeInfo,
}

/// Gamma ramp record; the three channel arrays travel beside it.
#[derive(Clone, Copy)]
#[verifier::ext_equal]
pub struct CrtcLut {
    pub crtc_id: u32,
    pub gamma_size: u32,
}

/// Cursor state record.
#[derive(Clone, Copy)]
#[verifier::ext_equal]
pub struct Cursor {
    pub flags: u32,
    pub crtc_id: u32,
    pub x: i32,
    pub y: i32,
    pub width: u32,
    pub height: u32,
    pub handle: u32,
}

/// Cursor state record with a hotspot position.
#[derive(Clone, Copy)]
#[verifier::ext_equal]
pub struct Cursor2 {
    pub flags: u32,
    pub crtc_id: u32,
    pub x: i32,
    pub y: i32,
    pub width: u32,
    pub height: u32,
    pub handle: u32,
    pub hot_x: i32,
    pub hot_y: i32,
}

/// Connector record: three counts govern four arrays (identifier and value
/// buffers for properties share `count_props`).
#[derive(Clone, Copy)]
#[verifier::ext_equal]
pub struct GetConnector {
    pub count_modes: u32,
    pub count_props: u32,
    pub count_encoders: u32,
    pub encoder_id: u32,
    pub connector_id: u32,
    pub connector_type: u32,
    pub connector_type_id: u32,
    pub connection: u32,
    pub mm_width: u32,
    pub mm_height: u32,
    pub subpixel: u32,
}

/// Encoder record.
#[derive(Clone, Copy)]
#[verifier::ext_equal]
pub struct GetEncoder {
    pub encoder_id: u32,
    pub encoder_type: u32,
    pub crtc_id: u32,
    pub possible_crtcs: u32,
    pub possible_clones: u32,
}

/// Plane record: one format-type array.
#[derive(Clone, Copy)]
#[verifier::ext_equal]
pub struct GetPlane {
    pub plane_id: u32,
    pub crtc_id: u32,
    pub fb_id: u32,
    pub possible_crtcs: u32,
    pub gamma_size: u32,
    pub count_format_types: u32,
}

/// Plane state record.
#[derive(Clone, Copy)]
#[verifier::ext_equal]
pub struct SetPlane {
    pub plane_id: u32,
    pub crtc_id: u32,
    pub fb_id: u32,
    pub flags: u32,
    pub crtc_x: i32,
    pub crtc_y: i32,
    pub crtc_w: u32,
    pub crtc_h: u32,
    pub src_x: u32,
    pub src_y: u32,
    pub src_h: u32,
    pub src_w: u32,
}

/// Property record: two counts govern two independent arrays.
#[derive(Clone, Copy)]
#[verifier::ext_equal]
pub struct GetProperty {
    pub prop_id: u32,
    pub flags: u32,
    pub name: [u8; 32],
    pub count_values: u32,
    pub count_enum_blobs: u32,
}

/// One named value of an enumerated property.
#[derive(Clone, Copy)]
#[verifier::ext_equal]
pub struct PropertyEnum {
    pub value: u64,
    pub name: [u8; 32],
}

impl PropertyEnum {
    /// The all-zero baseline record.
    pub fn zeroed() -> (r: PropertyEnum)
        ensures
            r == PropertyEnum::zero_spec(),
    {
        PropertyEnum { value: 0, name: [0u8; 32] }
    }

    /// The all-zero record, as a value.
    pub open spec fn zero_spec() -> PropertyEnum {
        PropertyEnum { value: 0, name: vstd::array::spec_array_fill_for_copy_type(0u8) }
    }
}

/// Connector property update record.
#[derive(Clone, Copy)]
#[verifier::ext_equal]
pub struct ConnectorSetProperty {
    pub value: u64,
    pub prop_id: u32,
    pub connector_id: u32,
}

/// Property blob record: `length` governs one byte array.
#[derive(Clone, Copy)]
#[verifier::ext_equal]
pub struct GetBlob {
    pub blob_id: u32,
    pub length: u32,
}

/// Property blob creation record; the byte array travels beside it.
#[derive(Clone, Copy)]
#[verifier::ext_equal]
pub struct CreateBlob {
    pub length: u32,
    pub blob_id: u32,
}

/// Property blob destruction record.
#[derive(Clone, Copy)]
#[verifier::ext_equal]
pub struct DestroyBlob {
    pub blob_id: u32,
}

/// Object property enumeration record: one count governs the paired
/// identifier and value arrays.
#[derive(Clone, Copy)]
#[verifier::ext_equal]
pub struct ObjProperties {
    pub count_props: u32,
    pub obj_id: u32,
    pub obj_type: u32,
}

/// Object property update record.
#[derive(Clone, Copy)]
#[verifier::ext_equal]
pub struct ObjSetProperty {
    pub value: u64,
    pub prop_id: u32,
    pub obj_id: u32,
    pub obj_type: u32,
}

/// Page flip request record.
#[derive(Clone, Copy)]
#[verifier::ext_equal]
pub struct PageFlip {
    pub crtc_id: u32,
    pub fb_id: u32,
    pub flags: u32,
    pub sequence: u32,
    pub user_data: u64,
}

/// Atomic property update record; its four arrays travel beside it.
#[derive(Clone, Copy)]
#[verifier::ext_equal]
pub struct AtomicRequest {
    pub flags: u32,
    pub count_objs: u32,
    pub reserved: u64,
    pub user_data: u64,
}

/// Lease creation record; the leased object array travels beside it.
#[derive(Clone, Copy)]
#[verifier::ext_equal]
pub struct CreateLease {
    pub object_count: u32,
    pub flags: u32,
    pub lessee_id: u32,
    pub fd: u32,
}

/// Lessee enumeration record: one identifier array.
#[derive(Clone, Copy)]
#[verifier::ext_equal]
pub struct ListLessees {
    pub count_lessees: u32,
}

/// Leased object enumeration record: one handle array.
#[derive(Clone, Copy)]
#[verifier::ext_equal]
pub struct GetLeaseRec {
    pub count_objects: u32,
}

/// Lease revocation record.
#[derive(Clone, Copy)]
#[verifier::ext_equal]
pub struct RevokeLease {
    pub lessee_id: u32,
}

/// Scanout buffer creation record.
#[derive(Clone, Copy)]
#[verifier::ext_equal]
pub struct CreateDumb {
    pub height: u32,
    pub width: u32,
    pub bpp: u32,
    pub flags: u32,
    pub handle: u32,
    pub pitch: u32,
    pub size: u64,
}

/// Scanout buffer destruction record.
#[derive(Clone, Copy)]
#[verifier::ext_equal]
pub struct DestroyDumb {
    pub handle: u32,
}

/// Scanout buffer mapping record.
#[derive(Clone, Copy)]
#[verifier::ext_equal]
pub struct MapDumb {
    pub handle: u32,
    pub pad: u32,
    pub offset: u64,
}

} // verus!
