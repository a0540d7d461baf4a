//! The property calls.
//!
//! `get_property` retrieves a property's descriptor with its two independent
//! arrays (plain values, and named enumeration entries or blob descriptors)
//! under the fetch protocol.  `get_properties` enumerates the properties of
//! an arbitrary object, keyed by (object, object type); its two destination
//! buffers (identifiers and values) share one count and must be requested
//! together — one without the other is a usage error reported before any
//! kernel call.  `get_property_blob` retrieves a blob's bytes.  The blob
//! create/destroy calls and the object property setter are fixed-size.

use vstd::prelude::*;

use crate::error::Error;
use crate::fetch::{resize_to, resized, single_on_reply, single_start, SingleCall, SingleStep};
use crate::records::{
    CreateBlob, DestroyBlob, GetBlob, GetProperty, ObjProperties, ObjSetProperty, PropertyEnum,
};

verus! {

// --------------------------------------------------------------------------
// get_property: one property's values and enumeration entries.
// --------------------------------------------------------------------------
/// The destination buffers of `get_property`; the two arrays are
/// independent, each may be declined alone.
pub struct PropertyBuffers {
    pub values: Option<Vec<u64>>,
    pub enums: Option<Vec<PropertyEnum>>,
}

impl PropertyBuffers {
    /// At least one array is wanted.
    pub open spec fn any_present(self) -> bool {
        self.values is Some || self.enums is Some
    }

    /// `self` is `prev` with the value buffer resized to `count_values` and
    /// the enumeration buffer to `count_enum_blobs`, new slots zeroed,
    /// presence unchanged.
    pub open spec fn prepared_from(self, prev: PropertyBuffers, c: GetProperty) -> bool {
        &&& (match (prev.values, self.values) {
            (Some(a), Some(b)) => resized(a@, b@, c.count_values as int, 0u64),
            (None, None) => true,
            _ => false,
        })
        &&& (match (prev.enums, self.enums) {
            (Some(a), Some(b)) => resized(
                a@,
                b@,
                c.count_enum_blobs as int,
                PropertyEnum::zero_spec(),
            ),
            (None, None) => true,
            _ => false,
        })
    }

    /// Resize every present buffer to the counts of `c`.
    fn prepare(self, c: &GetProperty) -> (r: PropertyBuffers)
        ensures
            r.prepared_from(self, *c),
    {
        let PropertyBuffers { values, enums } = self;
        let values = match values {
            Some(mut v) => {
                resize_to(&mut v, c.count_values as usize, 0u64);
                Some(v)
            },
            None => None,
        };
        let enums = match enums {
            Some(mut v) => {
                resize_to(&mut v, c.count_enum_blobs as usize, PropertyEnum::zeroed());
                Some(v)
            },
            None => None,
        };
        PropertyBuffers { values, enums }
    }
}

/// The probed counts of a property record match the reported ones: the
/// joint convergence condition of `get_property`.
pub open spec fn property_counts_stable(sized_to: GetProperty, reported: GetProperty) -> bool {
    &&& sized_to.count_values == reported.count_values
    &&& sized_to.count_enum_blobs == reported.count_enum_blobs
}

/// The count vector of `get_property`, in the order the convergence model
/// sees it.
pub open spec fn property_counts(r: GetProperty) -> Seq<u32> {
    seq![r.count_values, r.count_enum_blobs]
}

/// `get_property` instantiates the generic fetch protocol: its convergence
/// condition is exactly `fetch::counts_stable` on its count vectors, so the
/// convergence theorem of `fetch` applies to its sessions.
pub proof fn lemma_property_counts_stable(a: GetProperty, b: GetProperty)
    ensures
        property_counts_stable(a, b) == crate::fetch::counts_stable(
            property_counts(a),
            property_counts(b),
        ),
{
    if property_counts_stable(a, b) {
        assert(property_counts(a) =~= property_counts(b));
    }
    if crate::fetch::counts_stable(property_counts(a), property_counts(b)) {
        assert(property_counts(a)[0] == property_counts(b)[0]);
        assert(property_counts(a)[1] == property_counts(b)[1]);
    }
}

/// A property fetch in flight.
pub struct PropertyCall {
    pub sizes: GetProperty,
    pub bufs: PropertyBuffers,
}

impl PropertyCall {
    /// The record to hand to the kernel for the next fetch: each wanted
    /// array's count field carries the buffer's capacity, each declined
    /// array's stays 0.
    pub fn request(&self) -> (r: GetProperty)
        ensures
            r.prop_id == self.sizes.prop_id,
            r.count_values == (if self.bufs.values is Some {
                self.sizes.count_values
            } else {
                0u32
            }),
            r.count_enum_blobs == (if self.bufs.enums is Some {
                self.sizes.count_enum_blobs
            } else {
                0u32
            }),
            r.flags == 0,
            forall|i: int| 0 <= i < 32 ==> r.name@[i] == 0u8,
    {
        GetProperty {
            prop_id: self.sizes.prop_id,
            flags: 0,
            name: [0u8; 32],
            count_values: if self.bufs.values.is_some() {
                self.sizes.count_values
            } else {
                0
            },
            count_enum_blobs: if self.bufs.enums.is_some() {
                self.sizes.count_enum_blobs
            } else {
                0
            },
        }
    }
}

/// One step of the `get_property` session.
pub enum PropertyStep {
    /// The call is complete: the authoritative record and the buffers, each
    /// present one's length equal to the record's count for it.
    Done(GetProperty, PropertyBuffers),
    /// A fetch must be issued with `PropertyCall::request`.
    Fetch(PropertyCall),
}

/// The probe record of `get_property`: the property's identifier and no
/// destination buffers, so the kernel only writes back its current counts.
pub fn get_property(prop_id: u32) -> (r: GetProperty)
    ensures
        r.prop_id == prop_id,
        r.flags == 0,
        r.count_values == 0,
        r.count_enum_blobs == 0,
        forall|i: int| 0 <= i < 32 ==> r.name@[i] == 0u8,
{
    GetProperty { prop_id, flags: 0, name: [0u8; 32], count_values: 0, count_enum_blobs: 0 }
}

/// Absorb the kernel's answer to the probe.  With no buffer present the
/// probe is the whole call; otherwise the buffers are sized to the probed
/// counts and a fetch is due.
pub fn property_after_probe(reply: GetProperty, bufs: PropertyBuffers) -> (r: PropertyStep)
    ensures
        !bufs.any_present() ==> r == PropertyStep::Done(reply, bufs),
        bufs.any_present() ==> (r matches PropertyStep::Fetch(c) && c.sizes == reply
            && c.bufs.prepared_from(bufs, reply)),
{
    let any = bufs.values.is_some() || bufs.enums.is_some();
    if !any {
        PropertyStep::Done(reply, bufs)
    } else {
        let prepared = bufs.prepare(&reply);
        PropertyStep::Fetch(PropertyCall { sizes: reply, bufs: prepared })
    }
}

/// Absorb the kernel's answer to a fetch.  The fetch is authoritative
/// exactly when both reported counts equal the counts the buffers were
/// sized to; then every present buffer's length is the reported count.
/// Otherwise the reported counts become the new sizing and the fetch must
/// be reissued.
pub fn property_on_fetch(call: PropertyCall, reply: GetProperty) -> (r: PropertyStep)
    ensures
        property_counts_stable(call.sizes, reply) ==> (r matches PropertyStep::Done(info, bufs)
            && info == reply
            && bufs.prepared_from(call.bufs, reply)),
        !property_counts_stable(call.sizes, reply) ==> (r matches PropertyStep::Fetch(c)
            && c.sizes == reply
            && c.bufs.prepared_from(call.bufs, reply)),
{
    let PropertyCall { sizes, bufs } = call;
    let prepared = bufs.prepare(&reply);
    let stable = sizes.count_values == reply.count_values && sizes.count_enum_blobs
        == reply.count_enum_blobs;
    if stable {
        PropertyStep::Done(reply, prepared)
    } else {
        PropertyStep::Fetch(PropertyCall { sizes: reply, bufs: prepared })
    }
}

// --------------------------------------------------------------------------
// get_properties: the properties of one object, paired buffers.
// --------------------------------------------------------------------------
/// The probed count of an object property record matches the reported one:
/// the convergence condition of `get_properties`.
pub open spec fn obj_props_counts_stable(sized_to: ObjProperties, reported: ObjProperties) -> bool {
    sized_to.count_props == reported.count_props
}

/// An object property call about to probe.
pub struct ObjPropertiesProbe {
    pub request: ObjProperties,
    pub props: Option<Vec<u32>>,
    pub values: Option<Vec<u64>>,
}

/// An object property fetch in flight; by construction the two buffers are
/// present together or the session ended at the probe.
pub struct ObjPropertiesCall {
    pub sizes: ObjProperties,
    pub props: Vec<u32>,
    pub values: Vec<u64>,
}

impl ObjPropertiesCall {
    /// The record to hand to the kernel for the next fetch: the shared
    /// count field carries the buffers' capacity.
    pub fn request(&self) -> (r: ObjProperties)
        ensures
            r.obj_id == self.sizes.obj_id,
            r.obj_type == self.sizes.obj_type,
            r.count_props == self.sizes.count_props,
    {
        ObjProperties {
            count_props: self.sizes.count_props,
            obj_id: self.sizes.obj_id,
            obj_type: self.sizes.obj_type,
        }
    }
}

/// One step of the `get_properties` session.
pub enum ObjPropertiesStep {
    /// The call is complete; if buffers were given, both have length equal
    /// to the record's count.
    Done(ObjProperties, Option<Vec<u32>>, Option<Vec<u64>>),
    /// A fetch must be issued with `ObjPropertiesCall::request`.
    Fetch(ObjPropertiesCall),
}

/// Open the session for the properties of object `obj_id` of type
/// `obj_type`.  Exactly one buffer of the pair is a usage error, reported
/// here, before any kernel call; otherwise the probe record (key only,
/// count zero) is returned beside the kept state.
pub fn get_properties(obj_id: u32, obj_type: u32, props: Option<Vec<u32>>, values: Option<
    Vec<u64>,
>) -> (r: Result<ObjPropertiesProbe, Error>)
    ensures
        (props is Some <==> values is Some) ==> (r matches Ok(p)
            && p.request == (ObjProperties { count_props: 0, obj_id, obj_type })
            && p.props == props
            && p.values == values),
        !(props is Some <==> values is Some) ==> (r matches Err(e) && e
            == Error::UnpairedBuffers),
{
    if props.is_some() != values.is_some() {
        return Err(Error::UnpairedBuffers);
    }
    let request = ObjProperties { count_props: 0, obj_id, obj_type };
    Ok(ObjPropertiesProbe { request, props, values })
}

/// Absorb the kernel's answer to the probe.  With no buffers the probe is
/// the whole call; otherwise both buffers are sized to the probed count and
/// a fetch is due.
pub fn obj_properties_after_probe(probe: ObjPropertiesProbe, reply: ObjProperties) -> (r:
    ObjPropertiesStep)
    requires
        probe.props is Some <==> probe.values is Some,
    ensures
        probe.props is None ==> r == ObjPropertiesStep::Done(reply, probe.props, probe.values),
        probe.props is Some ==> (r matches ObjPropertiesStep::Fetch(c) && c.sizes == reply
            && resized(probe.props->0@, c.props@, reply.count_props as int, 0u32)
            && resized(probe.values->0@, c.values@, reply.count_props as int, 0u64)),
{
    let ObjPropertiesProbe { request: _, props, values } = probe;
    match (props, values) {
        (Some(mut p), Some(mut v)) => {
            resize_to(&mut p, reply.count_props as usize, 0u32);
            resize_to(&mut v, reply.count_props as usize, 0u64);
            ObjPropertiesStep::Fetch(ObjPropertiesCall { sizes: reply, props: p, values: v })
        },
        (p, v) => ObjPropertiesStep::Done(reply, p, v),
    }
}

/// Absorb the kernel's answer to a fetch.  The fetch is authoritative
/// exactly when the reported count equals the count the buffers were sized
/// to; then both buffers' lengths are the reported count.  Otherwise the
/// reported count becomes the new sizing and the fetch must be reissued.
pub fn obj_properties_on_fetch(call: ObjPropertiesCall, reply: ObjProperties) -> (r:
    ObjPropertiesStep)
    ensures
        obj_props_counts_stable(call.sizes, reply) ==> (r matches ObjPropertiesStep::Done(
            info,
            p,
            v,
        ) && info == reply
            && (p matches Some(pv) && resized(call.props@, pv@, reply.count_props as int, 0u32))
            && (v matches Some(vv) && resized(
            call.values@,
            vv@,
            reply.count_props as int,
            0u64,
        ))),
        !obj_props_counts_stable(call.sizes, reply) ==> (r matches ObjPropertiesStep::Fetch(c)
            && c.sizes == reply
            && resized(call.props@, c.props@, reply.count_props as int, 0u32)
            && resized(call.values@, c.values@, reply.count_props as int, 0u64)),
{
    let ObjPropertiesCall { sizes, mut props, mut values } = call;
    resize_to(&mut props, reply.count_props as usize, 0u32);
    resize_to(&mut values, reply.count_props as usize, 0u64);
    if sizes.count_props == reply.count_props {
        ObjPropertiesStep::Done(reply, Some(props), Some(values))
    } else {
        ObjPropertiesStep::Fetch(ObjPropertiesCall { sizes: reply, props, values })
    }
}

// --------------------------------------------------------------------------
// get_property_blob: one byte array.
// --------------------------------------------------------------------------
/// A blob fetch in flight.
pub struct BlobCall {
    pub blob_id: u32,
    pub core: SingleCall<u8>,
}

impl BlobCall {
    /// The record to hand to the kernel for the next fetch: `length`
    /// carries the buffer's capacity.
    pub fn request(&self) -> (r: GetBlob)
        ensures
            r.blob_id == self.blob_id,
            r.length == self.core.size,
    {
        GetBlob { blob_id: self.blob_id, length: self.core.size }
    }
}

/// One step of the `get_property_blob` session.
pub enum BlobStep {
    /// The call is complete; a given buffer's length equals the record's
    /// reported length.
    Done(GetBlob, Option<Vec<u8>>),
    /// A fetch must be issued with `BlobCall::request`.
    Fetch(BlobCall),
}

/// The probe record of `get_property_blob`: the blob's identifier and no
/// destination buffer, so the kernel only writes back the current length.
pub fn get_property_blob(blob_id: u32) -> (r: GetBlob)
    ensures
        r.blob_id == blob_id,
        r.length == 0,
{
    GetBlob { blob_id, length: 0 }
}

/// Absorb the kernel's answer to the probe.  With no buffer the probe is
/// the whole call; otherwise the buffer is sized to the probed length and a
/// fetch is due.
pub fn blob_after_probe(reply: GetBlob, data: Option<Vec<u8>>) -> (r: BlobStep)
    ensures
        data is None ==> r == BlobStep::Done(reply, data),
        data matches Some(d) ==> (r matches BlobStep::Fetch(c) && c.blob_id == reply.blob_id
            && c.core.size == reply.length
            && resized(d@, c.core.buf@, reply.length as int, 0u8)),
{
    match data {
        None => BlobStep::Done(reply, None),
        Some(d) => BlobStep::Fetch(
            BlobCall { blob_id: reply.blob_id, core: single_start(reply.length, d, 0u8) },
        ),
    }
}

/// Absorb the kernel's answer to a fetch.  The fetch is authoritative
/// exactly when the reported length equals the length the buffer was sized
/// to; then the buffer's length is the reported length.  Otherwise the
/// reported length becomes the new sizing and the fetch must be reissued.
pub fn blob_on_fetch(call: BlobCall, reply: GetBlob) -> (r: BlobStep)
    ensures
        reply.length == call.core.size ==> (r matches BlobStep::Done(info, d) && info == reply
            && (d matches Some(d) && resized(
            call.core.buf@,
            d@,
            reply.length as int,
            call.core.fill,
        ))),
        reply.length != call.core.size ==> (r matches BlobStep::Fetch(c) && c.blob_id
            == call.blob_id
            && c.core.size == reply.length
            && resized(call.core.buf@, c.core.buf@, reply.length as int, call.core.fill)),
{
    let BlobCall { blob_id, core } = call;
    match single_on_reply(core, reply.length) {
        SingleStep::Done(buf) => BlobStep::Done(reply, Some(buf)),
        SingleStep::Fetch(c) => BlobStep::Fetch(BlobCall { blob_id, core: c }),
    }
}

// --------------------------------------------------------------------------
// Fixed-size property calls.
// --------------------------------------------------------------------------
/// Request record creating a property blob over the bytes travelling
/// beside it.  The kernel writes the new blob's identifier into `blob_id`,
/// which starts 0.
pub fn create_property_blob(data: &Vec<u8>) -> (r: CreateBlob)
    requires
        data@.len() <= u32::MAX,
    ensures
        r.length == data@.len(),
        r.blob_id == 0,
{
    CreateBlob { length: data.len() as u32, blob_id: 0 }
}

/// Request record destroying property blob `id`.
pub fn destroy_property_blob(id: u32) -> (r: DestroyBlob)
    ensures
        r.blob_id == id,
{
    DestroyBlob { blob_id: id }
}

/// Request record setting property `prop_id` of object `obj_id` of type
/// `obj_type` to `value`.
pub fn set_property(prop_id: u32, obj_id: u32, obj_type: u32, value: u64) -> (r: ObjSetProperty)
    ensures
        r.prop_id == prop_id,
        r.obj_id == obj_id,
        r.obj_type == obj_type,
        r.value == value,
{
    ObjSetProperty { value, prop_id, obj_id, obj_type }
}

} // verus!
