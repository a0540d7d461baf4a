//! The property sessions against scripted kernel replies.

use drm_modeset::error::Error;
use drm_modeset::property::{
    blob_after_probe, blob_on_fetch, create_property_blob, destroy_property_blob, get_properties,
    get_property, get_property_blob, obj_properties_after_probe, obj_properties_on_fetch,
    property_after_probe, property_on_fetch, set_property, BlobStep, ObjPropertiesStep,
    PropertyBuffers, PropertyStep,
};
use drm_modeset::records::{GetBlob, GetProperty, ObjProperties};

fn property_reply(values: u32, enum_blobs: u32) -> GetProperty {
    GetProperty {
        prop_id: 21,
        flags: 0x20,
        name: [0u8; 32],
        count_values: values,
        count_enum_blobs: enum_blobs,
    }
}

#[test]
fn property_probe_carries_key_only() {
    let probe = get_property(21);
    assert_eq!(probe.prop_id, 21);
    assert_eq!(probe.count_values, 0);
    assert_eq!(probe.count_enum_blobs, 0);
    assert_eq!(probe.flags, 0);
}

#[test]
fn property_no_buffers_short_circuits() {
    let bufs = PropertyBuffers { values: None, enums: None };
    match property_after_probe(property_reply(2, 3), bufs) {
        PropertyStep::Done(info, bufs) => {
            assert_eq!(info.count_values, 2);
            assert_eq!(info.count_enum_blobs, 3);
            assert!(bufs.values.is_none());
            assert!(bufs.enums.is_none());
        }
        PropertyStep::Fetch(_) => panic!("no buffer present: a fetch must not be requested"),
    }
}

#[test]
fn growing_enumeration_converges_at_new_count() {
    // The probe reports two enumeration entries; a third appears before the
    // fetch completes, so the fetch reports three.  The cycle must size for
    // three and accept only the repeat fetch that confirms three.
    let bufs = PropertyBuffers { values: None, enums: Some(Vec::new()) };
    let call = match property_after_probe(property_reply(0, 2), bufs) {
        PropertyStep::Fetch(call) => call,
        PropertyStep::Done(..) => panic!("buffer present: a fetch must be requested"),
    };
    assert_eq!(call.request().count_enum_blobs, 2);
    let call = match property_on_fetch(call, property_reply(0, 3)) {
        PropertyStep::Fetch(call) => call,
        PropertyStep::Done(..) => panic!("a changed count must not be accepted"),
    };
    assert_eq!(call.request().count_enum_blobs, 3);
    match property_on_fetch(call, property_reply(0, 3)) {
        PropertyStep::Done(info, bufs) => {
            assert_eq!(info.count_enum_blobs, 3);
            assert_eq!(bufs.enums.unwrap().len(), 3);
            assert!(bufs.values.is_none());
        }
        PropertyStep::Fetch(_) => panic!("matching counts must be accepted"),
    }
}

#[test]
fn property_both_arrays_fetched_jointly() {
    let bufs = PropertyBuffers { values: Some(Vec::new()), enums: Some(Vec::new()) };
    let call = match property_after_probe(property_reply(4, 1), bufs) {
        PropertyStep::Fetch(call) => call,
        PropertyStep::Done(..) => panic!("buffers present: a fetch must be requested"),
    };
    let req = call.request();
    assert_eq!(req.count_values, 4);
    assert_eq!(req.count_enum_blobs, 1);
    match property_on_fetch(call, property_reply(4, 1)) {
        PropertyStep::Done(_, bufs) => {
            assert_eq!(bufs.values.unwrap().len(), 4);
            assert_eq!(bufs.enums.unwrap().len(), 1);
        }
        PropertyStep::Fetch(_) => panic!("matching counts must be accepted"),
    }
}

#[test]
fn object_properties_unpaired_buffers_fail_fast() {
    match get_properties(3, 0xcccccccc, Some(Vec::new()), None) {
        Err(Error::UnpairedBuffers) => {}
        Err(_) => panic!("the failure must be the usage error"),
        Ok(_) => panic!("one buffer of the pair without the other must be refused"),
    }
    match get_properties(3, 0xcccccccc, None, Some(Vec::new())) {
        Err(Error::UnpairedBuffers) => {}
        _ => panic!("one buffer of the pair without the other must be refused"),
    }
}

#[test]
fn object_properties_cycle_keys_by_object() {
    let probe = get_properties(3, 0xcccccccc, Some(Vec::new()), Some(Vec::new()))
        .expect("paired buffers");
    assert_eq!(probe.request.obj_id, 3);
    assert_eq!(probe.request.obj_type, 0xcccccccc);
    assert_eq!(probe.request.count_props, 0);
    let reply = ObjProperties { count_props: 2, obj_id: 3, obj_type: 0xcccccccc };
    let call = match obj_properties_after_probe(probe, reply) {
        ObjPropertiesStep::Fetch(call) => call,
        ObjPropertiesStep::Done(..) => panic!("buffers present: a fetch must be requested"),
    };
    let req = call.request();
    assert_eq!(req.obj_id, 3);
    assert_eq!(req.count_props, 2);
    match obj_properties_on_fetch(call, reply) {
        ObjPropertiesStep::Done(info, props, values) => {
            assert_eq!(info.count_props, 2);
            assert_eq!(props.unwrap().len(), 2);
            assert_eq!(values.unwrap().len(), 2);
        }
        ObjPropertiesStep::Fetch(_) => panic!("matching count must be accepted"),
    }
}

#[test]
fn object_properties_no_buffers_short_circuits() {
    let probe = get_properties(3, 1, None, None).expect("paired buffers");
    let reply = ObjProperties { count_props: 9, obj_id: 3, obj_type: 1 };
    match obj_properties_after_probe(probe, reply) {
        ObjPropertiesStep::Done(info, props, values) => {
            assert_eq!(info.count_props, 9);
            assert!(props.is_none());
            assert!(values.is_none());
        }
        ObjPropertiesStep::Fetch(_) => panic!("no buffer present: a fetch must not be requested"),
    }
}

#[test]
fn blob_no_buffer_short_circuits() {
    let probe = get_property_blob(44);
    assert_eq!(probe.blob_id, 44);
    assert_eq!(probe.length, 0);
    let reply = GetBlob { blob_id: 44, length: 128 };
    match blob_after_probe(reply, None) {
        BlobStep::Done(info, data) => {
            assert_eq!(info.length, 128);
            assert!(data.is_none());
        }
        BlobStep::Fetch(_) => panic!("no buffer present: a fetch must not be requested"),
    }
}

#[test]
fn blob_cycle_tracks_changed_length() {
    let reply = GetBlob { blob_id: 44, length: 16 };
    let call = match blob_after_probe(reply, Some(Vec::new())) {
        BlobStep::Fetch(call) => call,
        BlobStep::Done(..) => panic!("buffer present: a fetch must be requested"),
    };
    assert_eq!(call.request().length, 16);
    // The blob grew to 24 bytes before the fetch completed.
    let grown = GetBlob { blob_id: 44, length: 24 };
    let call = match blob_on_fetch(call, grown) {
        BlobStep::Fetch(call) => call,
        BlobStep::Done(..) => panic!("a changed length must not be accepted"),
    };
    assert_eq!(call.request().length, 24);
    match blob_on_fetch(call, grown) {
        BlobStep::Done(info, data) => {
            assert_eq!(info.length, 24);
            assert_eq!(data.unwrap().len(), 24);
        }
        BlobStep::Fetch(_) => panic!("matching length must be accepted"),
    }
}

#[test]
fn blob_create_and_destroy_records() {
    let data = vec![1u8, 2, 3, 4, 5];
    let create = create_property_blob(&data);
    assert_eq!(create.length, 5);
    assert_eq!(create.blob_id, 0);
    let destroy = destroy_property_blob(91);
    assert_eq!(destroy.blob_id, 91);
}

#[test]
fn object_property_set_record() {
    let r = set_property(10, 20, 30, 0xdead_beef_u64);
    assert_eq!(r.prop_id, 10);
    assert_eq!(r.obj_id, 20);
    assert_eq!(r.obj_type, 30);
    assert_eq!(r.value, 0xdead_beef_u64);
}
