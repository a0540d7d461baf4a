//! The connector session against scripted kernel replies.

use drm_modeset::connector::{
    connector_after_probe, connector_on_fetch, get_connector, ConnectorBuffers, ConnectorStep,
};
use drm_modeset::error::Error;
use drm_modeset::records::GetConnector;

fn no_buffers() -> ConnectorBuffers {
    ConnectorBuffers { props: None, prop_values: None, modes: None, encoders: None }
}

fn reply(modes: u32, props: u32, encoders: u32) -> GetConnector {
    GetConnector {
        count_modes: modes,
        count_props: props,
        count_encoders: encoders,
        encoder_id: 9,
        connector_id: 7,
        connector_type: 11,
        connector_type_id: 1,
        connection: 1,
        mm_width: 600,
        mm_height: 340,
        subpixel: 0,
    }
}

#[test]
fn cached_probe_advertises_one_mode_slot() {
    // Without force-probe the request reuses cached detection and always
    // advertises one mode slot, so the kernel reports at least one mode.
    let probe = get_connector(7, no_buffers(), false).expect("paired buffers");
    assert_eq!(probe.request.connector_id, 7);
    assert_eq!(probe.request.count_modes, 1);
    assert_eq!(probe.request.count_props, 0);
    assert_eq!(probe.request.count_encoders, 0);
}

#[test]
fn forced_probe_advertises_no_mode_slot() {
    let probe = get_connector(7, no_buffers(), true).expect("paired buffers");
    assert_eq!(probe.request.count_modes, 0);
}

#[test]
fn probe_requests_are_identical() {
    // Probing is idempotent: the request depends on nothing but the
    // connector and the re-detect choice.
    let a = get_connector(7, no_buffers(), false).expect("paired buffers");
    let b = get_connector(7, no_buffers(), false).expect("paired buffers");
    assert_eq!(a.request.count_modes, b.request.count_modes);
    assert_eq!(a.request.count_props, b.request.count_props);
    assert_eq!(a.request.count_encoders, b.request.count_encoders);
    assert_eq!(a.request.connector_id, b.request.connector_id);
}

#[test]
fn unpaired_property_buffers_fail_before_any_call() {
    let bufs = ConnectorBuffers {
        props: Some(Vec::new()),
        prop_values: None,
        modes: None,
        encoders: None,
    };
    match get_connector(7, bufs, false) {
        Err(Error::UnpairedBuffers) => {}
        Err(_) => panic!("the failure must be the usage error"),
        Ok(_) => panic!("one property buffer without the other must be refused"),
    }
    let bufs = ConnectorBuffers {
        props: None,
        prop_values: Some(Vec::new()),
        modes: None,
        encoders: None,
    };
    assert!(get_connector(7, bufs, false).is_err());
}

#[test]
fn cached_single_mode_completes_without_buffer() {
    // The kernel reports one cached mode; with no mode buffer the call
    // returns the scalar fields after the probe alone, allocating nothing.
    let probe = get_connector(7, no_buffers(), false).expect("paired buffers");
    match connector_after_probe(probe, reply(1, 0, 0)) {
        ConnectorStep::Done(info, bufs) => {
            assert_eq!(info.count_modes, 1);
            assert_eq!(info.mm_width, 600);
            assert!(bufs.modes.is_none());
        }
        ConnectorStep::Fetch(_) => panic!("no buffer present: a fetch must not be requested"),
    }
}

#[test]
fn cached_single_mode_fetches_once_with_buffer() {
    // With a mode buffer the fetch reports exactly the probed single mode:
    // the counts match and no repeat fetch happens.
    let bufs = ConnectorBuffers {
        props: None,
        prop_values: None,
        modes: Some(Vec::new()),
        encoders: None,
    };
    let probe = get_connector(7, bufs, false).expect("paired buffers");
    let call = match connector_after_probe(probe, reply(1, 0, 0)) {
        ConnectorStep::Fetch(call) => call,
        ConnectorStep::Done(..) => panic!("buffer present: a fetch must be requested"),
    };
    assert_eq!(call.request().count_modes, 1);
    match connector_on_fetch(call, reply(1, 0, 0)) {
        ConnectorStep::Done(info, bufs) => {
            assert_eq!(info.count_modes, 1);
            assert_eq!(bufs.modes.unwrap().len(), 1);
        }
        ConnectorStep::Fetch(_) => panic!("matching counts must be accepted"),
    }
}

#[test]
fn growing_mode_list_forces_repeat_fetch() {
    // A mode appears between probe and fetch: the fetch must not be
    // accepted; the repeat fetch that confirms the new counts is.
    let bufs = ConnectorBuffers {
        props: Some(Vec::new()),
        prop_values: Some(Vec::new()),
        modes: Some(Vec::new()),
        encoders: Some(Vec::new()),
    };
    let probe = get_connector(7, bufs, false).expect("paired buffers");
    let call = match connector_after_probe(probe, reply(1, 4, 2)) {
        ConnectorStep::Fetch(call) => call,
        ConnectorStep::Done(..) => panic!("buffers present: a fetch must be requested"),
    };
    let call = match connector_on_fetch(call, reply(2, 4, 2)) {
        ConnectorStep::Fetch(call) => call,
        ConnectorStep::Done(..) => panic!("a changed count must not be accepted"),
    };
    let req = call.request();
    assert_eq!(req.count_modes, 2);
    assert_eq!(req.count_props, 4);
    assert_eq!(req.count_encoders, 2);
    match connector_on_fetch(call, reply(2, 4, 2)) {
        ConnectorStep::Done(info, bufs) => {
            assert_eq!(info.count_modes, 2);
            assert_eq!(bufs.modes.unwrap().len(), 2);
            assert_eq!(bufs.props.unwrap().len(), 4);
            assert_eq!(bufs.prop_values.unwrap().len(), 4);
            assert_eq!(bufs.encoders.unwrap().len(), 2);
        }
        ConnectorStep::Fetch(_) => panic!("matching counts must be accepted"),
    }
}

#[test]
fn declined_modes_keep_scratch_slot_in_fetch() {
    // Properties wanted, modes declined, detection cached: every fetch
    // still advertises the one scratch mode slot.
    let bufs = ConnectorBuffers {
        props: Some(Vec::new()),
        prop_values: Some(Vec::new()),
        modes: None,
        encoders: None,
    };
    let probe = get_connector(7, bufs, false).expect("paired buffers");
    let call = match connector_after_probe(probe, reply(1, 3, 0)) {
        ConnectorStep::Fetch(call) => call,
        ConnectorStep::Done(..) => panic!("buffers present: a fetch must be requested"),
    };
    let req = call.request();
    assert_eq!(req.count_modes, 1);
    assert_eq!(req.count_props, 3);
}
