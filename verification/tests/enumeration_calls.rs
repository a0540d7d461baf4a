//! The card and plane enumeration sessions against scripted kernel replies.

use drm_modeset::plane::{
    get_plane, get_plane_resources, plane_after_probe, plane_on_fetch, plane_res_after_probe,
    plane_res_on_fetch, PlaneResStep, PlaneStep,
};
use drm_modeset::records::{CardRes, GetPlane, PlaneRes};
use drm_modeset::resources::{
    get_resources, resources_after_probe, resources_on_fetch, CardBuffers, ResourcesStep,
};

fn card_reply(fbs: u32, crtcs: u32, connectors: u32, encoders: u32) -> CardRes {
    CardRes {
        count_fbs: fbs,
        count_crtcs: crtcs,
        count_connectors: connectors,
        count_encoders: encoders,
        min_width: 640,
        max_width: 4096,
        min_height: 480,
        max_height: 2160,
    }
}

#[test]
fn resources_probe_request_is_zeroed() {
    let probe = get_resources();
    assert_eq!(probe.count_fbs, 0);
    assert_eq!(probe.count_crtcs, 0);
    assert_eq!(probe.count_connectors, 0);
    assert_eq!(probe.count_encoders, 0);
    assert_eq!(probe.min_width, 0);
    assert_eq!(probe.max_width, 0);
    assert_eq!(probe.min_height, 0);
    assert_eq!(probe.max_height, 0);
}

#[test]
fn resources_all_buffers_absent_short_circuits() {
    // With every destination buffer declined the probe is the whole call:
    // only counts come back and no fetch is ever requested.
    let bufs = CardBuffers { fbs: None, crtcs: None, connectors: None, encoders: None };
    match resources_after_probe(card_reply(1, 2, 3, 4), bufs) {
        ResourcesStep::Done(info, bufs) => {
            assert_eq!(info.count_crtcs, 2);
            assert!(bufs.fbs.is_none());
            assert!(bufs.crtcs.is_none());
            assert!(bufs.connectors.is_none());
            assert!(bufs.encoders.is_none());
        }
        ResourcesStep::Fetch(_) => panic!("no buffer present: a fetch must not be requested"),
    }
}

#[test]
fn resources_stable_fetch_sets_exact_lengths() {
    let bufs = CardBuffers {
        fbs: Some(Vec::new()),
        crtcs: Some(Vec::new()),
        connectors: None,
        encoders: Some(Vec::new()),
    };
    let probe = card_reply(1, 2, 3, 4);
    let call = match resources_after_probe(probe, bufs) {
        ResourcesStep::Fetch(call) => call,
        ResourcesStep::Done(..) => panic!("buffers present: a fetch must be requested"),
    };
    // The fetch request advertises the capacity of each wanted array and
    // declines the rest.
    let req = call.request();
    assert_eq!(req.count_fbs, 1);
    assert_eq!(req.count_crtcs, 2);
    assert_eq!(req.count_connectors, 0);
    assert_eq!(req.count_encoders, 4);
    match resources_on_fetch(call, card_reply(1, 2, 3, 4)) {
        ResourcesStep::Done(info, bufs) => {
            assert_eq!(info.max_width, 4096);
            assert_eq!(bufs.fbs.unwrap().len(), 1);
            assert_eq!(bufs.crtcs.unwrap().len(), 2);
            assert!(bufs.connectors.is_none());
            assert_eq!(bufs.encoders.unwrap().len(), 4);
        }
        ResourcesStep::Fetch(_) => panic!("matching counts must be accepted"),
    }
}

#[test]
fn resources_changed_count_forces_another_fetch() {
    // A CRTC appears between the probe and the fetch: the fetch must not be
    // accepted, the buffers are resized to the new counts, and only the
    // repeat fetch that confirms them is authoritative.
    let bufs = CardBuffers {
        fbs: Some(Vec::new()),
        crtcs: Some(Vec::new()),
        connectors: Some(Vec::new()),
        encoders: Some(Vec::new()),
    };
    let call = match resources_after_probe(card_reply(0, 2, 3, 3), bufs) {
        ResourcesStep::Fetch(call) => call,
        ResourcesStep::Done(..) => panic!("buffers present: a fetch must be requested"),
    };
    let call = match resources_on_fetch(call, card_reply(0, 3, 3, 3)) {
        ResourcesStep::Fetch(call) => call,
        ResourcesStep::Done(..) => panic!("a changed count must not be accepted"),
    };
    assert_eq!(call.request().count_crtcs, 3);
    match resources_on_fetch(call, card_reply(0, 3, 3, 3)) {
        ResourcesStep::Done(info, bufs) => {
            assert_eq!(info.count_crtcs, 3);
            assert_eq!(bufs.crtcs.unwrap().len(), 3);
            assert_eq!(bufs.fbs.unwrap().len(), 0);
        }
        ResourcesStep::Fetch(_) => panic!("matching counts must be accepted"),
    }
}

#[test]
fn plane_resources_probe_twice_is_stateless() {
    // Probing with no destination buffer twice: both requests are the same
    // zeroed record and neither step touches any buffer.
    let first = get_plane_resources();
    let second = get_plane_resources();
    assert_eq!(first.count_planes, 0);
    assert_eq!(second.count_planes, 0);
    let reply = PlaneRes { count_planes: 4 };
    for _ in 0..2 {
        match plane_res_after_probe(reply, None) {
            PlaneResStep::Done(info, buf) => {
                assert_eq!(info.count_planes, 4);
                assert!(buf.is_none());
            }
            PlaneResStep::Fetch(_) => panic!("no buffer present: a fetch must not be requested"),
        }
    }
}

#[test]
fn plane_resources_cycle_fills_buffer() {
    let reply = PlaneRes { count_planes: 3 };
    let call = match plane_res_after_probe(reply, Some(Vec::new())) {
        PlaneResStep::Fetch(call) => call,
        PlaneResStep::Done(..) => panic!("buffer present: a fetch must be requested"),
    };
    assert_eq!(call.request().count_planes, 3);
    match plane_res_on_fetch(call, reply) {
        PlaneResStep::Done(info, buf) => {
            assert_eq!(info.count_planes, 3);
            assert_eq!(buf.unwrap().len(), 3);
        }
        PlaneResStep::Fetch(_) => panic!("matching count must be accepted"),
    }
}

#[test]
fn plane_getter_probe_only_without_buffer() {
    let probe = get_plane(5);
    assert_eq!(probe.plane_id, 5);
    assert_eq!(probe.count_format_types, 0);
    let reply = GetPlane {
        plane_id: 5,
        crtc_id: 1,
        fb_id: 0,
        possible_crtcs: 0b11,
        gamma_size: 256,
        count_format_types: 7,
    };
    match plane_after_probe(reply, None) {
        PlaneStep::Done(info, buf) => {
            assert_eq!(info.count_format_types, 7);
            assert!(buf.is_none());
        }
        PlaneStep::Fetch(_) => panic!("no buffer present: a fetch must not be requested"),
    }
}

#[test]
fn plane_getter_fetches_format_types() {
    let reply = GetPlane {
        plane_id: 5,
        crtc_id: 1,
        fb_id: 0,
        possible_crtcs: 0b11,
        gamma_size: 256,
        count_format_types: 2,
    };
    let call = match plane_after_probe(reply, Some(vec![11, 22, 33])) {
        PlaneStep::Fetch(call) => call,
        PlaneStep::Done(..) => panic!("buffer present: a fetch must be requested"),
    };
    // The stale 3-element buffer was trimmed to the probed 2, keeping its
    // prefix for the kernel to overwrite.
    let req = call.request();
    assert_eq!(req.plane_id, 5);
    assert_eq!(req.count_format_types, 2);
    match plane_on_fetch(call, reply) {
        PlaneStep::Done(info, buf) => {
            assert_eq!(info.gamma_size, 256);
            assert_eq!(buf.unwrap(), vec![11, 22]);
        }
        PlaneStep::Fetch(_) => panic!("matching count must be accepted"),
    }
}
