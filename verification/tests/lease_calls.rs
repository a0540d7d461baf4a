//! The lease calls: builders, enumeration sessions, and the lifecycle.

use drm_modeset::error::Error;
use drm_modeset::lease::{
    create_lease, get_lease, lease_objects_after_probe, lease_objects_on_fetch, lessees_after_probe,
    lessees_on_fetch, list_lessees, revoke_lease, LeaseObjectsStep, LeaseRegistry, LesseeId,
    LesseesStep, CODE_NOT_FOUND,
};
use drm_modeset::records::{GetLeaseRec, ListLessees};

#[test]
fn lessee_id_converts_both_ways() {
    let id = LesseeId::from(42u32);
    assert_eq!(u32::from(id), 42);
    assert_eq!(id, LesseeId::from(42u32));
    assert_ne!(id, LesseeId::from(43u32));
}

#[test]
fn create_lease_record_counts_objects() {
    let objs = vec![1u32, 2, 3];
    let r = create_lease(&objs, 0x1);
    assert_eq!(r.object_count, 3);
    assert_eq!(r.flags, 0x1);
    assert_eq!(r.lessee_id, 0);
    assert_eq!(r.fd, 0);
}

#[test]
fn revoke_lease_record_names_lessee() {
    let r = revoke_lease(77);
    assert_eq!(r.lessee_id, 77);
}

#[test]
fn lease_lifecycle_grant_then_revoke() {
    // A granted lease is revocable exactly once by its returned identifier;
    // an identifier no grant ever returned is refused with the kernel's
    // failure code.
    let mut reg = LeaseRegistry::new();
    assert!(matches!(reg.revoke(5), Err(Error::System { code: CODE_NOT_FOUND })));
    let id = reg.grant();
    let other = reg.grant();
    assert!(reg.revoke(id).is_ok());
    assert!(matches!(reg.revoke(id), Err(Error::System { code: CODE_NOT_FOUND })));
    assert!(matches!(reg.revoke(9999), Err(Error::System { code: CODE_NOT_FOUND })));
    // An unrelated live lease is untouched by all of that.
    assert!(reg.revoke(other).is_ok());
}

#[test]
fn lessee_list_cycle() {
    let probe = list_lessees();
    assert_eq!(probe.count_lessees, 0);
    let reply = ListLessees { count_lessees: 2 };
    match lessees_after_probe(reply, None) {
        LesseesStep::Done(info, buf) => {
            assert_eq!(info.count_lessees, 2);
            assert!(buf.is_none());
        }
        LesseesStep::Fetch(_) => panic!("no buffer present: a fetch must not be requested"),
    }
    let call = match lessees_after_probe(reply, Some(Vec::new())) {
        LesseesStep::Fetch(call) => call,
        LesseesStep::Done(..) => panic!("buffer present: a fetch must be requested"),
    };
    assert_eq!(call.request().count_lessees, 2);
    match lessees_on_fetch(call, reply) {
        LesseesStep::Done(info, buf) => {
            assert_eq!(info.count_lessees, 2);
            assert_eq!(buf.unwrap().len(), 2);
        }
        LesseesStep::Fetch(_) => panic!("matching count must be accepted"),
    }
}

#[test]
fn leased_objects_cycle_tracks_growth() {
    let probe = get_lease();
    assert_eq!(probe.count_objects, 0);
    let call = match lease_objects_after_probe(GetLeaseRec { count_objects: 1 }, Some(Vec::new())) {
        LeaseObjectsStep::Fetch(call) => call,
        LeaseObjectsStep::Done(..) => panic!("buffer present: a fetch must be requested"),
    };
    let call = match lease_objects_on_fetch(call, GetLeaseRec { count_objects: 3 }) {
        LeaseObjectsStep::Fetch(call) => call,
        LeaseObjectsStep::Done(..) => panic!("a changed count must not be accepted"),
    };
    assert_eq!(call.request().count_objects, 3);
    match lease_objects_on_fetch(call, GetLeaseRec { count_objects: 3 }) {
        LeaseObjectsStep::Done(info, buf) => {
            assert_eq!(info.count_objects, 3);
            assert_eq!(buf.unwrap().len(), 3);
        }
        LeaseObjectsStep::Fetch(_) => panic!("matching count must be accepted"),
    }
}
