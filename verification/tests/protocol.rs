//! The fetch cycle in the abstract: counts as vectors, replies scripted.

use drm_modeset::fetch::{run_fetch, SingleStep};
use drm_modeset::fetch::{single_on_reply, single_start};

#[test]
fn cycle_accepts_first_stable_reply() {
    // Sized to [0]; the kernel reports 2, then 3, then 3 again: the cycle
    // must accept exactly the third reply, the first to repeat its
    // predecessor, and hand back its counts.
    let replies = vec![vec![2u32], vec![3], vec![3], vec![3]];
    let (idx, counts) = run_fetch(vec![0u32], &replies).expect("stabilizing script must converge");
    assert_eq!(idx, 2);
    assert_eq!(counts, vec![3u32]);
}

#[test]
fn cycle_accepts_immediately_stable_reply() {
    let replies = vec![vec![5u32, 7]];
    let (idx, counts) = run_fetch(vec![5u32, 7], &replies).expect("stable script must converge");
    assert_eq!(idx, 0);
    assert_eq!(counts, vec![5u32, 7]);
}

#[test]
fn cycle_requires_every_count_stable() {
    // One count of the pair keeps changing: no reply is accepted.
    let replies = vec![vec![1u32, 1], vec![1, 2], vec![1, 3]];
    assert!(run_fetch(vec![1u32, 0], &replies).is_none());
}

#[test]
fn cycle_exhausts_unstable_script() {
    let replies = vec![vec![1u32], vec![2], vec![3]];
    assert!(run_fetch(vec![0u32], &replies).is_none());
}

#[test]
fn single_buffer_is_sized_and_trimmed() {
    // A stale 5-element buffer sized down to a probed count of 2 keeps its
    // prefix; the accepted fetch leaves exactly the reported count.
    let call = single_start(2, vec![9u32, 8, 7, 6, 5], 0);
    assert_eq!(call.size, 2);
    assert_eq!(call.buf, vec![9u32, 8]);
    match single_on_reply(call, 2) {
        SingleStep::Done(buf) => assert_eq!(buf, vec![9u32, 8]),
        SingleStep::Fetch(_) => panic!("a matching count must be accepted"),
    }
}

#[test]
fn single_buffer_grows_on_retry() {
    // An empty buffer sized to 1 that learns of 3 elements grows to 3 and
    // asks again.
    let call = single_start(1, Vec::new(), 0u32);
    assert_eq!(call.buf, vec![0u32]);
    match single_on_reply(call, 3) {
        SingleStep::Done(_) => panic!("a changed count must not be accepted"),
        SingleStep::Fetch(next) => {
            assert_eq!(next.size, 3);
            assert_eq!(next.buf.len(), 3);
        }
    }
}
