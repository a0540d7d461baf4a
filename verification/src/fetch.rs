//! The resize-and-retry fetch protocol.
//!
//! A kernel-owned array has no a-priori length, and its length can change
//! between the call that reports it and the call that copies the data (the
//! race inherent to the interface).  The protocol: probe for the current
//! counts, size every destination buffer to them, fetch, and accept the fetch
//! only if every count it reports equals the count the buffers were sized to;
//! otherwise the fetch's counts become the new sizing and the cycle repeats.
//! There is deliberately no retry cap: if the kernel-side size oscillates
//! forever the cycle loops forever, a liveness risk accepted by design rather
//! than silently truncating.
//!
//! This module holds the protocol in the abstract: counts are sequences of
//! `u32`, one entry per array a call returns.  `run` is the mathematical model
//! of the cycle over a given sequence of kernel replies, `lemma_convergence`
//! states when and where it terminates, and `run_fetch` is the executable
//! cycle, verified against the model.  The per-operation session types of the
//! other modules each instantiate the same discipline over their typed
//! records.

use vstd::prelude::*;

verus! {

/// `new_v` is `old_v` resized to exactly `n` elements: the surviving prefix
/// is kept and any new slots hold `fill`.
pub open spec fn resized<T>(old_v: Seq<T>, new_v: Seq<T>, n: int, fill: T) -> bool {
    &&& new_v.len() == n
    &&& forall|i: int| 0 <= i < n && i < old_v.len() ==> new_v[i] == old_v[i]
    &&& forall|i: int| old_v.len() <= i < n ==> new_v[i] == fill
}

/// Set a buffer's length to exactly `n`, keeping the surviving prefix and
/// filling any new slots with `fill`.
pub fn resize_to<T: Copy>(v: &mut Vec<T>, n: usize, fill: T)
    ensures
        resized(old(v)@, final(v)@, n as int, fill),
{
    v.truncate(n);
    proof {
        if n <= old(v)@.len() {
            assert forall|i: int| 0 <= i < v@.len() && i < old(v)@.len() implies v@[i] == old(
                v,
            )@[i] by {
                assert(v@[i] == old(v)@.subrange(0, n as int)[i]);
            }
        }
    }
    while v.len() < n
        invariant
            v@.len() <= n,
            v@.len() >= old(v)@.len() || v@.len() == n,
            forall|i: int| 0 <= i < v@.len() && i < old(v)@.len() ==> v@[i] == old(v)@[i],
            forall|i: int| old(v)@.len() <= i < v@.len() ==> v@[i] == fill,
        decreases n - v@.len(),
    {
        v.push(fill);
    }
}

/// One cycle step accepts the fetch exactly when every reported count equals
/// the count the buffers were sized to.
pub open spec fn counts_stable(sized_to: Seq<u32>, reported: Seq<u32>) -> bool {
    sized_to =~= reported
}

/// The model of the cycle: starting from sizing counts `sized_to`, feed the
/// kernel replies in order.  The result is `Some((i, c))` when the reply at
/// index `i` is the first whose counts equal the sizing counts in force, and
/// `c` are those counts; `None` when no reply in the sequence converges.
pub open spec fn run(sized_to: Seq<u32>, replies: Seq<Seq<u32>>) -> Option<(int, Seq<u32>)>
    decreases replies.len(),
{
    if replies.len() == 0 {
        None
    } else if counts_stable(sized_to, replies[0]) {
        Some((0, replies[0]))
    } else {
        match run(replies[0], replies.subrange(1, replies.len() as int)) {
            None => None,
            Some((i, c)) => Some((i + 1, c)),
        }
    }
}

/// Reply `i` stabilizes the cycle: its counts equal the sizing counts in
/// force when it arrives (the initial sizing for the first reply, the
/// previous reply's counts afterwards).
pub open spec fn stabilizes_at(sized_to: Seq<u32>, replies: Seq<Seq<u32>>, i: int) -> bool {
    &&& 0 <= i < replies.len()
    &&& counts_stable(if i == 0 { sized_to } else { replies[i - 1] }, replies[i])
}

/// Convergence of the fetch cycle: if reply `n` is the first whose counts
/// repeat the counts in force, the cycle accepts exactly that reply, and the
/// accepted counts are reply `n`'s counts — the lengths every destination
/// buffer ends with.
pub proof fn lemma_convergence(sized_to: Seq<u32>, replies: Seq<Seq<u32>>, n: int)
    requires
        stabilizes_at(sized_to, replies, n),
        forall|j: int| 0 <= j < n ==> !stabilizes_at(sized_to, replies, j),
    ensures
        run(sized_to, replies) == Some((n, replies[n])),
    decreases n,
{
    let rest = replies.subrange(1, replies.len() as int);
    if n == 0 {
        assert(counts_stable(sized_to, replies[0]));
    } else {
        assert(!stabilizes_at(sized_to, replies, 0));
        assert(stabilizes_at(replies[0], rest, n - 1)) by {
            assert(rest[n - 1] == replies[n]);
            if n - 1 > 0 {
                assert(rest[n - 2] == replies[n - 1]);
            }
        }
        assert forall|j: int| 0 <= j < n - 1 implies !stabilizes_at(replies[0], rest, j) by {
            assert(rest[j] == replies[j + 1]);
            if j > 0 {
                assert(rest[j - 1] == replies[j]);
            }
            assert(!stabilizes_at(sized_to, replies, j + 1));
        }
        lemma_convergence(replies[0], rest, n - 1);
    }
}

/// The executable fetch cycle over a prearranged sequence of replies, exactly
/// the model `run`: the replies are consumed in order and the first one whose
/// counts repeat the sizing counts in force is accepted.
pub fn run_fetch(sized_to: Vec<u32>, replies: &Vec<Vec<u32>>) -> (r: Option<(usize, Vec<u32>)>)
    ensures
        (match r {
            None => run(sized_to@, replies.deep_view()) is None,
            Some((i, c)) => run(sized_to@, replies.deep_view()) == Some((i as int, c@)),
        }),
{
    let ghost all = replies.deep_view();
    proof {
        assert forall|j: int| 0 <= j < all.len() implies all[j] == replies@[j]@ by {
            assert(all[j] =~= replies@[j]@);
        }
        assert(all.subrange(0, all.len() as int) =~= all);
    }
    let mut sizes = sized_to;
    let mut k: usize = 0;
    loop
        invariant
            k <= replies.len(),
            all == replies.deep_view(),
            all.len() == replies@.len(),
            forall|j: int| 0 <= j < all.len() ==> all[j] == replies@[j]@,
            (match run(sized_to@, all) {
                None => run(sizes@, all.subrange(k as int, all.len() as int)) is None,
                Some((i, c)) => run(sizes@, all.subrange(k as int, all.len() as int)) == Some(
                    (i - k, c),
                ),
            }),
        decreases replies.len() - k,
    {
        let ghost pending = all.subrange(k as int, all.len() as int);
        if k == replies.len() {
            proof {
                assert(pending.len() == 0);
            }
            return None;
        }
        let reply = &replies[k];
        proof {
            assert(pending[0] == all[k as int]);
            assert(pending.subrange(1, pending.len() as int) =~= all.subrange(
                k as int + 1,
                all.len() as int,
            ));
        }
        let stable = eq_counts(&sizes, reply);
        if stable {
            let out = copy_counts(reply);
            proof {
                assert(counts_stable(sizes@, pending[0]));
                assert(run(sizes@, pending) == Some((0int, pending[0])));
            }
            return Some((k, out));
        }
        proof {
            assert(!counts_stable(sizes@, pending[0]));
        }
        sizes = copy_counts(reply);
        proof {
            assert(sizes@ == all[k as int]);
        }
        k = k + 1;
    }
}

/// Copy a count vector.
fn copy_counts(v: &Vec<u32>) -> (r: Vec<u32>)
    ensures
        r@ == v@,
{
    let mut out: Vec<u32> = Vec::new();
    let mut i: usize = 0;
    while i < v.len()
        invariant
            i <= v@.len(),
            out@.len() == i,
            forall|j: int| 0 <= j < i ==> out@[j] == v@[j],
        decreases v@.len() - i,
    {
        out.push(v[i]);
        i = i + 1;
    }
    proof {
        assert(out@ =~= v@);
    }
    out
}

/// Element-wise comparison of two count vectors.
pub fn eq_counts(a: &Vec<u32>, b: &Vec<u32>) -> (r: bool)
    ensures
        r == (a@ =~= b@),
{
    if a.len() != b.len() {
        return false;
    }
    let mut i: usize = 0;
    while i < a.len()
        invariant
            i <= a.len(),
            a@.len() == b@.len(),
            forall|j: int| 0 <= j < i ==> a@[j] == b@[j],
        decreases a.len() - i,
    {
        if a[i] != b[i] {
            return false;
        }
        i = i + 1;
    }
    proof {
        assert(a@ =~= b@);
    }
    true
}

/// A single-array fetch in flight: the buffer, the count it is sized to (also
/// the count the next fetch will request), and the element new slots are
/// filled with.
pub struct SingleCall<T> {
    pub size: u32,
    pub buf: Vec<T>,
    pub fill: T,
}

/// Outcome of absorbing one fetch reply for a single-array call.
pub enum SingleStep<T> {
    /// The reply's count matched the sizing count: the buffer, trimmed to
    /// exactly that count, is authoritative.
    Done(Vec<T>),
    /// The count changed: the buffer has been resized to the new count and
    /// the fetch must be reissued.
    Fetch(SingleCall<T>),
}

/// Size a buffer to a probed count, starting a single-array fetch.
pub fn single_start<T: Copy>(count: u32, buf: Vec<T>, fill: T) -> (r: SingleCall<T>)
    ensures
        r.size == count,
        r.fill == fill,
        resized(buf@, r.buf@, count as int, fill),
{
    let mut b = buf;
    resize_to(&mut b, count as usize, fill);
    SingleCall { size: count, buf: b, fill }
}

/// Absorb the count a fetch reported.  The fetch is accepted exactly when
/// that count equals the sizing count; the buffer's final length is the
/// reported count in either case, never a stale value.
pub fn single_on_reply<T: Copy>(call: SingleCall<T>, reported: u32) -> (r: SingleStep<T>)
    ensures
        reported == call.size ==> (r matches SingleStep::Done(b)
            && resized(call.buf@, b@, reported as int, call.fill)),
        reported != call.size ==> (r matches SingleStep::Fetch(c)
            && c.size == reported
            && c.fill == call.fill
            && resized(call.buf@, c.buf@, reported as int, call.fill)),
{
    let SingleCall { size, mut buf, fill } = call;
    resize_to(&mut buf, reported as usize, fill);
    if reported == size {
        SingleStep::Done(buf)
    } else {
        SingleStep::Fetch(SingleCall { size: reported, buf, fill })
    }
}

} // verus!
