//! The lease calls.
//!
//! A lease grants a disjoint subset of the grantor's resource handles to a
//! lessee, named by a lessee identifier (an opaque 32-bit value in a
//! namespace of its own) and backed by a new control handle scoped to the
//! leased objects.  This module holds the builders for the create and revoke
//! calls, the two fetch sessions enumerating lessees and leased objects, and
//! a model of the lifecycle a lease goes through on the kernel side —
//! unleased, leased, revoked (terminal) — with the lifecycle law proved over
//! it.  The kernel enforces the scoping; this layer marshals the calls.

use vstd::prelude::*;

use crate::error::Error;
use crate::fetch::{resized, single_on_reply, single_start, SingleCall, SingleStep};
use crate::records::{CreateLease, GetLeaseRec, ListLessees, RevokeLease};

verus! {

/// A lessee identifier.  Opaque to callers: equality is by raw value, and
/// the only conversions are the two `From` impls.
#[derive(Copy, Clone, Hash, PartialEq, Eq, Structural, Debug)]
pub struct LesseeId(u32);

impl From<LesseeId> for u32 {
    fn from(handle: LesseeId) -> (r: Self) {
        handle.0
    }
}

impl vstd::std_specs::convert::FromSpecImpl<LesseeId> for u32 {
    open spec fn obeys_from_spec() -> bool {
        true
    }

    closed spec fn from_spec(handle: LesseeId) -> Self {
        handle.0
    }
}

impl From<u32> for LesseeId {
    fn from(handle: u32) -> (r: Self) {
        LesseeId(handle)
    }
}

impl vstd::std_specs::convert::FromSpecImpl<u32> for LesseeId {
    open spec fn obeys_from_spec() -> bool {
        true
    }

    closed spec fn from_spec(handle: u32) -> Self {
        LesseeId(handle)
    }
}

// --------------------------------------------------------------------------
// Fixed-size lease calls.
// --------------------------------------------------------------------------
/// Request record leasing the objects travelling beside it (their number is
/// `object_count`) under creation `flags`.  The kernel writes the new
/// lessee identifier and the scoped control handle into the zeroed fields.
pub fn create_lease(objs: &Vec<u32>, flags: u32) -> (r: CreateLease)
    requires
        objs@.len() <= u32::MAX,
    ensures
        r.object_count == objs@.len(),
        r.flags == flags,
        r.lessee_id == 0,
        r.fd == 0,
{
    CreateLease { object_count: objs.len() as u32, flags, lessee_id: 0, fd: 0 }
}

/// Request record revoking the lease of lessee `lessee_id`.
pub fn revoke_lease(lessee_id: u32) -> (r: RevokeLease)
    ensures
        r.lessee_id == lessee_id,
{
    RevokeLease { lessee_id }
}

// --------------------------------------------------------------------------
// list_lessees: the lessees of a grantor.
// --------------------------------------------------------------------------
/// A lessee enumeration fetch in flight.
pub struct LesseesCall {
    pub core: SingleCall<u32>,
}

impl LesseesCall {
    /// The record to hand to the kernel for the next fetch:
    /// `count_lessees` carries the buffer's capacity.
    pub fn request(&self) -> (r: ListLessees)
        ensures
            r.count_lessees == self.core.size,
    {
        ListLessees { count_lessees: self.core.size }
    }
}

/// One step of the `list_lessees` session.
pub enum LesseesStep {
    /// The call is complete; a given buffer's length equals the record's
    /// reported count.
    Done(ListLessees, Option<Vec<u32>>),
    /// A fetch must be issued with `LesseesCall::request`.
    Fetch(LesseesCall),
}

/// The probe record of `list_lessees`: count zero and no destination
/// buffer, so the kernel only writes back its current count.
pub fn list_lessees() -> (r: ListLessees)
    ensures
        r.count_lessees == 0,
{
    ListLessees { count_lessees: 0 }
}

/// Absorb the kernel's answer to the probe.  With no buffer the probe is
/// the whole call; otherwise the buffer is sized to the probed count and a
/// fetch is due.
pub fn lessees_after_probe(reply: ListLessees, lessees: Option<Vec<u32>>) -> (r: LesseesStep)
    ensures
        lessees is None ==> r == LesseesStep::Done(reply, lessees),
        lessees matches Some(b) ==> (r matches LesseesStep::Fetch(c) && c.core.size
            == reply.count_lessees
            && c.core.fill == 0u32
            && resized(b@, c.core.buf@, reply.count_lessees as int, 0u32)),
{
    match lessees {
        None => LesseesStep::Done(reply, None),
        Some(b) => LesseesStep::Fetch(
            LesseesCall { core: single_start(reply.count_lessees, b, 0u32) },
        ),
    }
}

/// Absorb the kernel's answer to a fetch.  The fetch is authoritative
/// exactly when the reported count equals the count the buffer was sized
/// to; then the buffer's length is the reported count.  Otherwise the
/// reported count becomes the new sizing and the fetch must be reissued.
pub fn lessees_on_fetch(call: LesseesCall, reply: ListLessees) -> (r: LesseesStep)
    ensures
        reply.count_lessees == call.core.size ==> (r matches LesseesStep::Done(info, b) && info
            == reply
            && (b matches Some(bv) && resized(
            call.core.buf@,
            bv@,
            reply.count_lessees as int,
            call.core.fill,
        ))),
        reply.count_lessees != call.core.size ==> (r matches LesseesStep::Fetch(c) && c.core.size
            == reply.count_lessees
            && resized(call.core.buf@, c.core.buf@, reply.count_lessees as int, call.core.fill)),
{
    match single_on_reply(call.core, reply.count_lessees) {
        SingleStep::Done(buf) => LesseesStep::Done(reply, Some(buf)),
        SingleStep::Fetch(c) => LesseesStep::Fetch(LesseesCall { core: c }),
    }
}

// --------------------------------------------------------------------------
// get_lease: the objects of the caller's own lease.
// --------------------------------------------------------------------------
/// A leased object enumeration fetch in flight.
pub struct LeaseObjectsCall {
    pub core: SingleCall<u32>,
}

impl LeaseObjectsCall {
    /// The record to hand to the kernel for the next fetch:
    /// `count_objects` carries the buffer's capacity.
    pub fn request(&self) -> (r: GetLeaseRec)
        ensures
            r.count_objects == self.core.size,
    {
        GetLeaseRec { count_objects: self.core.size }
    }
}

/// One step of the `get_lease` session.
pub enum LeaseObjectsStep {
    /// The call is complete; a given buffer's length equals the record's
    /// reported count.
    Done(GetLeaseRec, Option<Vec<u32>>),
    /// A fetch must be issued with `LeaseObjectsCall::request`.
    Fetch(LeaseObjectsCall),
}

/// The probe record of `get_lease`: count zero and no destination buffer,
/// so the kernel only writes back its current count.
pub fn get_lease() -> (r: GetLeaseRec)
    ensures
        r.count_objects == 0,
{
    GetLeaseRec { count_objects: 0 }
}

/// Absorb the kernel's answer to the probe.  With no buffer the probe is
/// the whole call; otherwise the buffer is sized to the probed count and a
/// fetch is due.
pub fn lease_objects_after_probe(reply: GetLeaseRec, objs: Option<Vec<u32>>) -> (r:
    LeaseObjectsStep)
    ensures
        objs is None ==> r == LeaseObjectsStep::Done(reply, objs),
        objs matches Some(b) ==> (r matches LeaseObjectsStep::Fetch(c) && c.core.size
            == reply.count_objects
            && c.core.fill == 0u32
            && resized(b@, c.core.buf@, reply.count_objects as int, 0u32)),
{
    match objs {
        None => LeaseObjectsStep::Done(reply, None),
        Some(b) => LeaseObjectsStep::Fetch(
            LeaseObjectsCall { core: single_start(reply.count_objects, b, 0u32) },
        ),
    }
}

/// Absorb the kernel's answer to a fetch.  The fetch is authoritative
/// exactly when the reported count equals the count the buffer was sized
/// to; then the buffer's length is the reported count.  Otherwise the
/// reported count becomes the new sizing and the fetch must be reissued.
pub fn lease_objects_on_fetch(call: LeaseObjectsCall, reply: GetLeaseRec) -> (r: LeaseObjectsStep)
    ensures
        reply.count_objects == call.core.size ==> (r matches LeaseObjectsStep::Done(info, b)
            && info == reply
            && (b matches Some(bv) && resized(
            call.core.buf@,
            bv@,
            reply.count_objects as int,
            call.core.fill,
        ))),
        reply.count_objects != call.core.size ==> (r matches LeaseObjectsStep::Fetch(c)
            && c.core.size == reply.count_objects
            && resized(call.core.buf@, c.core.buf@, reply.count_objects as int, call.core.fill)),
{
    match single_on_reply(call.core, reply.count_objects) {
        SingleStep::Done(buf) => LeaseObjectsStep::Done(reply, Some(buf)),
        SingleStep::Fetch(c) => LeaseObjectsStep::Fetch(LeaseObjectsCall { core: c }),
    }
}

// --------------------------------------------------------------------------
// The lease lifecycle.
// --------------------------------------------------------------------------
/// The failure code the revoke call reports for an identifier that names no
/// live lease.
pub const CODE_NOT_FOUND: i32 = 2;

/// The lease lifecycle as the kernel keeps it: each lease goes from
/// unleased to leased on a grant and to revoked — terminally — on a revoke.
/// The registry tracks the live lessee identifiers and hands out fresh
/// ones, never reusing an identifier it ever granted.  Consumers standing
/// in for the kernel (a test double, a simulation) hold one of these; the
/// lifecycle law below is proved over it.
pub struct LeaseRegistry {
    next: u32,
    live: Vec<u32>,
}

impl LeaseRegistry {
    /// Every live identifier was granted (lies below `next`), and no
    /// identifier is live twice.
    pub closed spec fn wf(self) -> bool {
        &&& forall|i: int| 0 <= i < self.live@.len() ==> #[trigger] self.live@[i] < self.next
        &&& forall|i: int, j: int|
            #![trigger self.live@[i], self.live@[j]]
            0 <= i < j < self.live@.len() ==> self.live@[i] != self.live@[j]
    }

    /// `id` names a live lease.
    pub closed spec fn is_live(self, id: u32) -> bool {
        self.live@.contains(id)
    }

    /// No grant has ever returned `id`.
    pub closed spec fn unseen(self, id: u32) -> bool {
        id >= self.next
    }

    /// A further identifier can still be granted.
    pub closed spec fn can_grant(self) -> bool {
        self.next < u32::MAX
    }

    /// A registry with no lease ever granted.
    pub fn new() -> (r: LeaseRegistry)
        ensures
            r.wf(),
            r.can_grant(),
            forall|x: u32| !r.is_live(x),
            forall|x: u32| r.unseen(x),
    {
        LeaseRegistry { next: 0, live: Vec::new() }
    }

    /// Grant a lease: a fresh identifier, never granted before, becomes
    /// live; every other identifier keeps its state.
    pub fn grant(&mut self) -> (r: u32)
        requires
            old(self).wf(),
            old(self).can_grant(),
        ensures
            final(self).wf(),
            grant_step(*old(self), *final(self), r),
    {
        let id = self.next;
        self.next = self.next + 1;
        self.live.push(id);
        proof {
            assert forall|x: u32| x != id implies (final(self).is_live(x) <==> old(self).is_live(
                x,
            )) by {
                if old(self).live@.contains(x) {
                    let k = choose|k: int|
                        0 <= k < old(self).live@.len() && old(self).live@[k] == x;
                    assert(final(self).live@[k] == x);
                }
                if final(self).live@.contains(x) {
                    let k = choose|k: int|
                        0 <= k < final(self).live@.len() && final(self).live@[k] == x;
                    assert(k < old(self).live@.len());
                    assert(old(self).live@[k] == x);
                }
            }
            assert(final(self).live@[final(self).live@.len() - 1] == id);
        }
        id
    }

    /// Revoke the lease of `id`: succeeds exactly when `id` is live, and
    /// reports the not-found failure code otherwise.  Afterwards `id` is
    /// not live — a revoked lease never comes back under the same
    /// identifier — and every other identifier keeps its state.
    pub fn revoke(&mut self, id: u32) -> (r: Result<(), Error>)
        requires
            old(self).wf(),
        ensures
            final(self).wf(),
            r is Ok <==> old(self).is_live(id),
            r is Err ==> r == Err::<(), Error>(Error::System { code: CODE_NOT_FOUND }),
            revoke_step(*old(self), *final(self), id),
    {
        let mut i: usize = 0;
        while i < self.live.len()
            invariant
                old(self).wf(),
                i <= self.live@.len(),
                forall|k: int| 0 <= k < i ==> self.live@[k] != id,
                *self == *old(self),
            decreases self.live@.len() - i,
        {
            if self.live[i] == id {
                proof {
                    assert(forall|a: int, b: int|
                        0 <= a < b < old(self).live@.len() ==> old(self).live@[a] != old(
                            self,
                        ).live@[b]);
                }
                self.live.remove(i);
                proof {
                    let pre = old(self).live@;
                    let post = self.live@;
                    assert(post == pre.remove(i as int));
                    assert(self.next == old(self).next);
                    assert forall|x: u32| x != id implies (post.contains(x) <==> pre.contains(
                        x,
                    )) by {
                        if pre.contains(x) {
                            let k = choose|k: int| 0 <= k < pre.len() && pre[k] == x;
                            if k < i {
                                assert(post[k] == x);
                            } else {
                                assert(pre[k] != id);
                                assert(post[k - 1] == x);
                            }
                        }
                        if post.contains(x) {
                            let k = choose|k: int| 0 <= k < post.len() && post[k] == x;
                            if k < i {
                                assert(pre[k] == x);
                            } else {
                                assert(pre[k + 1] == x);
                            }
                        }
                    }
                    assert forall|k: int| 0 <= k < post.len() implies post[k] != id by {
                        if k < i {
                            assert(post[k] == pre[k]);
                        } else {
                            assert(post[k] == pre[k + 1]);
                            assert(pre[i as int] == id);
                            assert(pre[i as int] != pre[k + 1]);
                        }
                    }
                    assert forall|k: int| 0 <= k < post.len() implies post[k]
                        < self.next by {
                        if k < i {
                            assert(post[k] == pre[k]);
                        } else {
                            assert(post[k] == pre[k + 1]);
                        }
                    }
                    assert forall|k1: int, k2: int|
                        0 <= k1 < k2 < post.len() implies post[k1] != post[k2] by {
                        let m1: int = if k1 < i {
                            k1
                        } else {
                            k1 + 1
                        };
                        let m2: int = if k2 < i {
                            k2
                        } else {
                            k2 + 1
                        };
                        assert(post[k1] == pre[m1]);
                        assert(post[k2] == pre[m2]);
                        assert(pre[m1] != pre[m2]);
                    }
                }
                return Ok(());
            }
            i = i + 1;
        }
        Err(Error::System { code: CODE_NOT_FOUND })
    }
}

/// One grant: `id` was never granted in `pre`, is live in `post`, and is no
/// longer fresh; every other identifier keeps both its liveness and its
/// freshness.
pub open spec fn grant_step(pre: LeaseRegistry, post: LeaseRegistry, id: u32) -> bool {
    &&& pre.unseen(id)
    &&& post.is_live(id)
    &&& !post.unseen(id)
    &&& forall|x: u32| x != id ==> (post.is_live(x) <==> pre.is_live(x))
    &&& forall|x: u32| x != id ==> (post.unseen(x) <==> pre.unseen(x))
}

/// One revoke of `id` (successful or not): `id` is not live in `post`;
/// every other identifier keeps its liveness, and freshness is untouched.
pub open spec fn revoke_step(pre: LeaseRegistry, post: LeaseRegistry, id: u32) -> bool {
    &&& !post.is_live(id)
    &&& forall|x: u32| x != id ==> (post.is_live(x) <==> pre.is_live(x))
    &&& forall|x: u32| post.unseen(x) <==> pre.unseen(x)
}

/// An identifier never granted is not live.
pub proof fn lemma_unseen_not_live(reg: LeaseRegistry, id: u32)
    requires
        reg.wf(),
        reg.unseen(id),
    ensures
        !reg.is_live(id),
{
}

/// The lease lifecycle law.  Granting a lease makes its fresh identifier
/// live, so revoking it right away succeeds (`revoke` returns `Ok` exactly
/// on live identifiers).  An identifier never returned by a grant is not
/// live, so revoking it fails.  And after a revoke the identifier is dead
/// for good, so a second revoke of it fails too.
pub proof fn lemma_lease_lifecycle(
    pre: LeaseRegistry,
    granted: LeaseRegistry,
    revoked: LeaseRegistry,
    id: u32,
    rogue: u32,
)
    requires
        pre.wf(),
        granted.wf(),
        grant_step(pre, granted, id),
        revoke_step(granted, revoked, id),
        pre.unseen(rogue),
        rogue != id,
    ensures
        granted.is_live(id),
        !granted.is_live(rogue),
        !revoked.is_live(id),
        !revoked.is_live(rogue),
{
    lemma_unseen_not_live(pre, rogue);
    assert(granted.unseen(rogue));
    lemma_unseen_not_live(granted, rogue);
}

} // verus!
