//! The card resource enumeration call: framebuffer, CRTC, connector and
//! encoder identifiers, four kernel-owned arrays retrieved jointly under the
//! fetch protocol of `fetch`.
//!
//! The caller drives the session: `get_resources` yields the probe record,
//! the kernel's answer goes into `resources_after_probe`, and every further
//! answer into `resources_on_fetch`, until a `Done` step delivers the
//! authoritative record and the filled buffers.

use vstd::prelude::*;

use crate::fetch::{resize_to, resized};
use crate::records::CardRes;

verus! {

/// The destination buffers of the call.  `None` declines the corresponding
/// array: the caller wants only the counts.
pub struct CardBuffers {
    pub fbs: Option<Vec<u32>>,
    pub crtcs: Option<Vec<u32>>,
    pub connectors: Option<Vec<u32>>,
    pub encoders: Option<Vec<u32>>,
}

impl CardBuffers {
    /// At least one array is wanted.
    pub open spec fn any_present(self) -> bool {
        ||| self.fbs is Some
        ||| self.crtcs is Some
        ||| self.connectors is Some
        ||| self.encoders is Some
    }

    /// `self` is `prev` with every present buffer resized to the counts of
    /// `c` (new slots zero), presence unchanged.
    pub open spec fn prepared_from(self, prev: CardBuffers, c: CardRes) -> bool {
        &&& (match (prev.fbs, self.fbs) {
            (Some(a), Some(b)) => resized(a@, b@, c.count_fbs as int, 0u32),
            (None, None) => true,
            _ => false,
        })
        &&& (match (prev.crtcs, self.crtcs) {
            (Some(a), Some(b)) => resized(a@, b@, c.count_crtcs as int, 0u32),
            (None, None) => true,
            _ => false,
        })
        &&& (match (prev.connectors, self.connectors) {
            (Some(a), Some(b)) => resized(a@, b@, c.count_connectors as int, 0u32),
            (None, None) => true,
            _ => false,
        })
        &&& (match (prev.encoders, self.encoders) {
            (Some(a), Some(b)) => resized(a@, b@, c.count_encoders as int, 0u32),
            (None, None) => true,
            _ => false,
        })
    }

    /// Resize every present buffer to the counts of `c`.
    fn prepare(self, c: &CardRes) -> (r: CardBuffers)
        ensures
            r.prepared_from(self, *c),
    {
        let CardBuffers { fbs, crtcs, connectors, encoders } = self;
        CardBuffers {
            fbs: prepare_one(fbs, c.count_fbs),
            crtcs: prepare_one(crtcs, c.count_crtcs),
            connectors: prepare_one(connectors, c.count_connectors),
            encoders: prepare_one(encoders, c.count_encoders),
        }
    }
}

/// Resize one optional buffer to `n` elements, new slots zero.
fn prepare_one(buf: Option<Vec<u32>>, n: u32) -> (r: Option<Vec<u32>>)
    ensures
        (match (buf, r) {
            (Some(a), Some(b)) => resized(a@, b@, n as int, 0u32),
            (None, None) => true,
            _ => false,
        }),
{
    match buf {
        Some(mut v) => {
            resize_to(&mut v, n as usize, 0u32);
            Some(v)
        },
        None => None,
    }
}

/// The probed counts of a card resource record match the reported ones: the
/// joint convergence condition of this call.
pub open spec fn card_counts_stable(sized_to: CardRes, reported: CardRes) -> bool {
    &&& sized_to.count_fbs == reported.count_fbs
    &&& sized_to.count_crtcs == reported.count_crtcs
    &&& sized_to.count_connectors == reported.count_connectors
    &&& sized_to.count_encoders == reported.count_encoders
}

/// The count vector of this call, in the order the convergence model sees
/// it.
pub open spec fn card_counts(r: CardRes) -> Seq<u32> {
    seq![r.count_fbs, r.count_crtcs, r.count_connectors, r.count_encoders]
}

/// This call instantiates the generic fetch protocol: its convergence
/// condition is exactly `fetch::counts_stable` on its count vectors, so the
/// convergence theorem of `fetch` applies to its sessions.
pub proof fn lemma_card_counts_stable(a: CardRes, b: CardRes)
    ensures
        card_counts_stable(a, b) == crate::fetch::counts_stable(card_counts(a), card_counts(b)),
{
    if card_counts_stable(a, b) {
        assert(card_counts(a) =~= card_counts(b));
    }
    if crate::fetch::counts_stable(card_counts(a), card_counts(b)) {
        assert(card_counts(a)[0] == card_counts(b)[0]);
        assert(card_counts(a)[1] == card_counts(b)[1]);
        assert(card_counts(a)[2] == card_counts(b)[2]);
        assert(card_counts(a)[3] == card_counts(b)[3]);
    }
}

/// A card resource fetch in flight: the record whose counts the buffers are
/// sized to, and the buffers.
pub struct ResourcesCall {
    pub sizes: CardRes,
    pub bufs: CardBuffers,
}

impl ResourcesCall {
    /// The record to hand to the kernel for the next fetch: each wanted
    /// array's count field carries the buffer's capacity, each declined
    /// array's stays 0, every other field is 0.
    pub fn request(&self) -> (r: CardRes)
        ensures
            r.count_fbs == (if self.bufs.fbs is Some {
                self.sizes.count_fbs
            } else {
                0u32
            }),
            r.count_crtcs == (if self.bufs.crtcs is Some {
                self.sizes.count_crtcs
            } else {
                0u32
            }),
            r.count_connectors == (if self.bufs.connectors is Some {
                self.sizes.count_connectors
            } else {
                0u32
            }),
            r.count_encoders == (if self.bufs.encoders is Some {
                self.sizes.count_encoders
            } else {
                0u32
            }),
            r.min_width == 0 && r.max_width == 0 && r.min_height == 0 && r.max_height == 0,
    {
        CardRes {
            count_fbs: if self.bufs.fbs.is_some() {
                self.sizes.count_fbs
            } else {
                0
            },
            count_crtcs: if self.bufs.crtcs.is_some() {
                self.sizes.count_crtcs
            } else {
                0
            },
            count_connectors: if self.bufs.connectors.is_some() {
                self.sizes.count_connectors
            } else {
                0
            },
            count_encoders: if self.bufs.encoders.is_some() {
                self.sizes.count_encoders
            } else {
                0
            },
            min_width: 0,
            max_width: 0,
            min_height: 0,
            max_height: 0,
        }
    }
}

/// One step of the session.
pub enum ResourcesStep {
    /// The call is complete: the authoritative record and the buffers, each
    /// present one's length equal to the record's count for it.
    Done(CardRes, CardBuffers),
    /// A fetch must be issued with `ResourcesCall::request`.
    Fetch(ResourcesCall),
}

/// The probe record of the call: all counts zero and no destination
/// buffers, so the kernel only writes back its current counts.
pub fn get_resources() -> (r: CardRes)
    ensures
        r == (CardRes {
            count_fbs: 0,
            count_crtcs: 0,
            count_connectors: 0,
            count_encoders: 0,
            min_width: 0,
            max_width: 0,
            min_height: 0,
            max_height: 0,
        }),
{
    CardRes {
        count_fbs: 0,
        count_crtcs: 0,
        count_connectors: 0,
        count_encoders: 0,
        min_width: 0,
        max_width: 0,
        min_height: 0,
        max_height: 0,
    }
}

/// Absorb the kernel's answer to the probe.  With no buffer present the
/// probe is the whole call — the buffers are untouched and no fetch is ever
/// issued; otherwise the buffers are sized to the probed counts and a fetch
/// is due.
pub fn resources_after_probe(probe: CardRes, bufs: CardBuffers) -> (r: ResourcesStep)
    ensures
        !bufs.any_present() ==> r == ResourcesStep::Done(probe, bufs),
        bufs.any_present() ==> (r matches ResourcesStep::Fetch(c) && c.sizes == probe
            && c.bufs.prepared_from(bufs, probe)),
{
    let any = bufs.fbs.is_some() || bufs.crtcs.is_some() || bufs.connectors.is_some()
        || bufs.encoders.is_some();
    if !any {
        ResourcesStep::Done(probe, bufs)
    } else {
        let prepared = bufs.prepare(&probe);
        ResourcesStep::Fetch(ResourcesCall { sizes: probe, bufs: prepared })
    }
}

/// Absorb the kernel's answer to a fetch.  The fetch is authoritative
/// exactly when every count it reports equals the count the buffers were
/// sized to; then every present buffer's length is the reported count —
/// never a stale length, never the capacity.  Otherwise the reported counts
/// become the new sizing and the fetch must be reissued.
pub fn resources_on_fetch(call: ResourcesCall, reply: CardRes) -> (r: ResourcesStep)
    ensures
        card_counts_stable(call.sizes, reply) ==> (r matches ResourcesStep::Done(info, bufs)
            && info == reply
            && bufs.prepared_from(call.bufs, reply)),
        !card_counts_stable(call.sizes, reply) ==> (r matches ResourcesStep::Fetch(c)
            && c.sizes == reply
            && c.bufs.prepared_from(call.bufs, reply)),
{
    let ResourcesCall { sizes, bufs } = call;
    let prepared = bufs.prepare(&reply);
    let stable = sizes.count_fbs == reply.count_fbs && sizes.count_crtcs == reply.count_crtcs
        && sizes.count_connectors == reply.count_connectors
        && sizes.count_encoders == reply.count_encoders;
    if stable {
        ResourcesStep::Done(reply, prepared)
    } else {
        ResourcesStep::Fetch(ResourcesCall { sizes: reply, bufs: prepared })
    }
}

} // verus!
