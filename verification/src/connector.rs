//! The connector call: modes, encoders, property identifiers and property
//! values for one connector, four kernel-owned arrays under three counts
//! (the two property arrays share `count_props`), retrieved jointly under
//! the fetch protocol.  Also the encoder getter and the connector property
//! setter, which are fixed-size calls.
//!
//! Two wrinkles of the call itself:
//! - the property identifier and value buffers must be requested together;
//!   handing over exactly one of them is a usage error reported before any
//!   kernel call;
//! - without `force_probe` the kernel is asked to reuse its cached detection
//!   state, and the probe advertises one mode slot (backed by a caller-side
//!   scratch descriptor) so the kernel always reports at least one mode and
//!   a first probe cannot race to zero modes.  With `force_probe` the kernel
//!   actively re-detects the signal, which is costly, and the probe
//!   advertises no mode slot.

use vstd::prelude::*;

use crate::error::Error;
use crate::fetch::{resize_to, resized};
use crate::records::{ConnectorSetProperty, GetConnector, GetEncoder, ModeInfo};

verus! {

/// The destination buffers of the call.  `None` declines an array;
/// `props` and `prop_values` must be given together or not at all.
pub struct ConnectorBuffers {
    pub props: Option<Vec<u32>>,
    pub prop_values: Option<Vec<u64>>,
    pub modes: Option<Vec<ModeInfo>>,
    pub encoders: Option<Vec<u32>>,
}

impl ConnectorBuffers {
    /// The property buffers are both given or both absent.
    pub open spec fn paired(self) -> bool {
        self.props is Some <==> self.prop_values is Some
    }

    /// At least one array is wanted.
    pub open spec fn any_present(self) -> bool {
        ||| self.props is Some
        ||| self.prop_values is Some
        ||| self.modes is Some
        ||| self.encoders is Some
    }

    /// `self` is `prev` with every present buffer resized to the counts of
    /// `c` (both property buffers to `count_props`), new slots zeroed,
    /// presence unchanged.
    pub open spec fn prepared_from(self, prev: ConnectorBuffers, c: GetConnector) -> bool {
        &&& (match (prev.props, self.props) {
            (Some(a), Some(b)) => resized(a@, b@, c.count_props as int, 0u32),
            (None, None) => true,
            _ => false,
        })
        &&& (match (prev.prop_values, self.prop_values) {
            (Some(a), Some(b)) => resized(a@, b@, c.count_props as int, 0u64),
            (None, None) => true,
            _ => false,
        })
        &&& (match (prev.modes, self.modes) {
            (Some(a), Some(b)) => resized(a@, b@, c.count_modes as int, ModeInfo::zero_spec()),
            (None, None) => true,
            _ => false,
        })
        &&& (match (prev.encoders, self.encoders) {
            (Some(a), Some(b)) => resized(a@, b@, c.count_encoders as int, 0u32),
            (None, None) => true,
            _ => false,
        })
    }

    /// Resize every present buffer to the counts of `c`.
    fn prepare(self, c: &GetConnector) -> (r: ConnectorBuffers)
        ensures
            r.prepared_from(self, *c),
    {
        let ConnectorBuffers { props, prop_values, modes, encoders } = self;
        let props = match props {
            Some(mut v) => {
                resize_to(&mut v, c.count_props as usize, 0u32);
                Some(v)
            },
            None => None,
        };
        let prop_values = match prop_values {
            Some(mut v) => {
                resize_to(&mut v, c.count_props as usize, 0u64);
                Some(v)
            },
            None => None,
        };
        let modes = match modes {
            Some(mut v) => {
                resize_to(&mut v, c.count_modes as usize, ModeInfo::zeroed());
                Some(v)
            },
            None => None,
        };
        let encoders = match encoders {
            Some(mut v) => {
                resize_to(&mut v, c.count_encoders as usize, 0u32);
                Some(v)
            },
            None => None,
        };
        ConnectorBuffers { props, prop_values, modes, encoders }
    }
}

/// The connector record `r` is the probe request for `connector_id`: one
/// advertised mode slot unless the kernel is told to re-detect, every other
/// field zero.
pub open spec fn connector_probe(r: GetConnector, connector_id: u32, force_probe: bool) -> bool {
    &&& r.connector_id == connector_id
    &&& r.count_modes == (if force_probe {
        0u32
    } else {
        1u32
    })
    &&& r.count_props == 0
    &&& r.count_encoders == 0
    &&& r.encoder_id == 0
    &&& r.connector_type == 0
    &&& r.connector_type_id == 0
    &&& r.connection == 0
    &&& r.mm_width == 0
    &&& r.mm_height == 0
    &&& r.subpixel == 0
}

/// The probed counts of a connector record match the reported ones: the
/// joint convergence condition of this call.
pub open spec fn connector_counts_stable(sized_to: GetConnector, reported: GetConnector) -> bool {
    &&& sized_to.count_modes == reported.count_modes
    &&& sized_to.count_props == reported.count_props
    &&& sized_to.count_encoders == reported.count_encoders
}

/// The count vector of this call, in the order the convergence model sees
/// it.
pub open spec fn connector_counts(r: GetConnector) -> Seq<u32> {
    seq![r.count_modes, r.count_props, r.count_encoders]
}

/// This call instantiates the generic fetch protocol: its convergence
/// condition is exactly `fetch::counts_stable` on its count vectors, so the
/// convergence theorem of `fetch` applies to its sessions.
pub proof fn lemma_connector_counts_stable(a: GetConnector, b: GetConnector)
    ensures
        connector_counts_stable(a, b) == crate::fetch::counts_stable(
            connector_counts(a),
            connector_counts(b),
        ),
{
    if connector_counts_stable(a, b) {
        assert(connector_counts(a) =~= connector_counts(b));
    }
    if crate::fetch::counts_stable(connector_counts(a), connector_counts(b)) {
        assert(connector_counts(a)[0] == connector_counts(b)[0]);
        assert(connector_counts(a)[1] == connector_counts(b)[1]);
        assert(connector_counts(a)[2] == connector_counts(b)[2]);
    }
}

/// A connector call about to probe: the probe record and what the session
/// must remember.
pub struct ConnectorProbe {
    pub request: GetConnector,
    pub bufs: ConnectorBuffers,
    pub force_probe: bool,
}

/// A connector fetch in flight.  `connector_id` is the caller's key,
/// repeated verbatim in every fetch request.
pub struct ConnectorCall {
    pub connector_id: u32,
    pub sizes: GetConnector,
    pub bufs: ConnectorBuffers,
    pub force_probe: bool,
}

impl ConnectorCall {
    /// The record to hand to the kernel for the next fetch.  A declined
    /// mode array still advertises the one scratch slot unless the kernel
    /// was told to re-detect; the other declined arrays advertise none.
    pub fn request(&self) -> (r: GetConnector)
        ensures
            r.connector_id == self.connector_id,
            r.count_modes == (if self.bufs.modes is Some {
                self.sizes.count_modes
            } else if self.force_probe {
                0u32
            } else {
                1u32
            }),
            r.count_props == (if self.bufs.props is Some {
                self.sizes.count_props
            } else {
                0u32
            }),
            r.count_encoders == (if self.bufs.encoders is Some {
                self.sizes.count_encoders
            } else {
                0u32
            }),
            r.encoder_id == 0 && r.connector_type == 0 && r.connector_type_id == 0 && r.connection
                == 0 && r.mm_width == 0 && r.mm_height == 0 && r.subpixel == 0,
    {
        GetConnector {
            count_modes: if self.bufs.modes.is_some() {
                self.sizes.count_modes
            } else if self.force_probe {
                0
            } else {
                1
            },
            count_props: if self.bufs.props.is_some() {
                self.sizes.count_props
            } else {
                0
            },
            count_encoders: if self.bufs.encoders.is_some() {
                self.sizes.count_encoders
            } else {
                0
            },
            encoder_id: 0,
            connector_id: self.connector_id,
            connector_type: 0,
            connector_type_id: 0,
            connection: 0,
            mm_width: 0,
            mm_height: 0,
            subpixel: 0,
        }
    }
}

/// One step of the session.
pub enum ConnectorStep {
    /// The call is complete: the authoritative record and the buffers, each
    /// present one's length equal to the record's count for it.
    Done(GetConnector, ConnectorBuffers),
    /// A fetch must be issued with `ConnectorCall::request`.
    Fetch(ConnectorCall),
}

/// Open the session for connector `connector_id`.  An unpaired pair of
/// property buffers is a usage error, reported here, before any kernel
/// call.  Otherwise the probe record is returned beside the kept state.
pub fn get_connector(connector_id: u32, bufs: ConnectorBuffers, force_probe: bool) -> (r: Result<
    ConnectorProbe,
    Error,
>)
    ensures
        bufs.paired() ==> (r matches Ok(p) && connector_probe(p.request, connector_id, force_probe)
            && p.bufs == bufs
            && p.force_probe == force_probe),
        !bufs.paired() ==> (r matches Err(e) && e == Error::UnpairedBuffers),
{
    if bufs.props.is_some() != bufs.prop_values.is_some() {
        return Err(Error::UnpairedBuffers);
    }
    let request = GetConnector {
        count_modes: if force_probe {
            0
        } else {
            1
        },
        count_props: 0,
        count_encoders: 0,
        encoder_id: 0,
        connector_id,
        connector_type: 0,
        connector_type_id: 0,
        connection: 0,
        mm_width: 0,
        mm_height: 0,
        subpixel: 0,
    };
    Ok(ConnectorProbe { request, bufs, force_probe })
}

/// Absorb the kernel's answer to the probe.  With no buffer present the
/// probe is the whole call — the buffers are untouched and no fetch is ever
/// issued; otherwise the buffers are sized to the probed counts and a fetch
/// is due.
pub fn connector_after_probe(probe: ConnectorProbe, reply: GetConnector) -> (r: ConnectorStep)
    ensures
        !probe.bufs.any_present() ==> r == ConnectorStep::Done(reply, probe.bufs),
        probe.bufs.any_present() ==> (r matches ConnectorStep::Fetch(c) && c.sizes == reply
            && c.connector_id == probe.request.connector_id
            && c.force_probe == probe.force_probe
            && c.bufs.prepared_from(probe.bufs, reply)),
{
    let ConnectorProbe { request, bufs, force_probe } = probe;
    let any = bufs.props.is_some() || bufs.prop_values.is_some() || bufs.modes.is_some()
        || bufs.encoders.is_some();
    if !any {
        ConnectorStep::Done(reply, bufs)
    } else {
        let prepared = bufs.prepare(&reply);
        ConnectorStep::Fetch(
            ConnectorCall {
                connector_id: request.connector_id,
                sizes: reply,
                bufs: prepared,
                force_probe,
            },
        )
    }
}

/// Absorb the kernel's answer to a fetch.  The fetch is authoritative
/// exactly when all three reported counts equal the counts the buffers were
/// sized to; then every present buffer's length is the reported count —
/// never a stale length, never the capacity.  Otherwise the reported counts
/// become the new sizing and the fetch must be reissued.
pub fn connector_on_fetch(call: ConnectorCall, reply: GetConnector) -> (r: ConnectorStep)
    ensures
        connector_counts_stable(call.sizes, reply) ==> (r matches ConnectorStep::Done(info, bufs)
            && info == reply
            && bufs.prepared_from(call.bufs, reply)),
        !connector_counts_stable(call.sizes, reply) ==> (r matches ConnectorStep::Fetch(c)
            && c.sizes == reply
            && c.connector_id == call.connector_id
            && c.force_probe == call.force_probe
            && c.bufs.prepared_from(call.bufs, reply)),
{
    let ConnectorCall { connector_id, sizes, bufs, force_probe } = call;
    let prepared = bufs.prepare(&reply);
    let stable = sizes.count_modes == reply.count_modes && sizes.count_props == reply.count_props
        && sizes.count_encoders == reply.count_encoders;
    if stable {
        ConnectorStep::Done(reply, prepared)
    } else {
        ConnectorStep::Fetch(
            ConnectorCall { connector_id, sizes: reply, bufs: prepared, force_probe },
        )
    }
}

/// Probing is idempotent.  The probe request for a connector is one fixed
/// record determined by the connector and the re-detect choice alone — two
/// probes of the same connector are the very same call — and a probe step
/// with no destination buffers hands every buffer back untouched (see
/// `connector_after_probe`), so probing twice is side-effect-free on all
/// caller state.
pub proof fn lemma_probe_idempotent(
    a: GetConnector,
    b: GetConnector,
    connector_id: u32,
    force_probe: bool,
)
    requires
        connector_probe(a, connector_id, force_probe),
        connector_probe(b, connector_id, force_probe),
    ensures
        a == b,
{
    assert(a =~= b);
}

/// Request record asking for the description of encoder `encoder_id`.
pub fn get_encoder(encoder_id: u32) -> (r: GetEncoder)
    ensures
        r.encoder_id == encoder_id,
        r.encoder_type == 0,
        r.crtc_id == 0,
        r.possible_crtcs == 0,
        r.possible_clones == 0,
{
    GetEncoder { encoder_id, encoder_type: 0, crtc_id: 0, possible_crtcs: 0, possible_clones: 0 }
}

/// Request record setting property `prop_id` of connector `connector_id`
/// to `value`.
pub fn set_connector_property(connector_id: u32, prop_id: u32, value: u64) -> (r:
    ConnectorSetProperty)
    ensures
        r.connector_id == connector_id,
        r.prop_id == prop_id,
        r.value == value,
{
    ConnectorSetProperty { value, prop_id, connector_id }
}

} // verus!
