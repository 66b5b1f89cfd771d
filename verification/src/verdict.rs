//! The stream-verdict decision.
//!
//! The kernel hook reads four fields out of a segment's metadata and probes
//! the lookup map with two candidate keys, in order: first the remote
//! endpoint as the kernel presents it (port in network byte order), then
//! the local endpoint (port in host byte order). On a hit it redirects to
//! the socket at the resolved slot; a failed redirect drops the segment,
//! and a double miss passes it to the owning socket, which is the fallback
//! path before enrollment and after disenrollment.

use vstd::prelude::*;
use crate::key::IdxMapKey;
use crate::shared::Shared;

verus! {

/// What the stream parser reports for a segment: the whole segment length
/// is one message, so the verdict runs once per segment.
#[derive(Clone, Copy, Debug, PartialEq, Eq, Structural)]
pub enum StreamParserAction {
    MessageLength(u32),
}

/// The stream parser's decision: no reassembly, one message per segment.
pub fn parse_message_boundary(segment_len: u32) -> (r: StreamParserAction)
    ensures
        r == StreamParserAction::MessageLength(segment_len),
{
    StreamParserAction::MessageLength(segment_len)
}

/// The verdict hook's view of one segment: the four metadata fields it
/// reads. The kernel stores the remote port in network byte order and the
/// local port in host byte order, both in 32-bit fields.
#[derive(Clone, Copy, Debug, PartialEq, Eq, Structural)]
pub struct SegmentMeta {
    pub remote_ip4: u32,
    pub remote_port: u32,
    pub local_ip4: u32,
    pub local_port: u32,
}

impl SegmentMeta {
    /// First candidate key: the segment's remote endpoint, fields as the
    /// kernel presents them.
    pub open spec fn remote_key(self) -> IdxMapKey {
        IdxMapKey { addr: self.remote_ip4, port: self.remote_port }
    }

    /// Second candidate key: the segment's local endpoint, fields as the
    /// kernel presents them.
    pub open spec fn local_key(self) -> IdxMapKey {
        IdxMapKey { addr: self.local_ip4, port: self.local_port }
    }
}

/// The slot the verdict redirects a segment to: the remote-endpoint key is
/// probed first, then the local-endpoint key; no hit means no redirect.
pub open spec fn verdict_slot_of(m: Map<u64, u32>, seg: SegmentMeta) -> Option<u32> {
    if m.contains_key(seg.remote_key().as_u64()) {
        Some(m[seg.remote_key().as_u64()])
    } else if m.contains_key(seg.local_key().as_u64()) {
        Some(m[seg.local_key().as_u64()])
    } else {
        None
    }
}

/// Resolve the slot for one segment against the controller's lookup map,
/// probing the remote-endpoint key and then the local-endpoint key.
pub fn verdict_slot(shared: &Shared, seg: SegmentMeta) -> (r: Option<u32>)
    ensures
        r == verdict_slot_of(shared.lookup_map(), seg),
{
    let remote = IdxMapKey { addr: seg.remote_ip4, port: seg.remote_port };
    match shared.get_slot(remote) {
        Some(slot) => Some(slot),
        None => {
            let local = IdxMapKey { addr: seg.local_ip4, port: seg.local_port };
            shared.get_slot(local)
        },
    }
}

/// The verdict on one segment.
#[derive(Clone, Copy, Debug, PartialEq, Eq, Structural)]
pub enum SkAction {
    /// Deliver: to the peer socket after a successful redirect, or to the
    /// owning socket when no key matched.
    Pass,
    /// A key matched but the redirect primitive refused the slot.
    Drop,
}

/// The verdict for a resolved slot, given whether the kernel's redirect
/// primitive accepted it: a miss or a successful redirect passes, a failed
/// redirect drops.
pub open spec fn verdict_action_of(hit: Option<u32>, redirect_ok: bool) -> SkAction {
    match hit {
        Some(_) => if redirect_ok {
            SkAction::Pass
        } else {
            SkAction::Drop
        },
        None => SkAction::Pass,
    }
}

/// Combine the lookup outcome with the redirect primitive's answer. The
/// redirect happens outside this crate, so its outcome is an argument; the
/// verdict is fixed for every value of it.
pub fn verdict_action(hit: Option<u32>, redirect_ok: bool) -> (r: SkAction)
    ensures
        r == verdict_action_of(hit, redirect_ok),
{
    match hit {
        Some(_) => if redirect_ok {
            SkAction::Pass
        } else {
            SkAction::Drop
        },
        None => SkAction::Pass,
    }
}

/// Law of the two-key probe for an enrolled pair. Enrollment installs the
/// inbound peer's key and the outbound local key. A segment arriving on
/// the inbound socket carries the peer as its *remote* endpoint, so the
/// first probe finds the inbound key; a segment arriving on the outbound
/// socket carries the enrolled endpoint as its *local* endpoint, so the
/// second probe finds the outbound key, provided its remote endpoint is
/// not itself enrolled.
pub proof fn lemma_enrolled_pair_probes(
    m: Map<u64, u32>,
    key_in: IdxMapKey,
    key_out: IdxMapKey,
    s1: u32,
    s2: u32,
    seg_in: SegmentMeta,
    seg_out: SegmentMeta,
)
    requires
        !m.contains_key(key_in.as_u64()),
        !m.contains_key(key_out.as_u64()),
        key_in.as_u64() != key_out.as_u64(),
        seg_in.remote_key() == key_in,
        seg_out.local_key() == key_out,
        !m.insert(key_in.as_u64(), s1).insert(key_out.as_u64(), s2).contains_key(
            seg_out.remote_key().as_u64(),
        ),
    ensures
        verdict_slot_of(m.insert(key_in.as_u64(), s1).insert(key_out.as_u64(), s2), seg_in)
            == Some(s1),
        verdict_slot_of(m.insert(key_in.as_u64(), s1).insert(key_out.as_u64(), s2), seg_out)
            == Some(s2),
{
}

/// Law of rebinding: once a key has been deleted and enrolled again, the
/// verdict redirects a matching segment by the new binding alone, whatever
/// slot the key had before.
pub proof fn lemma_rebind_redirects_to_new_slot(
    m: Map<u64, u32>,
    k: IdxMapKey,
    s2: u32,
    seg: SegmentMeta,
)
    requires
        seg.remote_key() == k,
    ensures
        verdict_slot_of(m.remove(k.as_u64()).insert(k.as_u64(), s2), seg) == Some(s2),
{
}

} // verus!
