//! Per-connection lifecycle: enrollment and teardown decisions.
//!
//! A connection pair is accepted, connected to its outbound half, then
//! enrolled in the shared map controller when both peer addresses are
//! IPv4 — the inbound peer under a remote-endpoint key, the outbound local
//! address under a local-endpoint key. Anything else, and any enrollment
//! failure, falls back to the plain userspace copy with no map entries at
//! all. As each copy direction finishes, its key is deleted at once, before
//! the operating system can hand the endpoint to an unrelated connection.

use vstd::prelude::*;
use crate::key::IdxMapKey;
use crate::key::net32;
use crate::shared::Shared;
use crate::verdict::SegmentMeta;

verus! {

/// An endpoint as the lifecycle logic reads it: for IPv4, the address and
/// port as plain host-order values; anything else is opaque.
#[derive(Clone, Copy, Debug, PartialEq, Eq, Structural)]
pub enum RelayAddr {
    V4 { ip: u32, port: u16 },
    Other,
}

/// The key enrolled for the inbound direction: the inbound socket's peer
/// endpoint, which a segment on that socket carries as its remote
/// endpoint, so both fields go to network byte order.
pub open spec fn key_in_of(ip: u32, port: u16) -> IdxMapKey {
    IdxMapKey { addr: net32(ip), port: net32(port as u32) }
}

/// The key enrolled for the outbound direction: the outbound socket's
/// local endpoint, which a segment on that socket carries as its local
/// endpoint, so the port stays in host byte order.
pub open spec fn key_out_of(ip: u32, port: u16) -> IdxMapKey {
    IdxMapKey { addr: net32(ip), port: port as u32 }
}

/// The pair of keys a connection is enrolled under, if it is enrolled at
/// all: IPv4 on both sides is required.
pub open spec fn enroll_keys_of(in_peer: RelayAddr, out_local: RelayAddr) -> Option<
    (IdxMapKey, IdxMapKey),
> {
    match (in_peer, out_local) {
        (RelayAddr::V4 { ip: in_ip, port: in_port }, RelayAddr::V4 { ip: out_ip, port: out_port })
            => Some((key_in_of(in_ip, in_port), key_out_of(out_ip, out_port))),
        _ => None,
    }
}

/// Build the two enrollment keys, or nothing when either side is not IPv4.
pub fn enrollment_keys(in_peer: RelayAddr, out_local: RelayAddr) -> (r: Option<
    (IdxMapKey, IdxMapKey),
>)
    ensures
        r == enroll_keys_of(in_peer, out_local),
{
    match (in_peer, out_local) {
        (
            RelayAddr::V4 { ip: in_ip, port: in_port },
            RelayAddr::V4 { ip: out_ip, port: out_port },
        ) => Some((IdxMapKey::remote(in_ip, in_port), IdxMapKey::local(out_ip, out_port))),
        _ => None,
    }
}

/// Where a connection pair stands.
#[derive(Clone, Copy, Debug, PartialEq, Eq, Structural)]
pub enum PairState {
    /// The inbound socket exists.
    Accepted,
    /// The outbound socket exists too.
    Connected,
    /// Both sockets are in the kernel maps.
    Enrolled,
    /// The pair runs on the userspace copy alone.
    Unenrolled,
    /// The inbound-to-outbound copy has finished and its key is gone.
    HalfClosedIn,
    /// The outbound-to-inbound copy has finished and its key is gone.
    HalfClosedOut,
    /// Both directions are down and no key remains.
    Closed,
}

/// One copy direction of a pair.
#[derive(Clone, Copy, Debug, PartialEq, Eq, Structural)]
pub enum Direction {
    /// Inbound socket to outbound socket.
    InToOut,
    /// Outbound socket to inbound socket.
    OutToIn,
}

/// The state a pair moves to when one copy direction finishes: the first
/// finish half-closes, the second closes.
pub open spec fn next_state_of(st: PairState, dir: Direction) -> PairState {
    match dir {
        Direction::InToOut => if st is HalfClosedOut {
            PairState::Closed
        } else {
            PairState::HalfClosedIn
        },
        Direction::OutToIn => if st is HalfClosedIn {
            PairState::Closed
        } else {
            PairState::HalfClosedOut
        },
    }
}

/// The transient record for one accepted relay connection.
pub struct Pair {
    /// Where the pair stands.
    pub state: PairState,
    /// Descriptor of the accepted inbound socket.
    pub in_fd: i32,
    /// Descriptor of the outbound socket.
    pub out_fd: i32,
    /// Key enrolled for the inbound direction, held for its later delete.
    pub key_in: Option<IdxMapKey>,
    /// Key enrolled for the outbound direction, held for its later delete.
    pub key_out: Option<IdxMapKey>,
}

impl Pair {
    /// Keys exist exactly in the states that carry them: both before a
    /// half-close of an enrolled pair, the surviving one after the first
    /// half-close, none anywhere else.
    pub open spec fn wf(self) -> bool {
        &&& self.state is Accepted || self.state is Connected || self.state is Unenrolled
            || self.state is Closed ==> self.key_in is None && self.key_out is None
        &&& self.state is Enrolled ==> self.key_in is Some && self.key_out is Some
        &&& self.state is HalfClosedIn ==> self.key_in is None
        &&& self.state is HalfClosedOut ==> self.key_out is None
    }

    /// Every key the pair holds is enrolled in the controller, under a slot
    /// whose socket-map entry is the opposite socket, and the two keys are
    /// distinct.
    pub open spec fn entries_live(self, sh: Shared) -> bool {
        &&& match self.key_in {
            Some(k) => sh.lookup_map().contains_key(k.as_u64()) && sh.sock_map().contains_key(
                sh.lookup_map()[k.as_u64()],
            ) && sh.sock_map()[sh.lookup_map()[k.as_u64()]] == self.out_fd,
            None => true,
        }
        &&& match self.key_out {
            Some(k) => sh.lookup_map().contains_key(k.as_u64()) && sh.sock_map().contains_key(
                sh.lookup_map()[k.as_u64()],
            ) && sh.sock_map()[sh.lookup_map()[k.as_u64()]] == self.in_fd,
            None => true,
        }
        &&& match (self.key_in, self.key_out) {
            (Some(k1), Some(k2)) => k1.as_u64() != k2.as_u64(),
            _ => true,
        }
    }

    /// A freshly accepted pair: only the inbound socket exists.
    pub fn accept(in_fd: i32) -> (p: Pair)
        ensures
            p.wf(),
            p.state is Accepted,
            p.in_fd == in_fd,
            p.key_in is None,
            p.key_out is None,
    {
        Pair { state: PairState::Accepted, in_fd, out_fd: -1, key_in: None, key_out: None }
    }

    /// The outbound half exists: the strategy produced a connected socket.
    pub fn connect(&mut self, out_fd: i32)
        requires
            old(self).wf(),
            old(self).state is Accepted,
        ensures
            final(self).wf(),
            final(self).state is Connected,
            final(self).in_fd == old(self).in_fd,
            final(self).out_fd == out_fd,
            final(self).key_in is None,
            final(self).key_out is None,
    {
        self.out_fd = out_fd;
        self.state = PairState::Connected;
    }

    /// Enroll the pair in the kernel maps: the outbound socket under the
    /// inbound peer's key and the inbound socket under the outbound local
    /// key, as a unit — if the second write is refused the first is rolled
    /// back. A non-IPv4 side or a refused write leaves the controller
    /// exactly as it was and the pair unenrolled, to run on the userspace
    /// copy; the connection is never dropped for it.
    pub fn enroll(&mut self, shared: &mut Shared, in_peer: RelayAddr, out_local: RelayAddr)
        requires
            old(self).wf(),
            old(self).state is Connected,
            old(shared).inv(),
        ensures
            final(shared).inv(),
            final(shared).cap() == old(shared).cap(),
            final(self).wf(),
            final(self).in_fd == old(self).in_fd,
            final(self).out_fd == old(self).out_fd,
            final(self).state is Enrolled || final(self).state is Unenrolled,
            enroll_keys_of(in_peer, out_local) is None ==> final(self).state is Unenrolled,
            final(self).state is Unenrolled ==> {
                &&& final(self).key_in is None
                &&& final(self).key_out is None
                &&& final(shared).lookup_map() == old(shared).lookup_map()
                &&& final(shared).sock_map() == old(shared).sock_map()
                &&& final(shared).live() == old(shared).live()
            },
            final(self).state is Enrolled ==> ({
                let kin = enroll_keys_of(in_peer, out_local)->Some_0.0;
                let kout = enroll_keys_of(in_peer, out_local)->Some_0.1;
                &&& enroll_keys_of(in_peer, out_local) is Some
                &&& final(self).key_in == Some(kin)
                &&& final(self).key_out == Some(kout)
                &&& !old(shared).lookup_map().contains_key(kin.as_u64())
                &&& !old(shared).lookup_map().contains_key(kout.as_u64())
                &&& exists|s1: u32, s2: u32|
                    {
                        &&& !old(shared).live().contains(s1 as int)
                        &&& !old(shared).live().insert(s1 as int).contains(s2 as int)
                        &&& #[trigger] final(shared).lookup_map() == old(
                            shared,
                        ).lookup_map().insert(kin.as_u64(), s1).insert(kout.as_u64(), s2)
                        &&& final(shared).sock_map() == old(shared).sock_map().insert(
                            s1,
                            old(self).out_fd,
                        ).insert(s2, old(self).in_fd)
                        &&& final(shared).live() == old(shared).live().insert(s1 as int).insert(
                            s2 as int,
                        )
                    }
                &&& final(self).entries_live(*final(shared))
            }),
            ({
                let kin = enroll_keys_of(in_peer, out_local)->Some_0.0;
                let kout = enroll_keys_of(in_peer, out_local)->Some_0.1;
                &&& enroll_keys_of(in_peer, out_local) is Some
                &&& kin.as_u64() != kout.as_u64()
                &&& !old(shared).lookup_map().contains_key(kin.as_u64())
                &&& !old(shared).lookup_map().contains_key(kout.as_u64())
                &&& old(shared).live().len() + 2 <= old(shared).cap()
            }) ==> final(self).state is Enrolled,
    {
        let keys = enrollment_keys(in_peer, out_local);
        match keys {
            None => {
                self.state = PairState::Unenrolled;
            },
            Some((kin, kout)) => {
                match shared.add(self.out_fd, kin) {
                    Err(_) => {
                        self.state = PairState::Unenrolled;
                    },
                    Ok(s1) => {
                        match shared.add(self.in_fd, kout) {
                            Ok(s2) => {
                                self.key_in = Some(kin);
                                self.key_out = Some(kout);
                                self.state = PairState::Enrolled;
                            },
                            Err(_) => {
                                let _ = shared.delete(kin);
                                proof {
                                    assert(shared.lookup_map() =~= old(shared).lookup_map());
                                    assert(shared.sock_map() =~= old(shared).sock_map());
                                    assert(shared.live() =~= old(shared).live());
                                }
                                self.state = PairState::Unenrolled;
                            },
                        }
                    },
                }
            },
        }
    }

    /// Give an enrollment back: delete both keys from the controller and
    /// fall back to the userspace copy, as when the kernel's own side of
    /// the two writes could not be completed. The freed slots come back so
    /// the caller can mirror the kernel deletes — the inbound key's first,
    /// then the outbound key's.
    pub fn unenroll(&mut self, shared: &mut Shared) -> (freed: (Option<u32>, Option<u32>))
        requires
            old(self).wf(),
            old(self).state is Enrolled,
            old(shared).inv(),
        ensures
            final(shared).inv(),
            final(shared).cap() == old(shared).cap(),
            final(self).wf(),
            final(self).state is Unenrolled,
            final(self).key_in is None,
            final(self).key_out is None,
            final(self).in_fd == old(self).in_fd,
            final(self).out_fd == old(self).out_fd,
            exists|mid: Shared|
                #[trigger] deleted_one(*old(shared), mid, old(self).key_in, freed.0)
                    && deleted_one(mid, *final(shared), old(self).key_out, freed.1),
    {
        let f1 = match self.key_in {
            Some(k) => shared.delete(k),
            None => None,
        };
        let ghost mid = *shared;
        let f2 = match self.key_out {
            Some(k) => shared.delete(k),
            None => None,
        };
        self.key_in = None;
        self.key_out = None;
        self.state = PairState::Unenrolled;
        let r = (f1, f2);
        proof {
            assert(deleted_one(*old(shared), mid, old(self).key_in, r.0) && deleted_one(
                mid,
                *shared,
                old(self).key_out,
                r.1,
            ));
            assert(exists|m: Shared|
                #[trigger] deleted_one(*old(shared), m, old(self).key_in, r.0) && deleted_one(
                    m,
                    *shared,
                    old(self).key_out,
                    r.1,
                ));
        }
        r
    }

    /// One copy direction has finished: delete its key at once — before
    /// the far endpoint can be reused — and advance the state. The freed
    /// slot is handed back so the caller can mirror the kernel deletes.
    pub fn on_copy_done(&mut self, shared: &mut Shared, dir: Direction) -> (freed: Option<u32>)
        requires
            old(self).wf(),
            old(shared).inv(),
            dir is InToOut ==> old(self).state is Enrolled || old(self).state is Unenrolled || old(
                self,
            ).state is HalfClosedOut,
            dir is OutToIn ==> old(self).state is Enrolled || old(self).state is Unenrolled || old(
                self,
            ).state is HalfClosedIn,
        ensures
            final(shared).inv(),
            final(shared).cap() == old(shared).cap(),
            final(self).wf(),
            final(self).in_fd == old(self).in_fd,
            final(self).out_fd == old(self).out_fd,
            final(self).state == next_state_of(old(self).state, dir),
            dir is InToOut ==> final(self).key_in is None && final(self).key_out == old(
                self,
            ).key_out,
            dir is OutToIn ==> final(self).key_out is None && final(self).key_in == old(
                self,
            ).key_in,
            deleted_one(
                *old(shared),
                *final(shared),
                if dir is InToOut {
                    old(self).key_in
                } else {
                    old(self).key_out
                },
                freed,
            ),
    {
        let key_opt = match dir {
            Direction::InToOut => self.key_in,
            Direction::OutToIn => self.key_out,
        };
        let freed = match key_opt {
            Some(k) => shared.delete(k),
            None => None,
        };
        match dir {
            Direction::InToOut => {
                self.key_in = None;
                self.state = match self.state {
                    PairState::HalfClosedOut => PairState::Closed,
                    _ => PairState::HalfClosedIn,
                };
            },
            Direction::OutToIn => {
                self.key_out = None;
                self.state = match self.state {
                    PairState::HalfClosedIn => PairState::Closed,
                    _ => PairState::HalfClosedOut,
                };
            },
        }
        freed
    }
}

/// How one teardown step changes the controller: the direction's key, if
/// the pair held one, is removed together with its slot and socket-map
/// entry; otherwise nothing changes.
pub open spec fn deleted_one(
    before: Shared,
    after: Shared,
    key: Option<IdxMapKey>,
    freed: Option<u32>,
) -> bool {
    match key {
        None => {
            &&& freed is None
            &&& after.lookup_map() == before.lookup_map()
            &&& after.sock_map() == before.sock_map()
            &&& after.live() == before.live()
        },
        Some(k) => match freed {
            Some(s) => {
                &&& before.lookup_map().contains_key(k.as_u64())
                &&& s == before.lookup_map()[k.as_u64()]
                &&& after.lookup_map() == before.lookup_map().remove(k.as_u64())
                &&& after.sock_map() == before.sock_map().remove(s)
                &&& after.live() == before.live().remove(s as int)
            },
            None => {
                &&& !before.lookup_map().contains_key(k.as_u64())
                &&& after.lookup_map() == before.lookup_map()
                &&& after.sock_map() == before.sock_map()
                &&& after.live() == before.live()
            },
        },
    }
}

/// Law of full teardown: entering two fresh entries into a map and then
/// removing both leaves it exactly as it was. Read with `enroll` and
/// `on_copy_done`, this is the lookup map, the socket map and the slot set
/// of an enrolled pair all restored once both copy directions are done:
/// nothing outlives the pair.
pub proof fn lemma_enroll_then_teardown_restores<K, V>(m: Map<K, V>, k1: K, k2: K, v1: V, v2: V)
    requires
        !m.contains_key(k1),
        !m.contains_key(k2),
        k1 != k2,
    ensures
        m.insert(k1, v1).insert(k2, v2).remove(k1).remove(k2) =~= m,
{
}

/// Law of the byte-order asymmetry, stated on the enrolled pair: a segment
/// arriving on the inbound socket reaches the inbound key through the
/// verdict's remote-endpoint probe, and a segment arriving on the outbound
/// socket reaches the outbound key through its local-endpoint probe.
pub proof fn lemma_keys_match_their_directions(
    in_ip: u32,
    in_port: u16,
    out_ip: u32,
    out_port: u16,
    seg_in: SegmentMeta,
    seg_out: SegmentMeta,
)
    requires
        // a segment on the inbound socket: its remote endpoint is the inbound peer,
        // address and port as the kernel stores them, in network byte order
        seg_in.remote_ip4 == net32(in_ip),
        seg_in.remote_port == net32(in_port as u32),
        // a segment on the outbound socket: its local endpoint is the outbound
        // local address, the port exposed in host byte order
        seg_out.local_ip4 == net32(out_ip),
        seg_out.local_port == out_port as u32,
    ensures
        seg_in.remote_key() == key_in_of(in_ip, in_port),
        seg_out.local_key() == key_out_of(out_ip, out_port),
{
}

} // verus!
