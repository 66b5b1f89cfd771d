//! The shared map controller.
//!
//! Userspace facade over the two kernel maps: the lookup map, from a flow
//! key to a small slot index, and the socket map, from that slot to a
//! socket. `add` allocates a fresh slot and installs both entries as a
//! unit; `delete` removes both and releases the slot. The controller keeps
//! an exact model of both maps, so the caller that mirrors each successful
//! operation to the kernel keeps the kernel maps equal to the model.
//!
//! The invariant `inv` is the paired-entries law: a slot is allocated
//! exactly when some key points at it in the lookup map and the socket map
//! holds a socket for it, no two keys share a slot, and every slot is below
//! the capacity both kernel maps were declared with.

use vstd::prelude::*;
use std::collections::HashMap;
use crate::key::IdxMapKey;

verus! {

broadcast use vstd::std_specs::hash::group_hash_axioms;

/// The set of slot indices the allocator currently has on loan.
pub uninterp spec fn slab_live(s: slab::Slab<()>) -> Set<int>;

/// The allocator's high-water mark: how many key positions it has brought
/// into use so far. Keys at or above the mark have never been handed out;
/// keys below it are on loan or on the free list.
pub uninterp spec fn slab_span(s: slab::Slab<()>) -> int;

#[verifier::external_type_specification]
#[verifier::external_body]
#[verifier::reject_recursive_types(T)]
pub struct ExSlab<T>(slab::Slab<T>);

/// Relies on slab::Slab::with_capacity: the new slab holds no values and
/// no key position has been used.
#[verifier::external_body]
fn slab_new(capacity: usize) -> (s: slab::Slab<()>)
    ensures
        slab_live(s) == Set::<int>::empty(),
        slab_span(s) == 0,
{
    slab::Slab::with_capacity(capacity)
}

/// Relies on slab::Slab::insert: the key assigned to the stored value was
/// vacant before the call and is on loan after it. The key is the head of
/// the free list when one is vacant, else the next never-used position: it
/// never exceeds the high-water mark, reaches the mark only when no key
/// below it is vacant — that is, when the loan count equals the mark — and
/// pushes the mark up by one exactly then.
#[verifier::external_body]
fn slab_insert(s: &mut slab::Slab<()>) -> (k: usize)
    ensures
        !slab_live(*old(s)).contains(k as int),
        slab_live(*final(s)) == slab_live(*old(s)).insert(k as int),
        k as int <= slab_span(*old(s)),
        k as int == slab_span(*old(s)) ==> slab_live(*old(s)).len() == slab_span(*old(s)),
        slab_span(*final(s)) == if k as int == slab_span(*old(s)) {
            slab_span(*old(s)) + 1
        } else {
            slab_span(*old(s))
        },
{
    s.insert(())
}

/// Relies on slab::Slab::remove: the value at an occupied key is taken out
/// and the key released onto the free list; the high-water mark does not
/// move. Panics on a vacant key, so the contract demands an occupied one.
#[verifier::external_body]
fn slab_remove(s: &mut slab::Slab<()>, k: usize)
    requires
        slab_live(*old(s)).contains(k as int),
    ensures
        slab_live(*final(s)) == slab_live(*old(s)).remove(k as int),
        slab_span(*final(s)) == slab_span(*old(s)),
{
    s.remove(k);
}

/// Why an `add` was refused.
#[derive(Clone, Copy, Debug, PartialEq, Eq, Structural)]
pub enum MapError {
    /// The key already has a live enrollment.
    KeyInUse,
    /// Every slot is on loan: both kernel maps are full.
    Exhausted,
}

/// Userspace controller over the kernel lookup map and socket map plus the
/// slot allocator.
pub struct Shared {
    capacity: usize,
    count: usize,
    slots: slab::Slab<()>,
    lookup: HashMap<u64, u32>,
    socks: Ghost<Map<u32, i32>>,
}

impl Shared {
    /// The lookup map: packed flow key to slot index.
    pub closed spec fn lookup_map(&self) -> Map<u64, u32> {
        self.lookup@
    }

    /// The socket map: slot index to socket descriptor.
    pub closed spec fn sock_map(&self) -> Map<u32, i32> {
        self.socks@
    }

    /// The slots currently on loan from the allocator.
    pub closed spec fn live(&self) -> Set<int> {
        slab_live(self.slots)
    }

    /// The declared capacity of both kernel maps.
    pub closed spec fn cap(&self) -> int {
        self.capacity as int
    }

    /// The allocator's high-water mark: slots at or above it were never
    /// handed out.
    pub closed spec fn span(&self) -> int {
        slab_span(self.slots)
    }

    /// The controller's own count of slots on loan.
    pub closed spec fn used(&self) -> int {
        self.count as int
    }

    /// The paired-entries invariant: lookup entries, socket-map entries and
    /// allocated slots exist exactly together, one key per slot, all slots
    /// below capacity.
    pub open spec fn inv(&self) -> bool {
        &&& forall|k: u64| #[trigger]
            self.lookup_map().contains_key(k) ==> {
                &&& self.live().contains(self.lookup_map()[k] as int)
                &&& self.sock_map().contains_key(self.lookup_map()[k])
            }
        &&& forall|k1: u64, k2: u64|
            #![trigger self.lookup_map()[k1], self.lookup_map()[k2]]
            self.lookup_map().contains_key(k1) && self.lookup_map().contains_key(k2) && k1 != k2
                ==> self.lookup_map()[k1] != self.lookup_map()[k2]
        &&& forall|s: int| #[trigger]
            self.live().contains(s) ==> {
                &&& 0 <= s < self.cap()
                &&& exists|k: u64|
                    #![trigger self.lookup_map()[k]]
                    self.lookup_map().contains_key(k) && self.lookup_map()[k] == s
            }
        &&& forall|s: u32| #[trigger]
            self.sock_map().contains_key(s) ==> self.live().contains(s as int)
        &&& self.live().finite()
        &&& self.used() == self.live().len()
        &&& 0 <= self.span() <= self.cap()
        &&& self.cap() <= 0xffff_ffff
    }

    /// A controller with empty maps and a fully free allocator.
    pub fn new(capacity: usize) -> (s: Shared)
        requires
            capacity <= 0xffff_ffff,
        ensures
            s.inv(),
            s.cap() == capacity,
            s.lookup_map() == Map::<u64, u32>::empty(),
            s.sock_map() == Map::<u32, i32>::empty(),
            s.live() == Set::<int>::empty(),
    {
        Shared {
            capacity,
            count: 0,
            slots: slab_new(capacity),
            lookup: HashMap::new(),
            socks: Ghost(Map::empty()),
        }
    }

    /// Enroll `key -> slot -> fd`: allocate a fresh slot, point the key at
    /// it in the lookup map and store the socket under it in the socket
    /// map, all as a unit. The outcome is fixed: a key already enrolled is
    /// `KeyInUse`; a fresh key with every slot on loan is `Exhausted`; a
    /// fresh key with a slot free is enrolled.
    pub fn add(&mut self, fd: i32, key: IdxMapKey) -> (r: Result<u32, MapError>)
        requires
            old(self).inv(),
        ensures
            final(self).inv(),
            final(self).cap() == old(self).cap(),
            match r {
                Ok(slot) => {
                    &&& !old(self).lookup_map().contains_key(key.as_u64())
                    &&& old(self).live().len() < old(self).cap()
                    &&& !old(self).live().contains(slot as int)
                    &&& 0 <= slot < old(self).cap()
                    &&& final(self).lookup_map() == old(self).lookup_map().insert(
                        key.as_u64(),
                        slot,
                    )
                    &&& final(self).sock_map() == old(self).sock_map().insert(slot, fd)
                    &&& final(self).live() == old(self).live().insert(slot as int)
                },
                Err(MapError::KeyInUse) => {
                    &&& old(self).lookup_map().contains_key(key.as_u64())
                    &&& final(self).lookup_map() == old(self).lookup_map()
                    &&& final(self).sock_map() == old(self).sock_map()
                    &&& final(self).live() == old(self).live()
                },
                Err(MapError::Exhausted) => {
                    &&& !old(self).lookup_map().contains_key(key.as_u64())
                    &&& old(self).live().len() >= old(self).cap()
                    &&& final(self).lookup_map() == old(self).lookup_map()
                    &&& final(self).sock_map() == old(self).sock_map()
                    &&& final(self).live() == old(self).live()
                },
            },
            !old(self).lookup_map().contains_key(key.as_u64()) && old(self).live().len() < old(
                self,
            ).cap() ==> r is Ok,
    {
        let ku = key.encode();
        if self.lookup.contains_key(&ku) {
            return Err(MapError::KeyInUse);
        }
        if self.count >= self.capacity {
            return Err(MapError::Exhausted);
        }
        let slot = slab_insert(&mut self.slots);
        proof {
            // the slot stays below capacity: below the mark it is bounded
            // by the mark, which the invariant keeps within capacity; at
            // the mark, the loan count equals the mark and is below
            // capacity, so the mark is too
            if slot as int == old(self).span() {
                assert(old(self).live().len() == old(self).span());
            }
            assert((slot as int) < old(self).cap());
        }
        let slot32: u32 = slot as u32;
        self.count = self.count + 1;
        self.lookup.insert(ku, slot32);
        self.socks = Ghost(self.socks@.insert(slot32, fd));
        proof {
            assert(self.lookup_map() == old(self).lookup_map().insert(ku, slot32));
            assert(slot32 as int == slot as int);
            assert(self.live().len() == old(self).live().len() + 1);
            assert forall|s: u32| #[trigger]
                self.sock_map().contains_key(s) implies self.live().contains(s as int) by {
                if s != slot32 {
                    assert(old(self).sock_map().contains_key(s));
                    assert(old(self).live().contains(s as int));
                }
            }
            assert forall|k: u64| #[trigger] self.lookup_map().contains_key(k) implies {
                &&& self.live().contains(self.lookup_map()[k] as int)
                &&& self.sock_map().contains_key(self.lookup_map()[k])
            } by {
                if k != ku {
                    assert(old(self).lookup_map().contains_key(k));
                    assert(old(self).live().contains(old(self).lookup_map()[k] as int));
                }
            }
            assert forall|s: int| #[trigger] self.live().contains(s) implies {
                &&& 0 <= s < self.cap()
                &&& exists|k: u64|
                    #![trigger self.lookup_map()[k]]
                    self.lookup_map().contains_key(k) && self.lookup_map()[k] == s
            } by {
                if s == slot as int {
                    assert(self.lookup_map().contains_key(ku) && self.lookup_map()[ku] == s);
                } else {
                    assert(old(self).live().contains(s));
                    let k0 = choose|k: u64|
                        #![trigger old(self).lookup_map()[k]]
                        old(self).lookup_map().contains_key(k) && old(self).lookup_map()[k] == s;
                    assert(self.lookup_map().contains_key(k0) && self.lookup_map()[k0] == s);
                }
            }
        }
        Ok(slot32)
    }

    /// The slot a key is enrolled under, if any: the userspace view of one
    /// kernel lookup.
    pub fn get_slot(&self, key: IdxMapKey) -> (r: Option<u32>)
        ensures
            r == if self.lookup_map().contains_key(key.as_u64()) {
                Some(self.lookup_map()[key.as_u64()])
            } else {
                None::<u32>
            },
    {
        let ku = key.encode();
        match self.lookup.get(&ku) {
            Some(slot_ref) => Some(*slot_ref),
            None => None,
        }
    }

    /// Disenroll `key`: release its slot and remove both map entries as a
    /// unit, returning the slot so the caller can mirror the two kernel
    /// deletes. An absent key is a no-op.
    pub fn delete(&mut self, key: IdxMapKey) -> (r: Option<u32>)
        requires
            old(self).inv(),
        ensures
            final(self).inv(),
            final(self).cap() == old(self).cap(),
            match r {
                Some(slot) => {
                    &&& old(self).lookup_map().contains_key(key.as_u64())
                    &&& slot == old(self).lookup_map()[key.as_u64()]
                    &&& final(self).lookup_map() == old(self).lookup_map().remove(key.as_u64())
                    &&& final(self).sock_map() == old(self).sock_map().remove(slot)
                    &&& final(self).live() == old(self).live().remove(slot as int)
                },
                None => {
                    &&& !old(self).lookup_map().contains_key(key.as_u64())
                    &&& final(self).lookup_map() == old(self).lookup_map()
                    &&& final(self).sock_map() == old(self).sock_map()
                    &&& final(self).live() == old(self).live()
                },
            },
    {
        let ku = key.encode();
        let found: Option<u32> = match self.lookup.get(&ku) {
            Some(slot_ref) => Some(*slot_ref),
            None => None,
        };
        match found {
            Some(slot) => {
                proof {
                    assert(old(self).lookup_map().contains_key(ku) && old(self).lookup_map()[ku]
                        == slot);
                    assert(old(self).live().contains(slot as int));
                    assert(old(self).live().remove(slot as int).len() == old(self).live().len()
                        - 1);
                }
                slab_remove(&mut self.slots, slot as usize);
                self.lookup.remove(&ku);
                self.socks = Ghost(self.socks@.remove(slot));
                self.count = self.count - 1;
                proof {
                    assert(self.lookup_map() == old(self).lookup_map().remove(ku));
                    assert forall|s: int| #[trigger] self.live().contains(s) implies {
                        &&& 0 <= s < self.cap()
                        &&& exists|k: u64|
                            #![trigger self.lookup_map()[k]]
                            self.lookup_map().contains_key(k) && self.lookup_map()[k] == s
                    } by {
                        assert(old(self).live().contains(s));
                        let k0 = choose|k: u64|
                            #![trigger old(self).lookup_map()[k]]
                            old(self).lookup_map().contains_key(k) && old(self).lookup_map()[k]
                                == s;
                        assert(k0 != ku);
                        assert(self.lookup_map().contains_key(k0) && self.lookup_map()[k0] == s);
                    }
                }
                Some(slot)
            },
            None => None,
        }
    }
}

/// Law of paired entries. Under the controller's invariant — which `new`
/// establishes and `add` and `delete` preserve — the two maps are
/// populated together or not at all: every lookup entry's slot holds a
/// socket, and every socket-map slot is pointed at by some lookup entry.
pub proof fn lemma_paired_entries(sh: Shared)
    requires
        sh.inv(),
    ensures
        forall|k: u64| #[trigger]
            sh.lookup_map().contains_key(k) ==> sh.sock_map().contains_key(sh.lookup_map()[k]),
        forall|s: u32| #[trigger]
            sh.sock_map().contains_key(s) ==> exists|k: u64|
                #![trigger sh.lookup_map()[k]]
                sh.lookup_map().contains_key(k) && sh.lookup_map()[k] == s,
{
    assert forall|s: u32| #[trigger] sh.sock_map().contains_key(s) implies exists|k: u64|
        #![trigger sh.lookup_map()[k]]
        sh.lookup_map().contains_key(k) && sh.lookup_map()[k] == s by {
        assert(sh.live().contains(s as int));
        let k0 = choose|k: u64|
            #![trigger sh.lookup_map()[k]]
            sh.lookup_map().contains_key(k) && sh.lookup_map()[k] == s as int;
        assert(sh.lookup_map().contains_key(k0) && sh.lookup_map()[k0] == s);
    }
}

} // verus!
