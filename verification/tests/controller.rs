use sockmap_relay::key::IdxMapKey;
use sockmap_relay::key::MAPPING_CAPACITY;
use sockmap_relay::shared::MapError;
use sockmap_relay::shared::Shared;
use sockmap_relay::verdict::verdict_action;
use sockmap_relay::verdict::verdict_slot;
use sockmap_relay::verdict::parse_message_boundary;
use sockmap_relay::verdict::SegmentMeta;
use sockmap_relay::verdict::SkAction;
use sockmap_relay::verdict::StreamParserAction;

fn key(addr: u32, port: u32) -> IdxMapKey {
    IdxMapKey { addr, port }
}

#[test]
fn add_then_lookup() {
    let mut s = Shared::new(8);
    let k = key(0x0100_007f, 0x3412_0000);
    let slot = s.add(10, k).expect("fresh key must enroll");
    assert_eq!(s.get_slot(k), Some(slot));
}

#[test]
fn two_adds_get_distinct_slots() {
    let mut s = Shared::new(8);
    let s1 = s.add(10, key(1, 1)).unwrap();
    let s2 = s.add(11, key(1, 2)).unwrap();
    assert_ne!(s1, s2);
}

#[test]
fn duplicate_key_is_refused() {
    let mut s = Shared::new(8);
    s.add(10, key(1, 1)).unwrap();
    assert_eq!(s.add(11, key(1, 1)), Err(MapError::KeyInUse));
    // the first enrollment is untouched
    assert!(s.get_slot(key(1, 1)).is_some());
}

#[test]
fn delete_frees_the_slot_and_the_key() {
    let mut s = Shared::new(8);
    let k = key(7, 7);
    let slot = s.add(42, k).unwrap();
    assert_eq!(s.delete(k), Some(slot));
    assert_eq!(s.get_slot(k), None);
}

#[test]
fn delete_of_absent_key_is_a_no_op() {
    let mut s = Shared::new(8);
    assert_eq!(s.delete(key(9, 9)), None);
    s.add(1, key(1, 1)).unwrap();
    assert_eq!(s.delete(key(9, 9)), None);
    assert!(s.get_slot(key(1, 1)).is_some());
}

#[test]
fn add_after_delete_succeeds_again() {
    // after delete(k), a later add(_, k) is accepted, possibly on another slot
    let mut s = Shared::new(8);
    let k = key(3, 3);
    let first = s.add(10, k).unwrap();
    s.add(11, key(4, 4)).unwrap();
    assert_eq!(s.delete(k), Some(first));
    let second = s.add(12, k).expect("key must be free again");
    assert_eq!(s.get_slot(k), Some(second));
}

#[test]
fn exhaustion_refuses_the_next_key() {
    let mut s = Shared::new(2);
    s.add(1, key(0, 1)).unwrap();
    s.add(2, key(0, 2)).unwrap();
    assert_eq!(s.add(3, key(0, 3)), Err(MapError::Exhausted));
    // the full maps are untouched and still serve lookups
    assert!(s.get_slot(key(0, 1)).is_some());
    assert!(s.get_slot(key(0, 2)).is_some());
    assert_eq!(s.get_slot(key(0, 3)), None);
}

#[test]
fn saturation_at_declared_capacity() {
    // fill every slot, then one more key is refused but nothing is dropped
    let mut s = Shared::new(MAPPING_CAPACITY);
    for i in 0..MAPPING_CAPACITY as u32 {
        s.add(i as i32, key(1, i)).expect("below capacity");
    }
    assert_eq!(s.add(-1, key(2, 0)), Err(MapError::Exhausted));
    assert!(s.get_slot(key(1, 0)).is_some());
    assert!(s.get_slot(key(1, MAPPING_CAPACITY as u32 - 1)).is_some());
}

#[test]
fn slot_freed_after_saturation_is_usable_again() {
    // refusal at full capacity must not wedge the allocator: after one
    // delete, the next add succeeds on the freed slot
    let mut s = Shared::new(2);
    let s0 = s.add(1, key(0, 1)).unwrap();
    s.add(2, key(0, 2)).unwrap();
    assert_eq!(s.add(3, key(0, 3)), Err(MapError::Exhausted));
    assert_eq!(s.delete(key(0, 1)), Some(s0));
    let s3 = s.add(3, key(0, 3)).expect("a slot is free again");
    assert!((s3 as usize) < 2);
    assert_eq!(s.get_slot(key(0, 3)), Some(s3));
}

#[test]
fn sequential_reuse_of_one_endpoint() {
    // the same endpoint key enrolled and torn down many times over: each
    // round gets a binding and leaves nothing behind
    let mut s = Shared::new(4);
    let k = key(0x0a00_0001, 54321);
    for round in 0..100 {
        let slot = s.add(100 + round, k).expect("key is free each round");
        assert_eq!(s.get_slot(k), Some(slot));
        assert_eq!(s.delete(k), Some(slot));
        assert_eq!(s.get_slot(k), None);
    }
}

#[test]
fn parser_reports_the_segment_length() {
    assert_eq!(parse_message_boundary(1448), StreamParserAction::MessageLength(1448));
    assert_eq!(parse_message_boundary(0), StreamParserAction::MessageLength(0));
}

#[test]
fn verdict_prefers_the_remote_key() {
    let mut s = Shared::new(8);
    let remote_slot = s.add(10, key(0x0100_007f, 0x3412_0000)).unwrap();
    let local_slot = s.add(11, key(0x0200_007f, 0x1234)).unwrap();
    // a segment whose remote endpoint matches the first key
    let seg_in = SegmentMeta {
        remote_ip4: 0x0100_007f,
        remote_port: 0x3412_0000,
        local_ip4: 0,
        local_port: 0,
    };
    assert_eq!(verdict_slot(&s, seg_in), Some(remote_slot));
    // a segment whose local endpoint matches the second key
    let seg_out = SegmentMeta {
        remote_ip4: 9,
        remote_port: 9,
        local_ip4: 0x0200_007f,
        local_port: 0x1234,
    };
    assert_eq!(verdict_slot(&s, seg_out), Some(local_slot));
}

#[test]
fn verdict_misses_fall_through() {
    let s = Shared::new(8);
    let seg = SegmentMeta { remote_ip4: 1, remote_port: 2, local_ip4: 3, local_port: 4 };
    assert_eq!(verdict_slot(&s, seg), None);
}

#[test]
fn verdict_follows_a_rebound_key() {
    // delete then re-add: the verdict redirects by the new binding
    let mut s = Shared::new(8);
    let k = key(0x0100_007f, 0x3412_0000);
    let old_slot = s.add(10, k).unwrap();
    s.delete(k);
    // another connection takes the freed slot in between
    assert_eq!(s.add(11, key(5, 5)), Ok(old_slot));
    let new_slot = s.add(12, k).unwrap();
    assert_ne!(old_slot, new_slot);
    let seg = SegmentMeta {
        remote_ip4: k.addr,
        remote_port: k.port,
        local_ip4: 0,
        local_port: 0,
    };
    assert_eq!(verdict_slot(&s, seg), Some(new_slot));
}

#[test]
fn verdict_action_on_each_outcome() {
    assert_eq!(verdict_action(Some(3), true), SkAction::Pass);
    assert_eq!(verdict_action(Some(3), false), SkAction::Drop);
    assert_eq!(verdict_action(None, true), SkAction::Pass);
    assert_eq!(verdict_action(None, false), SkAction::Pass);
}
