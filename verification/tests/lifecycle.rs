use sockmap_relay::config::make_credential;
use sockmap_relay::config::privilege_ok;
use sockmap_relay::config::relay_mode;
use sockmap_relay::config::RelayMode;
use sockmap_relay::key::IdxMapKey;
use sockmap_relay::lifecycle::enrollment_keys;
use sockmap_relay::lifecycle::Direction;
use sockmap_relay::lifecycle::Pair;
use sockmap_relay::lifecycle::PairState;
use sockmap_relay::lifecycle::RelayAddr;
use sockmap_relay::shared::Shared;

#[test]
fn enrollment_keys_for_an_ipv4_pair() {
    // inbound peer 127.0.0.1:9000, outbound local 127.0.0.1:45678
    let r = enrollment_keys(
        RelayAddr::V4 { ip: 0x7f00_0001, port: 9000 },
        RelayAddr::V4 { ip: 0x7f00_0001, port: 45678 },
    );
    let (kin, kout) = r.expect("both sides are IPv4");
    assert_eq!(kin, IdxMapKey::remote(0x7f00_0001, 9000));
    assert_eq!(kout, IdxMapKey::local(0x7f00_0001, 45678));
    // the byte-order asymmetry, on literal values: 9000 = 0x2328
    assert_eq!(kin.port, 0x2823_0000);
    assert_eq!(kout.port, 45678);
}

#[test]
fn enrollment_keys_need_ipv4_on_both_sides() {
    let v4 = RelayAddr::V4 { ip: 1, port: 2 };
    assert_eq!(enrollment_keys(v4, RelayAddr::Other), None);
    assert_eq!(enrollment_keys(RelayAddr::Other, v4), None);
    assert_eq!(enrollment_keys(RelayAddr::Other, RelayAddr::Other), None);
}

#[test]
fn enrolled_pair_full_life() {
    // the happy path: accept, connect, enroll, and tear down per direction
    let mut shared = Shared::new(8);
    let mut pair = Pair::accept(10);
    assert_eq!(pair.state, PairState::Accepted);
    pair.connect(11);
    assert_eq!(pair.state, PairState::Connected);

    let in_peer = RelayAddr::V4 { ip: 0x7f00_0001, port: 9000 };
    let out_local = RelayAddr::V4 { ip: 0x7f00_0001, port: 45678 };
    pair.enroll(&mut shared, in_peer, out_local);
    assert_eq!(pair.state, PairState::Enrolled);

    // two lookup entries appeared
    let kin = IdxMapKey::remote(0x7f00_0001, 9000);
    let kout = IdxMapKey::local(0x7f00_0001, 45678);
    assert!(shared.get_slot(kin).is_some());
    assert!(shared.get_slot(kout).is_some());

    // first direction down: its key is gone at once, the other stays
    let freed = pair.on_copy_done(&mut shared, Direction::InToOut);
    assert!(freed.is_some());
    assert_eq!(pair.state, PairState::HalfClosedIn);
    assert_eq!(shared.get_slot(kin), None);
    assert!(shared.get_slot(kout).is_some());

    // second direction down: nothing remains before the pair ends
    let freed = pair.on_copy_done(&mut shared, Direction::OutToIn);
    assert!(freed.is_some());
    assert_eq!(pair.state, PairState::Closed);
    assert_eq!(shared.get_slot(kin), None);
    assert_eq!(shared.get_slot(kout), None);
}

#[test]
fn non_ipv4_pair_is_never_enrolled() {
    let mut shared = Shared::new(8);
    let mut pair = Pair::accept(10);
    pair.connect(11);
    pair.enroll(&mut shared, RelayAddr::Other, RelayAddr::V4 { ip: 1, port: 2 });
    assert_eq!(pair.state, PairState::Unenrolled);
    assert_eq!(pair.key_in, None);
    assert_eq!(pair.key_out, None);
    // no entry appeared under the only candidate key
    assert_eq!(shared.get_slot(IdxMapKey::local(1, 2)), None);

    // teardown still runs cleanly with nothing to delete
    assert_eq!(pair.on_copy_done(&mut shared, Direction::OutToIn), None);
    assert_eq!(pair.state, PairState::HalfClosedOut);
    assert_eq!(pair.on_copy_done(&mut shared, Direction::InToOut), None);
    assert_eq!(pair.state, PairState::Closed);
}

#[test]
fn enrollment_failure_rolls_back_the_first_write() {
    // one free slot cannot hold a pair: the second write is refused and
    // the first is rolled back, leaving the controller untouched
    let mut shared = Shared::new(1);
    let mut pair = Pair::accept(10);
    pair.connect(11);
    let in_peer = RelayAddr::V4 { ip: 0x7f00_0001, port: 9000 };
    let out_local = RelayAddr::V4 { ip: 0x7f00_0001, port: 45678 };
    pair.enroll(&mut shared, in_peer, out_local);
    assert_eq!(pair.state, PairState::Unenrolled);
    assert_eq!(shared.get_slot(IdxMapKey::remote(0x7f00_0001, 9000)), None);
    assert_eq!(shared.get_slot(IdxMapKey::local(0x7f00_0001, 45678)), None);
    // the rolled-back slot is free again for another connection
    assert!(shared.add(12, IdxMapKey { addr: 1, port: 1 }).is_ok());
}

#[test]
fn colliding_keys_roll_back_too() {
    // a port of zero makes the two key variants coincide; the duplicate is
    // refused and the pair falls back with the controller untouched
    let mut shared = Shared::new(8);
    let mut pair = Pair::accept(10);
    pair.connect(11);
    let addr = RelayAddr::V4 { ip: 0x0a00_0001, port: 0 };
    pair.enroll(&mut shared, addr, addr);
    assert_eq!(pair.state, PairState::Unenrolled);
    assert_eq!(shared.get_slot(IdxMapKey::remote(0x0a00_0001, 0)), None);
}

#[test]
fn unenrolled_capacity_overflow_keeps_serving() {
    // with the maps full, one more accepted pair runs unenrolled
    let mut shared = Shared::new(2);
    let mut first = Pair::accept(10);
    first.connect(11);
    first.enroll(
        &mut shared,
        RelayAddr::V4 { ip: 1, port: 1000 },
        RelayAddr::V4 { ip: 1, port: 2000 },
    );
    assert_eq!(first.state, PairState::Enrolled);

    let mut second = Pair::accept(12);
    second.connect(13);
    second.enroll(
        &mut shared,
        RelayAddr::V4 { ip: 2, port: 1000 },
        RelayAddr::V4 { ip: 2, port: 2000 },
    );
    assert_eq!(second.state, PairState::Unenrolled);

    // the first pair's entries were not disturbed
    assert!(shared.get_slot(IdxMapKey::remote(1, 1000)).is_some());
    assert!(shared.get_slot(IdxMapKey::local(1, 2000)).is_some());
}

#[test]
fn unenroll_gives_everything_back() {
    let mut shared = Shared::new(8);
    let mut pair = Pair::accept(10);
    pair.connect(11);
    let in_peer = RelayAddr::V4 { ip: 0x7f00_0001, port: 9000 };
    let out_local = RelayAddr::V4 { ip: 0x7f00_0001, port: 45678 };
    pair.enroll(&mut shared, in_peer, out_local);
    assert_eq!(pair.state, PairState::Enrolled);
    let kin = IdxMapKey::remote(0x7f00_0001, 9000);
    let kout = IdxMapKey::local(0x7f00_0001, 45678);
    let s1 = shared.get_slot(kin);
    let s2 = shared.get_slot(kout);

    let (freed_in, freed_out) = pair.unenroll(&mut shared);
    assert_eq!(freed_in, s1);
    assert_eq!(freed_out, s2);
    assert_eq!(pair.state, PairState::Unenrolled);
    assert_eq!(pair.key_in, None);
    assert_eq!(pair.key_out, None);
    assert_eq!(shared.get_slot(kin), None);
    assert_eq!(shared.get_slot(kout), None);

    // the controller is whole again: a fresh pair enrolls under the same keys
    let mut again = Pair::accept(12);
    again.connect(13);
    again.enroll(&mut shared, in_peer, out_local);
    assert_eq!(again.state, PairState::Enrolled);
}

#[test]
fn credential_from_flag_values() {
    assert_eq!(
        make_credential(Some("u".to_string()), Some("p".to_string())),
        Some(("u".to_string(), "p".to_string()))
    );
    // a user without a password gets the empty password
    assert_eq!(
        make_credential(Some("u".to_string()), None),
        Some(("u".to_string(), String::new()))
    );
    // no user means no authentication
    assert_eq!(make_credential(None, Some("p".to_string())), None);
    assert_eq!(make_credential(None, None), None);
}

#[test]
fn relay_mode_from_flag_values() {
    match relay_mode(None, Some("u".to_string()), None) {
        RelayMode::Direct => {},
        RelayMode::Proxied(_) => panic!("no proxy address means direct"),
    }
    match relay_mode(Some("127.0.0.1:1080".to_string()), Some("u".to_string()), Some("p".to_string())) {
        RelayMode::Direct => panic!("a proxy address selects the proxied mode"),
        RelayMode::Proxied(cfg) => {
            assert_eq!(cfg.address, "127.0.0.1:1080");
            assert_eq!(cfg.credential, Some(("u".to_string(), "p".to_string())));
        },
    }
    match relay_mode(Some("10.0.0.1:8080".to_string()), None, None) {
        RelayMode::Direct => panic!("a proxy address selects the proxied mode"),
        RelayMode::Proxied(cfg) => {
            assert_eq!(cfg.address, "10.0.0.1:8080");
            assert_eq!(cfg.credential, None);
        },
    }
}

#[test]
fn only_root_may_load_the_probe() {
    assert!(privilege_ok(0));
    assert!(!privilege_ok(1000));
}
