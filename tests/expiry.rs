use surreal_bot::expiry::{expiry_instant, is_expired, next_watch_action, watch, WatchAction};
use surreal_bot::registry::Registry;
use surreal_bot::session::{Conn, ConnType};

#[test]
fn expiry_boundary_is_inclusive() {
    assert!(!is_expired(1000, 500, 1499));
    assert!(is_expired(1000, 500, 1500));
    assert!(is_expired(1000, 500, 1501));
    assert!(is_expired(0, 0, 0));
}

#[test]
fn expiry_past_the_clock_range_never_fires() {
    assert!(!is_expired(u64::MAX - 1, 10, u64::MAX));
    assert_eq!(expiry_instant(u64::MAX - 1, 10), u64::MAX);
    assert_eq!(expiry_instant(1000, 500), 1500);
}

#[test]
fn watch_steps() {
    assert_eq!(next_watch_action(None, 5), WatchAction::Stop);
    assert_eq!(next_watch_action(Some((100, 50)), 120), WatchAction::SleepUntil(150));
    assert_eq!(next_watch_action(Some((100, 50)), 150), WatchAction::Cleanup);
}

#[test]
fn watch_reads_live_ttl() {
    let mut r: Registry<u8> = Registry::new();
    r.insert(4, Conn::new(0u8, 100, ConnType::Thread, 1000, false, false, true)).unwrap();
    assert_eq!(watch(&r, 4, 500), WatchAction::SleepUntil(1100));
    r.set(4, surreal_bot::session::Setting::Ttl(300)).unwrap();
    assert_eq!(watch(&r, 4, 500), WatchAction::Cleanup);
    r.remove(4);
    assert_eq!(watch(&r, 4, 500), WatchAction::Stop);
}
