use surreal_bot::registry::{Registry, RegistryError};
use surreal_bot::session::{Conn, ConnType, Setting};

fn conn(db: &str, now: u64, ttl: u64) -> Conn<String> {
    Conn::new(db.to_string(), now, ConnType::ConnectedChannel, ttl, false, false, true)
}

#[test]
fn second_insert_is_refused_until_remove() {
    let mut r: Registry<String> = Registry::new();
    assert_eq!(r.insert(7, conn("a", 0, 10)), Ok(()));
    assert_eq!(r.insert(7, conn("b", 1, 10)), Err(RegistryError::AlreadyExists));
    assert_eq!(r.get(7).unwrap().db, "a");
    assert!(r.get_and_touch(7, 5).is_some());
    assert_eq!(r.set(7, Setting::Pretty(true)), Ok(()));
    assert_eq!(r.insert(7, conn("c", 2, 10)), Err(RegistryError::AlreadyExists));
    let removed = r.remove(7).unwrap();
    assert_eq!(removed.db, "a");
    assert!(removed.pretty);
    assert_eq!(r.insert(7, conn("d", 3, 10)), Ok(()));
    assert_eq!(r.get(7).unwrap().db, "d");
}

#[test]
fn insert_of_other_ids_is_independent() {
    let mut r: Registry<String> = Registry::new();
    assert_eq!(r.insert(1, conn("a", 0, 10)), Ok(()));
    assert_eq!(r.insert(2, conn("b", 0, 10)), Ok(()));
    assert_eq!(r.len(), 2);
    assert_eq!(r.get(1).unwrap().db, "a");
    assert_eq!(r.get(2).unwrap().db, "b");
}

#[test]
fn touch_never_moves_last_used_back() {
    let mut r: Registry<String> = Registry::new();
    r.insert(3, conn("a", 100, 10)).unwrap();
    let c = r.get_and_touch(3, 250).unwrap();
    assert_eq!(c.last_used, 250);
    let c = r.get_and_touch(3, 200).unwrap();
    assert_eq!(c.last_used, 250);
    let c = r.get_and_touch(3, 250).unwrap();
    assert_eq!(c.last_used, 250);
    assert_eq!(r.timing(3), Some((250, 10)));
}

#[test]
fn touch_of_missing_session_is_none() {
    let mut r: Registry<String> = Registry::new();
    assert!(r.get_and_touch(3, 250).is_none());
    assert!(r.is_empty());
}

#[test]
fn settings_need_a_session() {
    let mut r: Registry<String> = Registry::new();
    assert_eq!(r.set(9, Setting::Json(true)), Err(RegistryError::NoSession));
    r.insert(9, conn("a", 0, 10)).unwrap();
    assert_eq!(r.set(9, Setting::Json(true)), Ok(()));
    assert_eq!(r.set(9, Setting::RequireQuery(false)), Ok(()));
    assert_eq!(r.set(9, Setting::Ttl(60)), Ok(()));
    let c = r.get(9).unwrap();
    assert!(c.json);
    assert!(!c.require_query);
    assert!(!c.pretty);
    assert_eq!(c.ttl, 60);
    assert_eq!(c.conn_type, ConnType::ConnectedChannel);
}

#[test]
fn ids_lists_each_session_once() {
    let mut r: Registry<String> = Registry::new();
    for id in [5u64, 1, 9] {
        r.insert(id, conn("x", 0, 1)).unwrap();
    }
    let mut ids = r.ids();
    ids.sort();
    assert_eq!(ids, vec![1, 5, 9]);
    r.clear();
    assert!(r.is_empty());
    assert!(r.ids().is_empty());
}

#[test]
fn conn_touch_and_apply() {
    let mut c = conn("a", 10, 5);
    c.touch(4);
    assert_eq!(c.last_used, 10);
    c.touch(11);
    assert_eq!(c.last_used, 11);
    c.apply(Setting::Ttl(99));
    assert_eq!(c.ttl, 99);
    let d = c.duplicate();
    assert_eq!(d.db, "a");
    assert_eq!(d.last_used, 11);
}
