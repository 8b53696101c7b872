use surreal_bot::messages::{accepts_as_query, oof_due, oof_reply, take_message, OofReply};
use surreal_bot::registry::Registry;
use surreal_bot::session::{Conn, ConnType, Setting};

#[test]
fn query_text_filter() {
    assert!(accepts_as_query("SELECT * FROM person"));
    assert!(accepts_as_query("é"));
    assert!(!accepts_as_query(""));
    assert!(!accepts_as_query("# note"));
    assert!(!accepts_as_query("/query"));
    assert!(!accepts_as_query("-- comment"));
}

#[test]
fn message_touches_even_when_commands_are_required() {
    let mut r: Registry<u8> = Registry::new();
    r.insert(1, Conn::new(0u8, 10, ConnType::ConnectedChannel, 100, false, false, true)).unwrap();
    assert!(take_message(&mut r, 1, "INFO FOR DB", false, 50).is_none());
    assert_eq!(r.timing(1), Some((50, 100)));
    r.set(1, Setting::RequireQuery(false)).unwrap();
    let c = take_message(&mut r, 1, "INFO FOR DB", false, 60).unwrap();
    assert_eq!(c.last_used, 60);
    assert!(take_message(&mut r, 1, "INFO FOR DB", true, 70).is_none());
    assert_eq!(r.timing(1), Some((70, 100)));
    assert!(take_message(&mut r, 1, "# chat", false, 80).is_none());
    assert_eq!(r.timing(1), Some((70, 100)));
    assert!(take_message(&mut r, 2, "INFO FOR DB", false, 80).is_none());
}

#[test]
fn oof_rate_limit() {
    assert!(oof_due(None, 0));
    assert!(!oof_due(Some(0), 599_999));
    assert!(oof_due(Some(0), 600_000));
    assert!(oof_due(Some(i64::MIN), i64::MAX));
}

#[test]
fn oof_reply_by_time() {
    assert_eq!(oof_reply(5, 12), Some(OofReply::Weekend));
    assert_eq!(oof_reply(6, 3), Some(OofReply::Weekend));
    assert_eq!(oof_reply(4, 8), Some(OofReply::WeekdayBeforeHours));
    assert_eq!(oof_reply(4, 9), Some(OofReply::FridayAfterHours));
    assert_eq!(oof_reply(0, 23), Some(OofReply::WeekdayAfterHours));
    assert_eq!(oof_reply(2, 0), Some(OofReply::WeekdayBeforeHours));
    assert_eq!(oof_reply(2, 25), None);
    assert_eq!(OofReply::Weekend.text(), "weekend message");
}
