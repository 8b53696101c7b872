use surreal_bot::stats::{holds_id, MessageStats};

#[test]
fn tally_counts_team_and_ambassadors() {
    let mut s = MessageStats::new(&[10, 11, 10]);
    assert_eq!(s.team_stats.len(), 2);
    s.record(10, &[20]);
    s.record(20, &[20]);
    s.record(30, &[20]);
    s.record(10, &[20]);
    assert_eq!((s.new_7days, s.new_team_7days, s.new_ambassador_7days), (4, 2, 1));
    assert_eq!(s.team_stats.get(&10), Some(&2));
    assert_eq!(s.team_stats.get(&11), Some(&0));
    assert_eq!(s.team_stats.get(&30), None);
}

#[test]
fn merge_adds_counts() {
    let mut a = MessageStats::new(&[1, 2]);
    a.record(1, &[]);
    let mut b = MessageStats::new(&[1, 2]);
    b.record(2, &[2]);
    b.record(3, &[]);
    let m = a.merge(b);
    assert_eq!((m.new_7days, m.new_team_7days, m.new_ambassador_7days), (3, 2, 1));
    assert_eq!(m.team_stats.get(&1), Some(&1));
    assert_eq!(m.team_stats.get(&2), Some(&1));
}

#[test]
fn holds_id_scans() {
    assert!(holds_id(&[3, 4], 4));
    assert!(!holds_id(&[], 4));
}
