use surreal_bot::cleanup::{
    export_notice, finish_shutdown, plan_archive, summarize_failures, ArchivePlan, Notice, Occasion,
};
use surreal_bot::delivery::MAX_FILE_SIZE;
use surreal_bot::registry::Registry;
use surreal_bot::session::{Conn, ConnType};

#[test]
fn export_within_ceiling_is_attached() {
    assert_eq!(export_notice(Occasion::Cleanup, Ok(10)), Notice::ExportAttached(Occasion::Cleanup));
    assert_eq!(
        export_notice(Occasion::Shutdown, Ok(MAX_FILE_SIZE)),
        Notice::ExportAttached(Occasion::Shutdown)
    );
}

#[test]
fn export_over_ceiling_is_discarded() {
    assert_eq!(export_notice(Occasion::Cleanup, Ok(MAX_FILE_SIZE + 1)), Notice::ExportTooLarge);
}

#[test]
fn export_failure_carries_its_text() {
    let n = export_notice(Occasion::Cleanup, Err("disk gone".to_string()));
    assert_eq!(n, Notice::ExportFailed("disk gone".to_string()));
    assert_eq!(n.title(), "Failed to export");
    assert_eq!(n.description(), "Database export failed:\n```rust\ndisk gone\n```");
    assert!(!n.is_success());
}

#[test]
fn notice_texts() {
    assert_eq!(Notice::SessionEnded.title(), "Session expired or terminated");
    assert!(!Notice::SessionEnded.is_success());
    assert_eq!(Notice::ExportTooLarge.title(), "Can't upload DB");
    assert!(Notice::ExportTooLarge.is_success());
    assert_eq!(
        Notice::ExportAttached(Occasion::Cleanup).description(),
        "You can find your exported DB attached."
    );
    assert_eq!(
        Notice::ExportAttached(Occasion::Shutdown).title(),
        "Pre-shutdown DB Exported successfully"
    );
}

#[test]
fn archive_only_from_active_grouping() {
    assert_eq!(
        plan_archive(Some((10, 20)), Some(10)),
        ArchivePlan { move_to: Some(20), archive_thread: true }
    );
    assert_eq!(
        plan_archive(Some((10, 20)), Some(11)),
        ArchivePlan { move_to: None, archive_thread: true }
    );
    assert_eq!(
        plan_archive(Some((10, 20)), None),
        ArchivePlan { move_to: None, archive_thread: true }
    );
    assert_eq!(plan_archive(None, Some(10)), ArchivePlan { move_to: None, archive_thread: false });
}

#[test]
fn failures_are_joined_by_commas() {
    assert_eq!(summarize_failures(&vec![]), Ok(()));
    assert_eq!(summarize_failures(&vec!["a".to_string()]), Err("a".to_string()));
    assert_eq!(
        summarize_failures(&vec!["a".to_string(), "bc".to_string(), "d".to_string()]),
        Err("a,bc,d".to_string())
    );
}

#[test]
fn shutdown_empties_the_registry() {
    let mut r: Registry<u8> = Registry::new();
    r.insert(1, Conn::new(1u8, 0, ConnType::Thread, 10, false, false, false)).unwrap();
    assert_eq!(finish_shutdown(&mut r, &vec!["send failed".to_string()]), Err("send failed".to_string()));
    assert!(r.is_empty());
}
