use vstd::prelude::*;
use vstd::string::StringExecFns;

use crate::delivery::MAX_FILE_SIZE;
use crate::registry::Registry;

verus! {

/// Why a session's data is being exported.
#[derive(Clone, Copy, Debug, PartialEq, Eq, Structural)]
pub enum Occasion {
    /// The session expired or was stopped.
    Cleanup,
    /// The process is shutting down.
    Shutdown,
}

/// A message posted to a conversation while its session ends.
#[derive(Debug, PartialEq, Eq)]
pub enum Notice {
    /// The session is over.
    SessionEnded,
    /// The export is attached to this notice.
    ExportAttached(Occasion),
    /// The export exceeded the attachment ceiling and was discarded.
    ExportTooLarge,
    /// The export failed with this error text.
    ExportFailed(String),
}

/// Whether an export of `len` bytes can be attached.
pub open spec fn fits_attachment(len: usize) -> bool {
    len <= MAX_FILE_SIZE
}

/// The notice for an export that gave `len` bytes, or failed with an error text.
pub open spec fn export_notice_of(occasion: Occasion, export: Result<usize, String>) -> Notice {
    match export {
        Ok(len) => if fits_attachment(len) {
            Notice::ExportAttached(occasion)
        } else {
            Notice::ExportTooLarge
        },
        Err(e) => Notice::ExportFailed(e),
    }
}

/// The notice that reports an export: attached when it fits the ceiling,
/// discarded with a notice when it does not; no part of a large export is sent.
pub fn export_notice(occasion: Occasion, export: Result<usize, String>) -> (n: Notice)
    ensures
        n == export_notice_of(occasion, export),
{
    match export {
        Ok(len) => {
            if len <= MAX_FILE_SIZE {
                Notice::ExportAttached(occasion)
            } else {
                Notice::ExportTooLarge
            }
        },
        Err(e) => Notice::ExportFailed(e),
    }
}

/// The short title of a notice.
pub open spec fn title_of(n: Notice) -> Seq<char> {
    match n {
        Notice::SessionEnded => "Session expired or terminated"@,
        Notice::ExportAttached(Occasion::Cleanup) => "Cleanup DB Exported successfully"@,
        Notice::ExportAttached(Occasion::Shutdown) => "Pre-shutdown DB Exported successfully"@,
        Notice::ExportTooLarge => "Can't upload DB"@,
        Notice::ExportFailed(_) => "Failed to export"@,
    }
}

/// The text that follows an export error in a failure notice.
pub open spec fn failure_text_of(e: Seq<char>) -> Seq<char> {
    "Database export failed:\n```rust\n"@ + e + "\n```"@
}

/// The longer description of a notice.
pub open spec fn description_of(n: Notice) -> Seq<char> {
    match n {
        Notice::SessionEnded => "This database instance has expired or was terminated and is no longer functional."@,
        Notice::ExportAttached(Occasion::Cleanup) => "You can find your exported DB attached."@,
        Notice::ExportAttached(Occasion::Shutdown) => "Sorry! The bot had to go offline for maintenance, your session has been exported. You can find the .surql file attached.\nYou can either use `/reconnect` and load a new session with it when the bot is back online, or use it locally with `surreal import` CLI."@,
        Notice::ExportTooLarge => "Your database is too powerful, it is now gone. (the export was too large to send)"@,
        Notice::ExportFailed(e) => failure_text_of(e@),
    }
}

/// Whether a notice reports a success.
pub open spec fn is_success_of(n: Notice) -> bool {
    match n {
        Notice::ExportAttached(_) | Notice::ExportTooLarge => true,
        _ => false,
    }
}

impl Notice {
    /// The short title.
    pub fn title(&self) -> (r: &'static str)
        ensures
            r@ == title_of(*self),
    {
        match self {
            Notice::SessionEnded => "Session expired or terminated",
            Notice::ExportAttached(Occasion::Cleanup) => "Cleanup DB Exported successfully",
            Notice::ExportAttached(Occasion::Shutdown) => "Pre-shutdown DB Exported successfully",
            Notice::ExportTooLarge => "Can't upload DB",
            Notice::ExportFailed(_) => "Failed to export",
        }
    }

    /// The longer description.
    pub fn description(&self) -> (r: String)
        ensures
            r@ == description_of(*self),
    {
        match self {
            Notice::SessionEnded => String::from_str(
                "This database instance has expired or was terminated and is no longer functional.",
            ),
            Notice::ExportAttached(Occasion::Cleanup) => String::from_str(
                "You can find your exported DB attached.",
            ),
            Notice::ExportAttached(Occasion::Shutdown) => String::from_str(
                "Sorry! The bot had to go offline for maintenance, your session has been exported. You can find the .surql file attached.\nYou can either use `/reconnect` and load a new session with it when the bot is back online, or use it locally with `surreal import` CLI.",
            ),
            Notice::ExportTooLarge => String::from_str(
                "Your database is too powerful, it is now gone. (the export was too large to send)",
            ),
            Notice::ExportFailed(e) => {
                let mut s = String::from_str("Database export failed:\n```rust\n");
                s.append(e.as_str());
                s.append("\n```");
                s
            },
        }
    }

    /// Whether the notice is shown as a success.
    pub fn is_success(&self) -> (b: bool)
        ensures
            b == is_success_of(*self),
    {
        match self {
            Notice::ExportAttached(_) | Notice::ExportTooLarge => true,
            _ => false,
        }
    }
}

/// Where an ended session's conversation goes, and whether it is archived.
#[derive(Clone, Copy, Debug, PartialEq, Eq, Structural)]
pub struct ArchivePlan {
    /// The grouping to move the conversation into, if any.
    pub move_to: Option<u64>,
    /// Whether the conversation, when a thread, is archived.
    pub archive_thread: bool,
}

/// The archival steps for a conversation whose parent grouping is `parent`,
/// under the server's `(active, archive)` groupings when they are configured.
pub open spec fn archive_plan_of(groupings: Option<(u64, u64)>, parent: Option<u64>) -> ArchivePlan {
    match groupings {
        None => ArchivePlan { move_to: None, archive_thread: false },
        Some((active, archive)) => ArchivePlan {
            move_to: if parent == Some(active) {
                Some(archive)
            } else {
                None
            },
            archive_thread: true,
        },
    }
}

/// Decides the archival steps: a conversation in the active grouping moves
/// to the archive grouping; nothing is done where the server has no
/// configuration.
pub fn plan_archive(groupings: Option<(u64, u64)>, parent: Option<u64>) -> (p: ArchivePlan)
    ensures
        p == archive_plan_of(groupings, parent),
{
    match groupings {
        None => ArchivePlan { move_to: None, archive_thread: false },
        Some((active, archive)) => {
            let in_active = match parent {
                Some(p) => p == active,
                None => false,
            };
            ArchivePlan { move_to: if in_active { Some(archive) } else { None }, archive_thread: true }
        },
    }
}

/// The texts of `errs` joined by commas.
pub open spec fn joined(errs: Seq<String>) -> Seq<char>
    decreases errs.len(),
{
    if errs.len() == 0 {
        Seq::empty()
    } else if errs.len() == 1 {
        errs[0]@
    } else {
        joined(errs.drop_last()) + ","@ + errs.last()@
    }
}

/// The outcome of a shutdown whose deliveries failed with `errs`.
pub fn summarize_failures(errs: &Vec<String>) -> (r: Result<(), String>)
    ensures
        errs@.len() == 0 ==> r == Ok::<(), String>(()),
        errs@.len() > 0 ==> (r matches Err(t) && t@ == joined(errs@)),
{
    if errs.len() == 0 {
        return Ok(());
    }
    let mut s = errs[0].clone();
    let mut i: usize = 1;
    proof {
        assert(errs@.take(1).drop_last() == errs@.take(0));
    }
    while i < errs.len()
        invariant
            1 <= i <= errs@.len(),
            s@ == joined(errs@.take(i as int)),
        decreases errs@.len() - i,
    {
        s.append(",");
        s.append(errs[i].as_str());
        proof {
            let t = errs@.take(i + 1);
            assert(t.drop_last() == errs@.take(i as int));
            assert(t.last() == errs@[i as int]);
        }
        i = i + 1;
    }
    proof {
        assert(errs@.take(errs@.len() as int) == errs@);
    }
    Err(s)
}

/// Ends a shutdown once every session has been offered for export: the
/// registry is left empty whatever the exports gave, and the delivery
/// failures `errs` are reported together.
pub fn finish_shutdown<H>(registry: &mut Registry<H>, errs: &Vec<String>) -> (r: Result<(), String>)
    ensures
        final(registry)@ == Map::<u64, crate::session::Conn<H>>::empty(),
        errs@.len() == 0 ==> r == Ok::<(), String>(()),
        errs@.len() > 0 ==> (r matches Err(t) && t@ == joined(errs@)),
{
    registry.clear();
    summarize_failures(errs)
}

} // verus!
