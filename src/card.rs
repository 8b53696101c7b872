use vstd::prelude::*;
use vstd::string::StringExecFns;

use crate::session::ConnType;

verus! {

/// The text that humantime gives a duration of `ms` milliseconds.
pub uninterp spec fn duration_text_of(ms: u64) -> Seq<char>;

/// Relies on `humantime::format_duration`: its text depends on the duration
/// alone, and a zero duration reads `0s`.
#[verifier::external_body]
fn duration_text(ms: u64) -> (r: String)
    ensures
        r@ == duration_text_of(ms),
        ms == 0 ==> r@ == "0s"@,
{
    humantime::format_duration(std::time::Duration::from_millis(ms)).to_string()
}

/// The panel's opening words for a session of this kind.
pub open spec fn intro_of(conn_type: ConnType) -> Seq<char> {
    match conn_type {
        ConnType::ConnectedChannel => "This channel is now connected to a SurrealDB instance. \nTry writing some SurrealQL! \n"@,
        ConnType::EphemeralChannel => "This brand new channel is now connected to a SurrealDB instance. \nTry writing some SurrealQL! \n\n* You can use `/share` to add friends to this channel."@,
        ConnType::Thread => "This public thread is now connected to a SurrealDB instance. \nTry writing some SurrealQL! \n"@,
    }
}

/// The panel's description for a session of this kind on engine `version`.
pub open spec fn card_description_of(conn_type: ConnType, version: Seq<char>) -> Seq<char> {
    intro_of(conn_type)
        + " \n* You can use `/load` to load a premade dataset or your own SurrealQL from a file.\n* You are using SurrealDB "@
        + version + "."@
}

/// The text of the control panel posted when a session starts.
#[derive(Debug)]
pub struct SessionCard {
    pub description: String,
    /// The time-to-live, as humantime writes it.
    pub lifetime: String,
    /// The query timeout, as humantime writes it.
    pub timeout: String,
    /// Whether the panel offers to rename the conversation.
    pub rename_button: bool,
}

fn intro(conn_type: ConnType) -> (r: &'static str)
    ensures
        r@ == intro_of(conn_type),
{
    match conn_type {
        ConnType::ConnectedChannel => "This channel is now connected to a SurrealDB instance. \nTry writing some SurrealQL! \n",
        ConnType::EphemeralChannel => "This brand new channel is now connected to a SurrealDB instance. \nTry writing some SurrealQL! \n\n* You can use `/share` to add friends to this channel.",
        ConnType::Thread => "This public thread is now connected to a SurrealDB instance. \nTry writing some SurrealQL! \n",
    }
}

/// The control panel of a session of kind `conn_type` with time-to-live
/// `ttl` and query timeout `timeout` (milliseconds), on engine `version`.
pub fn session_card(conn_type: ConnType, ttl: u64, timeout: u64, version: &str) -> (c: SessionCard)
    ensures
        c.description@ == card_description_of(conn_type, version@),
        c.lifetime@ == duration_text_of(ttl),
        c.timeout@ == duration_text_of(timeout),
        c.rename_button == (conn_type == ConnType::Thread),
{
    let mut description = String::from_str(intro(conn_type));
    description.append(
        " \n* You can use `/load` to load a premade dataset or your own SurrealQL from a file.\n* You are using SurrealDB ",
    );
    description.append(version);
    description.append(".");
    SessionCard {
        description,
        lifetime: duration_text(ttl),
        timeout: duration_text(timeout),
        rename_button: match conn_type {
            ConnType::Thread => true,
            _ => false,
        },
    }
}

} // verus!
