use vstd::prelude::*;
use vstd::string::StringExecFns;

use crate::config::ConfigBuilder;
use crate::session::{ConnType, Setting};

verus! {

/// Whether `s` is the text `lit`.
pub fn text_is(s: &str, lit: &str) -> (b: bool)
    ensures
        b == (s@ == lit@),
{
    let a = String::from_str(s);
    let l = String::from_str(lit);
    a == l
}

/// What a button or menu of a session's control panel asks for.
#[derive(Clone, Copy, Debug, PartialEq, Eq, Structural)]
pub enum ComponentAction {
    /// Change one preference of the session.
    Update(Setting),
    /// Export the database as an attachment.
    Export,
    /// End the session now.
    Stop,
    /// Open the editor for a long query; `copy` fills it with the query shown.
    BigQuery { copy: bool },
    /// Open the editor for the thread's name.
    RenameThread,
    /// Nothing to do.
    Ignore,
    /// The panel belongs to a session that no longer exists.
    NoSession,
    /// The component is not one of the panel's.
    Unknown,
}

/// The action for the panel component `id` with first selected value
/// `value`, when the conversation does or does not have a session.
pub open spec fn component_action_of(id: Seq<char>, value: Seq<char>, has_session: bool) -> ComponentAction {
    if has_session && id == "format"@ {
        ComponentAction::Update(Setting::Json(value == "json"@))
    } else if has_session && id == "prettify"@ {
        ComponentAction::Update(Setting::Pretty(value == "true"@))
    } else if has_session && id == "require_query"@ {
        ComponentAction::Update(Setting::RequireQuery(value == "true"@))
    } else if has_session && id == "export"@ {
        ComponentAction::Export
    } else if has_session && id == "stop"@ {
        ComponentAction::Stop
    } else if has_session && id == "big_query"@ {
        ComponentAction::BigQuery { copy: false }
    } else if has_session && id == "copy_big_query"@ {
        ComponentAction::BigQuery { copy: true }
    } else if !has_session && id == "reconnect"@ {
        ComponentAction::Ignore
    } else if id == "rename_thread"@ {
        ComponentAction::RenameThread
    } else if !has_session {
        ComponentAction::NoSession
    } else {
        ComponentAction::Unknown
    }
}

/// Decides what a control panel component asks for.
pub fn component_action(id: &str, value: &str, has_session: bool) -> (a: ComponentAction)
    ensures
        a == component_action_of(id@, value@, has_session),
{
    if has_session && text_is(id, "format") {
        ComponentAction::Update(Setting::Json(text_is(value, "json")))
    } else if has_session && text_is(id, "prettify") {
        ComponentAction::Update(Setting::Pretty(text_is(value, "true")))
    } else if has_session && text_is(id, "require_query") {
        ComponentAction::Update(Setting::RequireQuery(text_is(value, "true")))
    } else if has_session && text_is(id, "export") {
        ComponentAction::Export
    } else if has_session && text_is(id, "stop") {
        ComponentAction::Stop
    } else if has_session && text_is(id, "big_query") {
        ComponentAction::BigQuery { copy: false }
    } else if has_session && text_is(id, "copy_big_query") {
        ComponentAction::BigQuery { copy: true }
    } else if !has_session && text_is(id, "reconnect") {
        ComponentAction::Ignore
    } else if text_is(id, "rename_thread") {
        ComponentAction::RenameThread
    } else if !has_session {
        ComponentAction::NoSession
    } else {
        ComponentAction::Unknown
    }
}

/// The preference that a channel configuration option names, if any.
pub open spec fn channel_option_of(name: Seq<char>, value: bool) -> Option<Setting> {
    if name == "pretty"@ {
        Some(Setting::Pretty(value))
    } else if name == "json"@ {
        Some(Setting::Json(value))
    } else if name == "require_query"@ {
        Some(Setting::RequireQuery(value))
    } else {
        None
    }
}

/// The preference that the channel configuration option `name` sets to
/// `value`; other names are ignored.
pub fn channel_option(name: &str, value: bool) -> (r: Option<Setting>)
    ensures
        r == channel_option_of(name@, value),
{
    if text_is(name, "pretty") {
        Some(Setting::Pretty(value))
    } else if text_is(name, "json") {
        Some(Setting::Json(value))
    } else if text_is(name, "require_query") {
        Some(Setting::RequireQuery(value))
    } else {
        None
    }
}

/// The value of a server configuration option, as the command gave it.
#[derive(Clone, Copy, Debug, PartialEq, Eq, Structural)]
pub enum OptionValue {
    Channel(u64),
    Seconds(u64),
    Flag(bool),
}

impl ConfigBuilder {
    /// Records the server configuration option `name`; an option of an
    /// unknown name or of the wrong kind leaves the builder as it was. A
    /// time-to-live is given in seconds and kept in milliseconds, held at
    /// the largest value that fits.
    pub fn set_option(&mut self, name: &str, value: OptionValue)
        ensures
            *final(self) == (if name@ == "active"@ && value is Channel {
                ConfigBuilder { active_channel: Some(value->Channel_0), ..*old(self) }
            } else if name@ == "archive"@ && value is Channel {
                ConfigBuilder { archive_channel: Some(value->Channel_0), ..*old(self) }
            } else if name@ == "ttl"@ && value is Seconds {
                ConfigBuilder {
                    ttl: Some(
                        if value->Seconds_0 * 1000 <= u64::MAX {
                            (value->Seconds_0 * 1000) as u64
                        } else {
                            u64::MAX
                        },
                    ),
                    ..*old(self)
                }
            } else if name@ == "pretty"@ && value is Flag {
                ConfigBuilder { pretty: Some(value->Flag_0), ..*old(self) }
            } else if name@ == "json"@ && value is Flag {
                ConfigBuilder { json: Some(value->Flag_0), ..*old(self) }
            } else {
                *old(self)
            }),
    {
        match value {
            OptionValue::Channel(c) => {
                if text_is(name, "active") {
                    self.active_channel = Some(c);
                } else if text_is(name, "archive") {
                    self.archive_channel = Some(c);
                }
            },
            OptionValue::Seconds(s) => {
                if text_is(name, "ttl") {
                    self.ttl = Some(
                        match s.checked_mul(1000) {
                            Some(ms) => ms,
                            None => u64::MAX,
                        },
                    );
                }
            },
            OptionValue::Flag(b) => {
                if text_is(name, "pretty") {
                    self.pretty = Some(b);
                } else if text_is(name, "json") {
                    self.json = Some(b);
                }
            },
        }
    }
}

/// Whether a session of this kind takes queries only through commands
/// unless its users choose otherwise.
pub fn requires_query_by_default(conn_type: ConnType) -> (b: bool)
    ensures
        b == (conn_type != ConnType::EphemeralChannel),
{
    match conn_type {
        ConnType::EphemeralChannel => false,
        _ => true,
    }
}

} // verus!
