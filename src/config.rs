use vstd::prelude::*;

use crate::error::CmdError;
use crate::registry::{spec_insert, Registry, RegistryError};
use crate::session::{Conn, ConnType};

verus! {

/// A server's settings for the sessions created in it. Durations are in
/// milliseconds.
#[derive(Clone, Copy, Debug, PartialEq, Eq, Structural)]
pub struct Config {
    pub guild_id: u64,
    /// The grouping that holds the conversations of live sessions.
    pub active_channel: u64,
    /// The grouping that ended sessions' conversations are moved into.
    pub archive_channel: u64,
    /// The default time-to-live of a new session.
    pub ttl: u64,
    pub pretty: bool,
    pub json: bool,
}

/// A partial set of server settings, as given to a configuration command.
#[derive(Clone, Copy, Debug, PartialEq, Eq, Structural)]
pub struct ConfigBuilder {
    pub guild_id: Option<u64>,
    pub active_channel: Option<u64>,
    pub archive_channel: Option<u64>,
    pub ttl: Option<u64>,
    pub pretty: Option<bool>,
    pub json: Option<bool>,
}

/// `new` where it is given, `old` where it is not.
pub open spec fn or_keep<T>(new: Option<T>, old: T) -> T {
    match new {
        Some(v) => v,
        None => old,
    }
}

impl ConfigBuilder {
    /// A builder that sets nothing.
    pub fn empty() -> (b: ConfigBuilder)
        ensures
            b.guild_id is None && b.active_channel is None && b.archive_channel is None
                && b.ttl is None && b.pretty is None && b.json is None,
    {
        ConfigBuilder {
            guild_id: None,
            active_channel: None,
            archive_channel: None,
            ttl: None,
            pretty: None,
            json: None,
        }
    }
}

impl Config {
    /// Overwrites the settings that `to_add` gives; `to_add` must be for
    /// this server.
    pub fn merge(&mut self, to_add: ConfigBuilder)
        requires
            to_add.guild_id == Some(old(self).guild_id),
        ensures
            *final(self) == (Config {
                guild_id: old(self).guild_id,
                active_channel: or_keep(to_add.active_channel, old(self).active_channel),
                archive_channel: or_keep(to_add.archive_channel, old(self).archive_channel),
                ttl: or_keep(to_add.ttl, old(self).ttl),
                pretty: or_keep(to_add.pretty, old(self).pretty),
                json: or_keep(to_add.json, old(self).json),
            }),
    {
        if let Some(active_channel) = to_add.active_channel {
            self.active_channel = active_channel;
        }
        if let Some(archive_channel) = to_add.archive_channel {
            self.archive_channel = archive_channel;
        }
        if let Some(ttl) = to_add.ttl {
            self.ttl = ttl;
        }
        if let Some(pretty) = to_add.pretty {
            self.pretty = pretty;
        }
        if let Some(json) = to_add.json {
            self.json = json;
        }
    }

    /// The configuration that `builder` describes, when it sets everything.
    pub fn from_builder(builder: ConfigBuilder) -> (r: Option<Config>)
        ensures
            r is Some <==> (builder.guild_id is Some && builder.active_channel is Some
                && builder.archive_channel is Some && builder.ttl is Some && builder.pretty is Some
                && builder.json is Some),
            r is Some ==> r->Some_0 == (Config {
                guild_id: builder.guild_id->Some_0,
                active_channel: builder.active_channel->Some_0,
                archive_channel: builder.archive_channel->Some_0,
                ttl: builder.ttl->Some_0,
                pretty: builder.pretty->Some_0,
                json: builder.json->Some_0,
            }),
    {
        match (
            builder.guild_id,
            builder.active_channel,
            builder.archive_channel,
            builder.ttl,
            builder.pretty,
            builder.json,
        ) {
            (Some(guild_id), Some(active_channel), Some(archive_channel), Some(ttl), Some(pretty), Some(json)) => Some(Config { guild_id, active_channel, archive_channel, ttl, pretty, json }),
            _ => None,
        }
    }
}

/// The session that a server's configuration gives a new conversation.
pub open spec fn session_of<H>(
    db: H,
    now: u64,
    config: Config,
    conn_type: ConnType,
    require_query: bool,
) -> Conn<H> {
    Conn {
        db,
        last_used: now,
        conn_type,
        ttl: config.ttl,
        pretty: config.pretty,
        json: config.json,
        require_query,
    }
}

/// Registers a new session for conversation `id` at `now`, with the
/// server's defaults; a conversation that already has one keeps it.
pub fn register_db<H>(
    registry: &mut Registry<H>,
    id: u64,
    db: H,
    now: u64,
    config: &Config,
    conn_type: ConnType,
    require_query: bool,
) -> (r: Result<(), RegistryError>)
    ensures
        final(registry)@ == spec_insert(
            old(registry)@,
            id,
            session_of(db, now, *config, conn_type, require_query),
        ),
        r == (if old(registry)@.contains_key(id) {
            Err::<(), RegistryError>(RegistryError::AlreadyExists)
        } else {
            Ok(())
        }),
{
    let conn = Conn::new(db, now, conn_type, config.ttl, config.pretty, config.json, require_query);
    registry.insert(id, conn)
}

/// The checks made before a conversation is given a new session: it must
/// not have one, it must belong to a server, and that server's configuration
/// must have been read (`lookup`, or the text of the error that reading it
/// gave) and exist.
pub fn check_provision<H>(
    registry: &Registry<H>,
    id: u64,
    guild_id: Option<u64>,
    lookup: Result<Option<Config>, String>,
) -> (r: Result<Config, CmdError>)
    ensures
        r == (if registry@.contains_key(id) {
            Err(CmdError::ExpectedNoSession)
        } else if guild_id is None {
            Err(CmdError::NoGuild)
        } else {
            match lookup {
                Err(e) => Err(CmdError::GetConfig(e)),
                Ok(None) => Err(CmdError::NoConfig),
                Ok(Some(c)) => Ok::<Config, CmdError>(c),
            }
        }),
{
    if registry.contains(id) {
        return Err(CmdError::ExpectedNoSession);
    }
    if guild_id.is_none() {
        return Err(CmdError::NoGuild);
    }
    match lookup {
        Err(e) => Err(CmdError::GetConfig(e)),
        Ok(None) => Err(CmdError::NoConfig),
        Ok(Some(c)) => Ok(c),
    }
}

/// A provisioning command takes at most one argument.
pub fn check_argument_count(given: usize) -> (r: Result<(), CmdError>)
    ensures
        r == (if given > 1 {
            Err(CmdError::TooManyArguments(1, given))
        } else {
            Ok::<(), CmdError>(())
        }),
{
    if given > 1 {
        Err(CmdError::TooManyArguments(1, given))
    } else {
        Ok(())
    }
}

} // verus!
