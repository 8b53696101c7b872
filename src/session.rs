use vstd::prelude::*;

verus! {

/// How a conversation came to be bound to a database session.
#[derive(Clone, Copy, Debug, PartialEq, Eq, Structural)]
pub enum ConnType {
    /// An existing channel that was connected to a fresh database.
    ConnectedChannel,
    /// A channel created for the session alone.
    EphemeralChannel,
    /// A public thread created for the session.
    Thread,
}

/// Whether a conversation is in the active grouping or has been archived.
#[derive(Clone, Copy, Debug, PartialEq, Eq, Structural)]
pub enum ChannelState {
    Active,
    Archived,
}

/// One conversation's database sandbox and its preferences.
///
/// Times are milliseconds of a monotonic clock; `ttl` is the permitted
/// inactivity in milliseconds.
#[derive(Debug)]
pub struct Conn<H> {
    pub db: H,
    pub last_used: u64,
    pub conn_type: ConnType,
    pub ttl: u64,
    pub pretty: bool,
    pub json: bool,
    pub require_query: bool,
}

/// A per-session preference that can be changed while the session lives.
#[derive(Clone, Copy, Debug, PartialEq, Eq, Structural)]
pub enum Setting {
    Pretty(bool),
    Json(bool),
    RequireQuery(bool),
    Ttl(u64),
}

/// The later of two instants.
pub open spec fn later(a: u64, b: u64) -> u64 {
    if a >= b {
        a
    } else {
        b
    }
}

/// The session after an activity at `now`: `last_used` never moves backwards.
pub open spec fn touched<H>(c: Conn<H>, now: u64) -> Conn<H> {
    Conn { last_used: later(c.last_used, now), ..c }
}

/// The session with one preference replaced.
pub open spec fn with_setting<H>(c: Conn<H>, s: Setting) -> Conn<H> {
    match s {
        Setting::Pretty(b) => Conn { pretty: b, ..c },
        Setting::Json(b) => Conn { json: b, ..c },
        Setting::RequireQuery(b) => Conn { require_query: b, ..c },
        Setting::Ttl(t) => Conn { ttl: t, ..c },
    }
}

/// Two sessions agree on everything but the database handle.
pub open spec fn same_state<H>(a: Conn<H>, b: Conn<H>) -> bool {
    &&& a.last_used == b.last_used
    &&& a.conn_type == b.conn_type
    &&& a.ttl == b.ttl
    &&& a.pretty == b.pretty
    &&& a.json == b.json
    &&& a.require_query == b.require_query
}

impl<H> Conn<H> {
    /// A session created at `now`.
    pub fn new(
        db: H,
        now: u64,
        conn_type: ConnType,
        ttl: u64,
        pretty: bool,
        json: bool,
        require_query: bool,
    ) -> (r: Conn<H>)
        ensures
            r.db == db,
            r.last_used == now,
            r.conn_type == conn_type,
            r.ttl == ttl,
            r.pretty == pretty,
            r.json == json,
            r.require_query == require_query,
    {
        Conn { db, last_used: now, conn_type, ttl, pretty, json, require_query }
    }

    /// Records an activity at `now`.
    pub fn touch(&mut self, now: u64)
        ensures
            *final(self) == touched(*old(self), now),
            final(self).last_used >= old(self).last_used,
    {
        if now > self.last_used {
            self.last_used = now;
        }
    }

    /// Replaces one preference.
    pub fn apply(&mut self, s: Setting)
        ensures
            *final(self) == with_setting(*old(self), s),
    {
        match s {
            Setting::Pretty(b) => self.pretty = b,
            Setting::Json(b) => self.json = b,
            Setting::RequireQuery(b) => self.require_query = b,
            Setting::Ttl(t) => self.ttl = t,
        }
    }
}

impl<H: Clone> Conn<H> {
    /// A copy that shares the database handle.
    pub fn duplicate(&self) -> (r: Conn<H>)
        ensures
            same_state(r, *self),
    {
        Conn {
            db: self.db.clone(),
            last_used: self.last_used,
            conn_type: self.conn_type,
            ttl: self.ttl,
            pretty: self.pretty,
            json: self.json,
            require_query: self.require_query,
        }
    }
}

} // verus!
