use vstd::prelude::*;

use crate::registry::Registry;

verus! {

/// What a session's watcher does after one look at the registry.
#[derive(Clone, Copy, Debug, PartialEq, Eq, Structural)]
pub enum WatchAction {
    /// The session is gone: the watcher ends without side effects.
    Stop,
    /// The session has been idle for its whole time-to-live: clean it up.
    Cleanup,
    /// Sleep until this instant, then look again.
    SleepUntil(u64),
}

/// A session idle since `last_used` with time-to-live `ttl` has expired at `now`.
pub open spec fn expired(last_used: u64, ttl: u64, now: u64) -> bool {
    now as int >= last_used as int + ttl as int
}

/// The instant at which such a session expires, held to the clock's range.
pub open spec fn expiry_of(last_used: u64, ttl: u64) -> u64 {
    if last_used as int + ttl as int <= u64::MAX as int {
        (last_used + ttl) as u64
    } else {
        u64::MAX
    }
}

/// The watcher's decision for a session whose timing is `timing`
/// (`None` when it is no longer registered).
pub open spec fn watch_decision(timing: Option<(u64, u64)>, now: u64) -> WatchAction {
    match timing {
        None => WatchAction::Stop,
        Some((last_used, ttl)) => if expired(last_used, ttl, now) {
            WatchAction::Cleanup
        } else {
            WatchAction::SleepUntil(expiry_of(last_used, ttl))
        },
    }
}

/// Whether a session idle since `last_used` has outlived `ttl` at `now`.
pub fn is_expired(last_used: u64, ttl: u64, now: u64) -> (b: bool)
    ensures
        b == expired(last_used, ttl, now),
{
    match last_used.checked_add(ttl) {
        Some(deadline) => now >= deadline,
        None => false,
    }
}

/// The instant at which a session idle since `last_used` expires; an
/// instant past the clock's range is held at its last value.
pub fn expiry_instant(last_used: u64, ttl: u64) -> (r: u64)
    ensures
        r == expiry_of(last_used, ttl),
        r >= last_used,
{
    match last_used.checked_add(ttl) {
        Some(deadline) => deadline,
        None => u64::MAX,
    }
}

/// One step of a watcher, from the live timing of its session.
pub fn next_watch_action(timing: Option<(u64, u64)>, now: u64) -> (a: WatchAction)
    ensures
        a == watch_decision(timing, now),
        a == WatchAction::Cleanup <==> (timing is Some && expired(timing->Some_0.0, timing->Some_0.1, now)),
        a is SleepUntil ==> a->SleepUntil_0 >= now,
{
    match timing {
        None => WatchAction::Stop,
        Some((last_used, ttl)) => {
            if is_expired(last_used, ttl, now) {
                WatchAction::Cleanup
            } else {
                WatchAction::SleepUntil(expiry_instant(last_used, ttl))
            }
        },
    }
}

/// One step of the watcher of `id`: it reads the session's current timing
/// from the registry, never a copy taken earlier.
pub fn watch<H>(registry: &Registry<H>, id: u64, now: u64) -> (a: WatchAction)
    ensures
        a == watch_decision(
            if registry@.contains_key(id) {
                Some((registry@[id].last_used, registry@[id].ttl))
            } else {
                None
            },
            now,
        ),
        a == WatchAction::Stop <==> !registry@.contains_key(id),
{
    next_watch_action(registry.timing(id), now)
}

} // verus!
