use vstd::prelude::*;

use crate::registry::{spec_touch, Registry};
use crate::session::{same_state, Conn};

verus! {

/// A chat message is read as a query unless it is empty or starts with
/// `#`, `/` or `-`.
pub open spec fn is_query_text(s: Seq<char>) -> bool {
    s.len() > 0 && s[0] != '#' && s[0] != '/' && s[0] != '-'
}

/// Whether the chat message `content` is read as a query.
pub fn accepts_as_query(content: &str) -> (b: bool)
    ensures
        b == is_query_text(content@),
{
    let mut chars = content.chars();
    match chars.next() {
        Some(c) => c != '#' && c != '/' && c != '-',
        None => false,
    }
}

/// Handles the arrival of a chat message in conversation `id` at `now`.
/// A message read as a query counts as activity on the session even when
/// the session takes queries only through commands or the author is a bot;
/// the session is handed back only when the message is to be run.
pub fn take_message<H: Clone>(
    registry: &mut Registry<H>,
    id: u64,
    content: &str,
    from_bot: bool,
    now: u64,
) -> (r: Option<Conn<H>>)
    ensures
        final(registry)@ == (if is_query_text(content@) {
            spec_touch(old(registry)@, id, now)
        } else {
            old(registry)@
        }),
        r is Some <==> is_query_text(content@) && old(registry)@.contains_key(id)
            && !old(registry)@[id].require_query && !from_bot,
        r is Some ==> same_state(r->Some_0, final(registry)@[id]),
{
    if !accepts_as_query(content) {
        return None;
    }
    match registry.get_and_touch(id, now) {
        Some(c) => {
            if c.require_query || from_bot {
                None
            } else {
                Some(c)
            }
        },
        None => None,
    }
}

/// The shortest time, in milliseconds, between two out-of-office replies in
/// one conversation.
pub const OOF_INTERVAL_MS: i64 = 600_000;

/// Whether an out-of-office reply is due at `now` (milliseconds since the
/// epoch), given when the conversation last got one.
pub fn oof_due(last: Option<i64>, now: i64) -> (b: bool)
    ensures
        b == match last {
            None => true,
            Some(t) => now as int - t as int >= OOF_INTERVAL_MS as int,
        },
{
    match last {
        None => true,
        Some(t) => (now as i128) - (t as i128) >= OOF_INTERVAL_MS as i128,
    }
}

/// The kind of out-of-office reply for a moment of the week.
#[derive(Clone, Copy, Debug, PartialEq, Eq, Structural)]
pub enum OofReply {
    Weekend,
    FridayAfterHours,
    WeekdayAfterHours,
    WeekdayBeforeHours,
}

/// The reply for day `weekday` (0 is Monday, 6 is Sunday) at `hour`.
pub open spec fn oof_reply_of(weekday: u8, hour: u32) -> Option<OofReply> {
    if weekday == 5 || weekday == 6 {
        Some(OofReply::Weekend)
    } else if hour <= 8 {
        Some(OofReply::WeekdayBeforeHours)
    } else if hour <= 24 {
        if weekday == 4 {
            Some(OofReply::FridayAfterHours)
        } else {
            Some(OofReply::WeekdayAfterHours)
        }
    } else {
        None
    }
}

/// Chooses the out-of-office reply for day `weekday` (0 is Monday) at `hour`.
pub fn oof_reply(weekday: u8, hour: u32) -> (r: Option<OofReply>)
    ensures
        r == oof_reply_of(weekday, hour),
{
    if weekday == 5 || weekday == 6 {
        Some(OofReply::Weekend)
    } else if hour <= 8 {
        Some(OofReply::WeekdayBeforeHours)
    } else if hour <= 24 {
        if weekday == 4 {
            Some(OofReply::FridayAfterHours)
        } else {
            Some(OofReply::WeekdayAfterHours)
        }
    } else {
        None
    }
}

impl OofReply {
    /// The text sent for this reply.
    pub fn text(&self) -> (r: &'static str)
        ensures
            r@ == match *self {
                OofReply::Weekend => "weekend message"@,
                OofReply::FridayAfterHours => "friday after hours message"@,
                OofReply::WeekdayAfterHours => "weekday after hours message"@,
                OofReply::WeekdayBeforeHours => "weekday before hours message"@,
            },
    {
        match self {
            OofReply::Weekend => "weekend message",
            OofReply::FridayAfterHours => "friday after hours message",
            OofReply::WeekdayAfterHours => "weekday after hours message",
            OofReply::WeekdayBeforeHours => "weekday before hours message",
        }
    }
}

} // verus!
