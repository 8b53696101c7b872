use std::collections::BTreeMap;
use vstd::prelude::*;

verus! {

broadcast use vstd::std_specs::btree::group_btree_axioms;

/// Server activity over the last days, as uploaded once a day.
#[derive(Debug)]
pub struct Stats {
    pub total_members: u64,
    pub new_members_7days: u64,
    pub new_members_30days: u64,
    pub new_forum_posts_7days: u64,
    pub new_messages_7days: u64,
    pub new_team_messages_7days: u64,
    pub new_ambassador_messages_7days: u64,
    /// Messages of the last seven days per team member's display name.
    pub team_stats: BTreeMap<String, u64>,
}

/// Message counts of the last seven days, in one channel or in several.
#[derive(Debug)]
pub struct MessageStats {
    pub new_7days: u64,
    pub new_team_7days: u64,
    pub new_ambassador_7days: u64,
    /// Messages per team member's user identifier.
    pub team_stats: BTreeMap<u64, u64>,
}

/// Whether `ids` holds `id`.
pub fn holds_id(ids: &[u64], id: u64) -> (b: bool)
    ensures
        b == ids@.contains(id),
{
    let mut i: usize = 0;
    while i < ids.len()
        invariant
            i <= ids@.len(),
            forall|j: int| 0 <= j < i ==> ids@[j] != id,
        decreases ids@.len() - i,
    {
        if ids[i] == id {
            return true;
        }
        i = i + 1;
    }
    false
}

impl MessageStats {
    /// No message counted yet, with a zero count for each team member.
    pub fn new(team_members: &[u64]) -> (r: MessageStats)
        ensures
            r.new_7days == 0 && r.new_team_7days == 0 && r.new_ambassador_7days == 0,
            r.team_stats@.dom() == team_members@.to_set(),
            forall|k: u64| #[trigger] r.team_stats@.contains_key(k) ==> r.team_stats@[k] == 0,
    {
        let mut team: BTreeMap<u64, u64> = BTreeMap::new();
        let mut i: usize = 0;
        while i < team_members.len()
            invariant
                i <= team_members@.len(),
                team@.dom() == team_members@.take(i as int).to_set(),
                forall|k: u64| #[trigger] team@.contains_key(k) ==> team@[k] == 0,
            decreases team_members@.len() - i,
        {
            team.insert(team_members[i], 0);
            proof {
                assert(team_members@.take(i + 1) == team_members@.take(i as int).push(team_members@[i as int]));
                team_members@.take(i as int).lemma_push_to_set_commute(team_members@[i as int]);
            }
            i = i + 1;
        }
        proof {
            assert(team_members@.take(team_members@.len() as int) == team_members@);
        }
        MessageStats { new_7days: 0, new_team_7days: 0, new_ambassador_7days: 0, team_stats: team }
    }

    /// Counts one recent message by `author`.
    pub fn record(&mut self, author: u64, ambassadors: &[u64])
        requires
            old(self).new_7days < u64::MAX,
            old(self).new_team_7days < u64::MAX,
            old(self).new_ambassador_7days < u64::MAX,
            old(self).team_stats@.contains_key(author) ==> old(self).team_stats@[author] < u64::MAX,
        ensures
            final(self).new_7days == old(self).new_7days + 1,
            final(self).new_team_7days == old(self).new_team_7days + (if old(self).team_stats@.contains_key(author) { 1int } else { 0int }),
            final(self).team_stats@ == (if old(self).team_stats@.contains_key(author) {
                old(self).team_stats@.insert(author, (old(self).team_stats@[author] + 1) as u64)
            } else {
                old(self).team_stats@
            }),
            final(self).new_ambassador_7days == old(self).new_ambassador_7days + (if ambassadors@.contains(author) { 1int } else { 0int }),
    {
        self.new_7days = self.new_7days + 1;
        let count = match self.team_stats.get(&author) {
            Some(v) => Some(*v),
            None => None,
        };
        if let Some(v) = count {
            self.team_stats.insert(author, v + 1);
            self.new_team_7days = self.new_team_7days + 1;
        }
        if holds_id(ambassadors, author) {
            self.new_ambassador_7days = self.new_ambassador_7days + 1;
        }
    }

    /// The counts of two sets of channels together. Each team member of
    /// `self` must be counted in `rhs` too.
    pub fn merge(self, rhs: MessageStats) -> (r: MessageStats)
        requires
            self.team_stats@.dom().subset_of(rhs.team_stats@.dom()),
            self.new_7days + rhs.new_7days <= u64::MAX,
            self.new_team_7days + rhs.new_team_7days <= u64::MAX,
            self.new_ambassador_7days + rhs.new_ambassador_7days <= u64::MAX,
            forall|k: u64| #[trigger] self.team_stats@.contains_key(k)
                ==> self.team_stats@[k] + rhs.team_stats@[k] <= u64::MAX,
        ensures
            r.new_7days == self.new_7days + rhs.new_7days,
            r.new_team_7days == self.new_team_7days + rhs.new_team_7days,
            r.new_ambassador_7days == self.new_ambassador_7days + rhs.new_ambassador_7days,
            r.team_stats@.dom() == self.team_stats@.dom(),
            forall|k: u64| #[trigger] r.team_stats@.contains_key(k)
                ==> r.team_stats@[k] == self.team_stats@[k] + rhs.team_stats@[k],
    {
        let mut members: Vec<u64> = Vec::new();
        for k in it: self.team_stats.keys()
            invariant
                it.seq().unref().to_set() == self.team_stats@.dom(),
                members@ == it.seq().take(it.index() as int).unref(),
                it.index() == it.seq().len() ==> members@ =~= it.seq().unref(),
        {
            members.push(*k);
        }
        let mut team: BTreeMap<u64, u64> = BTreeMap::new();
        let mut i: usize = 0;
        while i < members.len()
            invariant
                i <= members@.len(),
                members@.to_set() == self.team_stats@.dom(),
                team@.dom() == members@.take(i as int).to_set(),
                forall|k: u64| #[trigger] team@.contains_key(k)
                    ==> team@[k] == self.team_stats@[k] + rhs.team_stats@[k],
                self.team_stats@.dom().subset_of(rhs.team_stats@.dom()),
                forall|k: u64| #[trigger] self.team_stats@.contains_key(k)
                    ==> self.team_stats@[k] + rhs.team_stats@[k] <= u64::MAX,
            decreases members@.len() - i,
        {
            let k = members[i];
            proof {
                assert(members@.to_set().contains(members@[i as int]));
            }
            let a = match self.team_stats.get(&k) {
                Some(v) => *v,
                None => 0,
            };
            let b = match rhs.team_stats.get(&k) {
                Some(v) => *v,
                None => 0,
            };
            team.insert(k, a + b);
            proof {
                assert(members@.take(i + 1) == members@.take(i as int).push(members@[i as int]));
                members@.take(i as int).lemma_push_to_set_commute(members@[i as int]);
            }
            i = i + 1;
        }
        proof {
            assert(members@.take(members@.len() as int) == members@);
        }
        MessageStats {
            new_7days: self.new_7days + rhs.new_7days,
            new_team_7days: self.new_team_7days + rhs.new_team_7days,
            new_ambassador_7days: self.new_ambassador_7days + rhs.new_ambassador_7days,
            team_stats: team,
        }
    }
}

} // verus!
