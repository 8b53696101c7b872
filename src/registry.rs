use std::collections::HashMap;
use vstd::prelude::*;

use crate::session::{touched, with_setting, same_state, Conn, Setting};

verus! {

broadcast use vstd::std_specs::hash::group_hash_axioms;

/// Why a registry operation was refused.
#[derive(Clone, Copy, Debug, PartialEq, Eq, Structural)]
pub enum RegistryError {
    /// A session is already bound to the conversation.
    AlreadyExists,
    /// No session is bound to the conversation.
    NoSession,
}

/// The live sessions, one per conversation identifier.
///
/// The registry itself holds no lock: a process shares one value of it
/// behind a single mutex, so each operation below is one critical section.
pub struct Registry<H> {
    conns: HashMap<u64, Conn<H>>,
}

/// The sessions after an insert: a bound identifier keeps its session.
pub open spec fn spec_insert<H>(m: Map<u64, Conn<H>>, id: u64, c: Conn<H>) -> Map<u64, Conn<H>> {
    if m.contains_key(id) {
        m
    } else {
        m.insert(id, c)
    }
}

/// The sessions after an activity on `id` at `now`.
pub open spec fn spec_touch<H>(m: Map<u64, Conn<H>>, id: u64, now: u64) -> Map<u64, Conn<H>> {
    if m.contains_key(id) {
        m.insert(id, touched(m[id], now))
    } else {
        m
    }
}

/// The sessions after a change of one preference of `id`.
pub open spec fn spec_set<H>(m: Map<u64, Conn<H>>, id: u64, s: Setting) -> Map<u64, Conn<H>> {
    if m.contains_key(id) {
        m.insert(id, with_setting(m[id], s))
    } else {
        m
    }
}

/// One operation on the registry, as seen by the model.
pub enum RegistryOp<H> {
    Insert(u64, Conn<H>),
    Touch(u64, u64),
    Change(u64, Setting),
    Remove(u64),
}

/// The sessions after one operation.
pub open spec fn apply_op<H>(m: Map<u64, Conn<H>>, op: RegistryOp<H>) -> Map<u64, Conn<H>> {
    match op {
        RegistryOp::Insert(id, c) => spec_insert(m, id, c),
        RegistryOp::Touch(id, now) => spec_touch(m, id, now),
        RegistryOp::Change(id, s) => spec_set(m, id, s),
        RegistryOp::Remove(id) => m.remove(id),
    }
}

/// The sessions after a run of operations, in order.
pub open spec fn run_ops<H>(m: Map<u64, Conn<H>>, ops: Seq<RegistryOp<H>>) -> Map<u64, Conn<H>>
    decreases ops.len(),
{
    if ops.len() == 0 {
        m
    } else {
        run_ops(apply_op(m, ops[0]), ops.drop_first())
    }
}

/// Whether an operation removes the session of `id`.
pub open spec fn removes<H>(op: RegistryOp<H>, id: u64) -> bool {
    match op {
        RegistryOp::Remove(k) => k == id,
        _ => false,
    }
}

/// Once a session is bound to `id`, any run of operations that does not
/// remove `id` leaves it bound, so every further insert of `id` is refused
/// with `AlreadyExists`.
pub proof fn insert_stays_exclusive<H>(
    m: Map<u64, Conn<H>>,
    id: u64,
    c: Conn<H>,
    ops: Seq<RegistryOp<H>>,
)
    requires
        forall|i: int| 0 <= i < ops.len() ==> !removes(#[trigger] ops[i], id),
    ensures
        run_ops(spec_insert(m, id, c), ops).contains_key(id),
{
    bound_survives(spec_insert(m, id, c), id, ops);
}

/// A bound identifier stays bound through operations that do not remove it.
proof fn bound_survives<H>(m: Map<u64, Conn<H>>, id: u64, ops: Seq<RegistryOp<H>>)
    requires
        m.contains_key(id),
        forall|i: int| 0 <= i < ops.len() ==> !removes(#[trigger] ops[i], id),
    ensures
        run_ops(m, ops).contains_key(id),
    decreases ops.len(),
{
    if ops.len() > 0 {
        assert(!removes(ops[0], id));
        let rest = ops.drop_first();
        assert forall|i: int| 0 <= i < rest.len() implies !removes(#[trigger] rest[i], id) by {
            assert(rest[i] == ops[i + 1]);
        }
        bound_survives(apply_op(m, ops[0]), id, rest);
    }
}

impl<H> View for Registry<H> {
    type V = Map<u64, Conn<H>>;

    closed spec fn view(&self) -> Map<u64, Conn<H>> {
        self.conns@
    }
}

impl<H> Registry<H> {
    /// An empty registry.
    pub fn new() -> (r: Registry<H>)
        ensures
            r@ == Map::<u64, Conn<H>>::empty(),
    {
        Registry { conns: HashMap::new() }
    }

    /// The number of live sessions.
    pub fn len(&self) -> (n: usize)
        ensures
            n == self@.len(),
    {
        self.conns.len()
    }

    /// Whether no session is live.
    pub fn is_empty(&self) -> (b: bool)
        ensures
            b == (self@.len() == 0),
    {
        self.conns.len() == 0
    }

    /// Whether a session is bound to `id`.
    pub fn contains(&self, id: u64) -> (b: bool)
        ensures
            b == self@.contains_key(id),
    {
        self.conns.contains_key(&id)
    }

    /// Binds `conn` to `id`, unless a session is already bound there.
    pub fn insert(&mut self, id: u64, conn: Conn<H>) -> (r: Result<(), RegistryError>)
        ensures
            final(self)@ == spec_insert(old(self)@, id, conn),
            r == (if old(self)@.contains_key(id) {
                Err::<(), RegistryError>(RegistryError::AlreadyExists)
            } else {
                Ok(())
            }),
    {
        if self.conns.contains_key(&id) {
            return Err(RegistryError::AlreadyExists);
        }
        self.conns.insert(id, conn);
        Ok(())
    }

    /// The last activity and the time-to-live of the session of `id`.
    pub fn timing(&self, id: u64) -> (r: Option<(u64, u64)>)
        ensures
            r == (if self@.contains_key(id) {
                Some((self@[id].last_used, self@[id].ttl))
            } else {
                None
            }),
    {
        match self.conns.get(&id) {
            Some(c) => Some((c.last_used, c.ttl)),
            None => None,
        }
    }

    /// Changes one preference of the session of `id`.
    pub fn set(&mut self, id: u64, s: Setting) -> (r: Result<(), RegistryError>)
        ensures
            final(self)@ == spec_set(old(self)@, id, s),
            r == (if old(self)@.contains_key(id) {
                Ok::<(), RegistryError>(())
            } else {
                Err(RegistryError::NoSession)
            }),
    {
        match self.conns.remove(&id) {
            Some(mut c) => {
                c.apply(s);
                self.conns.insert(id, c);
                Ok(())
            },
            None => Err(RegistryError::NoSession),
        }
    }

    /// Ends the session of `id` and hands it back.
    pub fn remove(&mut self, id: u64) -> (r: Option<Conn<H>>)
        ensures
            final(self)@ == old(self)@.remove(id),
            r == (if old(self)@.contains_key(id) {
                Some(old(self)@[id])
            } else {
                None
            }),
    {
        self.conns.remove(&id)
    }

    /// Ends every session.
    pub fn clear(&mut self)
        ensures
            final(self)@ == Map::<u64, Conn<H>>::empty(),
    {
        self.conns.clear();
    }

    /// The identifiers of the live sessions, each once, in no set order.
    pub fn ids(&self) -> (v: Vec<u64>)
        ensures
            v@.no_duplicates(),
            v@.to_set() == self@.dom(),
            v@.len() == self@.len(),
    {
        let mut v: Vec<u64> = Vec::new();
        for k in it: self.conns.keys()
            invariant
                it.seq().unref().to_set() == self@.dom(),
                it.seq().unref().no_duplicates(),
                it.seq().len() == self@.dom().len(),
                v@ == it.seq().take(it.index() as int).unref(),
                it.index() == it.seq().len() ==> v@ =~= it.seq().unref(),
        {
            v.push(*k);
        }
        v
    }
}

impl<H: Clone> Registry<H> {
    /// Records an activity at `now` on the session of `id` and hands back a
    /// copy of it that shares its database handle.
    pub fn get_and_touch(&mut self, id: u64, now: u64) -> (r: Option<Conn<H>>)
        ensures
            final(self)@ == spec_touch(old(self)@, id, now),
            old(self)@.contains_key(id) ==> final(self)@[id].last_used >= old(self)@[id].last_used,
            r is Some <==> old(self)@.contains_key(id),
            r is Some ==> same_state(r->Some_0, final(self)@[id]),
    {
        match self.conns.remove(&id) {
            Some(mut c) => {
                c.touch(now);
                let copy = c.duplicate();
                self.conns.insert(id, c);
                Some(copy)
            },
            None => None,
        }
    }

    /// A copy of the session of `id` that shares its database handle.
    pub fn get(&self, id: u64) -> (r: Option<Conn<H>>)
        ensures
            r is Some <==> self@.contains_key(id),
            r is Some ==> same_state(r->Some_0, self@[id]),
    {
        match self.conns.get(&id) {
            Some(c) => Some(c.duplicate()),
            None => None,
        }
    }
}

} // verus!
