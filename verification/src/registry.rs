//! The session registry: the set of currently connected sessions, in
//! registration order.
//!
//! The registry is plain in-memory state with no I/O; none of its
//! operations fail. It is generic in the transport handle a session
//! carries, so the same verified logic serves the live server and any
//! other producer of sessions. The broadcast snapshot is the sequence of
//! sessions in registration order.

use vstd::prelude::*;

verus! {

/// A small unsigned integer uniquely identifying one active connection
/// for its lifetime.
pub type SessionID = u16;

/// One registered listener: its identity and the outbound transport
/// handle bound to it.
pub struct SessionEntry<H> {
    pub id: SessionID,
    pub transport: H,
}

/// The identities of a sequence of sessions, in order.
pub open spec fn ids_of<H>(s: Seq<SessionEntry<H>>) -> Seq<SessionID> {
    s.map_values(|e: SessionEntry<H>| e.id)
}

/// The sequence with every session of the given identity removed,
/// the rest in their original order.
pub open spec fn without_id<H>(s: Seq<SessionEntry<H>>, id: SessionID) -> Seq<SessionEntry<H>> {
    s.filter(|e: SessionEntry<H>| e.id != id)
}

/// The currently registered sessions, in registration order.
pub struct Registry<H> {
    sessions: Vec<SessionEntry<H>>,
}

impl<H> View for Registry<H> {
    type V = Seq<SessionEntry<H>>;

    closed spec fn view(&self) -> Seq<SessionEntry<H>> {
        self.sessions@
    }
}

impl<H> Registry<H> {
    /// An empty registry.
    pub fn new() -> (r: Registry<H>)
        ensures
            r@ == Seq::<SessionEntry<H>>::empty(),
    {
        Registry { sessions: Vec::new() }
    }

    /// The number of registered sessions.
    pub fn len(&self) -> (n: usize)
        ensures
            n == self@.len(),
    {
        self.sessions.len()
    }

    /// The session at a snapshot position.
    pub fn get(&self, i: usize) -> (s: &SessionEntry<H>)
        requires
            i < self@.len(),
        ensures
            *s == self@[i as int],
    {
        &self.sessions[i]
    }

    /// Inserts a session at the end of the snapshot order.
    pub fn register(&mut self, s: SessionEntry<H>)
        ensures
            final(self)@ == old(self)@.push(s),
    {
        self.sessions.push(s);
    }

    /// Removes every session with the given identity; removing an absent
    /// identity leaves the registry unchanged.
    pub fn unregister(&mut self, id: SessionID)
        ensures
            final(self)@ == without_id(old(self)@, id),
    {
        let mut pending: Vec<SessionEntry<H>> = Vec::new();
        std::mem::swap(&mut self.sessions, &mut pending);
        let ghost orig: Seq<SessionEntry<H>> = pending@;
        let ghost mut k: int = 0;
        let mut kept: Vec<SessionEntry<H>> = Vec::new();
        while pending.len() > 0
            invariant
                0 <= k <= orig.len(),
                pending@ == orig.skip(k),
                kept@ == without_id(orig.take(k), id),
            decreases pending@.len(),
        {
            let s = pending.remove(0);
            assert(s == orig[k]);
            proof {
                assert(orig.skip(k).remove(0) =~= orig.skip(k + 1));
                assert(orig.take(k + 1) =~= orig.take(k).push(orig[k]));
                lemma_without_id_push(orig.take(k), s, id);
            }
            if s.id != id {
                kept.push(s);
            }
            proof {
                k = k + 1;
            }
        }
        proof {
            assert(orig.take(k) =~= orig);
        }
        self.sessions = kept;
    }

    /// A consistent copy of the registered identities, in snapshot order.
    pub fn snapshot_ids(&self) -> (r: Vec<SessionID>)
        ensures
            r@ == ids_of(self@),
    {
        let mut out: Vec<SessionID> = Vec::new();
        let n = self.sessions.len();
        let mut i: usize = 0;
        while i < n
            invariant
                n == self@.len(),
                i <= n,
                out@ == ids_of(self@.take(i as int)),
            decreases n - i,
        {
            out.push(self.sessions[i].id);
            proof {
                assert(ids_of(self@.take(i + 1)) =~= ids_of(self@.take(i as int)).push(
                    self@[i as int].id,
                ));
            }
            i += 1;
        }
        proof {
            assert(self@.take(n as int) =~= self@);
        }
        out
    }
}

/// Removing an identity from a snapshot extended by one session keeps the
/// removal of the prefix and appends the new session exactly when its
/// identity differs.
pub proof fn lemma_without_id_push<H>(s: Seq<SessionEntry<H>>, e: SessionEntry<H>, id: SessionID)
    ensures
        e.id != id ==> without_id(s.push(e), id) == without_id(s, id).push(e),
        e.id == id ==> without_id(s.push(e), id) == without_id(s, id),
{
    assert(s.push(e).drop_last() =~= s);
    assert(s.push(e).last() == e);
    reveal(Seq::filter);
}

/// Unregistering an identity that no registered session carries is a
/// no-op: the snapshot is unchanged.
pub proof fn lemma_unregister_absent<H>(s: Seq<SessionEntry<H>>, id: SessionID)
    requires
        !ids_of(s).contains(id),
    ensures
        without_id(s, id) == s,
    decreases s.len(),
{
    if s.len() == 0 {
        reveal(Seq::filter);
        assert(without_id(s, id) =~= s);
    } else {
        let prefix = s.drop_last();
        assert(forall|i: int| 0 <= i < s.len() ==> ids_of(s)[i] == s[i].id);
        assert(!ids_of(prefix).contains(id)) by {
            assert(forall|i: int| 0 <= i < prefix.len() ==> ids_of(prefix)[i] == prefix[i].id);
            if ids_of(prefix).contains(id) {
                let i = choose|i: int| 0 <= i < prefix.len() && ids_of(prefix)[i] == id;
                assert(ids_of(s)[i] == id);
            }
        }
        lemma_unregister_absent(prefix, id);
        lemma_without_id_push(prefix, s.last(), id);
        assert(s.last().id != id) by {
            if s.last().id == id {
                assert(ids_of(s)[s.len() - 1] == id);
            }
        }
        assert(prefix.push(s.last()) =~= s);
    }
}

/// Registering two sessions in an empty registry broadcasts to both, in
/// registration order; after the first is unregistered, a broadcast
/// reaches exactly the remaining one.
pub proof fn lemma_register_two_unregister_one<H>(a: SessionEntry<H>, b: SessionEntry<H>)
    requires
        a.id != b.id,
    ensures
        ids_of(Seq::<SessionEntry<H>>::empty().push(a).push(b)) =~= seq![a.id, b.id],
        ids_of(without_id(Seq::<SessionEntry<H>>::empty().push(a).push(b), a.id)) =~= seq![b.id],
{
    lemma_without_id_push(Seq::<SessionEntry<H>>::empty().push(a), b, a.id);
    lemma_without_id_push(Seq::<SessionEntry<H>>::empty(), a, a.id);
    reveal(Seq::filter);
    assert(without_id(Seq::<SessionEntry<H>>::empty(), a.id) =~= Seq::<SessionEntry<H>>::empty());
}

} // verus!
