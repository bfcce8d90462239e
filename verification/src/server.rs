//! The broadcast server: the process-wide coordinator that owns the
//! session registry and multiplexes every published event to all
//! currently registered sessions.
//!
//! The transport handle of a live session is an `ezsockets` session; its
//! send operation is the one outside call the broadcast loop makes. A
//! failed send is recorded and never stops the loop or reaches the
//! publisher as an error.

use vstd::prelude::*;
use crate::registry::{Registry, SessionEntry, SessionID, ids_of, without_id};

verus! {

/// The outbound handle of one connected websocket client, as `ezsockets`
/// hands it out at accept time.
#[verifier::external_type_specification]
#[verifier::external_body]
#[verifier::reject_recursive_types(I)]
#[verifier::reject_recursive_types(C)]
pub struct ExSession<I, C>(ezsockets::Session<I, C>);

/// Relies on `ezsockets::Session::text`: it enqueues one text frame on the
/// session's outbound channel and returns `Ok` exactly when the channel
/// accepted it, `Err` when the session has already shut down. It never
/// blocks and never panics; whether it succeeds depends on the session's
/// state, so nothing more is promised of the outcome.
#[verifier::external_body]
fn session_send_text(transport: &ezsockets::Session<SessionID, ()>, msg: &String) -> (ok: bool) {
    transport.text(msg.as_str()).is_ok()
}

/// The broadcast server: owns the registry of connected sessions and
/// pushes each published event to every one of them.
pub struct DaemonServer {
    sessions: Registry<ezsockets::Session<SessionID, ()>>,
}

impl View for DaemonServer {
    type V = Seq<SessionEntry<ezsockets::Session<SessionID, ()>>>;

    closed spec fn view(&self) -> Seq<SessionEntry<ezsockets::Session<SessionID, ()>>> {
        self.sessions@
    }
}

impl DaemonServer {
    /// A server with no registered sessions.
    pub fn new() -> (r: DaemonServer)
        ensures
            r@ == Seq::<SessionEntry<ezsockets::Session<SessionID, ()>>>::empty(),
    {
        DaemonServer { sessions: Registry::new() }
    }

    /// Accepts one connection: the session enters the registry under its
    /// assigned identity, at the end of the snapshot order, and is active
    /// from now on.
    pub fn accept(&mut self, id: SessionID, transport: ezsockets::Session<SessionID, ()>)
        ensures
            final(self)@ == old(self)@.push(SessionEntry { id, transport }),
    {
        self.sessions.register(SessionEntry { id, transport });
    }

    /// Handles a disconnect notification: every session under the given
    /// identity leaves the registry. Idempotent: an unknown or already
    /// removed identity leaves the registry unchanged and is no error.
    pub fn disconnected(&mut self, id: SessionID)
        ensures
            final(self)@ == without_id(old(self)@, id),
    {
        self.sessions.unregister(id);
    }

    /// Publishes one encoded event: a delivery attempt to every session
    /// in the registry, in snapshot order. The record returned holds, in
    /// that order, each session's identity and whether its channel
    /// accepted the frame; a refused send removes nothing from the record
    /// and stops no later attempt.
    pub fn call(&self, params: &String) -> (r: Vec<(SessionID, bool)>)
        ensures
            r@.len() == self@.len(),
            forall|i: int| 0 <= i < r@.len() ==> (#[trigger] r@[i]).0 == ids_of(self@)[i],
    {
        let mut r: Vec<(SessionID, bool)> = Vec::new();
        let n = self.sessions.len();
        let mut i: usize = 0;
        while i < n
            invariant
                n == self@.len(),
                i <= n,
                r@.len() == i,
                forall|j: int| 0 <= j < i ==> (#[trigger] r@[j]).0 == ids_of(self@)[j],
            decreases n - i,
        {
            let s = self.sessions.get(i);
            let ok = session_send_text(&s.transport, params);
            r.push((s.id, ok));
            proof {
                assert(ids_of(self@)[i as int] == self@[i as int].id);
            }
            i += 1;
        }
        r
    }

    /// The identities currently registered, in snapshot order.
    pub fn session_ids(&self) -> (r: Vec<SessionID>)
        ensures
            r@ == ids_of(self@),
    {
        self.sessions.snapshot_ids()
    }
}

} // verus!
