//! Connection state registry.
//!
//! A process-wide table from connection identifier to the per-connection
//! discovery state — one [`Portal`] per open connection. Entries are created
//! on the connection-established notification and removed on the
//! connection-closed one; the view is the map from identifier to the
//! portal's pending message.

use vstd::prelude::*;
use crate::portal::{Portal, PortalMessage, signal_spec};

verus! {

/// Per-connection discovery state: the connection's portal.
pub struct ConnectionState {
    pub conn_handle: u16,
    pub portal: Portal,
}

/// The map an entry list stands for; later entries would win, but the
/// registry keeps its keys unique.
pub open spec fn entries_map(s: Seq<ConnectionState>) -> Map<u16, Option<PortalMessage>>
    decreases s.len(),
{
    if s.len() == 0 {
        Map::empty()
    } else {
        entries_map(s.drop_last()).insert(s.last().conn_handle, s.last().portal@)
    }
}

proof fn lemma_entries_map_index(s: Seq<ConnectionState>, i: int)
    requires
        0 <= i < s.len(),
        forall|j: int, k: int|
            0 <= j < k < s.len() ==> s[j].conn_handle != s[k].conn_handle,
    ensures
        entries_map(s).contains_key(s[i].conn_handle),
        entries_map(s)[s[i].conn_handle] == s[i].portal@,
    decreases s.len(),
{
    if i < s.len() - 1 {
        lemma_entries_map_index(s.drop_last(), i);
    }
}

proof fn lemma_entries_map_absent(s: Seq<ConnectionState>, handle: u16)
    requires
        forall|j: int| 0 <= j < s.len() ==> s[j].conn_handle != handle,
    ensures
        !entries_map(s).contains_key(handle),
    decreases s.len(),
{
    if s.len() > 0 {
        lemma_entries_map_absent(s.drop_last(), handle);
    }
}

proof fn lemma_entries_map_update(s: Seq<ConnectionState>, i: int, e: ConnectionState)
    requires
        0 <= i < s.len(),
        forall|j: int, k: int|
            0 <= j < k < s.len() ==> s[j].conn_handle != s[k].conn_handle,
        e.conn_handle == s[i].conn_handle,
    ensures
        entries_map(s.update(i, e)) =~= entries_map(s).insert(e.conn_handle, e.portal@),
    decreases s.len(),
{
    if i == s.len() - 1 {
        assert(s.update(i, e).drop_last() =~= s.drop_last());
        assert(s.update(i, e).last() == e);
    } else {
        lemma_entries_map_update(s.drop_last(), i, e);
        assert(s.update(i, e).drop_last() =~= s.drop_last().update(i, e));
        assert(s.update(i, e).last() == s.last());
        assert(s[i].conn_handle != s.last().conn_handle);
    }
}

proof fn lemma_entries_map_remove(s: Seq<ConnectionState>, i: int)
    requires
        0 <= i < s.len(),
        forall|j: int, k: int|
            0 <= j < k < s.len() ==> s[j].conn_handle != s[k].conn_handle,
    ensures
        entries_map(s.remove(i)) =~= entries_map(s).remove(s[i].conn_handle),
    decreases s.len(),
{
    if i == s.len() - 1 {
        assert(s.remove(i) =~= s.drop_last());
        lemma_entries_map_absent(s.drop_last(), s[i].conn_handle);
    } else {
        lemma_entries_map_remove(s.drop_last(), i);
        assert(s.remove(i).drop_last() =~= s.drop_last().remove(i));
        assert(s.remove(i).last() == s.last());
        assert(s[i].conn_handle != s.last().conn_handle);
    }
}

/// The table of per-connection state, keyed by connection identifier.
pub struct Registry {
    entries: Vec<ConnectionState>,
}

impl View for Registry {
    type V = Map<u16, Option<PortalMessage>>;

    closed spec fn view(&self) -> Map<u16, Option<PortalMessage>> {
        entries_map(self.entries@)
    }
}

impl Registry {
    pub closed spec fn wf(self) -> bool {
        forall|j: int, k: int|
            0 <= j < k < self.entries@.len()
                ==> self.entries@[j].conn_handle != self.entries@[k].conn_handle
    }

    pub fn new() -> (r: Self)
        ensures
            r.wf(),
            r@ == Map::<u16, Option<PortalMessage>>::empty(),
    {
        Registry { entries: Vec::new() }
    }

    /// The position of a connection's entry, if it is open.
    fn find(&self, handle: u16) -> (r: Option<usize>)
        requires
            self.wf(),
        ensures
            match r {
                Some(i) => i < self.entries@.len() && self.entries@[i as int].conn_handle == handle
                    && self@.contains_key(handle)
                    && self@[handle] == self.entries@[i as int].portal@,
                None => !self@.contains_key(handle),
            },
    {
        let mut i: usize = 0;
        while i < self.entries.len()
            invariant
                i <= self.entries@.len(),
                self.wf(),
                forall|j: int| 0 <= j < i ==> self.entries@[j].conn_handle != handle,
            decreases self.entries@.len() - i,
        {
            if self.entries[i].conn_handle == handle {
                proof {
                    lemma_entries_map_index(self.entries@, i as int);
                }
                return Some(i);
            }
            i += 1;
        }
        proof {
            lemma_entries_map_absent(self.entries@, handle);
        }
        None
    }

    /// Whether a connection is registered as open.
    pub fn contains(&self, handle: u16) -> (r: bool)
        requires
            self.wf(),
        ensures
            r == self@.contains_key(handle),
    {
        match self.find(handle) {
            Some(_) => true,
            None => false,
        }
    }

    /// Handle a connection-established notification: create the
    /// per-connection state, with a free portal. An identifier already
    /// registered is left as it is, and `false` reports the conflict.
    pub fn connected(&mut self, handle: u16) -> (fresh: bool)
        requires
            old(self).wf(),
        ensures
            final(self).wf(),
            fresh == !old(self)@.contains_key(handle),
            final(self)@ == (if fresh {
                old(self)@.insert(handle, None)
            } else {
                old(self)@
            }),
    {
        match self.find(handle) {
            Some(_) => false,
            None => {
                let ghost before = self.entries@;
                self.entries.push(ConnectionState { conn_handle: handle, portal: Portal::new() });
                proof {
                    assert(self.entries@.drop_last() =~= before);
                    assert forall|j: int, k: int|
                        0 <= j < k < self.entries@.len() implies self.entries@[j].conn_handle
                        != self.entries@[k].conn_handle by {
                        if k == self.entries@.len() - 1 {
                            if before[j].conn_handle == handle {
                                lemma_entries_map_index(before, j);
                            }
                        }
                    }
                }
                true
            }
        }
    }

    /// Handle a connection-closed notification: drop the per-connection
    /// state, handing back any completion still undelivered so the caller
    /// can tell the walk that was awaiting it — which must now be told
    /// `Disconnected` rather than be left hanging.
    pub fn disconnected(&mut self, handle: u16) -> (pending: Option<PortalMessage>)
        requires
            old(self).wf(),
        ensures
            final(self).wf(),
            final(self)@ == old(self)@.remove(handle),
            pending == (if old(self)@.contains_key(handle) {
                old(self)@[handle]
            } else {
                None::<PortalMessage>
            }),
    {
        match self.find(handle) {
            Some(i) => {
                proof {
                    lemma_entries_map_remove(self.entries@, i as int);
                }
                let entry = self.entries.remove(i);
                let mut portal = entry.portal;
                portal.wait()
            }
            None => {
                proof {
                    assert(old(self)@.remove(handle) =~= old(self)@);
                }
                None
            }
        }
    }

    /// Route one completion to the portal of the connection it answers.
    /// Reports whether it was accepted: `false` either means the connection
    /// is unknown or that a message was already pending, in which case the
    /// new one is dropped, as [`Portal::signal`] does.
    pub fn signal(&mut self, handle: u16, message: PortalMessage) -> (delivered: bool)
        requires
            old(self).wf(),
        ensures
            final(self).wf(),
            old(self)@.contains_key(handle) ==> (final(self)@, delivered)
                == (old(self)@.insert(handle, signal_spec(old(self)@[handle], message).0),
                    signal_spec(old(self)@[handle], message).1),
            !old(self)@.contains_key(handle) ==> final(self)@ == old(self)@ && !delivered,
    {
        match self.find(handle) {
            Some(i) => {
                let ghost before = self.entries@;
                let entry = &mut self.entries[i];
                let delivered = entry.portal.signal(message);
                proof {
                    assert(self.entries@ =~= before.update(i as int, self.entries@[i as int]));
                    lemma_entries_map_update(before, i as int, self.entries@[i as int]);
                }
                delivered
            }
            None => false,
        }
    }

    /// Take the pending completion for a connection, freeing its portal.
    /// `None` means the connection is unknown or nothing was signalled yet.
    pub fn wait(&mut self, handle: u16) -> (r: Option<PortalMessage>)
        requires
            old(self).wf(),
        ensures
            final(self).wf(),
            old(self)@.contains_key(handle) ==> final(self)@ == old(self)@.insert(handle, None)
                && r == old(self)@[handle],
            !old(self)@.contains_key(handle) ==> final(self)@ == old(self)@ && r is None,
    {
        match self.find(handle) {
            Some(i) => {
                let ghost before = self.entries@;
                let entry = &mut self.entries[i];
                let r = entry.portal.wait();
                proof {
                    assert(self.entries@ =~= before.update(i as int, self.entries@[i as int]));
                    lemma_entries_map_update(before, i as int, self.entries@[i as int]);
                }
                r
            }
            None => None,
        }
    }
}

} // verus!
