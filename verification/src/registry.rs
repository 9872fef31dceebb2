use vstd::prelude::*;
use crate::rbac::{Connection, ProxyRbacContext};

verus! {

// ---------------------------------------------------------------------------
// Trusted boundary. The per-connection cancellation signal is a tokio watch
// channel: the registry owns each entry's sender, and the task relaying the
// connection awaits a receiver. When a receiver observes a send is a
// scheduling matter, so the wrappers state nothing about the carried values.
// ---------------------------------------------------------------------------

/// Declares tokio::sync::watch::Sender, opaquely.
#[verifier::external_type_specification]
#[verifier::external_body]
#[verifier::reject_recursive_types(T)]
pub struct ExWatchSender<T>(tokio::sync::watch::Sender<T>);

/// Declares tokio::sync::watch::Receiver, opaquely.
#[verifier::external_type_specification]
#[verifier::external_body]
#[verifier::reject_recursive_types(T)]
pub struct ExWatchReceiver<T>(tokio::sync::watch::Receiver<T>);

/// Relies on tokio::sync::watch::channel: returns a connected
/// sender/receiver pair whose watched value starts as the argument.
#[verifier::external_body]
fn cancel_channel() -> (tokio::sync::watch::Sender<bool>, tokio::sync::watch::Receiver<bool>) {
    tokio::sync::watch::channel(false)
}

/// Relies on tokio::sync::watch::Sender::send_replace, which stores the new
/// value even when no receiver is alive; receivers see it at their next read.
#[verifier::external_body]
fn fire_cancel(tx: &tokio::sync::watch::Sender<bool>) {
    let _ = tx.send_replace(true);
}

/// Relies on tokio::sync::watch::Sender::subscribe: a fresh receiver for the
/// sender's own channel.
#[verifier::external_body]
fn subscribe_cancel(tx: &tokio::sync::watch::Sender<bool>) -> tokio::sync::watch::Receiver<bool> {
    tx.subscribe()
}

// ---------------------------------------------------------------------------
// The registry itself.
// ---------------------------------------------------------------------------

/// One live entry: the context it was registered under, whether `track` has
/// confirmed it, and the sender half of its cancellation channel.
struct TrackEntry {
    ctx: ProxyRbacContext,
    confirmed: bool,
    cancel_tx: tokio::sync::watch::Sender<bool>,
}

/// The single source of truth for which connections are currently subject to
/// authorization or actively relaying, and the mechanism by which a policy
/// update terminates specific live connections.
///
/// Its mathematical content is a map from `Connection` to a flag telling
/// whether the entry has been confirmed by `track`; at most one entry exists
/// per distinct connection value.
///
/// Every operation is synchronous: callers on a shared runtime keep the
/// registry behind a lock held for the duration of one operation and never
/// across a suspension point, so one slow policy decision cannot stall the
/// others' access.
pub struct ConnectionManager {
    entries: Vec<TrackEntry>,
}

impl View for ConnectionManager {
    type V = Map<Connection, bool>;

    closed spec fn view(&self) -> Map<Connection, bool> {
        ConnectionManager::entries_map(self.entries@)
    }
}

impl ConnectionManager {
    spec fn entries_map(s: Seq<TrackEntry>) -> Map<Connection, bool>
        decreases s.len(),
    {
        if s.len() == 0 {
            Map::empty()
        } else {
            Self::entries_map(s.drop_last()).insert(s.last().ctx.conn, s.last().confirmed)
        }
    }

    spec fn unique_conns(s: Seq<TrackEntry>) -> bool {
        forall|i: int, j: int|
            #![trigger s[i], s[j]]
            0 <= i < j < s.len() ==> s[i].ctx.conn != s[j].ctx.conn
    }

    #[verifier::type_invariant]
    spec fn wf(self) -> bool {
        Self::unique_conns(self.entries@)
    }

    proof fn lemma_absent(s: Seq<TrackEntry>, c: Connection)
        requires
            forall|i: int| 0 <= i < s.len() ==> (#[trigger] s[i]).ctx.conn != c,
        ensures
            !Self::entries_map(s).contains_key(c),
        decreases s.len(),
    {
        if s.len() > 0 {
            assert forall|i: int| 0 <= i < s.drop_last().len()
                implies (#[trigger] s.drop_last()[i]).ctx.conn != c by {
                assert(s.drop_last()[i] == s[i]);
            }
            Self::lemma_absent(s.drop_last(), c);
        }
    }

    proof fn lemma_present(s: Seq<TrackEntry>, i: int)
        requires
            0 <= i < s.len(),
        ensures
            Self::entries_map(s).contains_key(s[i].ctx.conn),
        decreases s.len(),
    {
        if i < s.len() - 1 {
            assert(s.drop_last()[i] == s[i]);
            Self::lemma_present(s.drop_last(), i);
        }
    }

    proof fn lemma_unique_drop_last(s: Seq<TrackEntry>)
        requires
            Self::unique_conns(s),
            s.len() > 0,
        ensures
            Self::unique_conns(s.drop_last()),
            forall|i: int| 0 <= i < s.len() - 1 ==> (#[trigger] s.drop_last()[i]).ctx.conn
                != s.last().ctx.conn,
    {
        assert forall|i: int, j: int|
            #![trigger s.drop_last()[i], s.drop_last()[j]]
            0 <= i < j < s.drop_last().len()
            implies s.drop_last()[i].ctx.conn != s.drop_last()[j].ctx.conn by {
            assert(s.drop_last()[i] == s[i]);
            assert(s.drop_last()[j] == s[j]);
        }
        assert forall|i: int| 0 <= i < s.len() - 1
            implies (#[trigger] s.drop_last()[i]).ctx.conn != s.last().ctx.conn by {
            assert(s.drop_last()[i] == s[i]);
            assert(s.last() == s[s.len() - 1]);
        }
    }

    proof fn lemma_push(s: Seq<TrackEntry>, e: TrackEntry)
        ensures
            Self::entries_map(s.push(e)) == Self::entries_map(s).insert(e.ctx.conn, e.confirmed),
    {
        assert(s.push(e).drop_last() =~= s);
        assert(s.push(e).last() == e);
    }

    proof fn lemma_remove(s: Seq<TrackEntry>, i: int)
        requires
            Self::unique_conns(s),
            0 <= i < s.len(),
        ensures
            Self::entries_map(s.remove(i)) == Self::entries_map(s).remove(s[i].ctx.conn),
            Self::unique_conns(s.remove(i)),
        decreases s.len(),
    {
        Self::lemma_unique_drop_last(s);
        let c = s[i].ctx.conn;
        if i == s.len() - 1 {
            assert(s.remove(i) =~= s.drop_last());
            Self::lemma_absent(s.drop_last(), c);
            assert(Self::entries_map(s).remove(c) =~= Self::entries_map(s.drop_last()));
        } else {
            assert(s.remove(i).drop_last() =~= s.drop_last().remove(i));
            assert(s.remove(i).last() == s.last());
            assert(s.drop_last()[i] == s[i]);
            Self::lemma_remove(s.drop_last(), i);
            let lc = s.last().ctx.conn;
            let lt = s.last().confirmed;
            let m = Self::entries_map(s.drop_last());
            // the removed key and the last key differ, so removal and the
            // final insertion commute
            assert(c != lc);
            assert(m.remove(c).insert(lc, lt) =~= m.insert(lc, lt).remove(c));
            assert forall|a: int, b: int|
                #![trigger s.remove(i)[a], s.remove(i)[b]]
                0 <= a < b < s.remove(i).len()
                implies s.remove(i)[a].ctx.conn != s.remove(i)[b].ctx.conn by {
                assert(s.remove(i)[a] == if a < i { s[a] } else { s[a + 1] });
                assert(s.remove(i)[b] == if b < i { s[b] } else { s[b + 1] });
            }
        }
    }

    proof fn lemma_dom_len(s: Seq<TrackEntry>)
        requires
            Self::unique_conns(s),
        ensures
            Self::entries_map(s).dom().finite(),
            Self::entries_map(s).dom().len() == s.len(),
        decreases s.len(),
    {
        if s.len() == 0 {
            assert(Self::entries_map(s).dom() =~= Set::<Connection>::empty());
        } else {
            Self::lemma_unique_drop_last(s);
            Self::lemma_dom_len(s.drop_last());
            let lc = s.last().ctx.conn;
            Self::lemma_absent(s.drop_last(), lc);
            let m = Self::entries_map(s.drop_last());
            assert(Self::entries_map(s).dom() =~= m.dom().insert(lc));
            vstd::set::axiom_set_insert_len(m.dom(), lc);
        }
    }

    /// An empty registry.
    pub fn new() -> (r: ConnectionManager)
        ensures
            r@ == Map::<Connection, bool>::empty(),
    {
        ConnectionManager { entries: Vec::new() }
    }

    fn find(&self, conn: &Connection) -> (r: Option<usize>)
        ensures
            match r {
                Some(i) => i < self.entries@.len() && self.entries@[i as int].ctx.conn == *conn,
                None => forall|i: int|
                    0 <= i < self.entries@.len() ==> (#[trigger] self.entries@[i]).ctx.conn
                        != *conn,
            },
    {
        let n = self.entries.len();
        let mut i: usize = 0;
        while i < n
            invariant
                n == self.entries@.len(),
                i <= n,
                forall|j: int| 0 <= j < i ==> (#[trigger] self.entries@[j]).ctx.conn != *conn,
            decreases n - i,
        {
            if self.entries[i].ctx.conn == *conn {
                return Some(i);
            }
            i += 1;
        }
        None
    }

    /// Inserts a tentative entry for `ctx`, making the connection visible to
    /// revocation before its authorization is evaluated. A second
    /// registration for an equal connection observes the existing entry and
    /// changes nothing — the registry never holds two cancellation channels
    /// for one connection — and the returned flag says which happened.
    pub fn register(&mut self, ctx: &ProxyRbacContext) -> (fresh: bool)
        ensures
            fresh == !old(self)@.contains_key(ctx.conn),
            final(self)@ == if old(self)@.contains_key(ctx.conn) {
                old(self)@
            } else {
                old(self)@.insert(ctx.conn, false)
            },
    {
        proof {
            use_type_invariant(&*self);
        }
        match self.find(&ctx.conn) {
            Some(i) => {
                proof {
                    Self::lemma_present(self.entries@, i as int);
                }
                false
            }
            None => {
                proof {
                    Self::lemma_absent(self.entries@, ctx.conn);
                }
                let ghost s0 = self.entries@;
                let (tx, _rx) = cancel_channel();
                let entry = TrackEntry { ctx: *ctx, confirmed: false, cancel_tx: tx };
                let mut entries: Vec<TrackEntry> = Vec::new();
                core::mem::swap(&mut entries, &mut self.entries);
                entries.push(entry);
                self.entries = entries;
                proof {
                    Self::lemma_push(s0, self.entries@.last());
                    assert forall|a: int, b: int|
                        #![trigger self.entries@[a], self.entries@[b]]
                        0 <= a < b < self.entries@.len()
                        implies self.entries@[a].ctx.conn != self.entries@[b].ctx.conn by {
                        if b < s0.len() {
                            assert(self.entries@[a] == s0[a]);
                            assert(self.entries@[b] == s0[b]);
                        } else {
                            assert(self.entries@[a] == s0[a]);
                        }
                    }
                }
                true
            }
        }
    }

    /// Removes the entry for `ctx`. The authorization path calls this exactly once per
    /// successful registration, on every exit path; a redundant call on a
    /// missing entry changes nothing rather than failing.
    pub fn release(&mut self, ctx: &ProxyRbacContext)
        ensures
            final(self)@ == old(self)@.remove(ctx.conn),
    {
        proof {
            use_type_invariant(&*self);
        }
        match self.find(&ctx.conn) {
            None => {
                proof {
                    Self::lemma_absent(self.entries@, ctx.conn);
                    assert(self@ =~= self@.remove(ctx.conn));
                }
            }
            Some(i) => {
                proof {
                    Self::lemma_remove(self.entries@, i as int);
                }
                let mut entries: Vec<TrackEntry> = Vec::new();
                core::mem::swap(&mut entries, &mut self.entries);
                let _entry = entries.remove(i);
                self.entries = entries;
            }
        }
    }

    /// Called only once authorization approves: confirms that the entry is
    /// still present — it may have been revoked while the decision was
    /// pending — marks it confirmed, and hands back a receiver for its
    /// cancellation channel. `None` means the entry vanished; the caller
    /// must treat the connection as denied and must not relay.
    pub fn track(&mut self, ctx: &ProxyRbacContext) -> (r: Option<
        tokio::sync::watch::Receiver<bool>,
    >)
        ensures
            r.is_some() == old(self)@.contains_key(ctx.conn),
            final(self)@ == if old(self)@.contains_key(ctx.conn) {
                old(self)@.insert(ctx.conn, true)
            } else {
                old(self)@
            },
    {
        proof {
            use_type_invariant(&*self);
        }
        match self.find(&ctx.conn) {
            None => {
                proof {
                    Self::lemma_absent(self.entries@, ctx.conn);
                }
                None
            }
            Some(i) => {
                let ghost s0 = self.entries@;
                proof {
                    Self::lemma_present(s0, i as int);
                    Self::lemma_remove(s0, i as int);
                }
                let mut entries: Vec<TrackEntry> = Vec::new();
                core::mem::swap(&mut entries, &mut self.entries);
                let entry = entries.remove(i);
                let rx = subscribe_cancel(&entry.cancel_tx);
                let promoted = TrackEntry { confirmed: true, ..entry };
                let ghost s1 = entries@;
                entries.push(promoted);
                self.entries = entries;
                proof {
                    Self::lemma_push(s1, self.entries@.last());
                    assert(self@ =~= old(self)@.insert(ctx.conn, true));
                    assert forall|a: int, b: int|
                        #![trigger self.entries@[a], self.entries@[b]]
                        0 <= a < b < self.entries@.len()
                        implies self.entries@[a].ctx.conn != self.entries@[b].ctx.conn by {
                        if b < s1.len() {
                            assert(self.entries@[a] == s1[a]);
                            assert(self.entries@[b] == s1[b]);
                        } else {
                            assert(self.entries@[a] == s1[a]);
                            assert(s1[a] == if a < i { s0[a] } else { s0[a + 1] });
                            Self::lemma_absent(s1, s0[i as int].ctx.conn);
                            Self::lemma_present(s1, a);
                        }
                    }
                }
                Some(rx)
            }
        }
    }

    /// The external policy-update trigger for one connection: fires the
    /// entry's cancellation signal and removes the entry. Absent entries are
    /// left alone.
    pub fn revoke(&mut self, conn: &Connection)
        ensures
            final(self)@ == old(self)@.remove(*conn),
    {
        proof {
            use_type_invariant(&*self);
        }
        match self.find(conn) {
            None => {
                proof {
                    Self::lemma_absent(self.entries@, *conn);
                    assert(self@ =~= self@.remove(*conn));
                }
            }
            Some(i) => {
                proof {
                    Self::lemma_remove(self.entries@, i as int);
                }
                let mut entries: Vec<TrackEntry> = Vec::new();
                core::mem::swap(&mut entries, &mut self.entries);
                let entry = entries.remove(i);
                self.entries = entries;
                fire_cancel(&entry.cancel_tx);
            }
        }
    }

    /// Whether an entry for `conn` is currently present.
    pub fn contains(&self, conn: &Connection) -> (r: bool)
        ensures
            r == self@.contains_key(*conn),
    {
        match self.find(conn) {
            Some(i) => {
                proof {
                    Self::lemma_present(self.entries@, i as int);
                }
                true
            }
            None => {
                proof {
                    Self::lemma_absent(self.entries@, *conn);
                }
                false
            }
        }
    }

    /// The number of live entries.
    pub fn len(&self) -> (r: usize)
        ensures
            r == self@.dom().len(),
    {
        proof {
            use_type_invariant(&*self);
            Self::lemma_dom_len(self.entries@);
        }
        self.entries.len()
    }
}

} // verus!
