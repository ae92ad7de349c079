//! The connection registry: the single authority for "is this user currently
//! reachable from this process".
//!
//! A connection handle is the live endpoint of one connected client; it owns
//! the connection's send queue and its last liveness timestamp.  The registry
//! maps each connected user id to exactly one handle; presence in the
//! registry is the sole definition of "online in this process".  Its image is
//! the finite map from id to handle image, and every operation's contract is
//! stated as a transformation of that map: registration is `insert` (so a
//! second registration under the same id supersedes the first), removal is
//! `remove`, and sending to an absent id leaves the map unchanged.

use vstd::prelude::*;

use crate::messages::ServerMessage;
use crate::messages::ServerMessageView;
use crate::models::str_views;

verus! {

/// The live, addressable endpoint for one connected client.
pub struct ConnectionHandle {
    pub id: String,
    pub session_id: String,
    pub last_heartbeat: u64,
    pub outbox: Vec<ServerMessage>,
}

pub ghost struct HandleView {
    pub id: Seq<char>,
    pub session_id: Seq<char>,
    pub last_heartbeat: u64,
    pub outbox: Seq<ServerMessageView>,
}

impl View for ConnectionHandle {
    type V = HandleView;

    open spec fn view(&self) -> HandleView {
        HandleView {
            id: self.id@,
            session_id: self.session_id@,
            last_heartbeat: self.last_heartbeat,
            outbox: self.outbox@.map_values(|m: ServerMessage| m@),
        }
    }
}

impl ConnectionHandle {
    /// A fresh handle with an empty send queue, alive as of `now`.
    pub fn new(id: String, session_id: String, now: u64) -> (h: ConnectionHandle)
        ensures
            h@ == (HandleView {
                id: id@,
                session_id: session_id@,
                last_heartbeat: now,
                outbox: Seq::<ServerMessageView>::empty(),
            }),
    {
        let h = ConnectionHandle { id, session_id, last_heartbeat: now, outbox: Vec::new() };
        proof {
            assert(h.outbox@.map_values(|m: ServerMessage| m@) =~= Seq::<
                ServerMessageView,
            >::empty());
        }
        h
    }
}

/// A handle after one more message was enqueued on its send queue.
pub open spec fn push_msg(h: HandleView, m: ServerMessageView) -> HandleView {
    HandleView {
        id: h.id,
        session_id: h.session_id,
        last_heartbeat: h.last_heartbeat,
        outbox: h.outbox.push(m),
    }
}

/// A handle whose liveness timestamp was moved to `now`.
pub open spec fn touched(h: HandleView, now: u64) -> HandleView {
    HandleView { id: h.id, session_id: h.session_id, last_heartbeat: now, outbox: h.outbox }
}

/// A handle whose send queue was handed off, leaving it empty.
pub open spec fn drained(h: HandleView) -> HandleView {
    HandleView {
        id: h.id,
        session_id: h.session_id,
        last_heartbeat: h.last_heartbeat,
        outbox: Seq::<ServerMessageView>::empty(),
    }
}

/// What `send` does to the registry image: enqueue on the handle of `id` if
/// one is registered, and nothing otherwise.
pub open spec fn send_effect(
    reg: Map<Seq<char>, HandleView>,
    id: Seq<char>,
    m: ServerMessageView,
) -> Map<Seq<char>, HandleView> {
    if reg.contains_key(id) {
        reg.insert(id, push_msg(reg[id], m))
    } else {
        reg
    }
}

/// Whether a fan-out with the given target list and exclusion reaches `k`.
pub open spec fn fanout_sel(
    members: Seq<Seq<char>>,
    exclude: Option<Seq<char>>,
    k: Seq<char>,
) -> bool {
    members.contains(k) && exclude != Some(k)
}

/// What a fan-out does to the registry image: every registered connection
/// whose id is a non-excluded target gets the message enqueued; every other
/// connection, and the registry's domain, are untouched.
pub open spec fn fanout_effect(
    reg: Map<Seq<char>, HandleView>,
    members: Seq<Seq<char>>,
    exclude: Option<Seq<char>>,
    m: ServerMessageView,
) -> Map<Seq<char>, HandleView> {
    Map::new(
        |k: Seq<char>| reg.contains_key(k),
        |k: Seq<char>|
            if fanout_sel(members, exclude, k) {
                push_msg(reg[k], m)
            } else {
                reg[k]
            },
    )
}

/// No id appears on two distinct handles.
pub open spec fn unique_ids(s: Seq<ConnectionHandle>) -> bool {
    forall|i: int, j: int| 0 <= i < j < s.len() ==> s[i]@.id != s[j]@.id
}

/// The finite map that a handle list stands for (later entries win).
pub open spec fn map_of(s: Seq<ConnectionHandle>) -> Map<Seq<char>, HandleView>
    decreases s.len(),
{
    if s.len() == 0 {
        Map::empty()
    } else {
        map_of(s.drop_last()).insert(s.last()@.id, s.last()@)
    }
}

proof fn lemma_map_of_dom(s: Seq<ConnectionHandle>, k: Seq<char>)
    ensures
        map_of(s).contains_key(k) <==> exists|i: int| 0 <= i < s.len() && s[i]@.id == k,
    decreases s.len(),
{
    if s.len() == 0 {
    } else {
        lemma_map_of_dom(s.drop_last(), k);
        if s.last()@.id == k {
            assert(s[s.len() - 1]@.id == k);
        } else {
            if exists|i: int| 0 <= i < s.len() && s[i]@.id == k {
                let i = choose|i: int| 0 <= i < s.len() && s[i]@.id == k;
                assert(s.drop_last()[i]@.id == k);
            }
        }
    }
}

proof fn lemma_map_of_index(s: Seq<ConnectionHandle>, i: int)
    requires
        unique_ids(s),
        0 <= i < s.len(),
    ensures
        map_of(s).contains_key(s[i]@.id),
        map_of(s)[s[i]@.id] == s[i]@,
    decreases s.len(),
{
    if i == s.len() - 1 {
    } else {
        assert(unique_ids(s.drop_last()));
        lemma_map_of_index(s.drop_last(), i);
        assert(s.drop_last()[i] == s[i]);
        assert(s[i]@.id != s.last()@.id);
    }
}

proof fn lemma_map_of_update(s: Seq<ConnectionHandle>, i: int, h: ConnectionHandle)
    requires
        unique_ids(s),
        0 <= i < s.len(),
        s[i]@.id == h@.id,
    ensures
        unique_ids(s.update(i, h)),
        map_of(s.update(i, h)) =~= map_of(s).insert(h@.id, h@),
    decreases s.len(),
{
    let t = s.update(i, h);
    if i == s.len() - 1 {
        assert(t.drop_last() =~= s.drop_last());
        assert(t.last() == h);
    } else {
        assert(unique_ids(s.drop_last()));
        assert(s.drop_last()[i] == s[i]);
        lemma_map_of_update(s.drop_last(), i, h);
        assert(t.drop_last() =~= s.drop_last().update(i, h));
        assert(t.last() == s.last());
        assert(s[i]@.id != s.last()@.id);
    }
}

proof fn lemma_map_of_push(s: Seq<ConnectionHandle>, h: ConnectionHandle)
    requires
        unique_ids(s),
        forall|i: int| 0 <= i < s.len() ==> s[i]@.id != h@.id,
    ensures
        unique_ids(s.push(h)),
        map_of(s.push(h)) =~= map_of(s).insert(h@.id, h@),
{
    assert(s.push(h).drop_last() =~= s);
    assert(s.push(h).last() == h);
}

proof fn lemma_map_of_remove(s: Seq<ConnectionHandle>, i: int)
    requires
        unique_ids(s),
        0 <= i < s.len(),
    ensures
        unique_ids(s.remove(i)),
        map_of(s.remove(i)) =~= map_of(s).remove(s[i]@.id),
    decreases s.len(),
{
    let k = s[i]@.id;
    let t = s.remove(i);
    assert(unique_ids(t)) by {
        assert forall|p: int, q: int| 0 <= p < q < t.len() implies t[p]@.id != t[q]@.id by {
            let p0: int = if p < i {
                p
            } else {
                p + 1
            };
            let q0: int = if q < i {
                q
            } else {
                q + 1
            };
            assert(t[p] == s[p0] && t[q] == s[q0]);
        }
    }
    if i == s.len() - 1 {
        assert(t =~= s.drop_last());
        lemma_map_of_dom(s.drop_last(), k);
        assert(map_of(s).remove(k) =~= map_of(s.drop_last()));
    } else {
        assert(unique_ids(s.drop_last()));
        assert(s.drop_last()[i] == s[i]);
        lemma_map_of_remove(s.drop_last(), i);
        assert(t.drop_last() =~= s.drop_last().remove(i));
        assert(t.last() == s.last());
        assert(k != s.last()@.id);
    }
}

/// Process-wide mapping from connected user id to connection handle, the
/// single mutual-exclusion domain of the engine.  Created at process start,
/// torn down at process stop; never an ambient singleton.
pub struct ConnectionRegistry {
    entries: Vec<ConnectionHandle>,
}

impl View for ConnectionRegistry {
    type V = Map<Seq<char>, HandleView>;

    closed spec fn view(&self) -> Map<Seq<char>, HandleView> {
        map_of(self.entries@)
    }
}

impl ConnectionRegistry {
    /// Internal consistency: one handle per id.
    pub closed spec fn wf(self) -> bool {
        unique_ids(self.entries@)
    }

    /// An empty registry: nobody is online.
    pub fn new() -> (r: ConnectionRegistry)
        ensures
            r.wf(),
            r@ =~= Map::<Seq<char>, HandleView>::empty(),
    {
        ConnectionRegistry { entries: Vec::new() }
    }

    fn index_of(&self, id: &String) -> (r: Option<usize>)
        ensures
            match r {
                Some(i) => i < self.entries@.len() && self.entries@[i as int]@.id == id@,
                None => forall|j: int| 0 <= j < self.entries@.len() ==> self.entries@[j]@.id != id@,
            },
    {
        let mut i: usize = 0;
        while i < self.entries.len()
            invariant
                i <= self.entries@.len(),
                forall|j: int| 0 <= j < i ==> self.entries@[j]@.id != id@,
            decreases self.entries@.len() - i,
        {
            if self.entries[i].id == *id {
                return Some(i);
            }
            i = i + 1;
        }
        None
    }

    /// True iff a handle is currently registered for `id`; the canonical
    /// online/offline classifier, reflecting only this process's connections.
    pub fn user_id_in_current_sessions(&self, id: &String) -> (r: bool)
        ensures
            r == self@.contains_key(id@),
    {
        proof {
            lemma_map_of_dom(self.entries@, id@);
        }
        match self.index_of(id) {
            Some(i) => true,
            None => false,
        }
    }

    /// Inserts or replaces the handle for the handle's own id; a prior handle
    /// under the same id is silently superseded (last-connect-wins).
    pub fn register(&mut self, handle: ConnectionHandle)
        requires
            old(self).wf(),
        ensures
            final(self).wf(),
            final(self)@ =~= old(self)@.insert(handle@.id, handle@),
    {
        let ghost s0 = self.entries@;
        let ghost hv = handle@;
        match self.index_of(&handle.id) {
            Some(i) => {
                self.entries[i] = handle;
                proof {
                    lemma_map_of_update(s0, i as int, self.entries@[i as int]);
                }
            },
            None => {
                self.entries.push(handle);
                proof {
                    lemma_map_of_push(s0, self.entries@.last());
                }
            },
        }
    }

    /// Removes the handle for `id`; removing an absent id is a no-op.
    pub fn unregister(&mut self, id: &String)
        requires
            old(self).wf(),
        ensures
            final(self).wf(),
            final(self)@ =~= old(self)@.remove(id@),
    {
        let ghost s0 = self.entries@;
        match self.index_of(id) {
            Some(i) => {
                self.entries.remove(i);
                proof {
                    lemma_map_of_remove(s0, i as int);
                }
            },
            None => {
                proof {
                    lemma_map_of_dom(s0, id@);
                    assert(map_of(s0).remove(id@) =~= map_of(s0));
                }
            },
        }
    }

    /// Enqueues `message` on the handle of `id` if one is registered; no
    /// error if `id` is not registered (fire-and-forget).
    pub fn send(&mut self, id: &String, message: ServerMessage)
        requires
            old(self).wf(),
        ensures
            final(self).wf(),
            final(self)@ =~= send_effect(old(self)@, id@, message@),
    {
        let ghost s0 = self.entries@;
        let ghost mv = message@;
        proof {
            lemma_map_of_dom(s0, id@);
        }
        match self.index_of(id) {
            Some(i) => {
                proof {
                    lemma_map_of_index(s0, i as int);
                }
                self.entries[i].outbox.push(message);
                proof {
                    assert(self.entries@[i as int]@.outbox =~= push_msg(s0[i as int]@, mv).outbox);
                    assert(self.entries@[i as int]@ == push_msg(s0[i as int]@, mv));
                    assert(self.entries@ =~= s0.update(i as int, self.entries@[i as int]));
                    lemma_map_of_update(s0, i as int, self.entries@[i as int]);
                }
            },
            None => {},
        }
    }

    /// Moves the liveness timestamp of `id`'s handle to `now`, if one is
    /// registered.
    pub fn record_liveness(&mut self, id: &String, now: u64)
        requires
            old(self).wf(),
        ensures
            final(self).wf(),
            old(self)@.contains_key(id@) ==> final(self)@ =~= old(self)@.insert(
                id@,
                touched(old(self)@[id@], now),
            ),
            !old(self)@.contains_key(id@) ==> final(self)@ =~= old(self)@,
    {
        let ghost s0 = self.entries@;
        proof {
            lemma_map_of_dom(s0, id@);
        }
        match self.index_of(id) {
            Some(i) => {
                proof {
                    lemma_map_of_index(s0, i as int);
                }
                self.entries[i].last_heartbeat = now;
                proof {
                    assert(self.entries@[i as int]@.outbox =~= s0[i as int]@.outbox);
                    assert(self.entries@[i as int]@ == touched(s0[i as int]@, now));
                    assert(self.entries@ =~= s0.update(i as int, self.entries@[i as int]));
                    lemma_map_of_update(s0, i as int, self.entries@[i as int]);
                }
            },
            None => {},
        }
    }

    /// Hands the queued messages of `id`'s connection to the transmitting
    /// edge, leaving the queue empty.
    pub fn drain_outbox(&mut self, id: &String) -> (r: Vec<ServerMessage>)
        requires
            old(self).wf(),
        ensures
            final(self).wf(),
            old(self)@.contains_key(id@) ==> {
                &&& r@.map_values(|m: ServerMessage| m@) == old(self)@[id@].outbox
                &&& final(self)@ =~= old(self)@.insert(id@, drained(old(self)@[id@]))
            },
            !old(self)@.contains_key(id@) ==> {
                &&& r@.len() == 0
                &&& final(self)@ =~= old(self)@
            },
    {
        let ghost s0 = self.entries@;
        proof {
            lemma_map_of_dom(s0, id@);
        }
        match self.index_of(id) {
            Some(i) => {
                proof {
                    lemma_map_of_index(s0, i as int);
                }
                let mut taken: Vec<ServerMessage> = Vec::new();
                core::mem::swap(&mut self.entries[i].outbox, &mut taken);
                proof {
                    assert(self.entries@[i as int]@.outbox =~= drained(s0[i as int]@).outbox);
                    assert(self.entries@[i as int]@ == drained(s0[i as int]@));
                    assert(self.entries@ =~= s0.update(i as int, self.entries@[i as int]));
                    lemma_map_of_update(s0, i as int, self.entries@[i as int]);
                }
                taken
            },
            None => Vec::new(),
        }
    }

    /// Delivers one message to every registered connection whose id stands in
    /// `members`, except `exclude`; the registry's other handles and its
    /// domain are untouched.
    pub fn broadcast_to_members(
        &mut self,
        members: &Vec<String>,
        message: &ServerMessage,
        exclude: Option<&String>,
    )
        requires
            old(self).wf(),
        ensures
            final(self).wf(),
            final(self)@ =~= fanout_effect(
                old(self)@,
                str_views(members@),
                exclude_view(exclude),
                message@,
            ),
    {
        let ghost s0 = self.entries@;
        let ghost mv = str_views(members@);
        let ghost ev = exclude_view(exclude);
        let n = self.entries.len();
        let mut i: usize = 0;
        while i < n
            invariant
                i <= n,
                n == self.entries@.len(),
                n == s0.len(),
                unique_ids(s0),
                mv == str_views(members@),
                ev == exclude_view(exclude),
                forall|j: int| i <= j < n ==> self.entries@[j] == s0[j],
                forall|j: int|
                    0 <= j < i ==> #[trigger] self.entries@[j]@ == (if fanout_sel(
                        mv,
                        ev,
                        s0[j]@.id,
                    ) {
                        push_msg(s0[j]@, message@)
                    } else {
                        s0[j]@
                    }),
                forall|j: int| 0 <= j < n ==> #[trigger] self.entries@[j]@.id == s0[j]@.id,
            decreases n - i,
        {
            let targeted = vec_contains_string(members, &self.entries[i].id);
            let excluded = match exclude {
                Some(e) => self.entries[i].id == *e,
                None => false,
            };
            let ghost before = self.entries@[i as int]@;
            if targeted && !excluded {
                self.entries[i].outbox.push(message.duplicate());
                proof {
                    assert(self.entries@[i as int]@.outbox =~= push_msg(before, message@).outbox);
                    assert(self.entries@[i as int]@ == push_msg(before, message@));
                }
            }
            i = i + 1;
        }
        proof {
            assert(unique_ids(self.entries@));
            let m1 = map_of(self.entries@);
            let m2 = fanout_effect(map_of(s0), mv, ev, message@);
            assert forall|k: Seq<char>| m1.contains_key(k) <==> m2.contains_key(k) by {
                lemma_map_of_dom(self.entries@, k);
                lemma_map_of_dom(s0, k);
                if m1.contains_key(k) {
                    let j = choose|j: int|
                        0 <= j < self.entries@.len() && self.entries@[j]@.id == k;
                    assert(s0[j]@.id == k);
                }
                if map_of(s0).contains_key(k) {
                    let j = choose|j: int| 0 <= j < s0.len() && s0[j]@.id == k;
                    assert(self.entries@[j]@.id == k);
                }
            }
            assert forall|k: Seq<char>| m1.contains_key(k) implies m1[k] == m2[k] by {
                lemma_map_of_dom(self.entries@, k);
                let j = choose|j: int|
                    0 <= j < self.entries@.len() && self.entries@[j]@.id == k;
                lemma_map_of_index(self.entries@, j);
                lemma_map_of_index(s0, j);
            }
            assert(m1 =~= m2);
        }
    }
}

/// The image of an optional exclusion id.
pub open spec fn exclude_view(exclude: Option<&String>) -> Option<Seq<char>> {
    match exclude {
        Some(e) => Some(e@),
        None => None,
    }
}

/// Whether `v` holds a string with the image `s`.
pub fn vec_contains_string(v: &Vec<String>, s: &String) -> (r: bool)
    ensures
        r == str_views(v@).contains(s@),
{
    let mut i: usize = 0;
    while i < v.len()
        invariant
            i <= v@.len(),
            forall|j: int| 0 <= j < i ==> v@[j]@ != s@,
        decreases v@.len() - i,
    {
        if v[i] == *s {
            proof {
                assert(str_views(v@)[i as int] == s@);
            }
            return true;
        }
        i = i + 1;
    }
    proof {
        assert forall|j: int| 0 <= j < str_views(v@).len() implies str_views(v@)[j] != s@ by {}
    }
    false
}

/// Registering the same id twice leaves exactly one handle reachable, the
/// one registered last; a send to that id then enqueues on the latest handle
/// only, and every other handle's queue is untouched.
pub proof fn lemma_register_last_wins(
    reg: Map<Seq<char>, HandleView>,
    h1: HandleView,
    h2: HandleView,
    m: ServerMessageView,
)
    requires
        h1.id == h2.id,
    ensures
        reg.insert(h1.id, h1).insert(h2.id, h2) =~= reg.insert(h2.id, h2),
        reg.insert(h1.id, h1).insert(h2.id, h2)[h2.id] == h2,
        send_effect(reg.insert(h1.id, h1).insert(h2.id, h2), h2.id, m)[h2.id] == push_msg(h2, m),
        forall|k: Seq<char>|
            k != h2.id && reg.insert(h1.id, h1).insert(h2.id, h2).contains_key(k)
                ==> #[trigger] send_effect(reg.insert(h1.id, h1).insert(h2.id, h2), h2.id, m)[k]
                == reg[k],
{
}

} // verus!
