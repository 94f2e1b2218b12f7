//! The multi-client aggregator: it owns a set of clients keyed by caller
//! identity, fans their events into one stream, serves lookups, and purges
//! stopped clients.
//!
//! The aggregator is a state machine: the task that owns the channels feeds
//! it what happened and performs what it decides.

use vstd::prelude::*;
use crate::client::single::{ClientConfig, ClientEvent, ServerConfig};
use crate::api::types::Time;

verus! {

/// Configuration of a multi-client aggregator.
#[derive(Debug)]
pub struct MultiClientConfig {
    /// The server defaults handed to new clients.
    pub server: ServerConfig,
    /// The capacity of the aggregator's command channel.
    pub cmd_channel_bufsize: usize,
    /// The capacity of the shared event channel.
    pub event_channel_bufsize: usize,
}

impl Default for MultiClientConfig {
    /// One queued command and ten queued events.
    fn default() -> (r: MultiClientConfig)
        ensures
            r.cmd_channel_bufsize == 1,
            r.event_channel_bufsize == 10,
    {
        MultiClientConfig {
            server: ServerConfig::default(),
            cmd_channel_bufsize: 1,
            event_channel_bufsize: 10,
        }
    }
}

/// An aggregated event: a child's event together with the child that
/// published it.
#[derive(Debug)]
pub struct MultiClientEvent {
    /// The identity the child was registered under.
    pub identity: u64,
    /// The child's client id.
    pub client_id: usize,
    /// The child's event.
    pub event: ClientEvent,
}

/// One entry of the aggregator's table.
#[derive(Debug, Clone, Copy, PartialEq, Eq, Structural)]
pub struct ClientEntry {
    /// The identity chosen by the caller.
    pub identity: u64,
    /// The id of the running client.
    pub client_id: usize,
}

/// Whether the table has an entry with this identity.
pub open spec fn spec_has_identity(t: Seq<ClientEntry>, identity: u64) -> bool {
    exists|i: int| 0 <= i < t.len() && (#[trigger] t[i]).identity == identity
}

/// Whether the table has an entry with this client id.
pub open spec fn spec_live(t: Seq<ClientEntry>, client_id: usize) -> bool {
    exists|i: int| 0 <= i < t.len() && (#[trigger] t[i]).client_id == client_id
}

/// The predicate "this event's publisher is live in the table", as a
/// function value.
pub open spec fn live_pred(t: Seq<ClientEntry>) -> spec_fn(ClientEvent) -> bool {
    |ev: ClientEvent| spec_live(t, ev.spec_id())
}

/// The predicate "this event's publisher is this child", as a function
/// value.
pub open spec fn from_child_pred(x: usize) -> spec_fn(ClientEvent) -> bool {
    |ev: ClientEvent| ev.spec_id() == x
}

/// The aggregator's state: the table of live clients and the next id.
pub struct MultiClient {
    /// The live clients, in insertion order, with distinct identities and
    /// distinct client ids.
    pub table: Vec<ClientEntry>,
    /// The id the next client gets.
    pub next_id: usize,
    /// When the aggregator started.
    pub start_time: Time,
}

impl MultiClient {
    /// The table, in insertion order.
    pub closed spec fn view(&self) -> Seq<ClientEntry> {
        self.table@
    }

    /// Identities are distinct, client ids are distinct, and every client
    /// id is below the next id.
    pub closed spec fn inv(&self) -> bool {
        &&& forall|i: int, j: int|
            #![trigger self.table@[i], self.table@[j]]
            0 <= i < j < self.table@.len() ==> self.table@[i].identity != self.table@[j].identity
        &&& forall|i: int, j: int|
            #![trigger self.table@[i], self.table@[j]]
            0 <= i < j < self.table@.len() ==> self.table@[i].client_id != self.table@[j].client_id
        &&& forall|i: int|
            0 <= i < self.table@.len() ==> (#[trigger] self.table@[i]).client_id < self.next_id
    }

    /// A fresh aggregator with no clients, started at `now`.
    pub fn new(now: Time) -> (r: MultiClient)
        ensures
            r.inv(),
            r@ == Seq::<ClientEntry>::empty(),
            r.next_id == 0,
            r.start_time == now,
    {
        MultiClient { table: Vec::new(), next_id: 0, start_time: now }
    }

    /// When the aggregator started.
    pub fn start_time(&self) -> (r: Time)
        ensures
            r == self.start_time,
    {
        self.start_time
    }

    fn find_identity(&self, identity: u64) -> (r: Option<usize>)
        ensures
            match r {
                Some(i) => i < self@.len() && self@[i as int].identity == identity,
                None => !spec_has_identity(self@, identity),
            },
    {
        let mut i: usize = 0;
        while i < self.table.len()
            invariant
                i <= self@.len(),
                forall|j: int| 0 <= j < i ==> (#[trigger] self@[j]).identity != identity,
            decreases self@.len() - i,
        {
            if self.table[i].identity == identity {
                return Some(i);
            }
            i += 1;
        }
        None
    }

    /// Register a client under an identity; the insertion is idempotent.
    ///
    /// If the identity already has a live entry, that entry's client id is
    /// returned and nothing changes; otherwise a fresh client id is
    /// allocated and recorded. Two calls with the same identity therefore
    /// return the same client id, and only one client runs for it.
    pub fn add_client(&mut self, identity: u64) -> (r: (usize, bool))
        requires
            old(self).inv(),
            old(self).next_id < usize::MAX,
        ensures
            final(self).inv(),
            r.1 == !spec_has_identity(old(self)@, identity),
            spec_has_identity(final(self)@, identity),
            !r.1 ==> final(self)@ == old(self)@ && final(self).next_id == old(self).next_id
                && (exists|i: int|
                0 <= i < old(self)@.len() && (#[trigger] old(self)@[i]).identity == identity && old(
                    self,
                )@[i].client_id == r.0),
            r.1 ==> final(self)@ =~= old(self)@.push(
                ClientEntry { identity, client_id: r.0 },
            ) && r.0 == old(self).next_id && final(self).next_id == old(self).next_id + 1,
            final(self).start_time == old(self).start_time,
    {
        match self.find_identity(identity) {
            Option::Some(i) => {
                let existing = self.table[i].client_id;
                (existing, false)
            },
            Option::None => {
                let id = self.next_id;
                self.table.push(ClientEntry { identity, client_id: id });
                self.next_id = id + 1;
                proof {
                    assert(forall|j: int|
                        0 <= j < old(self)@.len() ==> self@[j] == old(self)@[j]);
                    assert(self@[self@.len() - 1].identity == identity);
                }
                (id, true)
            },
        }
    }

    /// A snapshot of the live clients, in insertion order.
    pub fn get_clients(&self) -> (r: Vec<ClientEntry>)
        ensures
            r@ == self@,
    {
        let mut out: Vec<ClientEntry> = Vec::new();
        let mut i: usize = 0;
        while i < self.table.len()
            invariant
                i <= self@.len(),
                out@ =~= self@.subrange(0, i as int),
            decreases self@.len() - i,
        {
            out.push(self.table[i]);
            proof {
                assert(out@ =~= self@.subrange(0, i + 1));
            }
            i += 1;
        }
        proof {
            assert(out@ =~= self@);
        }
        out
    }

    /// Remove the entries whose clients have stopped.
    pub fn purge(&mut self, stopped: &Vec<usize>)
        requires
            old(self).inv(),
        ensures
            final(self).inv(),
            final(self)@ == old(self)@.filter(keep_pred(stopped@)),
            final(self).next_id == old(self).next_id,
            final(self).start_time == old(self).start_time,
    {
        proof {
            reveal(Seq::filter);
        }
        let mut out: Vec<ClientEntry> = Vec::new();
        let mut i: usize = 0;
        proof {
            assert(self@.subrange(0, 0) =~= Seq::<ClientEntry>::empty());
            assert(out@ =~= self@.subrange(0, 0).filter(keep_pred(stopped@)));
        }
        while i < self.table.len()
            invariant
                old(self) == self,
                self.inv(),
                i <= self@.len(),
                out@ == self@.subrange(0, i as int).filter(keep_pred(stopped@)),
                forall|a: int, b: int|
                    #![trigger out@[a], out@[b]]
                    0 <= a < b < out@.len() ==> out@[a].identity != out@[b].identity
                        && out@[a].client_id != out@[b].client_id,
                forall|a: int, k: int|
                    #![trigger out@[a], self@[k]]
                    0 <= a < out@.len() && i <= k < self@.len() ==> out@[a].identity
                        != self@[k].identity && out@[a].client_id != self@[k].client_id,
                forall|a: int|
                    0 <= a < out@.len() ==> (#[trigger] out@[a]).client_id < self.next_id,
            decreases self@.len() - i,
        {
            proof {
                reveal(Seq::filter);
                assert(self@.subrange(0, i + 1).drop_last() =~= self@.subrange(0, i as int));
                assert(self@.subrange(0, i + 1).last() == self@[i as int]);
            }
            let e = self.table[i];
            let mut found = false;
            let mut k: usize = 0;
            while k < stopped.len()
                invariant
                    k <= stopped@.len(),
                    found == exists|j: int| 0 <= j < k && stopped@[j] == e.client_id,
                decreases stopped@.len() - k,
            {
                if stopped[k] == e.client_id {
                    found = true;
                }
                k += 1;
            }
            proof {
                assert(found == !(keep_pred(stopped@))(e));
            }
            if !found {
                out.push(e);
            }
            i += 1;
        }
        proof {
            assert(self@.subrange(0, self@.len() as int) =~= self@);
            lemma_filter_entries_sub(self@, keep_pred(stopped@));
        }
        self.table = out;
    }

    /// Route one child event: a live child's event is wrapped with its
    /// identity and delivered; an unknown child's event is dropped.
    pub fn on_event(&self, ev: ClientEvent) -> (r: Option<MultiClientEvent>)
        ensures
            r is Some <==> spec_live(self@, ev.spec_id()),
            r matches Some(me) ==> me.event == ev && me.client_id == ev.spec_id()
                && spec_has_identity(self@, me.identity) && (exists|i: int|
                0 <= i < self@.len() && (#[trigger] self@[i]) == (ClientEntry {
                    identity: me.identity,
                    client_id: me.client_id,
                })),
    {
        let id = ev.id();
        let mut i: usize = 0;
        while i < self.table.len()
            invariant
                i <= self@.len(),
                id == ev.spec_id(),
                forall|j: int| 0 <= j < i ==> (#[trigger] self@[j]).client_id != id,
            decreases self@.len() - i,
        {
            if self.table[i].client_id == id {
                return Some(
                    MultiClientEvent {
                        identity: self.table[i].identity,
                        client_id: id,
                        event: ev,
                    },
                );
            }
            i += 1;
        }
        None
    }
}

/// The predicate "this entry's client is not in the stopped list", as a
/// function value.
pub open spec fn keep_pred(stopped: Seq<usize>) -> spec_fn(ClientEntry) -> bool {
    |e: ClientEntry| !exists|j: int| 0 <= j < stopped.len() && stopped[j] == e.client_id
}

proof fn lemma_filter_entries_sub(s: Seq<ClientEntry>, p: spec_fn(ClientEntry) -> bool)
    ensures
        forall|i: int|
            0 <= i < s.filter(p).len() ==> p(#[trigger] s.filter(p)[i]),
        s.filter(p).len() <= s.len(),
    decreases s.len(),
{
    reveal(Seq::filter);
    if s.len() > 0 {
        lemma_filter_entries_sub(s.drop_last(), p);
    }
}

/// The fan-in preserves each child's event sequence: among the events of
/// live children, the subsequence belonging to one live child is exactly
/// that child's own event sequence, in order.
pub proof fn lemma_fan_in_per_child(t: Seq<ClientEntry>, evs: Seq<ClientEvent>, x: usize)
    requires
        spec_live(t, x),
    ensures
        evs.filter(live_pred(t)).filter(from_child_pred(x)) == evs.filter(from_child_pred(x)),
    decreases evs.len(),
{
    reveal(Seq::filter);
    if evs.len() == 0 {
        assert(evs.filter(live_pred(t)) =~= evs);
    } else {
        lemma_fan_in_per_child(t, evs.drop_last(), x);
        let e = evs.last();
        let sub = evs.drop_last();
        assert(evs.filter(live_pred(t)).filter(from_child_pred(x)) =~= evs.filter(
            from_child_pred(x),
        )) by {
            if (live_pred(t))(e) {
                assert(evs.filter(live_pred(t)) == sub.filter(live_pred(t)).push(e));
                assert(evs.filter(live_pred(t)).filter(from_child_pred(x))
                    == if (from_child_pred(x))(e) {
                    sub.filter(live_pred(t)).filter(from_child_pred(x)).push(e)
                } else {
                    sub.filter(live_pred(t)).filter(from_child_pred(x))
                }) by {
                    assert(evs.filter(live_pred(t)).drop_last() =~= sub.filter(live_pred(t)));
                }
            } else {
                assert((from_child_pred(x))(e) ==> (live_pred(t))(e));
            }
        }
    }
}


/// What registering an identity does to the table: an existing entry is
/// returned unchanged, a missing one is created under the next id.
pub open spec fn spec_add(t: Seq<ClientEntry>, next: int, identity: u64) -> (
    Seq<ClientEntry>,
    int,
    int,
) {
    if spec_has_identity(t, identity) {
        let i = choose|i: int| 0 <= i < t.len() && (#[trigger] t[i]).identity == identity;
        (t, t[i].client_id as int, next)
    } else {
        (
            t.push(ClientEntry { identity, client_id: next as usize }),
            next,
            next + 1,
        )
    }
}

/// Registering the same identity twice yields the same client id both
/// times, and the second registration changes nothing: exactly one client
/// runs for the identity.
pub proof fn lemma_add_client_idempotent(t: Seq<ClientEntry>, next: int, identity: u64)
    requires
        forall|i: int, j: int|
            #![trigger t[i], t[j]]
            0 <= i < j < t.len() ==> t[i].identity != t[j].identity,
        0 <= next < usize::MAX,
    ensures
        ({
            let first = spec_add(t, next, identity);
            let second = spec_add(first.0, first.2, identity);
            second.0 == first.0 && second.1 == first.1 && second.2 == first.2
        }),
{
    let first = spec_add(t, next, identity);
    if spec_has_identity(t, identity) {
    } else {
        let t1 = first.0;
        assert(t1[t.len() as int].identity == identity);
        assert(spec_has_identity(t1, identity));
        let i = choose|i: int| 0 <= i < t1.len() && (#[trigger] t1[i]).identity == identity;
        assert(forall|j: int| 0 <= j < t.len() ==> #[trigger] t1[j] == t[j]);
        if i < t.len() {
            assert(t[i].identity == identity);
            assert(spec_has_identity(t, identity));
        }
        assert(i == t.len());
        assert(t1[i].client_id == next as usize);
    }
}

} // verus!
