//! Reply correlation: the set of command ids whose replies are awaited.
//!
//! Each in-flight command registers its correlation id here; the packet that
//! carries the same id resolves it, and resolves it exactly once. Waiting
//! with a deadline and cancellation of dropped waiters happen at the channel
//! layer around the library, which reports the ids of cancelled waiters back
//! through [`Replies::purge`].

use vstd::prelude::*;

verus! {

/// The pending ids, as a set.
pub open spec fn ids_as_set(ids: Seq<u64>) -> Set<u64> {
    ids.to_set()
}

/// Whether a sequence holds no duplicates.
pub open spec fn no_dup(ids: Seq<u64>) -> bool {
    forall|i: int, j: int| 0 <= i < j < ids.len() ==> ids[i] != ids[j]
}

/// The in-flight map from correlation id to its one-shot waiter.
#[derive(Debug, PartialEq)]
pub struct Replies {
    /// The per-command timeout, in milliseconds, that each waiter is given.
    timeout: u64,
    /// Ids of commands whose replies have not arrived yet.
    pending: Vec<u64>,
}

impl Replies {
    /// The set of pending correlation ids.
    pub closed spec fn view(&self) -> Set<u64> {
        ids_as_set(self.pending@)
    }

    /// No id is pending twice.
    pub closed spec fn inv(&self) -> bool {
        no_dup(self.pending@)
    }

    /// The per-command timeout, in milliseconds.
    pub closed spec fn spec_timeout(&self) -> u64 {
        self.timeout
    }

    /// A fresh map with no pending commands.
    pub fn new(timeout: u64) -> (r: Replies)
        ensures
            r.inv(),
            r@ == Set::<u64>::empty(),
            r.spec_timeout() == timeout,
    {
        proof {
            assert(Seq::<u64>::empty().to_set() =~= Set::<u64>::empty());
        }
        Replies { timeout, pending: Vec::new() }
    }

    /// The per-command timeout, in milliseconds.
    pub fn timeout(&self) -> (r: u64)
        ensures
            r == self.spec_timeout(),
    {
        self.timeout
    }

    fn find(&self, id: u64) -> (r: Option<usize>)
        ensures
            match r {
                Some(i) => i < self.pending@.len() && self.pending@[i as int] == id,
                None => !self@.contains(id),
            },
    {
        let mut i: usize = 0;
        while i < self.pending.len()
            invariant
                i <= self.pending@.len(),
                forall|j: int| 0 <= j < i ==> self.pending@[j] != id,
            decreases self.pending@.len() - i,
        {
            if self.pending[i] == id {
                return Some(i);
            }
            i += 1;
        }
        proof {
            if self.pending@.to_set().contains(id) {
                let j = choose|j: int|
                    0 <= j < self.pending@.len() && self.pending@[j] == id;
                assert(false);
            }
        }
        None
    }

    /// Decide whether no id is pending twice.
    pub fn check_inv(&self) -> (r: bool)
        ensures
            r == self.inv(),
    {
        let mut i: usize = 0;
        while i < self.pending.len()
            invariant
                i <= self.pending@.len(),
                forall|a: int, b: int|
                    0 <= a < b < self.pending@.len() && a < i ==> self.pending@[a]
                        != self.pending@[b],
            decreases self.pending@.len() - i,
        {
            let mut j: usize = i + 1;
            while j < self.pending.len()
                invariant
                    i < self.pending@.len(),
                    i + 1 <= j <= self.pending@.len(),
                    forall|b: int| i < b < j ==> self.pending@[b] != self.pending@[i as int],
                decreases self.pending@.len() - j,
            {
                if self.pending[i] == self.pending[j] {
                    proof {
                        assert(!no_dup(self.pending@));
                    }
                    return false;
                }
                j += 1;
            }
            i += 1;
        }
        true
    }

    /// Register a command id to wait for.
    pub fn wait_for(&mut self, id: u64)
        requires
            old(self).inv(),
        ensures
            final(self).inv(),
            final(self)@ == old(self)@.insert(id),
            final(self).spec_timeout() == old(self).spec_timeout(),
    {
        match self.find(id) {
            Some(_) => {
                proof {
                    let i = choose|i: int|
                        0 <= i < self.pending@.len() && self.pending@[i] == id;
                    assert(self@.contains(id));
                    assert(old(self)@ =~= old(self)@.insert(id));
                }
            },
            None => {
                let ghost pre = self.pending@;
                self.pending.push(id);
                proof {
                    assert(self.pending@ =~= pre.push(id));
                    pre.lemma_push_to_set_commute(id);
                    assert(self.pending@.to_set() =~= pre.to_set().insert(id));
                    assert(no_dup(self.pending@)) by {
                        assert(forall|j: int| 0 <= j < pre.len() ==> pre[j] != id);
                        assert(forall|j: int|
                            0 <= j < pre.len() ==> self.pending@[j] == pre[j]);
                    }
                }
            },
        }
    }

    /// Resolve the waiter for this id, if one is pending.
    ///
    /// Returns whether a waiter was pending; afterwards the id is no longer
    /// pending, so a second packet with the same id resolves nothing.
    pub fn complete(&mut self, id: u64) -> (was_pending: bool)
        requires
            old(self).inv(),
        ensures
            final(self).inv(),
            was_pending == old(self)@.contains(id),
            final(self)@ == old(self)@.remove(id),
            final(self).spec_timeout() == old(self).spec_timeout(),
    {
        match self.find(id) {
            Some(i) => {
                proof {
                    lemma_remove_set(self.pending@, i as int);
                    assert(self.pending@.to_set().contains(id));
                }
                self.pending.remove(i);
                true
            },
            None => {
                proof {
                    assert(old(self)@ =~= old(self)@.remove(id));
                }
                false
            },
        }
    }

    /// Drop the waiters whose receiving ends have been cancelled.
    pub fn purge(&mut self, closed: &Vec<u64>)
        requires
            old(self).inv(),
        ensures
            final(self).inv(),
            final(self)@ == old(self)@.difference(closed@.to_set()),
            final(self).spec_timeout() == old(self).spec_timeout(),
    {
        let mut out: Vec<u64> = Vec::new();
        let mut i: usize = 0;
        proof {
            assert(out@.to_set() =~= self.pending@.subrange(0, 0).to_set().difference(
                closed@.to_set(),
            )) by {
                assert(self.pending@.subrange(0, 0) =~= Seq::<u64>::empty());
            }
        }
        while i < self.pending.len()
            invariant
                old(self) == self,
                self.inv(),
                i <= self.pending@.len(),
                no_dup(out@),
                forall|j: int, k: int|
                    #![trigger out@[j], self.pending@[k]]
                    0 <= j < out@.len() && i <= k < self.pending@.len() ==> out@[j]
                        != self.pending@[k],
                out@.to_set() == self.pending@.subrange(0, i as int).to_set().difference(
                    closed@.to_set(),
                ),
            decreases self.pending@.len() - i,
        {
            let ghost pre = self.pending@.subrange(0, i as int);
            let ghost post = self.pending@.subrange(0, i + 1);
            proof {
                assert(post.drop_last() =~= pre);
                assert(post.last() == self.pending@[i as int]);
            }
            let id = self.pending[i];
            if !vec_contains(closed, id) {
                let ghost out_pre = out@;
                out.push(id);
                proof {
                    assert(out@ =~= out_pre.push(id));
                    out_pre.lemma_push_to_set_commute(id);
                    pre.lemma_push_to_set_commute(id);
                    assert(post =~= pre.push(id));
                    assert(out@.to_set() =~= post.to_set().difference(closed@.to_set()));
                }
            } else {
                proof {
                    pre.lemma_push_to_set_commute(self.pending@[i as int]);
                    assert(post =~= pre.push(self.pending@[i as int]));
                    assert(out@.to_set() =~= post.to_set().difference(closed@.to_set()));
                }
            }
            i += 1;
        }
        proof {
            assert(self.pending@.subrange(0, self.pending@.len() as int) =~= self.pending@);
        }
        self.pending = out;
    }
}

proof fn lemma_remove_set(ids: Seq<u64>, i: int)
    requires
        no_dup(ids),
        0 <= i < ids.len(),
    ensures
        no_dup(ids.remove(i)),
        ids.remove(i).to_set() == ids.to_set().remove(ids[i]),
{
    let ids2 = ids.remove(i);
    assert(forall|x: int|
        0 <= x < ids2.len() ==> #[trigger] ids2[x] == if x < i {
            ids[x]
        } else {
            ids[x + 1]
        });
    assert(ids2.to_set() =~= ids.to_set().remove(ids[i])) by {
        assert forall|v: u64| ids2.to_set().contains(v) implies ids.to_set().contains(v) && v
            != ids[i] by {
            let x = choose|x: int| 0 <= x < ids2.len() && ids2[x] == v;
            if x < i {
                assert(ids[x] == v);
            } else {
                assert(ids[x + 1] == v);
            }
        }
        assert forall|v: u64|
            ids.to_set().contains(v) && v != ids[i] implies ids2.to_set().contains(v) by {
            let x = choose|x: int| 0 <= x < ids.len() && ids[x] == v;
            if x < i {
                assert(ids2[x] == v);
            } else {
                assert(ids2[x - 1] == v);
            }
        }
    }
}

/// Whether a vector holds a value.
pub fn vec_contains(v: &Vec<u64>, x: u64) -> (r: bool)
    ensures
        r == v@.to_set().contains(x),
{
    let mut i: usize = 0;
    while i < v.len()
        invariant
            i <= v@.len(),
            forall|j: int| 0 <= j < i ==> v@[j] != x,
        decreases v@.len() - i,
    {
        if v[i] == x {
            return true;
        }
        i += 1;
    }
    proof {
        if v@.to_set().contains(x) {
            let j = choose|j: int| 0 <= j < v@.len() && v@[j] == x;
            assert(false);
        }
    }
    false
}

/// A waiter resolves at most once: after a packet with a pending id resolves
/// it, the id is no longer pending, and a second packet with the same id
/// resolves nothing.
pub proof fn lemma_complete_exactly_once(pending: Set<u64>, id: u64)
    requires
        pending.contains(id),
    ensures
        !pending.remove(id).contains(id),
        pending.remove(id).remove(id) == pending.remove(id),
{
    assert(pending.remove(id).remove(id) =~= pending.remove(id));
}

} // verus!
