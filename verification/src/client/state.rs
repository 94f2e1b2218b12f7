//! The room state a client mirrors while it is connected.

use vstd::prelude::*;
use vstd::map::*;
use crate::api::types::{PersonalAccountView, SessionId, SessionView, Time, UserId};
use crate::api::events::{BounceEvent, HelloEvent, NickEvent, SnapshotEvent};
use crate::api::packets::Data;
use crate::text::str_eq;

verus! {

/// Information about a session in the room.
///
/// Any observable action by a session updates the roster. Since nick change
/// events do not carry full session info, a roster entry may hold only
/// partial information.
#[derive(Debug, PartialEq)]
pub enum SessionInfo {
    /// A full session view from a presence event, send event or listing.
    Full(SessionView),
    /// The latest observed name of a session only seen through a nick change.
    Partial(NickEvent),
}

impl Clone for SessionInfo {
    fn clone(&self) -> (r: Self)
        ensures
            r == *self,
    {
        match self {
            SessionInfo::Full(s) => SessionInfo::Full(s.clone()),
            SessionInfo::Partial(n) => SessionInfo::Partial(n.clone()),
        }
    }
}

impl SessionInfo {
    /// The user id of the session.
    pub open spec fn spec_id(&self) -> UserId {
        match self {
            SessionInfo::Full(s) => s.id,
            SessionInfo::Partial(n) => n.id,
        }
    }

    /// The session id of the session.
    pub open spec fn spec_session_id(&self) -> SessionId {
        match self {
            SessionInfo::Full(s) => s.session_id,
            SessionInfo::Partial(n) => n.session_id,
        }
    }

    /// The display name of the session.
    pub open spec fn spec_name(&self) -> Seq<char> {
        match self {
            SessionInfo::Full(s) => s.name@,
            SessionInfo::Partial(n) => n.to@,
        }
    }

    /// The user id of the session.
    pub fn id(&self) -> (r: &UserId)
        ensures
            *r == self.spec_id(),
    {
        match self {
            SessionInfo::Full(s) => &s.id,
            SessionInfo::Partial(n) => &n.id,
        }
    }

    /// The session id of the session.
    pub fn session_id(&self) -> (r: &SessionId)
        ensures
            *r == self.spec_session_id(),
    {
        match self {
            SessionInfo::Full(s) => &s.session_id,
            SessionInfo::Partial(n) => &n.session_id,
        }
    }

    /// The display name of the session.
    pub fn name(&self) -> (r: &str)
        ensures
            r@ == self.spec_name(),
    {
        match self {
            SessionInfo::Full(s) => s.name.as_str(),
            SessionInfo::Partial(n) => n.to.as_str(),
        }
    }
}

/// Whether all keys in an association list of sessions are distinct.
pub open spec fn unique_keys(es: Seq<(SessionId, SessionInfo)>) -> bool {
    forall|i: int, j: int|
        #![trigger es[i], es[j]]
        0 <= i < j < es.len() ==> es[i].0.0@ != es[j].0.0@
}

/// The association list as a map from session id to session info.
pub open spec fn as_map(es: Seq<(SessionId, SessionInfo)>) -> Map<Seq<char>, SessionInfo>
    decreases es.len(),
{
    if es.len() == 0 {
        Map::empty()
    } else {
        as_map(es.drop_last()).insert(es.last().0.0@, es.last().1)
    }
}

proof fn lemma_as_map_dom(es: Seq<(SessionId, SessionInfo)>, k: Seq<char>)
    ensures
        as_map(es).contains_key(k) <==> exists|i: int| 0 <= i < es.len() && (#[trigger] es[i]).0.0@
            == k,
    decreases es.len(),
{
    if es.len() > 0 {
        lemma_as_map_dom(es.drop_last(), k);
        if as_map(es).contains_key(k) {
            if es.last().0.0@ == k {
                assert(es[es.len() - 1].0.0@ == k);
            } else {
                let i = choose|i: int|
                    0 <= i < es.drop_last().len() && (#[trigger] es.drop_last()[i]).0.0@ == k;
                assert(es[i].0.0@ == k);
            }
        }
        if exists|i: int| 0 <= i < es.len() && (#[trigger] es[i]).0.0@ == k {
            let i = choose|i: int| 0 <= i < es.len() && (#[trigger] es[i]).0.0@ == k;
            if i < es.len() - 1 {
                assert(es.drop_last()[i].0.0@ == k);
            }
        }
    }
}

proof fn lemma_as_map_index(es: Seq<(SessionId, SessionInfo)>, i: int)
    requires
        unique_keys(es),
        0 <= i < es.len(),
    ensures
        as_map(es).contains_key(es[i].0.0@),
        as_map(es)[es[i].0.0@] == es[i].1,
    decreases es.len(),
{
    if i == es.len() - 1 {
    } else {
        assert(unique_keys(es.drop_last())) by {
            assert(forall|x: int, y: int|
                0 <= x < y < es.drop_last().len() ==> es.drop_last()[x] == es[x]
                    && es.drop_last()[y] == es[y]);
        }
        lemma_as_map_index(es.drop_last(), i);
        assert(es.drop_last()[i] == es[i]);
        assert(es[i].0.0@ != es.last().0.0@) by {
            assert(es.last() == es[es.len() - 1]);
        }
    }
}

proof fn lemma_as_map_absent(es: Seq<(SessionId, SessionInfo)>, k: Seq<char>)
    requires
        forall|i: int| 0 <= i < es.len() ==> (#[trigger] es[i]).0.0@ != k,
    ensures
        !as_map(es).contains_key(k),
{
    lemma_as_map_dom(es, k);
}

/// The roster: a mapping from session id to session info, with one entry per
/// session id.
#[derive(Debug, PartialEq)]
pub struct Listing {
    entries: Vec<(SessionId, SessionInfo)>,
}

impl View for Listing {
    type V = Map<Seq<char>, SessionInfo>;

    closed spec fn view(&self) -> Map<Seq<char>, SessionInfo> {
        as_map(self.entries@)
    }
}

impl Clone for Listing {
    fn clone(&self) -> (r: Self)
        ensures
            r@ == self@,
            r.inv() == self.inv(),
    {
        let mut out: Vec<(SessionId, SessionInfo)> = Vec::new();
        let mut i: usize = 0;
        while i < self.entries.len()
            invariant
                i <= self.entries@.len(),
                out@ =~= self.entries@.subrange(0, i as int),
            decreases self.entries@.len() - i,
        {
            let sid = self.entries[i].0.clone();
            let info = self.entries[i].1.clone();
            out.push((sid, info));
            proof {
                assert(out@ =~= self.entries@.subrange(0, i + 1));
            }
            i += 1;
        }
        proof {
            assert(out@ =~= self.entries@);
        }
        Listing { entries: out }
    }
}

impl Listing {
    /// Each session id appears at most once.
    pub closed spec fn inv(&self) -> bool {
        unique_keys(self.entries@)
    }

    /// An empty roster.
    pub fn new() -> (r: Listing)
        ensures
            r.inv(),
            r@ == Map::<Seq<char>, SessionInfo>::empty(),
    {
        Listing { entries: Vec::new() }
    }

    /// The number of sessions in the roster.
    pub fn len(&self) -> (r: usize)
        requires
            self.inv(),
        ensures
            r == self@.dom().len(),
    {
        proof {
            lemma_unique_len(self.entries@);
        }
        self.entries.len()
    }

    /// Decide whether each session id appears at most once.
    pub fn check_inv(&self) -> (r: bool)
        ensures
            r == self.inv(),
    {
        let mut i: usize = 0;
        while i < self.entries.len()
            invariant
                i <= self.entries@.len(),
                forall|a: int, b: int|
                    #![trigger self.entries@[a], self.entries@[b]]
                    0 <= a < b < self.entries@.len() && a < i ==> self.entries@[a].0.0@
                        != self.entries@[b].0.0@,
            decreases self.entries@.len() - i,
        {
            let mut j: usize = i + 1;
            while j < self.entries.len()
                invariant
                    i < self.entries@.len(),
                    i + 1 <= j <= self.entries@.len(),
                    forall|b: int|
                        i < b < j ==> (#[trigger] self.entries@[b]).0.0@
                            != self.entries@[i as int].0.0@,
                decreases self.entries@.len() - j,
            {
                if str_eq(self.entries[i].0.0.as_str(), self.entries[j].0.0.as_str()) {
                    proof {
                        assert(self.entries@[i as int].0.0@ == self.entries@[j as int].0.0@);
                        assert(!unique_keys(self.entries@));
                    }
                    return false;
                }
                j += 1;
            }
            i += 1;
        }
        true
    }

    /// The roster's entries, in insertion order.
    pub fn entries(&self) -> (r: &Vec<(SessionId, SessionInfo)>)
        ensures
            as_map(r@) == self@,
            self.inv() ==> unique_keys(r@),
    {
        &self.entries
    }

    fn find(&self, sid: &SessionId) -> (r: Option<usize>)
        ensures
            match r {
                Some(i) => i < self.entries@.len() && self.entries@[i as int].0.0@ == sid.0@,
                None => forall|i: int|
                    0 <= i < self.entries@.len() ==> (#[trigger] self.entries@[i]).0.0@ != sid.0@,
            },
    {
        let mut i: usize = 0;
        while i < self.entries.len()
            invariant
                i <= self.entries@.len(),
                forall|j: int| 0 <= j < i ==> (#[trigger] self.entries@[j]).0.0@ != sid.0@,
            decreases self.entries@.len() - i,
        {
            if str_eq(self.entries[i].0.0.as_str(), sid.0.as_str()) {
                return Some(i);
            }
            i += 1;
        }
        None
    }

    /// Whether the roster has an entry for this session id.
    pub fn contains(&self, sid: &SessionId) -> (r: bool)
        ensures
            r == self@.contains_key(sid.0@),
    {
        proof {
            lemma_as_map_dom(self.entries@, sid.0@);
        }
        self.find(sid).is_some()
    }

    /// The entry for this session id, if any.
    pub fn get(&self, sid: &SessionId) -> (r: Option<&SessionInfo>)
        requires
            self.inv(),
        ensures
            match r {
                Some(info) => self@.contains_key(sid.0@) && self@[sid.0@] == *info,
                None => !self@.contains_key(sid.0@),
            },
    {
        proof {
            lemma_as_map_dom(self.entries@, sid.0@);
        }
        match self.find(sid) {
            Some(i) => {
                proof {
                    lemma_as_map_index(self.entries@, i as int);
                }
                Some(&self.entries[i].1)
            },
            None => None,
        }
    }

    /// Insert or replace the entry for a session id.
    pub fn insert(&mut self, sid: SessionId, info: SessionInfo)
        requires
            old(self).inv(),
        ensures
            final(self).inv(),
            final(self)@ == old(self)@.insert(sid.0@, info),
    {
        proof {
            lemma_as_map_dom(self.entries@, sid.0@);
        }
        match self.find(&sid) {
            Some(i) => {
                proof {
                    lemma_as_map_update(self.entries@, i as int, sid, info);
                }
                self.entries.set(i, (sid, info));
            },
            None => {
                self.entries.push((sid, info));
                proof {
                    assert(self.entries@.drop_last() =~= old(self).entries@);
                }
            },
        }
    }

    /// Remove the entry for a session id, if present.
    pub fn remove(&mut self, sid: &SessionId)
        requires
            old(self).inv(),
        ensures
            final(self).inv(),
            final(self)@ == old(self)@.remove(sid.0@),
    {
        proof {
            lemma_as_map_dom(self.entries@, sid.0@);
        }
        match self.find(sid) {
            Some(i) => {
                proof {
                    lemma_as_map_remove(self.entries@, i as int);
                }
                self.entries.remove(i);
            },
            None => {
                proof {
                    assert(old(self)@ =~= old(self)@.remove(sid.0@));
                }
            },
        }
    }

    /// Remove every entry.
    pub fn clear(&mut self)
        ensures
            final(self).inv(),
            final(self)@ == Map::<Seq<char>, SessionInfo>::empty(),
    {
        self.entries.clear();
    }

    /// Apply a network partition: remove every full entry whose server id and
    /// server era both match, and every partial entry.
    pub fn apply_partition(&mut self, server_id: &str, server_era: &str)
        requires
            old(self).inv(),
        ensures
            final(self).inv(),
            final(self)@ == spec_partition(old(self)@, server_id@, server_era@),
    {
        let mut out: Vec<(SessionId, SessionInfo)> = Vec::new();
        let mut i: usize = 0;
        proof {
            assert(self.entries@.subrange(0, 0) =~= Seq::<(SessionId, SessionInfo)>::empty());
            assert(as_map(out@) =~= spec_partition(
                as_map(self.entries@.subrange(0, 0)),
                server_id@,
                server_era@,
            ));
        }
        while i < self.entries.len()
            invariant
                old(self) == self,
                self.inv(),
                i <= self.entries@.len(),
                unique_keys(out@),
                forall|j: int, k: int|
                    #![trigger out@[j], self.entries@[k]]
                    0 <= j < out@.len() && i <= k < self.entries@.len() ==> out@[j].0.0@
                        != self.entries@[k].0.0@,
                as_map(out@) == spec_partition(
                    as_map(self.entries@.subrange(0, i as int)),
                    server_id@,
                    server_era@,
                ),
            decreases self.entries@.len() - i,
        {
            let ghost pre = self.entries@.subrange(0, i as int);
            let ghost post = self.entries@.subrange(0, i + 1);
            proof {
                assert(post.drop_last() =~= pre);
                assert(post.last() == self.entries@[i as int]);
                lemma_as_map_dom(pre, self.entries@[i as int].0.0@);
                assert(forall|j: int| 0 <= j < pre.len() ==> pre[j] == self.entries@[j]);
            }
            let keep = match &self.entries[i].1 {
                SessionInfo::Full(s) => !(str_eq(s.server_id.as_str(), server_id) && str_eq(
                    s.server_era.as_str(),
                    server_era,
                )),
                SessionInfo::Partial(_) => false,
            };
            if keep {
                let ghost out_pre = out@;
                let sid = self.entries[i].0.clone();
                let info = self.entries[i].1.clone();
                out.push((sid, info));
                proof {
                    assert(out@.drop_last() =~= out_pre);
                    assert(as_map(out@) =~= spec_partition(as_map(post), server_id@, server_era@));
                }
            } else {
                proof {
                    assert(as_map(out@) =~= spec_partition(as_map(post), server_id@, server_era@));
                }
            }
            i += 1;
        }
        proof {
            assert(self.entries@.subrange(0, self.entries@.len() as int) =~= self.entries@);
        }
        self.entries = out;
    }
}

/// Whether a partition notice for this server id and era leaves an entry in
/// the roster.
pub open spec fn spec_partition_keeps(
    info: SessionInfo,
    server_id: Seq<char>,
    server_era: Seq<char>,
) -> bool {
    match info {
        SessionInfo::Full(s) => !(s.server_id@ == server_id && s.server_era@ == server_era),
        SessionInfo::Partial(_) => false,
    }
}

/// The roster after a partition notice for this server id and era.
pub open spec fn spec_partition(
    m: Map<Seq<char>, SessionInfo>,
    server_id: Seq<char>,
    server_era: Seq<char>,
) -> Map<Seq<char>, SessionInfo> {
    Map::new(
        |k: Seq<char>|
            m.dom().contains(k) && spec_partition_keeps(m[k], server_id, server_era),
        |k: Seq<char>| m[k],
    )
}

proof fn lemma_unique_len(es: Seq<(SessionId, SessionInfo)>)
    requires
        unique_keys(es),
    ensures
        as_map(es).dom().len() == es.len(),
        as_map(es).dom().finite(),
    decreases es.len(),
{
    if es.len() > 0 {
        assert(unique_keys(es.drop_last())) by {
            assert(forall|x: int, y: int|
                0 <= x < y < es.drop_last().len() ==> es.drop_last()[x] == es[x]
                    && es.drop_last()[y] == es[y]);
        }
        lemma_unique_len(es.drop_last());
        lemma_as_map_dom(es.drop_last(), es.last().0.0@);
        assert(forall|i: int|
            0 <= i < es.drop_last().len() ==> (#[trigger] es.drop_last()[i]).0.0@ != es.last().0.0@)
            by {
            assert(forall|i: int|
                0 <= i < es.len() - 1 ==> es[i] == es.drop_last()[i] && es[es.len() - 1]
                    == es.last());
        }
        assert(!as_map(es.drop_last()).contains_key(es.last().0.0@));
        vstd::set::axiom_set_insert_len(as_map(es.drop_last()).dom(), es.last().0.0@);
        assert(as_map(es).dom() =~= as_map(es.drop_last()).dom().insert(es.last().0.0@));
    } else {
        assert(as_map(es).dom() =~= Set::<Seq<char>>::empty());
    }
}

proof fn lemma_as_map_update(
    es: Seq<(SessionId, SessionInfo)>,
    i: int,
    sid: SessionId,
    info: SessionInfo,
)
    requires
        unique_keys(es),
        0 <= i < es.len(),
        es[i].0.0@ == sid.0@,
    ensures
        unique_keys(es.update(i, (sid, info))),
        as_map(es.update(i, (sid, info))) == as_map(es).insert(sid.0@, info),
    decreases es.len(),
{
    let es2 = es.update(i, (sid, info));
    assert(unique_keys(es2)) by {
        assert(forall|x: int|
            0 <= x < es.len() && x != i ==> es2[x] == es[x] && (#[trigger] es2[x]).0.0@
                == es[x].0.0@);
        assert(es2[i].0.0@ == es[i].0.0@);
    }
    if i == es.len() - 1 {
        assert(es2.drop_last() =~= es.drop_last());
        assert(es2.last() == (sid, info));
        assert(as_map(es2) =~= as_map(es).insert(sid.0@, info));
    } else {
        assert(unique_keys(es.drop_last())) by {
            assert(forall|x: int, y: int|
                0 <= x < y < es.drop_last().len() ==> es.drop_last()[x] == es[x]
                    && es.drop_last()[y] == es[y]);
        }
        lemma_as_map_update(es.drop_last(), i, sid, info);
        assert(es2.drop_last() =~= es.drop_last().update(i, (sid, info)));
        assert(es2.last() == es.last());
        assert(es.last().0.0@ != sid.0@) by {
            assert(es[es.len() - 1].0.0@ != es[i].0.0@);
        }
        assert(as_map(es2) =~= as_map(es).insert(sid.0@, info));
    }
}

proof fn lemma_as_map_remove(es: Seq<(SessionId, SessionInfo)>, i: int)
    requires
        unique_keys(es),
        0 <= i < es.len(),
    ensures
        unique_keys(es.remove(i)),
        as_map(es.remove(i)) == as_map(es).remove(es[i].0.0@),
    decreases es.len(),
{
    let es2 = es.remove(i);
    let k = es[i].0.0@;
    assert(unique_keys(es2)) by {
        assert(forall|x: int|
            0 <= x < es2.len() ==> #[trigger] es2[x] == if x < i {
                es[x]
            } else {
                es[x + 1]
            });
    }
    if i == es.len() - 1 {
        assert(es2 =~= es.drop_last());
        assert(forall|x: int|
            0 <= x < es.drop_last().len() ==> (#[trigger] es.drop_last()[x]).0.0@ != k) by {
            assert(forall|x: int|
                0 <= x < es.len() - 1 ==> es.drop_last()[x] == es[x] && es[es.len() - 1] == es[i]);
        }
        lemma_as_map_absent(es.drop_last(), k);
        assert(as_map(es2) =~= as_map(es).remove(k));
    } else {
        assert(unique_keys(es.drop_last())) by {
            assert(forall|x: int, y: int|
                0 <= x < y < es.drop_last().len() ==> es.drop_last()[x] == es[x]
                    && es.drop_last()[y] == es[y]);
        }
        lemma_as_map_remove(es.drop_last(), i);
        assert(es2.drop_last() =~= es.drop_last().remove(i)) by {
            assert(forall|x: int|
                0 <= x < es2.len() - 1 ==> #[trigger] es2.drop_last()[x] == es2[x]
                    && es2[x] == if x < i {
                    es[x]
                } else {
                    es[x + 1]
                });
            assert(forall|x: int|
                0 <= x < es.drop_last().remove(i).len() ==> #[trigger] es.drop_last().remove(i)[x]
                    == if x < i {
                    es[x]
                } else {
                    es[x + 1]
                });
        }
        assert(es2.last() == es.last());
        assert(es.last().0.0@ != k) by {
            assert(es[es.len() - 1].0.0@ != es[i].0.0@);
        }
        assert(as_map(es2) =~= as_map(es).remove(k));
    }
}


/// The state of the connection before the client has joined the room.
///
/// Depending on the room, the client may need to authenticate in order to
/// join.
#[derive(Debug, PartialEq)]
pub struct Joining {
    /// Since when the connection has been in this state.
    pub since: Time,
    /// The greeting, if one has been received.
    pub hello: Option<HelloEvent>,
    /// The initial room snapshot, if one has been received.
    pub snapshot: Option<SnapshotEvent>,
    /// An authentication demand, if one has been received.
    pub bounce: Option<BounceEvent>,
}

/// Whether two joining states hold the same values.
pub open spec fn joining_equiv(a: Joining, b: Joining) -> bool {
    &&& a.since == b.since
    &&& a.hello == b.hello
    &&& match (a.snapshot, b.snapshot) {
        (Option::None, Option::None) => true,
        (Option::Some(x), Option::Some(y)) => crate::api::events::snapshot_event_equiv(x, y),
        _ => false,
    }
    &&& match (a.bounce, b.bounce) {
        (Option::None, Option::None) => true,
        (Option::Some(x), Option::Some(y)) => crate::api::events::bounce_event_equiv(x, y),
        _ => false,
    }
}

impl Clone for Joining {
    fn clone(&self) -> (r: Self)
        ensures
            joining_equiv(r, *self),
    {
        Joining {
            since: self.since,
            hello: match &self.hello {
                Option::None => None,
                Option::Some(h) => Some(h.clone()),
            },
            snapshot: match &self.snapshot {
                Option::None => None,
                Option::Some(p) => Some(p.clone()),
            },
            bounce: match &self.bounce {
                Option::None => None,
                Option::Some(p) => Some(p.clone()),
            },
        }
    }
}

/// The roster built from a snapshot or who listing, excluding no one.
pub open spec fn roster_of_listing(l: Seq<SessionView>) -> Map<Seq<char>, SessionInfo>
    decreases l.len(),
{
    if l.len() == 0 {
        Map::empty()
    } else {
        roster_of_listing(l.drop_last()).insert(
            l.last().session_id.0@,
            SessionInfo::Full(l.last()),
        )
    }
}

/// The roster built from a who listing, excluding the client's own session.
pub open spec fn who_roster(l: Seq<SessionView>, own: Seq<char>) -> Map<Seq<char>, SessionInfo>
    decreases l.len(),
{
    if l.len() == 0 {
        Map::empty()
    } else if l.last().session_id.0@ == own {
        who_roster(l.drop_last(), own)
    } else {
        who_roster(l.drop_last(), own).insert(l.last().session_id.0@, SessionInfo::Full(l.last()))
    }
}

/// The last entry of a who listing that matches the client's own session.
pub open spec fn who_own_session(l: Seq<SessionView>, own: Seq<char>) -> Option<SessionView>
    decreases l.len(),
{
    if l.len() == 0 {
        None
    } else if l.last().session_id.0@ == own {
        Some(l.last())
    } else {
        who_own_session(l.drop_last(), own)
    }
}

/// Whether `post` is `pre` after recording one payload while joining: a
/// greeting, snapshot or authentication demand is stored, anything else
/// changes nothing.
pub open spec fn spec_joining_step_ok(pre: Joining, d: Data, post: Joining) -> bool {
    &&& post.since == pre.since
    &&& match d {
        Data::HelloEvent(p) => post.hello == Some(p) && post.snapshot == pre.snapshot
            && post.bounce == pre.bounce,
        Data::SnapshotEvent(p) => (match post.snapshot {
            Option::Some(sn) => crate::api::events::snapshot_event_equiv(sn, p),
            Option::None => false,
        }) && post.hello == pre.hello && post.bounce == pre.bounce,
        Data::BounceEvent(p) => (match post.bounce {
            Option::Some(b) => crate::api::events::bounce_event_equiv(b, p),
            Option::None => false,
        }) && post.hello == pre.hello && post.snapshot == pre.snapshot,
        _ => post == pre,
    }
}

/// Whether `joined` is the joined state formed from `j` at `now`: the
/// greeting's session with a pre-set nick applied, the greeting's account,
/// and the roster built from the snapshot listing.
pub open spec fn spec_joined_from(j: Joining, now: Time, joined: Joined) -> bool {
    &&& j.hello is Some && j.snapshot is Some
    &&& joined.inv()
    &&& joined.since == now
    &&& joined.account == j.hello->Some_0.account
    &&& joined.session == (match j.snapshot->Some_0.nick {
        Option::Some(n) => SessionView { name: n, ..j.hello->Some_0.session },
        Option::None => j.hello->Some_0.session,
    })
    &&& joined.listing@ == roster_of_listing(j.snapshot->Some_0.listing@)
}

/// How one payload advances the whole connection state: while joining, the
/// payload is recorded and the state becomes joined at the first step where
/// both a greeting and a snapshot exist; while joined, the roster rules
/// apply; a joined state never reverts to joining.
pub open spec fn spec_state_step_ok(pre: State, d: Data, now: Time, post: State) -> bool {
    match pre {
        State::Joining(a) => exists|b: Joining|
            #[trigger] spec_joining_step_ok(a, d, b) && (match post {
                State::Joining(fb) => fb == b && !(b.hello is Some && b.snapshot is Some),
                State::Joined(fj) => spec_joined_from(b, now, fj),
            }),
        State::Joined(a) => (post matches State::Joined(fj)) && post->Joined_0@
            == spec_joined_on_data(a@, d) && post->Joined_0.since == a.since,
    }
}

impl Joining {
    /// A fresh joining state for a new connection, started at `now`.
    pub fn new(now: Time) -> (r: Joining)
        ensures
            r.since == now,
            r.hello is None,
            r.snapshot is None,
            r.bounce is None,
    {
        Joining { since: now, hello: None, snapshot: None, bounce: None }
    }

    /// Record a greeting, snapshot or authentication demand.
    pub fn on_data(&mut self, data: &Data)
        ensures
            spec_joining_step_ok(*old(self), *data, *final(self)),
    {
        match data {
            Data::BounceEvent(p) => {
                self.bounce = Some(p.clone());
            },
            Data::HelloEvent(p) => {
                self.hello = Some(p.clone());
            },
            Data::SnapshotEvent(p) => {
                self.snapshot = Some(p.clone());
            },
            _ => {},
        }
    }

    /// Move to the joined state once both a greeting and a snapshot have been
    /// observed; a pre-set nick from the snapshot overrides the display name.
    pub fn to_joined(&self, now: Time) -> (r: Option<Joined>)
        ensures
            r is Some <==> self.hello is Some && self.snapshot is Some,
            r matches Some(j) ==> spec_joined_from(*self, now, j),
    {
        let h = match &self.hello {
            Option::Some(h) => h,
            Option::None => {
                return None;
            },
        };
        let sn = match &self.snapshot {
            Option::Some(sn) => sn,
            Option::None => {
                return None;
            },
        };
        let mut session = h.session.clone();
        match &sn.nick {
            Option::Some(n) => {
                session.name = n.clone();
            },
            Option::None => {},
        }
        let mut listing = Listing::new();
        let mut i: usize = 0;
        proof {
            assert(sn.listing@.subrange(0, 0) =~= Seq::<SessionView>::empty());
            assert(listing@ =~= roster_of_listing(sn.listing@.subrange(0, 0)));
        }
        while i < sn.listing.len()
            invariant
                i <= sn.listing@.len(),
                listing.inv(),
                listing@ == roster_of_listing(sn.listing@.subrange(0, i as int)),
            decreases sn.listing@.len() - i,
        {
            proof {
                assert(sn.listing@.subrange(0, i + 1).drop_last() =~= sn.listing@.subrange(
                    0,
                    i as int,
                ));
                assert(sn.listing@.subrange(0, i + 1).last() == sn.listing@[i as int]);
            }
            let s = sn.listing[i].clone();
            let sid = s.session_id.clone();
            listing.insert(sid, SessionInfo::Full(s));
            i += 1;
        }
        proof {
            assert(sn.listing@.subrange(0, sn.listing@.len() as int) =~= sn.listing@);
        }
        let account = match &h.account {
            Option::None => None,
            Option::Some(a) => Some(a.clone()),
        };
        Some(Joined { since: now, session, account, listing })
    }
}

/// The state of the connection after the client has joined the room.
#[derive(Debug, PartialEq)]
pub struct Joined {
    /// Since when the connection has been in this state.
    pub since: Time,
    /// The client's own session.
    pub session: SessionView,
    /// Account information, if the client is logged in.
    pub account: Option<PersonalAccountView>,
    /// All sessions currently connected to the room, except the client's own.
    pub listing: Listing,
}

/// The mathematical image of a joined state: the client's session, account
/// and roster.
pub struct RoomView {
    /// The client's own session.
    pub session: SessionView,
    /// Account information, if the client is logged in.
    pub account: Option<PersonalAccountView>,
    /// The roster, as a map from session id to session info.
    pub roster: Map<Seq<char>, SessionInfo>,
}

impl View for Joined {
    type V = RoomView;

    open spec fn view(&self) -> RoomView {
        RoomView { session: self.session, account: self.account, roster: self.listing@ }
    }
}

impl Clone for Joined {
    fn clone(&self) -> (r: Self)
        ensures
            r@ == self@,
            r.since == self.since,
            r.inv() == self.inv(),
    {
        Joined {
            since: self.since,
            session: self.session.clone(),
            account: match &self.account {
                Option::None => None,
                Option::Some(a) => Some(a.clone()),
            },
            listing: self.listing.clone(),
        }
    }
}

/// How one packet payload changes the joined room state.
pub open spec fn spec_joined_on_data(v: RoomView, d: Data) -> RoomView {
    match d {
        Data::JoinEvent(p) => RoomView {
            roster: v.roster.insert(p.0.session_id.0@, SessionInfo::Full(p.0)),
            ..v
        },
        Data::PartEvent(p) => RoomView { roster: v.roster.remove(p.0.session_id.0@), ..v },
        Data::NetworkEvent(p) => if p.kind@ == "partition"@ {
            RoomView { roster: spec_partition(v.roster, p.server_id@, p.server_era@), ..v }
        } else {
            v
        },
        Data::SendEvent(p) => RoomView {
            roster: v.roster.insert(p.0.sender.session_id.0@, SessionInfo::Full(p.0.sender)),
            ..v
        },
        Data::NickEvent(p) => {
            let k = p.session_id.0@;
            if v.roster.contains_key(k) {
                match v.roster[k] {
                    SessionInfo::Full(s) => RoomView {
                        roster: v.roster.insert(k, SessionInfo::Full(
                            SessionView { name: p.to, ..s },
                        )),
                        ..v
                    },
                    SessionInfo::Partial(_) => RoomView {
                        roster: v.roster.insert(k, SessionInfo::Partial(p)),
                        ..v
                    },
                }
            } else {
                RoomView { roster: v.roster.insert(k, SessionInfo::Partial(p)), ..v }
            }
        },
        Data::NickReply(p) => if p.id.0@ == v.session.id.0@ {
            RoomView { session: SessionView { name: p.to, ..v.session }, ..v }
        } else {
            v
        },
        Data::WhoReply(p) => {
            let own = v.session.session_id.0@;
            RoomView {
                session: match who_own_session(p.listing@, own) {
                    Option::Some(s) => s,
                    Option::None => v.session,
                },
                roster: who_roster(p.listing@, own),
                ..v
            }
        },
        _ => v,
    }
}

impl Joined {
    /// The roster holds at most one entry per session id.
    pub open spec fn inv(&self) -> bool {
        self.listing.inv()
    }

    /// Update the joined state with a packet payload.
    pub fn on_data(&mut self, data: &Data)
        requires
            old(self).inv(),
        ensures
            final(self).inv(),
            final(self)@ == spec_joined_on_data(old(self)@, *data),
            final(self).since == old(self).since,
    {
        match data {
            Data::JoinEvent(p) => {
                let s = p.0.clone();
                let sid = s.session_id.clone();
                self.listing.insert(sid, SessionInfo::Full(s));
            },
            Data::PartEvent(p) => {
                self.listing.remove(&p.0.session_id);
            },
            Data::NetworkEvent(p) => {
                if str_eq(p.kind.as_str(), "partition") {
                    proof {
                        reveal_strlit("partition");
                    }
                    self.listing.apply_partition(p.server_id.as_str(), p.server_era.as_str());
                } else {
                    proof {
                        reveal_strlit("partition");
                    }
                }
            },
            Data::SendEvent(p) => {
                let s = p.0.sender.clone();
                let sid = s.session_id.clone();
                self.listing.insert(sid, SessionInfo::Full(s));
            },
            Data::NickEvent(p) => {
                let update = match self.listing.get(&p.session_id) {
                    Option::Some(SessionInfo::Full(s)) => {
                        let mut s2 = s.clone();
                        s2.name = p.to.clone();
                        SessionInfo::Full(s2)
                    },
                    _ => SessionInfo::Partial(p.clone()),
                };
                let sid = p.session_id.clone();
                self.listing.insert(sid, update);
            },
            Data::NickReply(p) => {
                if str_eq(p.id.0.as_str(), self.session.id.0.as_str()) {
                    self.session.name = p.to.clone();
                }
            },
            Data::WhoReply(p) => {
                let ghost own = self.session.session_id.0@;
                self.listing.clear();
                let mut i: usize = 0;
                proof {
                    assert(p.listing@.subrange(0, 0) =~= Seq::<SessionView>::empty());
                    assert(self.listing@ =~= who_roster(p.listing@.subrange(0, 0), own));
                }
                while i < p.listing.len()
                    invariant
                        i <= p.listing@.len(),
                        self.listing.inv(),
                        self.session.session_id.0@ == own,
                        self.listing@ == who_roster(p.listing@.subrange(0, i as int), own),
                        self.session == (match who_own_session(
                            p.listing@.subrange(0, i as int),
                            own,
                        ) {
                            Option::Some(s) => s,
                            Option::None => old(self).session,
                        }),
                        self.account == old(self).account,
                        self.since == old(self).since,
                    decreases p.listing@.len() - i,
                {
                    proof {
                        assert(p.listing@.subrange(0, i + 1).drop_last() =~= p.listing@.subrange(
                            0,
                            i as int,
                        ));
                        assert(p.listing@.subrange(0, i + 1).last() == p.listing@[i as int]);
                    }
                    let s = p.listing[i].clone();
                    if str_eq(s.session_id.0.as_str(), self.session.session_id.0.as_str()) {
                        self.session = s;
                    } else {
                        let sid = s.session_id.clone();
                        self.listing.insert(sid, SessionInfo::Full(s));
                    }
                    i += 1;
                }
                proof {
                    assert(p.listing@.subrange(0, p.listing@.len() as int) =~= p.listing@);
                }
            },
            _ => {},
        }
    }
}

/// The state of a connection to the server, from a client's perspective.
#[derive(Debug, PartialEq)]
pub enum State {
    /// The client has not joined the room yet.
    Joining(Joining),
    /// The client has successfully joined the room.
    Joined(Joined),
}

impl Clone for State {
    fn clone(&self) -> (r: Self)
        ensures
            state_equiv(r, *self),
    {
        match self {
            State::Joining(j) => State::Joining(j.clone()),
            State::Joined(j) => State::Joined(j.clone()),
        }
    }
}

/// Whether two connection states hold the same values.
pub open spec fn state_equiv(a: State, b: State) -> bool {
    match (a, b) {
        (State::Joining(x), State::Joining(y)) => joining_equiv(x, y),
        (State::Joined(x), State::Joined(y)) => x@ == y@ && x.since == y.since && x.inv()
            == y.inv(),
        _ => false,
    }
}

impl State {
    /// The roster holds at most one entry per session id.
    pub open spec fn inv(&self) -> bool {
        match self {
            State::Joining(_) => true,
            State::Joined(j) => j.inv(),
        }
    }

    /// A state for a fresh connection that has received no packets, started
    /// at `now`.
    pub fn new(now: Time) -> (r: State)
        ensures
            r.inv(),
            r matches State::Joining(j) && j.since == now && j.hello is None && j.snapshot is None
                && j.bounce is None,
    {
        State::Joining(Joining::new(now))
    }

    /// The joining state, if the client has not joined yet.
    pub fn as_joining(&self) -> (r: Option<&Joining>)
        ensures
            match r {
                Option::Some(j) => *self == State::Joining(*j),
                Option::None => self is Joined,
            },
    {
        match self {
            State::Joining(j) => Some(j),
            State::Joined(_) => None,
        }
    }

    /// The joined state, if the client has joined.
    pub fn as_joined(&self) -> (r: Option<&Joined>)
        ensures
            match r {
                Option::Some(j) => *self == State::Joined(*j),
                Option::None => self is Joining,
            },
    {
        match self {
            State::Joining(_) => None,
            State::Joined(j) => Some(j),
        }
    }

    /// The joining state, if the client has not joined yet.
    pub fn into_joining(self) -> (r: Option<Joining>)
        ensures
            match r {
                Option::Some(j) => self == State::Joining(j),
                Option::None => self is Joined,
            },
    {
        match self {
            State::Joining(j) => Some(j),
            State::Joined(_) => None,
        }
    }

    /// The joined state, if the client has joined.
    pub fn into_joined(self) -> (r: Option<Joined>)
        ensures
            match r {
                Option::Some(j) => self == State::Joined(j),
                Option::None => self is Joining,
            },
    {
        match self {
            State::Joining(_) => None,
            State::Joined(j) => Some(j),
        }
    }

    /// Update the state with a packet payload received from the server.
    ///
    /// The state moves from joining to joined the first step after both a
    /// greeting and a snapshot have been observed; `now` stamps that
    /// transition.
    pub fn on_data(&mut self, data: &Data, now: Time)
        requires
            old(self).inv(),
        ensures
            final(self).inv(),
            spec_state_step_ok(*old(self), *data, now, *final(self)),
    {
        match self {
            State::Joining(joining) => {
                joining.on_data(data);
                let ghost stepped = *joining;
                let joined = joining.to_joined(now);
                match joined {
                    Option::Some(j) => {
                        *self = State::Joined(j);
                        proof {
                            assert(spec_joining_step_ok(
                                old(self)->Joining_0,
                                *data,
                                stepped,
                            ) && (match *final(self) {
                                State::Joining(fb) => fb == stepped && !(stepped.hello is Some
                                    && stepped.snapshot is Some),
                                State::Joined(fj) => spec_joined_from(stepped, now, fj),
                            }));
                        }
                    },
                    Option::None => {
                        proof {
                            assert(spec_joining_step_ok(
                                old(self)->Joining_0,
                                *data,
                                stepped,
                            ) && (match *final(self) {
                                State::Joining(fb) => fb == stepped && !(stepped.hello is Some
                                    && stepped.snapshot is Some),
                                State::Joined(fj) => spec_joined_from(stepped, now, fj),
                            }));
                        }
                    },
                }
            },
            State::Joined(joined) => {
                joined.on_data(data);
            },
        }
    }
}


/// The joined room state after a whole sequence of packet payloads.
pub open spec fn spec_joined_on_datas(v: RoomView, ds: Seq<Data>) -> RoomView
    decreases ds.len(),
{
    if ds.len() == 0 {
        v
    } else {
        spec_joined_on_datas(spec_joined_on_data(v, ds[0]), ds.drop_first())
    }
}

/// Whether a packet payload can create a roster entry under this session id.
pub open spec fn spec_data_inserts(d: Data, sid: Seq<char>) -> bool {
    match d {
        Data::JoinEvent(p) => p.0.session_id.0@ == sid,
        Data::SendEvent(p) => p.0.sender.session_id.0@ == sid,
        Data::NickEvent(p) => p.session_id.0@ == sid,
        Data::WhoReply(p) => exists|i: int|
            0 <= i < p.listing@.len() && (#[trigger] p.listing@[i]).session_id.0@ == sid,
        _ => false,
    }
}

proof fn lemma_who_roster_dom(l: Seq<SessionView>, own: Seq<char>, sid: Seq<char>)
    requires
        forall|i: int| 0 <= i < l.len() ==> (#[trigger] l[i]).session_id.0@ != sid,
    ensures
        !who_roster(l, own).contains_key(sid),
    decreases l.len(),
{
    if l.len() > 0 {
        assert(forall|i: int|
            0 <= i < l.drop_last().len() ==> (#[trigger] l.drop_last()[i]).session_id.0@ != sid)
            by {
            assert(forall|i: int| 0 <= i < l.len() - 1 ==> l.drop_last()[i] == l[i]);
        }
        lemma_who_roster_dom(l.drop_last(), own, sid);
        assert(l.last() == l[l.len() - 1]);
    }
}

proof fn lemma_step_no_insert(v: RoomView, d: Data, sid: Seq<char>)
    requires
        !v.roster.contains_key(sid),
        !spec_data_inserts(d, sid),
    ensures
        !spec_joined_on_data(v, d).roster.contains_key(sid),
{
    match d {
        Data::WhoReply(p) => {
            assert(forall|i: int|
                0 <= i < p.listing@.len() ==> (#[trigger] p.listing@[i]).session_id.0@ != sid);
            lemma_who_roster_dom(p.listing@, v.session.session_id.0@, sid);
        },
        _ => {},
    }
}

/// Once a session id has been removed from the roster, it stays absent under
/// any further packets none of which inserts that session id.
///
/// Together with the contract of `Joined::on_data` for part events, this says
/// a session id that is removed by a part event and not inserted again is
/// absent from the roster.
pub proof fn lemma_roster_no_resurrection(v: RoomView, ds: Seq<Data>, sid: Seq<char>)
    requires
        !v.roster.contains_key(sid),
        forall|k: int| 0 <= k < ds.len() ==> !spec_data_inserts(#[trigger] ds[k], sid),
    ensures
        !spec_joined_on_datas(v, ds).roster.contains_key(sid),
    decreases ds.len(),
{
    if ds.len() > 0 {
        lemma_step_no_insert(v, ds[0], sid);
        assert(forall|k: int|
            0 <= k < ds.drop_first().len() ==> !spec_data_inserts(
                #[trigger] ds.drop_first()[k],
                sid,
            )) by {
            assert(forall|k: int| 0 <= k < ds.len() - 1 ==> ds.drop_first()[k] == ds[k + 1]);
        }
        lemma_roster_no_resurrection(spec_joined_on_data(v, ds[0]), ds.drop_first(), sid);
    }
}

/// A part event removes its session id from the roster; if no later payload
/// inserts that session id, it is still absent after the whole sequence.
pub proof fn lemma_roster_part_absence(v: RoomView, p: crate::api::events::PartEvent, ds: Seq<Data>)
    requires
        forall|k: int|
            0 <= k < ds.len() ==> !spec_data_inserts(#[trigger] ds[k], p.0.session_id.0@),
    ensures
        !spec_joined_on_datas(
            spec_joined_on_data(v, Data::PartEvent(p)),
            ds,
        ).roster.contains_key(p.0.session_id.0@),
{
    lemma_roster_no_resurrection(spec_joined_on_data(v, Data::PartEvent(p)), ds, p.0.session_id.0@);
}

} // verus!
