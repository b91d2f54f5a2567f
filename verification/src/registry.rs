//! The registry of known peers: a map from identity to record.
//!
//! The registry knows the identity of the node that owns it and never stores
//! a record under that identity, nor a record that fails the admission
//! predicate.

use crate::peer::{admissible, PeerInfo, PeerRecord};
use vstd::prelude::*;

verus! {

/// The records of a list of peers, in the same order.
pub open spec fn records(peers: Seq<PeerInfo>) -> Seq<PeerRecord> {
    Seq::new(peers.len(), |i: int| peers[i]@)
}

/// `list` holds each entry of `map` once, and nothing else.
pub open spec fn lists(list: Seq<PeerRecord>, map: Map<Seq<char>, PeerRecord>) -> bool {
    &&& forall|i: int|
        0 <= i < list.len() ==> map.contains_key(#[trigger] list[i].id) && map[list[i].id]
            == list[i]
    &&& forall|i: int, j: int|
        0 <= i < j < list.len() ==> #[trigger] list[i].id != #[trigger] list[j].id
    &&& forall|id: Seq<char>| #[trigger]
        map.contains_key(id) ==> exists|i: int| 0 <= i < list.len() && #[trigger] list[i].id == id
}

/// A record that a registry owned by `local_id` takes in.
pub open spec fn accepted(local_id: Seq<char>, record: PeerRecord) -> bool {
    admissible(record) && record.id != local_id
}

/// What `upsert` did with a record.
#[derive(Clone, Copy, Debug, PartialEq, Eq, Structural)]
pub enum Upsert {
    /// The identity was new: an entry was created.
    Added,
    /// The identity was known: its entry was overwritten.
    Updated,
    /// The record was refused and the registry is unchanged.
    Rejected,
}

/// The registry after `upsert`, by the one before.
pub open spec fn upserted(
    map: Map<Seq<char>, PeerRecord>,
    local_id: Seq<char>,
    record: PeerRecord,
) -> Map<Seq<char>, PeerRecord> {
    if accepted(local_id, record) {
        map.insert(record.id, record)
    } else {
        map
    }
}

/// What `upsert` reports, by the registry before it.
pub open spec fn upsert_outcome(
    map: Map<Seq<char>, PeerRecord>,
    local_id: Seq<char>,
    record: PeerRecord,
) -> Upsert {
    if !accepted(local_id, record) {
        Upsert::Rejected
    } else if map.contains_key(record.id) {
        Upsert::Updated
    } else {
        Upsert::Added
    }
}

spec fn has_id(s: Seq<PeerInfo>, id: Seq<char>) -> bool {
    exists|i: int| 0 <= i < s.len() && #[trigger] s[i].id@ == id
}

spec fn position(s: Seq<PeerInfo>, id: Seq<char>) -> int {
    choose|i: int| 0 <= i < s.len() && #[trigger] s[i].id@ == id
}

spec fn distinct(s: Seq<PeerInfo>) -> bool {
    forall|i: int, j: int| 0 <= i < j < s.len() ==> #[trigger] s[i].id@ != #[trigger] s[j].id@
}

spec fn as_map(s: Seq<PeerInfo>) -> Map<Seq<char>, PeerRecord> {
    Map::new(|id: Seq<char>| has_id(s, id), |id: Seq<char>| s[position(s, id)]@)
}

/// Each element of a list without repeated identities is found under its
/// identity in the list's map.
proof fn lemma_as_map(s: Seq<PeerInfo>)
    requires
        distinct(s),
    ensures
        forall|i: int|
            0 <= i < s.len() ==> as_map(s).contains_key(#[trigger] s[i].id@) && as_map(s)[s[i].id@]
                == s[i]@,
        forall|id: Seq<char>| #[trigger] as_map(s).contains_key(id) <==> has_id(s, id),
{
    assert forall|i: int| 0 <= i < s.len() implies as_map(s).contains_key(#[trigger] s[i].id@)
        && as_map(s)[s[i].id@] == s[i]@ by {
        let id = s[i].id@;
        assert(has_id(s, id));
        let p = position(s, id);
        assert(0 <= p < s.len() && s[p].id@ == id);
        if p < i {
            assert(s[p].id@ != s[i].id@);
        } else if i < p {
            assert(s[i].id@ != s[p].id@);
        }
    }
}

/// The map of a list without repeated identities has as many entries as the
/// list has elements.
proof fn lemma_as_map_len(s: Seq<PeerInfo>)
    requires
        distinct(s),
    ensures
        as_map(s).dom().finite(),
        as_map(s).dom().len() == s.len(),
    decreases s.len(),
{
    if s.len() == 0 {
        assert(as_map(s).dom() =~= Set::<Seq<char>>::empty());
    } else {
        let t = s.drop_last();
        let id = s.last().id@;
        assert(distinct(t)) by {
            assert forall|i: int, j: int| 0 <= i < j < t.len() implies #[trigger] t[i].id@
                != #[trigger] t[j].id@ by {
                assert(t[i] == s[i] && t[j] == s[j]);
            }
        }
        lemma_as_map_len(t);
        assert(!as_map(t).dom().contains(id)) by {
            if has_id(t, id) {
                let p = position(t, id);
                assert(s[p].id@ != s[s.len() - 1].id@);
            }
        }
        assert(as_map(s).dom() =~= as_map(t).dom().insert(id)) by {
            assert forall|k: Seq<char>| as_map(s).dom().contains(k) <==> as_map(t).dom().insert(
                id,
            ).contains(k) by {
                if has_id(s, k) {
                    let p = position(s, k);
                    if p < t.len() {
                        assert(t[p].id@ == k);
                    }
                }
                if has_id(t, k) {
                    let p = position(t, k);
                    assert(s[p].id@ == k);
                }
                if k == id {
                    assert(s[s.len() - 1].id@ == k);
                }
            }
        }
    }
}

/// After `upsert`, every listing of the registry holds the record that was
/// handed in, provided the registry accepts it; and whatever was handed in, no
/// listing holds an entry under the owner's identity.
pub proof fn lemma_upsert_then_snapshot(registry: Registry, record: PeerRecord, list: Seq<PeerRecord>)
    requires
        registry.wf(),
        lists(list, upserted(registry@, registry.local_id(), record)),
    ensures
        accepted(registry.local_id(), record) ==> list.contains(record),
        forall|i: int| 0 <= i < list.len() ==> (#[trigger] list[i]).id != registry.local_id(),
{
    registry.lemma_wf();
    let after = upserted(registry@, registry.local_id(), record);
    if accepted(registry.local_id(), record) {
        assert(after.contains_key(record.id));
        let i = choose|i: int| 0 <= i < list.len() && #[trigger] list[i].id == record.id;
        assert(after[list[i].id] == list[i]);
        assert(list[i] == record);
    }
    assert forall|i: int| 0 <= i < list.len() implies (#[trigger] list[i]).id
        != registry.local_id() by {
        assert(after.contains_key(list[i].id));
    }
}

/// The last writer wins: of two records with one identity that are taken in
/// one after the other, the registry holds the second, and it holds no more
/// entries than if only the second had been taken in.
pub proof fn lemma_last_writer_wins(
    map: Map<Seq<char>, PeerRecord>,
    local_id: Seq<char>,
    first: PeerRecord,
    second: PeerRecord,
)
    requires
        first.id == second.id,
        accepted(local_id, second),
    ensures
        upserted(upserted(map, local_id, first), local_id, second) == upserted(
            map,
            local_id,
            second,
        ),
        upserted(upserted(map, local_id, first), local_id, second)[second.id] == second,
{
    assert(upserted(upserted(map, local_id, first), local_id, second) =~= upserted(
        map,
        local_id,
        second,
    ));
}

/// A listing of a registry has one element for each of its entries.
pub proof fn lemma_listing_len(list: Seq<PeerRecord>, map: Map<Seq<char>, PeerRecord>)
    requires
        lists(list, map),
    ensures
        map.dom().finite(),
        map.dom().len() == list.len(),
    decreases list.len(),
{
    if list.len() == 0 {
        assert(map.dom() =~= Set::<Seq<char>>::empty());
    } else {
        let last = list.last();
        let rest = list.drop_last();
        let smaller = map.remove(last.id);
        assert(map.contains_key(list[list.len() - 1].id));
        assert(lists(rest, smaller)) by {
            assert forall|i: int| 0 <= i < rest.len() implies smaller.contains_key(
                #[trigger] rest[i].id,
            ) && smaller[rest[i].id] == rest[i] by {
                assert(rest[i] == list[i]);
                assert(list[i].id != list[list.len() - 1].id);
                assert(map.contains_key(list[i].id));
            }
            assert forall|i: int, j: int| 0 <= i < j < rest.len() implies #[trigger] rest[i].id
                != #[trigger] rest[j].id by {
                assert(rest[i] == list[i] && rest[j] == list[j]);
            }
            assert forall|id: Seq<char>| #[trigger] smaller.contains_key(id) implies exists|i: int|
                0 <= i < rest.len() && #[trigger] rest[i].id == id by {
                assert(map.contains_key(id));
                let i = choose|i: int| 0 <= i < list.len() && #[trigger] list[i].id == id;
                assert(i < rest.len());
                assert(rest[i] == list[i]);
            }
        }
        lemma_listing_len(rest, smaller);
        assert(map.dom() =~= smaller.dom().insert(last.id));
    }
}

/// The known peers of one node.
pub struct Registry {
    local_id: String,
    peers: Vec<PeerInfo>,
}

impl View for Registry {
    type V = Map<Seq<char>, PeerRecord>;

    closed spec fn view(&self) -> Map<Seq<char>, PeerRecord> {
        as_map(self.peers@)
    }
}

impl Registry {
    /// The identity of the node that owns this registry.
    pub closed spec fn local_id(&self) -> Seq<char> {
        self.local_id@
    }

    /// No identity occurs twice, every stored record is admissible, and none
    /// carries the owner's identity.
    pub closed spec fn wf(&self) -> bool {
        &&& distinct(self.peers@)
        &&& forall|i: int|
            0 <= i < self.peers.len() ==> accepted(self.local_id@, #[trigger] self.peers[i]@)
    }

    /// A well-formed registry holds finitely many entries, each admissible and
    /// filed under its own identity, and none under the owner's identity.
    pub proof fn lemma_wf(&self)
        requires
            self.wf(),
        ensures
            self@.dom().finite(),
            !self@.contains_key(self.local_id()),
            forall|id: Seq<char>| #[trigger]
                self@.contains_key(id) ==> self@[id].id == id && admissible(self@[id]),
    {
        lemma_as_map(self.peers@);
        lemma_as_map_len(self.peers@);
        assert forall|id: Seq<char>| #[trigger] self@.contains_key(id) implies self@[id].id == id
            && admissible(self@[id]) && id != self.local_id() by {
            let p = position(self.peers@, id);
            assert(self.peers@[p].id@ == id);
            assert(accepted(self.local_id@, self.peers[p]@));
        }
    }

    /// An empty registry owned by the node `local_id`.
    pub fn new(local_id: String) -> (r: Registry)
        ensures
            r.wf(),
            r.local_id() == local_id@,
            r@ == Map::<Seq<char>, PeerRecord>::empty(),
    {
        let r = Registry { local_id, peers: Vec::new() };
        assert(r@ =~= Map::<Seq<char>, PeerRecord>::empty());
        r
    }

    /// The identity of the node that owns this registry.
    pub fn owner(&self) -> (id: &String)
        ensures
            id@ == self.local_id(),
    {
        &self.local_id
    }

    /// Where the entry of `id` stands, if there is one.
    fn find(&self, id: &String) -> (r: Option<usize>)
        requires
            self.wf(),
        ensures
            match r {
                Some(i) => i < self.peers.len() && self.peers[i as int].id@ == id@
                    && self@.contains_key(id@) && self@[id@] == self.peers[i as int]@,
                None => !self@.contains_key(id@),
            },
    {
        let mut i: usize = 0;
        while i < self.peers.len()
            invariant
                self.wf(),
                i <= self.peers.len(),
                forall|j: int| 0 <= j < i ==> self.peers[j].id@ != id@,
            decreases self.peers.len() - i,
        {
            if self.peers[i].id == *id {
                proof {
                    lemma_as_map(self.peers@);
                }
                return Some(i);
            }
            i += 1;
        }
        None
    }

    /// Inserts `record` under its identity, or overwrites the entry that is
    /// there. A record that fails the admission predicate, or that carries the
    /// owner's identity, is ignored.
    pub fn upsert(&mut self, record: PeerInfo) -> (outcome: Upsert)
        requires
            old(self).wf(),
        ensures
            final(self).wf(),
            final(self).local_id() == old(self).local_id(),
            final(self)@ == upserted(old(self)@, old(self).local_id(), record@),
            outcome == upsert_outcome(old(self)@, old(self).local_id(), record@),
    {
        if !record.is_valid() || record.id == self.local_id {
            return Upsert::Rejected;
        }
        let ghost before = self.peers@;
        proof {
            lemma_as_map(before);
        }
        match self.find(&record.id) {
            Some(i) => {
                self.peers.set(i, record);
                proof {
                    let after = self.peers@;
                    assert(distinct(after)) by {
                        assert forall|a: int, b: int| 0 <= a < b < after.len() implies
                            #[trigger] after[a].id@ != #[trigger] after[b].id@ by {
                            assert(after[a].id@ == before[a].id@);
                            assert(after[b].id@ == before[b].id@);
                        }
                    }
                    lemma_as_map(after);
                    assert(as_map(after) =~= as_map(before).insert(record.id@, record@)) by {
                        assert forall|k: Seq<char>| has_id(after, k) <==> has_id(before, k) by {
                            if has_id(after, k) {
                                let p = position(after, k);
                                assert(before[p].id@ == k);
                            }
                            if has_id(before, k) {
                                let p = position(before, k);
                                assert(after[p].id@ == k);
                            }
                        }
                        assert forall|k: Seq<char>| has_id(after, k) && k != record.id@ implies
                            as_map(after)[k] == as_map(before)[k] by {
                            let p = position(after, k);
                            assert(after[p] == before[p]);
                            assert(before[p].id@ == k);
                        }
                        assert(after[i as int].id@ == record.id@);
                    }
                }
                Upsert::Updated
            },
            None => {
                self.peers.push(record);
                proof {
                    let after = self.peers@;
                    let n = before.len() as int;
                    assert(distinct(after)) by {
                        assert forall|a: int, b: int| 0 <= a < b < after.len() implies
                            #[trigger] after[a].id@ != #[trigger] after[b].id@ by {
                            assert(after[a] == before[a]);
                            if b < n {
                                assert(after[b] == before[b]);
                            } else {
                                assert(has_id(before, before[a].id@));
                            }
                        }
                    }
                    lemma_as_map(after);
                    assert(as_map(after) =~= as_map(before).insert(record.id@, record@)) by {
                        assert forall|k: Seq<char>| has_id(after, k) <==> (has_id(before, k) || k
                            == record.id@) by {
                            if has_id(after, k) {
                                let p = position(after, k);
                                if p < n {
                                    assert(before[p].id@ == k);
                                }
                            }
                            if has_id(before, k) {
                                let p = position(before, k);
                                assert(after[p].id@ == k);
                            }
                            if k == record.id@ {
                                assert(after[n].id@ == k);
                            }
                        }
                        assert forall|k: Seq<char>| has_id(before, k) implies as_map(after)[k]
                            == as_map(before)[k] by {
                            let p = position(before, k);
                            assert(after[p] == before[p]);
                        }
                        assert(after[n].id@ == record.id@);
                    }
                }
                Upsert::Added
            },
        }
    }

    /// Deletes the entry of `id` and hands it back; `None`, and no change,
    /// when there is none.
    pub fn remove(&mut self, id: &String) -> (removed: Option<PeerInfo>)
        requires
            old(self).wf(),
        ensures
            final(self).wf(),
            final(self).local_id() == old(self).local_id(),
            final(self)@ == old(self)@.remove(id@),
            !old(self)@.contains_key(id@) ==> removed is None && final(self)@ == old(self)@,
            old(self)@.contains_key(id@) ==> removed is Some && removed->0@ == old(self)@[id@],
    {
        let ghost before = self.peers@;
        proof {
            lemma_as_map(before);
        }
        match self.find(id) {
            Some(i) => {
                let gone = self.peers.remove(i);
                proof {
                    let after = self.peers@;
                    assert forall|a: int| 0 <= a < after.len() implies #[trigger] after[a] == before[if a
                        < i {
                        a
                    } else {
                        a + 1
                    }] by {}
                    assert(distinct(after)) by {
                        assert forall|a: int, b: int| 0 <= a < b < after.len() implies
                            #[trigger] after[a].id@ != #[trigger] after[b].id@ by {
                            let left = if a < i { a } else { a + 1 };
                            let right = if b < i { b } else { b + 1 };
                            assert(after[a] == before[left] && after[b] == before[right]);
                        }
                    }
                    lemma_as_map(after);
                    assert(as_map(after) =~= as_map(before).remove(id@)) by {
                        assert forall|k: Seq<char>| has_id(after, k) <==> (has_id(before, k) && k
                            != id@) by {
                            if has_id(after, k) {
                                let p = position(after, k);
                                let from = if p < i { p } else { p + 1 };
                                assert(before[from].id@ == k);
                                if from < i {
                                    assert(before[from].id@ != before[i as int].id@);
                                } else {
                                    assert(before[i as int].id@ != before[from].id@);
                                }
                            }
                            if has_id(before, k) && k != id@ {
                                let p = position(before, k);
                                let q = if p < i { p } else { p - 1 };
                                assert(after[q] == before[p]);
                                assert(after[q].id@ == k);
                            }
                        }
                        assert forall|k: Seq<char>| has_id(after, k) implies as_map(after)[k]
                            == as_map(before)[k] by {
                            let p = position(after, k);
                            let from = if p < i { p } else { p + 1 };
                            assert(after[p] == before[from]);
                            assert(before[from].id@ == k);
                        }
                    }
                    assert forall|a: int| 0 <= a < after.len() implies accepted(
                        self.local_id@,
                        #[trigger] after[a]@,
                    ) by {
                        let left = if a < i { a } else { a + 1 };
                        assert(after[a] == before[left]);
                    }
                }
                Some(gone)
            },
            None => {
                assert(self@ =~= self@.remove(id@));
                None
            },
        }
    }

    /// Tells whether `id` has an entry.
    pub fn contains(&self, id: &String) -> (r: bool)
        requires
            self.wf(),
        ensures
            r == self@.contains_key(id@),
    {
        self.find(id).is_some()
    }

    /// A copy of the entry of `id`, if there is one.
    pub fn get(&self, id: &String) -> (r: Option<PeerInfo>)
        requires
            self.wf(),
        ensures
            match r {
                Some(p) => self@.contains_key(id@) && p@ == self@[id@],
                None => !self@.contains_key(id@),
            },
    {
        match self.find(id) {
            Some(i) => Some(self.peers[i].clone()),
            None => None,
        }
    }

    /// The number of entries.
    pub fn len(&self) -> (n: usize)
        requires
            self.wf(),
        ensures
            n == self@.len(),
    {
        proof {
            lemma_as_map_len(self.peers@);
        }
        self.peers.len()
    }

    /// Tells whether there is no entry at all.
    pub fn is_empty(&self) -> (r: bool)
        requires
            self.wf(),
        ensures
            r == (self@.len() == 0),
            r == (self@ == Map::<Seq<char>, PeerRecord>::empty()),
    {
        proof {
            lemma_as_map_len(self.peers@);
            if self.peers.len() == 0 {
                assert(self@ =~= Map::<Seq<char>, PeerRecord>::empty());
            }
        }
        self.peers.len() == 0
    }

    /// A copy of every entry, as it stands at the time of the call.
    pub fn snapshot(&self) -> (list: Vec<PeerInfo>)
        requires
            self.wf(),
        ensures
            lists(records(list@), self@),
            list.len() == self@.len(),
    {
        let mut list: Vec<PeerInfo> = Vec::new();
        let mut i: usize = 0;
        while i < self.peers.len()
            invariant
                i <= self.peers.len(),
                list.len() == i,
                forall|j: int| 0 <= j < i ==> #[trigger] list[j]@ == self.peers[j]@,
            decreases self.peers.len() - i,
        {
            list.push(self.peers[i].clone());
            i += 1;
        }
        proof {
            lemma_as_map(self.peers@);
            lemma_as_map_len(self.peers@);
            let rs = records(list@);
            assert forall|j: int| 0 <= j < rs.len() implies self@.contains_key(#[trigger] rs[j].id)
                && self@[rs[j].id] == rs[j] by {
                assert(list[j]@ == self.peers[j]@);
            }
            assert forall|a: int, b: int| 0 <= a < b < rs.len() implies #[trigger] rs[a].id
                != #[trigger] rs[b].id by {
                assert(list[a]@ == self.peers[a]@ && list[b]@ == self.peers[b]@);
            }
            assert forall|id: Seq<char>| #[trigger] self@.contains_key(id) implies exists|j: int|
                0 <= j < rs.len() && #[trigger] rs[j].id == id by {
                let p = position(self.peers@, id);
                assert(list[p]@ == self.peers[p]@);
                assert(rs[p].id == id);
            }
        }
        list
    }
}

} // verus!
