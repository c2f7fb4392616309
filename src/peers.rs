//! The registry of peers a node has met, each with whether it is connected
//! now. A record is created on first contact and never removed.
use vstd::prelude::*;

verus! {

pub struct PeerRecord {
    pub peer_id: String,
    pub connected: bool,
}

/// No peer identifier occurs twice among the records.
pub open spec fn ids_unique(s: Seq<PeerRecord>) -> bool {
    forall|i: int, j: int| 0 <= i < j < s.len() ==> s[i].peer_id@ != s[j].peer_id@
}

/// The status of each peer, as the records give it.
pub open spec fn registry(s: Seq<PeerRecord>) -> Map<Seq<char>, bool>
    decreases s.len(),
{
    if s.len() == 0 {
        Map::empty()
    } else {
        registry(s.drop_last()).insert(s.last().peer_id@, s.last().connected)
    }
}

proof fn lemma_registry_push(s: Seq<PeerRecord>, r: PeerRecord)
    ensures
        registry(s.push(r)) == registry(s).insert(r.peer_id@, r.connected),
{
    assert(s.push(r).drop_last() =~= s);
}

proof fn lemma_registry_absent(s: Seq<PeerRecord>, k: Seq<char>)
    requires
        forall|i: int| 0 <= i < s.len() ==> s[i].peer_id@ != k,
    ensures
        !registry(s).contains_key(k),
    decreases s.len(),
{
    if s.len() > 0 {
        lemma_registry_absent(s.drop_last(), k);
    }
}

proof fn lemma_registry_lookup(s: Seq<PeerRecord>, i: int)
    requires
        ids_unique(s),
        0 <= i < s.len(),
    ensures
        registry(s).contains_key(s[i].peer_id@),
        registry(s)[s[i].peer_id@] == s[i].connected,
    decreases s.len(),
{
    if i < s.len() - 1 {
        lemma_registry_lookup(s.drop_last(), i);
    }
}

proof fn lemma_registry_update(s: Seq<PeerRecord>, i: int, r: PeerRecord)
    requires
        ids_unique(s),
        0 <= i < s.len(),
        s[i].peer_id@ == r.peer_id@,
    ensures
        registry(s.update(i, r)) == registry(s).insert(r.peer_id@, r.connected),
    decreases s.len(),
{
    let t = s.update(i, r);
    if i == s.len() - 1 {
        assert(t.drop_last() =~= s.drop_last());
        assert(registry(t) =~= registry(s).insert(r.peer_id@, r.connected));
    } else {
        assert(t.drop_last() =~= s.drop_last().update(i, r));
        lemma_registry_update(s.drop_last(), i, r);
        assert(s.last().peer_id@ != r.peer_id@);
        assert(registry(t) =~= registry(s).insert(r.peer_id@, r.connected));
    }
}

pub struct PeerRegistry {
    records: Vec<PeerRecord>,
}

impl View for PeerRegistry {
    type V = Map<Seq<char>, bool>;

    closed spec fn view(&self) -> Map<Seq<char>, bool> {
        registry(self.records@)
    }
}

impl PeerRegistry {
    pub closed spec fn wf(&self) -> bool {
        ids_unique(self.records@)
    }

    pub fn new() -> (r: Self)
        ensures
            r.wf(),
            r@ == Map::<Seq<char>, bool>::empty(),
    {
        PeerRegistry { records: Vec::new() }
    }

    fn position(&self, peer_id: &String) -> (r: Option<usize>)
        ensures
            match r {
                Some(i) => i < self.records@.len() && self.records@[i as int].peer_id@ == peer_id@,
                None => forall|i: int|
                    0 <= i < self.records@.len() ==> self.records@[i].peer_id@ != peer_id@,
            },
    {
        let mut i: usize = 0;
        while i < self.records.len()
            invariant
                i <= self.records@.len(),
                forall|j: int| 0 <= j < i ==> self.records@[j].peer_id@ != peer_id@,
            decreases self.records@.len() - i,
        {
            if self.records[i].peer_id == *peer_id {
                return Some(i);
            }
            i = i + 1;
        }
        None
    }

    /// Whether the peer is connected, or `None` for a peer never met.
    pub fn status(&self, peer_id: &String) -> (r: Option<bool>)
        requires
            self.wf(),
        ensures
            r == (if self@.contains_key(peer_id@) {
                Some(self@[peer_id@])
            } else {
                None
            }),
    {
        match self.position(peer_id) {
            Some(i) => {
                proof {
                    lemma_registry_lookup(self.records@, i as int);
                }
                Some(self.records[i].connected)
            },
            None => {
                proof {
                    lemma_registry_absent(self.records@, peer_id@);
                }
                None
            },
        }
    }

    /// Records the peer's status, creating its record if it is new.
    pub fn set_status(&mut self, peer_id: String, connected: bool)
        requires
            old(self).wf(),
        ensures
            final(self).wf(),
            final(self)@ == old(self)@.insert(peer_id@, connected),
    {
        match self.position(&peer_id) {
            Some(i) => {
                let rec = PeerRecord { peer_id, connected };
                proof {
                    lemma_registry_update(self.records@, i as int, rec);
                }
                self.records.set(i, rec);
            },
            None => {
                let rec = PeerRecord { peer_id, connected };
                proof {
                    lemma_registry_push(self.records@, rec);
                }
                self.records.push(rec);
            },
        }
    }

    /// Records a peer met through discovery: a new one as not connected; a
    /// known one keeps its status.
    pub fn note_discovered(&mut self, peer_id: String)
        requires
            old(self).wf(),
        ensures
            final(self).wf(),
            final(self)@ == (if old(self)@.contains_key(peer_id@) {
                old(self)@
            } else {
                old(self)@.insert(peer_id@, false)
            }),
    {
        match self.position(&peer_id) {
            Some(i) => {
                proof {
                    lemma_registry_lookup(self.records@, i as int);
                }
            },
            None => {
                let rec = PeerRecord { peer_id, connected: false };
                proof {
                    lemma_registry_absent(self.records@, rec.peer_id@);
                    lemma_registry_push(self.records@, rec);
                }
                self.records.push(rec);
            },
        }
    }
}

} // verus!
