//! A table of values addressed by opaque handles. A handle pairs a slot
//! index with the generation the slot had when the value was stored; a slot
//! that is emptied and reused moves to a new generation, so a handle whose
//! value was removed is rejected from then on instead of reaching whatever
//! took its slot.
use vstd::prelude::*;

verus! {

#[derive(Clone, Copy, Debug, PartialEq, Eq, Structural)]
pub struct Handle {
    pub index: u64,
    pub generation: u64,
}

pub struct HandleTable<T> {
    generations: Vec<u64>,
    values: Vec<Option<T>>,
    issued: Ghost<Set<Handle>>,
}

impl<T> View for HandleTable<T> {
    type V = Map<Handle, T>;

    /// The live handles and their values.
    closed spec fn view(&self) -> Map<Handle, T> {
        Map::new(
            |h: Handle| self.is_live(h),
            |h: Handle| self.values@[h.index as int]->Some_0,
        )
    }
}

impl<T> HandleTable<T> {
    closed spec fn is_live(&self, h: Handle) -> bool {
        &&& h.index < self.values@.len()
        &&& self.generations@[h.index as int] == h.generation
        &&& self.values@[h.index as int] is Some
    }

    /// The number of slots, taken or free.
    pub closed spec fn slot_count(&self) -> nat {
        self.values@.len()
    }

    /// Every handle this table has ever handed out.
    pub closed spec fn issued(&self) -> Set<Handle> {
        self.issued@
    }

    pub closed spec fn wf(&self) -> bool {
        &&& self.generations@.len() == self.values@.len()
        &&& forall|h: Handle| #[trigger]
            self.issued@.contains(h) ==> h.index < self.values@.len()
                && h.generation <= self.generations@[h.index as int]
        &&& forall|h: Handle| #[trigger] self.is_live(h) ==> self.issued@.contains(h)
    }

    pub fn new() -> (r: Self)
        ensures
            r.wf(),
            r@ == Map::<Handle, T>::empty(),
            r.issued() == Set::<Handle>::empty(),
    {
        let r = HandleTable { generations: Vec::new(), values: Vec::new(), issued: Ghost(Set::empty()) };
        assert(r@ =~= Map::<Handle, T>::empty());
        r
    }

    fn free_slot(&self) -> (r: Option<usize>)
        requires
            self.wf(),
        ensures
            match r {
                Some(i) => i < self.values@.len() && self.values@[i as int] is None
                    && self.generations@[i as int] < u64::MAX,
                None => true,
            },
    {
        let mut i: usize = 0;
        while i < self.values.len()
            invariant
                self.wf(),
                i <= self.values@.len(),
            decreases self.values@.len() - i,
        {
            if self.values[i].is_none() && self.generations[i] < u64::MAX {
                return Some(i);
            }
            i = i + 1;
        }
        None
    }

    /// Stores `value` under a handle that was never handed out before; an
    /// emptied slot is reused under its next generation. `None`, with the
    /// table unchanged, only when every one of 2^64 - 1 slots is taken or
    /// worn out.
    pub fn insert(&mut self, value: T) -> (r: Option<Handle>)
        requires
            old(self).wf(),
        ensures
            final(self).wf(),
            match r {
                Some(h) => {
                    &&& !old(self).issued().contains(h)
                    &&& final(self).issued() == old(self).issued().insert(h)
                    &&& final(self)@ == old(self)@.insert(h, value)
                },
                None => final(self)@ == old(self)@ && final(self).issued() == old(self).issued(),
            },
            old(self).slot_count() < u64::MAX ==> r is Some,
    {
        match self.free_slot() {
            Some(i) => {
                let g = self.generations[i] + 1;
                let h = Handle { index: i as u64, generation: g };
                self.generations.set(i, g);
                self.values.set(i, Some(value));
                proof {
                    self.issued@ = self.issued@.insert(h);
                    assert forall|k: Handle| #[trigger] self.is_live(k) implies self.issued@.contains(
                        k,
                    ) by {
                        if k != h {
                            assert(old(self).is_live(k));
                        }
                    }
                    assert(self@ =~= old(self)@.insert(h, value));
                }
                Some(h)
            },
            None => {
                if self.values.len() as u64 >= u64::MAX {
                    return None;
                }
                let h = Handle { index: self.values.len() as u64, generation: 0 };
                self.generations.push(0);
                self.values.push(Some(value));
                proof {
                    self.issued@ = self.issued@.insert(h);
                    assert forall|k: Handle| #[trigger] self.is_live(k) implies self.issued@.contains(
                        k,
                    ) by {
                        if k != h {
                            assert(old(self).is_live(k));
                        }
                    }
                    assert(self@ =~= old(self)@.insert(h, value));
                }
                Some(h)
            },
        }
    }

    /// The value under `h`, if `h` is live.
    pub fn get(&self, h: Handle) -> (r: Option<&T>)
        requires
            self.wf(),
        ensures
            match r {
                Some(v) => self@.contains_key(h) && *v == self@[h],
                None => !self@.contains_key(h),
            },
    {
        if h.index >= self.values.len() as u64 {
            return None;
        }
        let i = h.index as usize;
        if self.generations[i] != h.generation {
            return None;
        }
        match &self.values[i] {
            Some(v) => Some(v),
            None => None,
        }
    }

    /// Takes the value under `h` out of the table, if `h` is live; from then
    /// on `h` is rejected.
    pub fn remove(&mut self, h: Handle) -> (r: Option<T>)
        requires
            old(self).wf(),
        ensures
            final(self).wf(),
            final(self).issued() == old(self).issued(),
            final(self)@ == old(self)@.remove(h),
            r == (if old(self)@.contains_key(h) {
                Some(old(self)@[h])
            } else {
                None
            }),
    {
        if h.index >= self.values.len() as u64 {
            assert(self@ =~= old(self)@.remove(h));
            return None;
        }
        let i = h.index as usize;
        if self.generations[i] != h.generation {
            assert(self@ =~= old(self)@.remove(h));
            return None;
        }
        let r = self.values.remove(i);
        self.values.insert(i, None);
        proof {
            assert forall|k: Handle| #[trigger] self.is_live(k) implies self.issued@.contains(k) by {
                assert(old(self).is_live(k));
            }
            assert(self@ =~= old(self)@.remove(h));
        }
        r
    }
}

/// A removed handle stays dead: no later insertion hands it out again, and
/// no removal brings it back.
pub proof fn lemma_removed_handle_stays_dead<T>(
    before: HandleTable<T>,
    after: HandleTable<T>,
    h: Handle,
    r: Handle,
    v: T,
)
    requires
        before.issued().contains(h),
        !before@.contains_key(h),
        !before.issued().contains(r),
        after@ == before@.insert(r, v),
    ensures
        !after@.contains_key(h),
{
}

} // verus!
