use vstd::prelude::*;

verus! {

/// The table of live sessions: each identifier names at most one handle.
/// Identifiers and handles are kept side by side; `model` is the map they
/// stand for. `issued` holds every identifier ever registered, so that none
/// is given out twice, even after its session is gone.
pub struct SessionRegistry<H> {
    ids: Vec<String>,
    handles: Vec<H>,
    issued: Vec<String>,
    model: Ghost<Map<Seq<char>, H>>,
}

impl<H> SessionRegistry<H> {
    /// The live sessions, by identifier.
    pub closed spec fn view(&self) -> Map<Seq<char>, H> {
        self.model@
    }

    /// Every identifier ever registered in this table, live or removed.
    pub closed spec fn issued(&self) -> Set<Seq<char>> {
        Set::new(|k: Seq<char>| exists|j: int| 0 <= j < self.issued@.len() && self.issued@[j]@ == k)
    }

    /// Identifiers are unique, and the two lists hold exactly the model.
    pub closed spec fn wf(&self) -> bool {
        &&& self.ids@.len() == self.handles@.len()
        &&& forall|i: int, j: int|
            0 <= i < j < self.ids@.len() ==> self.ids@[i]@ != self.ids@[j]@
        &&& forall|i: int|
            0 <= i < self.ids@.len() ==> {
                &&& #[trigger] self.model@.contains_key(self.ids@[i]@)
                &&& self.model@[self.ids@[i]@] == self.handles@[i]
            }
        &&& forall|k: Seq<char>|
            #[trigger] self.model@.contains_key(k) ==> exists|i: int|
                0 <= i < self.ids@.len() && self.ids@[i]@ == k
        &&& forall|k: Seq<char>| #[trigger] self.model@.contains_key(k) ==> self.issued().contains(k)
    }

    /// Live identifiers have all been issued.
    pub proof fn lemma_live_ids_issued(&self)
        requires
            self.wf(),
        ensures
            self@.dom().subset_of(self.issued()),
    {
    }

    /// An empty table.
    pub fn new() -> (r: Self)
        ensures
            r.wf(),
            r@ == Map::<Seq<char>, H>::empty(),
            r.issued() == Set::<Seq<char>>::empty(),
    {
        let r = SessionRegistry {
            ids: Vec::new(),
            handles: Vec::new(),
            issued: Vec::new(),
            model: Ghost(Map::empty()),
        };
        assert(r.issued() =~= Set::<Seq<char>>::empty());
        r
    }

    /// Number of live sessions.
    pub fn len(&self) -> (r: usize)
        requires
            self.wf(),
        ensures
            r == self@.len(),
    {
        proof {
            self.lemma_len();
        }
        self.ids.len()
    }

    proof fn lemma_len(&self)
        requires
            self.wf(),
        ensures
            self@.len() == self.ids@.len(),
            self@.dom().finite(),
    {
        let keys = self.ids@.map_values(|s: String| s@);
        assert(keys.no_duplicates());
        assert(self@.dom() =~= keys.to_set()) by {
            assert forall|k: Seq<char>| self@.dom().contains(k) implies keys.to_set().contains(k) by {
                let i = choose|i: int| 0 <= i < self.ids@.len() && self.ids@[i]@ == k;
                assert(keys[i] == k);
            }
            assert forall|k: Seq<char>| keys.to_set().contains(k) implies self@.dom().contains(k) by {
                let i = choose|i: int| 0 <= i < keys.len() && keys[i] == k;
                assert(self.model@.contains_key(self.ids@[i]@));
            }
        }
        keys.unique_seq_to_set();
    }

    /// Position of `id` in the lists, if it is live.
    fn position(&self, id: &String) -> (r: Option<usize>)
        requires
            self.wf(),
        ensures
            match r {
                Some(i) => i < self.ids@.len() && self.ids@[i as int]@ == id@,
                None => !self@.contains_key(id@),
            },
    {
        let mut i: usize = 0;
        while i < self.ids.len()
            invariant
                self.wf(),
                i <= self.ids@.len(),
                forall|j: int| 0 <= j < i ==> self.ids@[j]@ != id@,
            decreases self.ids@.len() - i,
        {
            if self.ids[i] == *id {
                return Some(i);
            }
            i = i + 1;
        }
        None
    }

    /// Whether `id` names a live session.
    pub fn contains(&self, id: &String) -> (r: bool)
        requires
            self.wf(),
        ensures
            r == self@.contains_key(id@),
    {
        match self.position(id) {
            Some(i) => {
                assert(self.model@.contains_key(self.ids@[i as int]@));
                true
            },
            None => false,
        }
    }

    /// The handle of the session named `id`, if it is live.
    pub fn get(&self, id: &String) -> (r: Option<&H>)
        requires
            self.wf(),
        ensures
            r.is_some() == self@.contains_key(id@),
            r.is_some() ==> *r.unwrap() == self@[id@],
    {
        match self.position(id) {
            Some(i) => {
                assert(self.model@.contains_key(self.ids@[i as int]@));
                Some(&self.handles[i])
            },
            None => None,
        }
    }

    /// Whether `id` was ever registered here.
    pub fn was_issued(&self, id: &String) -> (r: bool)
        requires
            self.wf(),
        ensures
            r == self.issued().contains(id@),
    {
        let mut j: usize = 0;
        while j < self.issued.len()
            invariant
                j <= self.issued@.len(),
                forall|i: int| 0 <= i < j ==> self.issued@[i]@ != id@,
            decreases self.issued@.len() - j,
        {
            if self.issued[j] == *id {
                return true;
            }
            j = j + 1;
        }
        false
    }

    /// Adds a session under an identifier never issued here before; an
    /// identifier already issued is refused and the table is left as it was.
    pub fn insert(&mut self, id: String, handle: H) -> (r: bool)
        requires
            old(self).wf(),
        ensures
            final(self).wf(),
            r == !old(self).issued().contains(id@),
            r ==> !old(self)@.contains_key(id@),
            r ==> final(self)@ == old(self)@.insert(id@, handle),
            r ==> final(self).issued() == old(self).issued().insert(id@),
            !r ==> final(self)@ == old(self)@ && final(self).issued() == old(self).issued(),
    {
        if self.was_issued(&id) {
            return false;
        }
        let ghost k = id@;
        let ghost h = handle;
        let ghost n = self.ids@.len();
        let ghost m = self.issued@.len();
        assert(!self.model@.contains_key(k));
        assert forall|i: int| 0 <= i < n implies self.ids@[i]@ != k by {
            assert(self.model@.contains_key(self.ids@[i]@));
        }
        self.issued.push(id.clone());
        self.ids.push(id);
        self.handles.push(handle);
        self.model = Ghost(self.model@.insert(k, h));
        assert(self.issued@[m as int]@ == k);
        assert(self.issued() =~= old(self).issued().insert(k)) by {
            assert forall|k2: Seq<char>| old(self).issued().contains(k2) implies self.issued().contains(k2) by {
                let j = choose|j: int| 0 <= j < old(self).issued@.len() && old(self).issued@[j]@ == k2;
                assert(self.issued@[j] == old(self).issued@[j]);
            }
            assert forall|k2: Seq<char>| self.issued().contains(k2) implies old(self).issued().insert(k).contains(k2) by {
                let j = choose|j: int| 0 <= j < self.issued@.len() && self.issued@[j]@ == k2;
                if j < m {
                    assert(old(self).issued@[j] == self.issued@[j]);
                }
            }
        }
        assert forall|k2: Seq<char>| #[trigger] self.model@.contains_key(k2) implies self.issued().contains(k2) by {
            if k2 != k {
                assert(old(self).model@.contains_key(k2));
                assert(old(self).issued().contains(k2));
            }
        }
        assert forall|i: int| 0 <= i < self.ids@.len() implies {
            &&& #[trigger] self.model@.contains_key(self.ids@[i]@)
            &&& self.model@[self.ids@[i]@] == self.handles@[i]
        } by {
            if i < n {
                assert(old(self).model@.contains_key(old(self).ids@[i]@));
            }
        }
        assert forall|k2: Seq<char>| #[trigger] self.model@.contains_key(k2) implies exists|i: int|
            0 <= i < self.ids@.len() && self.ids@[i]@ == k2 by {
            if k2 == k {
                assert(self.ids@[n as int]@ == k);
            } else {
                assert(old(self).model@.contains_key(k2));
                let i = choose|i: int| 0 <= i < old(self).ids@.len() && old(self).ids@[i]@ == k2;
                assert(self.ids@[i]@ == k2);
            }
        }
        true
    }

    /// Takes the session named `id` out of the table and hands back its
    /// handle; an identifier that is not live leaves the table as it was.
    pub fn remove(&mut self, id: &String) -> (r: Option<H>)
        requires
            old(self).wf(),
        ensures
            final(self).wf(),
            final(self)@ == old(self)@.remove(id@),
            final(self).issued() == old(self).issued(),
            r.is_some() == old(self)@.contains_key(id@),
            r.is_some() ==> r.unwrap() == old(self)@[id@],
    {
        match self.position(id) {
            None => {
                assert(self.model@.remove(id@) =~= self.model@);
                None
            },
            Some(i) => {
                let ghost k = id@;
                let ghost old_ids = self.ids@;
                let ghost old_hs = self.handles@;
                assert(self.model@.contains_key(self.ids@[i as int]@));
                self.ids.remove(i);
                let h = self.handles.remove(i);
                self.model = Ghost(self.model@.remove(k));
                assert forall|a: int, b: int|
                    0 <= a < b < self.ids@.len() implies self.ids@[a]@ != self.ids@[b]@ by {
                    let a0 = if a < i { a } else { a + 1 };
                    let b0 = if b < i { b } else { b + 1 };
                    assert(self.ids@[a] == old_ids[a0]);
                    assert(self.ids@[b] == old_ids[b0]);
                }
                assert forall|j: int| 0 <= j < self.ids@.len() implies {
                    &&& #[trigger] self.model@.contains_key(self.ids@[j]@)
                    &&& self.model@[self.ids@[j]@] == self.handles@[j]
                } by {
                    let j0 = if j < i { j } else { j + 1 };
                    assert(self.ids@[j] == old_ids[j0]);
                    assert(self.handles@[j] == old_hs[j0]);
                    assert(old(self).model@.contains_key(old_ids[j0]@));
                    assert(old_ids[j0]@ != k);
                }
                assert forall|k2: Seq<char>| #[trigger] self.model@.contains_key(k2) implies exists|j: int|
                    0 <= j < self.ids@.len() && self.ids@[j]@ == k2 by {
                    assert(old(self).model@.contains_key(k2));
                    let j0 = choose|j: int| 0 <= j < old_ids.len() && old_ids[j]@ == k2;
                    assert(j0 != i);
                    let j = if j0 < i { j0 } else { j0 - 1 };
                    assert(self.ids@[j] == old_ids[j0]);
                }
                Some(h)
            },
        }
    }
}

} // verus!
