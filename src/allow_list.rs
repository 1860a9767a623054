use vstd::prelude::*;

verus! {

/// The set of sender identities that may submit messages.
pub struct AllowList {
    keys: Vec<String>,
}

impl View for AllowList {
    type V = Set<Seq<char>>;

    closed spec fn view(&self) -> Set<Seq<char>> {
        Set::new(|k: Seq<char>| exists|i: int| 0 <= i < self.keys@.len() && self.keys@[i]@ == k)
    }
}

impl AllowList {
    /// No identity is held twice.
    pub closed spec fn wf(&self) -> bool {
        forall|i: int, j: int|
            0 <= i < self.keys@.len() && 0 <= j < self.keys@.len() && i != j
                ==> #[trigger] self.keys@[i]@ != #[trigger] self.keys@[j]@
    }

    pub fn new() -> (r: Self)
        ensures
            r.wf(),
            r@ == Set::<Seq<char>>::empty(),
    {
        let r = AllowList { keys: Vec::new() };
        assert(r@ =~= Set::<Seq<char>>::empty());
        r
    }

    /// The list holding exactly the given identities.
    pub fn from_keys(keys: Vec<String>) -> (r: Self)
        ensures
            r.wf(),
            r@ == keys@.map_values(|k: String| k@).to_set(),
    {
        let mut r = AllowList::new();
        let mut i: usize = 0;
        while i < keys.len()
            invariant
                i <= keys@.len(),
                r.wf(),
                r@ == keys@.subrange(0, i as int).map_values(|k: String| k@).to_set(),
            decreases keys@.len() - i,
        {
            r.insert(keys[i].clone());
            proof {
                let before = keys@.subrange(0, i as int).map_values(|k: String| k@);
                let after = keys@.subrange(0, i + 1).map_values(|k: String| k@);
                assert(after =~= before.push(keys@[i as int]@));
                before.lemma_push_to_set_commute(keys@[i as int]@);
            }
            i = i + 1;
        }
        assert(keys@.subrange(0, keys@.len() as int) =~= keys@);
        r
    }

    fn find(&self, key: &String) -> (r: Option<usize>)
        ensures
            r is Some ==> r->0 < self.keys@.len() && self.keys@[r->0 as int]@ == key@,
            r is None ==> !self@.contains(key@),
    {
        let mut i: usize = 0;
        while i < self.keys.len()
            invariant
                i <= self.keys@.len(),
                forall|j: int| 0 <= j < i ==> self.keys@[j]@ != key@,
            decreases self.keys@.len() - i,
        {
            if self.keys[i] == *key {
                return Some(i);
            }
            i = i + 1;
        }
        None
    }

    /// Whether `key` is in the list.
    pub fn contains(&self, key: &str) -> (r: bool)
        ensures
            r == self@.contains(key@),
    {
        let k = key.to_owned();
        match self.find(&k) {
            Some(i) => {
                assert(self@.contains(key@));
                true
            },
            None => false,
        }
    }

    /// Adds `key`; adding one that is there already changes nothing.
    pub fn insert(&mut self, key: String)
        requires
            old(self).wf(),
        ensures
            final(self).wf(),
            final(self)@ == old(self)@.insert(key@),
    {
        match self.find(&key) {
            Some(i) => {
                assert(self@ =~= old(self)@.insert(key@));
            },
            None => {
                let ghost k = key@;
                self.keys.push(key);
                proof {
                    let n = old(self).keys@.len();
                    assert(self.keys@[n as int]@ == k);
                    assert forall|x: Seq<char>| #[trigger]
                        self@.contains(x) <==> old(self)@.insert(k).contains(x) by {
                        if old(self)@.contains(x) {
                            let j = choose|j: int|
                                0 <= j < old(self).keys@.len() && old(self).keys@[j]@ == x;
                            assert(self.keys@[j] == old(self).keys@[j]);
                        }
                        if self@.contains(x) && x != k {
                            let j = choose|j: int| 0 <= j < self.keys@.len() && self.keys@[j]@ == x;
                            assert(j < n);
                            assert(old(self).keys@[j] == self.keys@[j]);
                        }
                    }
                    assert(self@ =~= old(self)@.insert(k));
                    assert forall|a: int, b: int|
                        0 <= a < self.keys@.len() && 0 <= b < self.keys@.len() && a != b
                            implies #[trigger] self.keys@[a]@ != #[trigger] self.keys@[b]@ by {
                        if a < n && b < n {
                            assert(old(self).keys@[a] == self.keys@[a]);
                            assert(old(self).keys@[b] == self.keys@[b]);
                        } else if a < n {
                            assert(old(self).keys@[a] == self.keys@[a]);
                        } else if b < n {
                            assert(old(self).keys@[b] == self.keys@[b]);
                        }
                    }
                }
            },
        }
    }

    /// Takes `key` out; taking out one that is absent changes nothing.
    pub fn remove(&mut self, key: &str)
        requires
            old(self).wf(),
        ensures
            final(self).wf(),
            final(self)@ == old(self)@.remove(key@),
    {
        let k = key.to_owned();
        match self.find(&k) {
            None => {
                assert(self@ =~= old(self)@.remove(key@));
            },
            Some(i) => {
                self.keys.remove(i);
                proof {
                    let o = old(self).keys@;
                    assert forall|x: Seq<char>| #[trigger]
                        self@.contains(x) <==> old(self)@.remove(key@).contains(x) by {
                        if old(self)@.contains(x) && x != key@ {
                            let j = choose|j: int| 0 <= j < o.len() && o[j]@ == x;
                            if j < i {
                                assert(self.keys@[j] == o[j]);
                            } else {
                                assert(j != i);
                                assert(self.keys@[j - 1] == o[j]);
                            }
                        }
                        if self@.contains(x) {
                            let j = choose|j: int| 0 <= j < self.keys@.len() && self.keys@[j]@ == x;
                            if j < i {
                                assert(self.keys@[j] == o[j]);
                                assert(o[j]@ != o[i as int]@);
                            } else {
                                assert(self.keys@[j] == o[j + 1]);
                                assert(o[j + 1]@ != o[i as int]@);
                            }
                        }
                    }
                    assert(self@ =~= old(self)@.remove(key@));
                    assert forall|a: int, b: int|
                        0 <= a < self.keys@.len() && 0 <= b < self.keys@.len() && a != b
                            implies #[trigger] self.keys@[a]@ != #[trigger] self.keys@[b]@ by {
                        let oa = if a < i { a } else { a + 1 };
                        let ob = if b < i { b } else { b + 1 };
                        assert(self.keys@[a] == o[oa]);
                        assert(self.keys@[b] == o[ob]);
                    }
                }
            },
        }
    }
}

} // verus!
