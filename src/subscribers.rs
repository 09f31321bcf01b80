use vstd::prelude::*;

verus! {

/// One event, to be delivered to each listed subscriber in turn.
pub struct Broadcast<R> {
    pub to: Vec<u64>,
    pub response: R,
}

/// The listeners registered with a broadcasting service, as opaque handles.
///
/// A handle is registered at most once; the handles keep the order in which
/// they were registered.
pub struct Subscribers {
    ids: Vec<u64>,
}

impl View for Subscribers {
    type V = Seq<u64>;

    closed spec fn view(&self) -> Seq<u64> {
        self.ids@
    }
}

impl Subscribers {
    #[verifier::type_invariant]
    spec fn inv(&self) -> bool {
        self.ids@.no_duplicates()
    }


    pub fn new() -> (r: Subscribers)
        ensures
            r@ == Seq::<u64>::empty(),
    {
        Subscribers { ids: Vec::new() }
    }

    pub fn len(&self) -> (r: usize)
        ensures
            r == self@.len(),
    {
        self.ids.len()
    }

    pub fn contains(&self, id: u64) -> (r: bool)
        ensures
            r == self@.contains(id),
    {
        self.position(id).is_some()
    }

    fn position(&self, id: u64) -> (r: Option<usize>)
        ensures
            match r {
                Some(i) => i < self@.len() && self@[i as int] == id,
                None => !self@.contains(id),
            },
    {
        let mut i: usize = 0;
        while i < self.ids.len()
            invariant
                i <= self.ids@.len(),
                forall|j: int| 0 <= j < i ==> self.ids@[j] != id,
            decreases self.ids@.len() - i,
        {
            if self.ids[i] == id {
                return Some(i);
            }
            i = i + 1;
        }
        None
    }

    /// Registers `id`; registering a handle that is already there changes nothing.
    pub fn add(&mut self, id: u64)
        ensures
            old(self)@.contains(id) ==> final(self)@ == old(self)@,
            !old(self)@.contains(id) ==> final(self)@ == old(self)@.push(id),
            final(self)@.to_set() == old(self)@.to_set().insert(id),
    {
        proof {
            use_type_invariant(&*self);
        }
        if !self.contains(id) {
            let mut ids = self.ids.clone();
            ids.push(id);
            self.ids = ids;
            proof {
                assert(self@ == old(self)@.push(id));
                assert forall|i: int, j: int| 0 <= i < j < self@.len() implies self@[i] != self@[j] by {
                    if j == self@.len() - 1 {
                        assert(old(self)@.contains(old(self)@[i]));
                    }
                }
                assert forall|x: u64| self@.contains(x) <==> (old(self)@.contains(x) || x == id) by {
                    if self@.contains(x) && x != id {
                        let k = choose|k: int| 0 <= k < self@.len() && self@[k] == x;
                        assert(old(self)@[k] == x);
                    }
                    if old(self)@.contains(x) {
                        let k = choose|k: int| 0 <= k < old(self)@.len() && old(self)@[k] == x;
                        assert(self@[k] == x);
                    }
                    if x == id {
                        assert(self@[self@.len() - 1] == id);
                    }
                }
                assert(self@.to_set() =~= old(self)@.to_set().insert(id));
            }
        } else {
            proof {
                assert(self@.to_set() =~= old(self)@.to_set().insert(id));
            }
        }
    }

    /// Unregisters `id`, telling whether it was registered; the others keep
    /// their order.
    pub fn remove(&mut self, id: u64) -> (r: bool)
        ensures
            r == old(self)@.contains(id),
            !final(self)@.contains(id),
            final(self)@.to_set() == old(self)@.to_set().remove(id),
            !r ==> final(self)@ == old(self)@,
            r ==> final(self)@.len() == old(self)@.len() - 1,
    {
        proof {
            use_type_invariant(&*self);
        }
        match self.position(id) {
            Some(i) => {
                let mut ids = self.ids.clone();
                ids.remove(i);
                self.ids = ids;
                proof {
                    let o = old(self)@;
                    assert(self@ =~= o.subrange(0, i as int) + o.subrange(i + 1, o.len() as int));
                    assert forall|k: int| 0 <= k < self@.len() implies self@[k] != id by {
                        if k < i {
                            assert(self@[k] == o[k]);
                        } else {
                            assert(self@[k] == o[k + 1]);
                        }
                    }
                    assert forall|a: int, b: int| 0 <= a < b < self@.len() implies self@[a] != self@[b] by {
                        let a2 = if a < i { a } else { a + 1 };
                        let b2 = if b < i { b } else { b + 1 };
                        assert(self@[a] == o[a2]);
                        assert(self@[b] == o[b2]);
                    }
                    assert forall|x: u64| self@.contains(x) <==> o.contains(x) && x != id by {
                        if self@.contains(x) {
                            let k = choose|k: int| 0 <= k < self@.len() && self@[k] == x;
                            if k < i {
                                assert(o[k] == x);
                            } else {
                                assert(o[k + 1] == x);
                            }
                        }
                        if o.contains(x) && x != id {
                            let k = choose|k: int| 0 <= k < o.len() && o[k] == x;
                            if k < i {
                                assert(self@[k] == x);
                            } else {
                                assert(k != i);
                                assert(self@[k - 1] == x);
                            }
                        }
                    }
                    assert(self@.to_set() =~= o.to_set().remove(id));
                }
                true
            },
            None => {
                proof {
                    assert(self@.to_set() =~= old(self)@.to_set().remove(id));
                }
                false
            },
        }
    }

    /// The handles, in registration order: the recipients of one broadcast.
    pub fn recipients(&self) -> (r: Vec<u64>)
        ensures
            r@ == self@,
            r@.no_duplicates(),
    {
        proof {
            use_type_invariant(self);
        }
        self.ids.clone()
    }
}

} // verus!
