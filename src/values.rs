use vstd::prelude::*;

verus! {

/// The broadcast values a node has learned. Values are kept once each, in the
/// order they were first seen; the set only ever grows.
pub struct ValueSet {
    values: Vec<i64>,
}

impl View for ValueSet {
    type V = Set<i64>;

    closed spec fn view(&self) -> Set<i64> {
        self.values@.to_set()
    }
}

/// Appending a value to a sequence adds it to the sequence's set.
proof fn lemma_push_to_set(s: Seq<i64>, v: i64)
    ensures
        s.push(v).to_set() == s.to_set().insert(v),
{
    let t = s.push(v);
    assert(t[s.len() as int] == v);
    assert forall|x: i64| s.contains(x) implies t.contains(x) by {
        let k = choose|k: int| 0 <= k < s.len() && s[k] == x;
        assert(t[k] == x);
    };
    assert forall|x: i64| t.contains(x) && x != v implies s.contains(x) by {
        let k = choose|k: int| 0 <= k < t.len() && t[k] == x;
        assert(s[k] == x);
    };
    assert(t.to_set() =~= s.to_set().insert(v));
}

impl ValueSet {
    /// Each value is stored at most once.
    pub closed spec fn wf(&self) -> bool {
        self.values@.no_duplicates()
    }

    pub fn new() -> (r: ValueSet)
        ensures
            r.wf(),
            r@ == Set::<i64>::empty(),
    {
        let r = ValueSet { values: Vec::new() };
        assert(r@ =~= Set::<i64>::empty());
        r
    }

    pub fn contains(&self, v: i64) -> (r: bool)
        ensures
            r == self@.contains(v),
    {
        let mut i: usize = 0;
        while i < self.values.len()
            invariant
                i <= self.values@.len(),
                forall|j: int| 0 <= j < i ==> self.values@[j] != v,
            decreases self.values@.len() - i,
        {
            if self.values[i] == v {
                assert(self.values@.to_set().contains(v)) by {
                    assert(self.values@.contains(v));
                };
                return true;
            }
            i = i + 1;
        }
        assert(!self.values@.contains(v));
        false
    }

    /// Adds `v`; returns whether it was new.
    pub fn insert(&mut self, v: i64) -> (r: bool)
        requires
            old(self).wf(),
        ensures
            final(self).wf(),
            final(self)@ == old(self)@.insert(v),
            r == !old(self)@.contains(v),
    {
        if self.contains(v) {
            assert(self@.insert(v) =~= self@);
            false
        } else {
            proof {
                assert(!self.values@.contains(v));
            }
            let ghost before = self.values@;
            self.values.push(v);
            proof {
                assert(self.values@ == before.push(v));
                lemma_push_to_set(before, v);
                assert(self.values@.no_duplicates()) by {
                    assert forall|a: int, b: int|
                        0 <= a < self.values@.len() && 0 <= b < self.values@.len() && a != b
                        implies self.values@[a] != self.values@[b] by {
                        if a == before.len() as int {
                            assert(before.contains(self.values@[b]));
                        } else if b == before.len() as int {
                            assert(before.contains(self.values@[a]));
                        }
                    };
                };
            }
            true
        }
    }

    /// Adds every value of `vs`.
    pub fn insert_all(&mut self, vs: &Vec<i64>)
        requires
            old(self).wf(),
        ensures
            final(self).wf(),
            final(self)@ == old(self)@.union(vs@.to_set()),
    {
        let ghost start = self@;
        let mut i: usize = 0;
        while i < vs.len()
            invariant
                i <= vs@.len(),
                self.wf(),
                self@ == start.union(vs@.subrange(0, i as int).to_set()),
            decreases vs@.len() - i,
        {
            let ghost prev = self@;
            self.insert(vs[i]);
            proof {
                assert(vs@.subrange(0, i + 1) == vs@.subrange(0, i as int).push(vs@[i as int]));
                let pre = vs@.subrange(0, i as int);
                let post = vs@.subrange(0, i + 1);
                lemma_push_to_set(pre, vs@[i as int]);
                assert(self@ =~= start.union(post.to_set()));
            }
            i = i + 1;
        }
        assert(vs@.subrange(0, vs@.len() as int) == vs@);
    }

    /// A snapshot of the values, each once.
    pub fn to_vec(&self) -> (r: Vec<i64>)
        requires
            self.wf(),
        ensures
            r@.to_set() == self@,
            r@.no_duplicates(),
    {
        self.values.clone()
    }
}

} // verus!
