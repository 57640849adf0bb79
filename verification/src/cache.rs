//! The instrumented-function cache of the instance facade.
//!
//! The facade wraps each exported function at most once and reuses the
//! wrapped callable thereafter: wrapping an already-wrapped callable is
//! forbidden, since it would double-count timing. The cache assigns each
//! export name one slot, lazily and monotonically — entries are never
//! invalidated while the facade lives — and the embedder keeps the
//! wrapped callables in a sequence parallel to these slots.

use vstd::prelude::*;

verus! {

/// No name occurs twice: the single invariant that makes a name's slot
/// unique.
pub open spec fn distinct_names(s: Seq<Seq<char>>) -> bool {
    forall|i: int, j: int| 0 <= i < j < s.len() ==> s[i] != s[j]
}

/// What caching a name does to the cached names: nothing when it is
/// already cached, else it takes the next slot.
pub open spec fn cache_after(s: Seq<Seq<char>>, name: Seq<char>) -> Seq<Seq<char>> {
    if s.contains(name) {
        s
    } else {
        s.push(name)
    }
}

/// The append-only map from export name to the slot of its wrapped
/// callable. Its view is the sequence of cached names, in slot order.
pub struct FuncCache {
    names: Vec<String>,
}

impl View for FuncCache {
    type V = Seq<Seq<char>>;

    closed spec fn view(&self) -> Seq<Seq<char>> {
        self.names@.map_values(|s: String| s@)
    }
}

impl FuncCache {
    /// Well-formedness: each cached name holds one slot.
    pub open spec fn wf(&self) -> bool {
        distinct_names(self@)
    }

    /// An empty cache: nothing is wrapped yet.
    pub fn new() -> (r: Self)
        ensures
            r@ == Seq::<Seq<char>>::empty(),
            r.wf(),
    {
        let r = FuncCache { names: Vec::new() };
        proof {
            assert(r@ =~= Seq::<Seq<char>>::empty());
        }
        r
    }

    /// The slot of an already-wrapped name, or `None` when the name was
    /// never cached.
    pub fn lookup(&self, name: &str) -> (r: Option<usize>)
        ensures
            match r {
                Some(i) => i < self@.len() && self@[i as int] == name@,
                None => !self@.contains(name@),
            },
    {
        let key: String = name.to_owned();
        let mut i: usize = 0;
        while i < self.names.len()
            invariant
                i <= self.names.len(),
                key@ == name@,
                forall|j: int| 0 <= j < i ==> self@[j] != name@,
            decreases self.names.len() - i,
        {
            if self.names[i] == key {
                return Some(i);
            }
            i = i + 1;
        }
        proof {
            assert(!self@.contains(name@));
        }
        None
    }

    /// The slot of `name`, wrapping it now if this is its first lookup:
    /// returns the slot and whether it is fresh. A fresh slot is the next
    /// one; a cached name keeps the slot it got when first wrapped, and
    /// the cache is unchanged.
    pub fn get_or_insert(&mut self, name: &str) -> (r: (usize, bool))
        requires
            old(self).wf(),
        ensures
            final(self).wf(),
            final(self)@ == cache_after(old(self)@, name@),
            final(self)@.contains(name@),
            (r.0 as int) < final(self)@.len() && final(self)@[r.0 as int] == name@,
            r.1 == !old(self)@.contains(name@),
            r.1 ==> final(self)@ == old(self)@.push(name@) && r.0 == old(self)@.len(),
            !r.1 ==> final(self)@ == old(self)@ && (r.0 as int) < old(self)@.len() && old(
                self,
            )@[r.0 as int] == name@,
    {
        match self.lookup(name) {
            Some(i) => (i, false),
            None => {
                let i: usize = self.names.len();
                self.names.push(name.to_owned());
                proof {
                    assert(self@ =~= old(self)@.push(name@));
                    assert(self@[old(self)@.len() as int] == name@);
                    assert forall|p: int, q: int| 0 <= p < q < self@.len() implies self@[p]
                        != self@[q] by {
                        if q == self@.len() - 1 {
                            assert(!old(self)@.contains(name@));
                            assert(old(self)@[p] == self@[p]);
                        }
                    }
                }
                (i, true)
            },
        }
    }

    /// How many exports are wrapped.
    pub fn len(&self) -> (n: usize)
        ensures
            n == self@.len(),
    {
        self.names.len()
    }
}

} // verus!
