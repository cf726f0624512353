//! A map from texts to values that is walked in the order of its keys.
use vstd::prelude::*;

use crate::text::{before_irreflexive, before_total, before_transitive, is_before, same};
#[allow(unused_imports)]
use crate::text::before;

verus! {

/// Whether the keys of an association list rise strictly.
pub open spec fn rising<V>(e: Seq<(String, V)>) -> bool {
    forall|i: int, j: int| 0 <= i < j < e.len() ==> before(#[trigger] e[i].0@, #[trigger] e[j].0@)
}

/// Whether `i` is the place of key `k`.
pub open spec fn is_place<V>(e: Seq<(String, V)>, k: Seq<char>, i: int) -> bool {
    0 <= i < e.len() && e[i].0@ == k
}

/// The place of a key in an association list.
pub open spec fn place<V>(e: Seq<(String, V)>, k: Seq<char>) -> int {
    choose|i: int| is_place(e, k, i)
}

/// The map that an association list holds.
pub open spec fn map_of<V>(e: Seq<(String, V)>) -> Map<Seq<char>, V> {
    Map::new(|k: Seq<char>| exists|i: int| is_place(e, k, i), |k: Seq<char>| e[place(e, k)].1)
}

/// In a list with rising keys a key has one place.
pub proof fn lemma_place<V>(e: Seq<(String, V)>, i: int)
    requires
        rising(e),
        0 <= i < e.len(),
    ensures
        place(e, e[i].0@) == i,
        map_of(e).contains_key(e[i].0@),
        map_of(e)[e[i].0@] == e[i].1,
{
    let k = e[i].0@;
    assert(is_place(e, k, i));
    let j = place(e, k);
    assert(is_place(e, k, j));
    before_irreflexive(k);
}

/// A map is its pairs: every pair is in it, and every key is that of one pair.
pub proof fn pairs_are_the_map<V>(m: StrMap<V>)
    requires
        rising(m.pairs()),
    ensures
        forall|i: int|
            0 <= i < m.pairs().len() ==> m@.contains_key((#[trigger] m.pairs()[i]).0@)
                && m@[m.pairs()[i].0@] == m.pairs()[i].1,
        forall|k: Seq<char>| #[trigger]
            m@.contains_key(k) ==> is_place(m.pairs(), k, place(m.pairs(), k)),
{
    let e = m.pairs();
    assert forall|i: int| 0 <= i < e.len() implies m@.contains_key((#[trigger] e[i]).0@)
        && m@[e[i].0@] == e[i].1 by {
        lemma_place(e, i);
    }
}

/// A map from texts to values. The keys are distinct and kept in order.
pub struct StrMap<V> {
    entries: Vec<(String, V)>,
}

impl<V> StrMap<V> {
    /// The pairs, in the order of their keys.
    pub closed spec fn pairs(self) -> Seq<(String, V)> {
        self.entries@
    }

    #[verifier::type_invariant]
    spec fn ordered(self) -> bool {
        rising(self.entries@)
    }

    /// The map itself.
    pub open spec fn view(self) -> Map<Seq<char>, V> {
        map_of(self.pairs())
    }

    /// An empty map.
    pub fn new() -> (r: Self)
        ensures
            r@ == Map::<Seq<char>, V>::empty(),
            r.pairs() == Seq::<(String, V)>::empty(),
    {
        let r = StrMap { entries: Vec::new() };
        assert forall|k: Seq<char>| !r@.contains_key(k) by {
            assert(forall|i: int| !is_place(r.pairs(), k, i));
        }
        assert(r@ =~= Map::<Seq<char>, V>::empty());
        r
    }

    /// How many keys there are.
    pub fn len(&self) -> (r: usize)
        ensures
            r == self.pairs().len(),
            rising(self.pairs()),
            (r == 0) == (self@ == Map::<Seq<char>, V>::empty()),
    {
        proof {
            use_type_invariant(self);
            if self.entries@.len() > 0 {
                lemma_place(self.entries@, 0);
            } else {
                assert forall|k: Seq<char>| !self@.contains_key(k) by {
                    assert(forall|i: int| !is_place(self.pairs(), k, i));
                }
                assert(self@ =~= Map::<Seq<char>, V>::empty());
            }
        }
        self.entries.len()
    }

    /// The pair at a place of the order. The keys before it are smaller, those
    /// behind it larger.
    pub fn at(&self, i: usize) -> (r: (&String, &V))
        requires
            i < self.pairs().len(),
        ensures
            *r.0 == self.pairs()[i as int].0,
            *r.1 == self.pairs()[i as int].1,
            self@.contains_key(r.0@),
            self@[r.0@] == *r.1,
            rising(self.pairs()),
    {
        proof {
            use_type_invariant(self);
            lemma_place(self.entries@, i as int);
        }
        let e = &self.entries[i];
        (&e.0, &e.1)
    }

    /// The first place whose key is not before `key`.
    fn lower_bound(&self, key: &str) -> (r: usize)
        ensures
            r <= self.entries@.len(),
            forall|i: int| 0 <= i < r ==> before(#[trigger] self.entries@[i].0@, key@),
            r < self.entries@.len() ==> !before(self.entries@[r as int].0@, key@),
    {
        let mut i: usize = 0;
        while i < self.entries.len() && is_before(self.entries[i].0.as_str(), key)
            invariant
                i <= self.entries@.len(),
                forall|k: int| 0 <= k < i ==> before(#[trigger] self.entries@[k].0@, key@),
            decreases self.entries@.len() - i,
        {
            i += 1;
        }
        i
    }

    /// The value of a key.
    pub fn get(&self, key: &str) -> (r: Option<&V>)
        ensures
            match r {
                Some(v) => self@.contains_key(key@) && self@[key@] == *v,
                None => !self@.contains_key(key@),
            },
    {
        let i = self.lower_bound(key);
        proof {
            use_type_invariant(self);
        }
        if i < self.entries.len() && same(self.entries[i].0.as_str(), key) {
            proof {
                lemma_place(self.entries@, i as int);
            }
            Some(&self.entries[i].1)
        } else {
            proof {
                lemma_absent(self.entries@, key@, i as int);
            }
            None
        }
    }

    /// Gives a key a value, in place of the one it had.
    pub fn insert(&mut self, key: String, value: V)
        ensures
            final(self)@ == old(self)@.insert(key@, value),
    {
        let i = self.lower_bound(key.as_str());
        proof {
            use_type_invariant(&*self);
        }
        let mut e: Vec<(String, V)> = Vec::new();
        std::mem::swap(&mut e, &mut self.entries);
        let ghost before_it = e@;
        if i < e.len() && same(e[i].0.as_str(), key.as_str()) {
            e.set(i, (key, value));
            proof {
                lemma_replace(before_it, i as int, e@[i as int]);
            }
        } else {
            e.insert(i, (key, value));
            proof {
                lemma_insert(before_it, i as int, e@[i as int]);
            }
        }
        self.entries = e;
    }

    /// Takes a key and its value out, where it is there.
    pub fn remove(&mut self, key: &str) -> (r: Option<V>)
        ensures
            final(self)@ == old(self)@.remove(key@),
            r == (if old(self)@.contains_key(key@) {
                Some(old(self)@[key@])
            } else {
                None
            }),
    {
        let i = self.lower_bound(key);
        proof {
            use_type_invariant(&*self);
        }
        let mut e: Vec<(String, V)> = Vec::new();
        std::mem::swap(&mut e, &mut self.entries);
        let ghost before_it = e@;
        let taken = if i < e.len() && same(e[i].0.as_str(), key) {
            proof {
                lemma_place(before_it, i as int);
                lemma_remove(before_it, i as int);
            }
            let x = e.remove(i);
            Some(x.1)
        } else {
            proof {
                lemma_absent(before_it, key@, i as int);
                assert(map_of(before_it).remove(key@) =~= map_of(before_it));
            }
            None
        };
        self.entries = e;
        taken
    }
}

/// A key that would stand at `i` and does not is nowhere.
proof fn lemma_absent<V>(e: Seq<(String, V)>, k: Seq<char>, i: int)
    requires
        rising(e),
        0 <= i <= e.len(),
        forall|j: int| 0 <= j < i ==> before(#[trigger] e[j].0@, k),
        i < e.len() ==> !before(e[i].0@, k) && e[i].0@ != k,
    ensures
        !map_of(e).contains_key(k),
{
    assert forall|j: int| !is_place(e, k, j) by {
        if 0 <= j < i {
            before_irreflexive(k);
        } else if i <= j < e.len() {
            if e[j].0@ == k && j > i {
                assert(before(e[i].0@, e[j].0@));
            }
        }
    }
}

/// A value that takes the place of another under the same key.
proof fn lemma_replace<V>(e: Seq<(String, V)>, i: int, x: (String, V))
    requires
        rising(e),
        0 <= i < e.len(),
        x.0@ == e[i].0@,
    ensures
        rising(e.update(i, x)),
        map_of(e.update(i, x)) == map_of(e).insert(x.0@, x.1),
{
    let f = e.update(i, x);
    assert forall|a: int, b: int| 0 <= a < b < f.len() implies before(
        #[trigger] f[a].0@,
        #[trigger] f[b].0@,
    ) by {
        assert(before(e[a].0@, e[b].0@));
    }
    lemma_place(f, i);
    assert forall|k: Seq<char>|
        map_of(f).contains_key(k) == map_of(e).insert(x.0@, x.1).contains_key(k) by {
        if map_of(f).contains_key(k) {
            let j = place(f, k);
            assert(is_place(f, k, j));
            assert(is_place(e, k, j));
        }
        if map_of(e).contains_key(k) {
            let j = place(e, k);
            assert(is_place(e, k, j));
            assert(is_place(f, k, j));
        }
        assert(is_place(f, x.0@, i));
    }
    assert forall|k: Seq<char>| map_of(f).contains_key(k) implies map_of(f)[k] == map_of(e).insert(
        x.0@,
        x.1,
    )[k] by {
        let j = place(f, k);
        assert(is_place(f, k, j));
        lemma_place(f, j);
        lemma_place(e, j);
        if k == x.0@ {
            assert(j == i);
        } else {
            assert(j != i);
        }
    }
    assert(map_of(f) =~= map_of(e).insert(x.0@, x.1));
}

/// A new key that goes to its place in the order.
proof fn lemma_insert<V>(e: Seq<(String, V)>, i: int, x: (String, V))
    requires
        rising(e),
        0 <= i <= e.len(),
        forall|j: int| 0 <= j < i ==> before(#[trigger] e[j].0@, x.0@),
        i < e.len() ==> !before(e[i].0@, x.0@) && e[i].0@ != x.0@,
    ensures
        rising(e.insert(i, x)),
        map_of(e.insert(i, x)) == map_of(e).insert(x.0@, x.1),
{
    let f = e.insert(i, x);
    lemma_absent(e, x.0@, i);
    assert forall|j: int| i <= j < e.len() implies before(x.0@, #[trigger] e[j].0@) by {
        before_total(x.0@, e[i].0@);
        if j > i {
            assert(before(e[i].0@, e[j].0@));
            before_transitive(x.0@, e[i].0@, e[j].0@);
        }
    }
    assert forall|a: int, b: int| 0 <= a < b < f.len() implies before(
        #[trigger] f[a].0@,
        #[trigger] f[b].0@,
    ) by {
        let a1 = if a < i {
            a
        } else {
            a - 1
        };
        let b1 = if b < i {
            b
        } else {
            b - 1
        };
        if a != i {
            assert(f[a] == e[a1]);
        }
        if b != i {
            assert(f[b] == e[b1]);
        }
        if a != i && b != i {
            assert(before(e[a1].0@, e[b1].0@));
        } else if a == i {
            assert(before(x.0@, e[b1].0@));
        } else {
            assert(before(e[a1].0@, x.0@));
        }
    }
    assert forall|k: Seq<char>|
        map_of(f).contains_key(k) == map_of(e).insert(x.0@, x.1).contains_key(k) by {
        if map_of(f).contains_key(k) && k != x.0@ {
            let j = place(f, k);
            assert(is_place(f, k, j));
            let j1 = if j < i {
                j
            } else {
                j - 1
            };
            assert(is_place(e, k, j1));
        }
        if map_of(e).contains_key(k) {
            let j = place(e, k);
            assert(is_place(e, k, j));
            let j1 = if j < i {
                j
            } else {
                j + 1
            };
            assert(is_place(f, k, j1));
        }
        assert(is_place(f, x.0@, i));
    }
    assert forall|k: Seq<char>| map_of(f).contains_key(k) implies map_of(f)[k] == map_of(e).insert(
        x.0@,
        x.1,
    )[k] by {
        let j = place(f, k);
        assert(is_place(f, k, j));
        lemma_place(f, j);
        if j != i {
            let j1 = if j < i {
                j
            } else {
                j - 1
            };
            assert(f[j] == e[j1]);
            lemma_place(e, j1);
            assert(k != x.0@);
        }
    }
    assert(map_of(f) =~= map_of(e).insert(x.0@, x.1));
}

/// A key that leaves.
proof fn lemma_remove<V>(e: Seq<(String, V)>, i: int)
    requires
        rising(e),
        0 <= i < e.len(),
    ensures
        rising(e.remove(i)),
        map_of(e.remove(i)) == map_of(e).remove(e[i].0@),
{
    let f = e.remove(i);
    assert forall|a: int, b: int| 0 <= a < b < f.len() implies before(
        #[trigger] f[a].0@,
        #[trigger] f[b].0@,
    ) by {
        let a1 = if a < i {
            a
        } else {
            a + 1
        };
        let b1 = if b < i {
            b
        } else {
            b + 1
        };
        assert(before(e[a1].0@, e[b1].0@));
    }
    let gone = e[i].0@;
    lemma_place(e, i);
    assert forall|k: Seq<char>|
        map_of(f).contains_key(k) == map_of(e).remove(gone).contains_key(k) by {
        if map_of(f).contains_key(k) {
            let j = place(f, k);
            assert(is_place(f, k, j));
            let j1 = if j < i {
                j
            } else {
                j + 1
            };
            assert(is_place(e, k, j1));
            lemma_place(e, j1);
        }
        if map_of(e).contains_key(k) && k != gone {
            let j = place(e, k);
            assert(is_place(e, k, j));
            let j1 = if j < i {
                j
            } else {
                j - 1
            };
            assert(is_place(f, k, j1));
        }
    }
    assert forall|k: Seq<char>| map_of(f).contains_key(k) implies map_of(f)[k] == map_of(e).remove(
        gone,
    )[k] by {
        let j = place(f, k);
        assert(is_place(f, k, j));
        lemma_place(f, j);
        let j1 = if j < i {
            j
        } else {
            j + 1
        };
        assert(f[j] == e[j1]);
        lemma_place(e, j1);
    }
    assert(map_of(f) =~= map_of(e).remove(gone));
}

} // verus!
