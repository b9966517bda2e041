//! A small map from text keys to values, kept as a list in which no key
//! occurs twice. Entries stay in the order in which their keys first came.

use vstd::prelude::*;
use vstd::string::*;

verus! {

/// A map from text keys to values.
pub struct StringMap<V> {
    entries: Vec<(String, V)>,
}

impl<V> StringMap<V> {
    #[verifier::type_invariant]
    pub closed spec fn inv(&self) -> bool {
        forall|i: int, j: int|
            0 <= i < j < self.entries@.len() ==> (#[trigger] self.entries@[i]).0@ != (
            #[trigger] self.entries@[j]).0@
    }

    /// Number of entries.
    pub closed spec fn spec_len(&self) -> nat {
        self.entries@.len()
    }

    /// The key of the entry at a position.
    pub closed spec fn spec_key_at(&self, i: int) -> Seq<char> {
        self.entries@[i].0@
    }

    /// The value of the entry at a position.
    pub closed spec fn spec_value_at(&self, i: int) -> V {
        self.entries@[i].1
    }

    /// Some entry has this key.
    pub closed spec fn has(&self, key: Seq<char>) -> bool {
        exists|i: int| 0 <= i < self.entries@.len() && (#[trigger] self.entries@[i]).0@ == key
    }

    /// The position of the entry with this key.
    pub closed spec fn position(&self, key: Seq<char>) -> int {
        choose|i: int| 0 <= i < self.entries@.len() && (#[trigger] self.entries@[i]).0@ == key
    }

    /// The map as a mathematical map.
    pub closed spec fn view(&self) -> Map<Seq<char>, V> {
        Map::new(|k: Seq<char>| self.has(k), |k: Seq<char>| self.entries@[self.position(k)].1)
    }

    /// Every position holds an entry of the map, and every entry of the map
    /// stands at exactly one position.
    pub proof fn lemma_positions(&self)
        requires
            self.inv(),
        ensures
            forall|i: int|
                0 <= i < self.spec_len() ==> self@.contains_key(#[trigger] self.spec_key_at(i))
                    && self@[self.spec_key_at(i)] == self.spec_value_at(i),
            forall|k: Seq<char>| #[trigger]
                self@.contains_key(k) ==> 0 <= self.position(k) < self.spec_len()
                    && self.spec_key_at(self.position(k)) == k,
            forall|i: int, j: int|
                0 <= i < self.spec_len() && 0 <= j < self.spec_len() && i != j
                    ==> #[trigger] self.spec_key_at(i) != #[trigger] self.spec_key_at(j),
    {
        assert forall|i: int| 0 <= i < self.spec_len() implies self@.contains_key(
            #[trigger] self.spec_key_at(i),
        ) && self@[self.spec_key_at(i)] == self.spec_value_at(i) by {
        }
    }

    /// An empty map.
    pub fn new() -> (m: Self)
        ensures
            m@ == Map::<Seq<char>, V>::empty(),
            m.spec_len() == 0,
    {
        let m = StringMap { entries: Vec::new() };
        m
    }

    /// Number of entries.
    pub fn len(&self) -> (n: usize)
        ensures
            n == self.spec_len(),
    {
        self.entries.len()
    }

    /// The key at a position.
    pub fn key_at(&self, i: usize) -> (key: &String)
        requires
            i < self.spec_len(),
        ensures
            key@ == self.spec_key_at(i as int),
            self@.contains_key(key@),
    {
        proof {
            use_type_invariant(self);
            self.lemma_positions();
        }
        &self.entries[i].0
    }

    /// The value at a position.
    pub fn value_at(&self, i: usize) -> (value: &V)
        requires
            i < self.spec_len(),
        ensures
            *value == self.spec_value_at(i as int),
            *value == self@[self.spec_key_at(i as int)],
    {
        proof {
            use_type_invariant(self);
            self.lemma_positions();
        }
        &self.entries[i].1
    }

    fn find(&self, key: &str) -> (at: Option<usize>)
        ensures
            match at {
                Some(i) => i < self.entries@.len() && self.entries@[i as int].0@ == key@,
                None => !self.has(key@),
            },
    {
        let wanted = key.to_owned();
        let mut i: usize = 0;
        while i < self.entries.len()
            invariant
                i <= self.entries@.len(),
                wanted@ == key@,
                forall|k: int| 0 <= k < i ==> (#[trigger] self.entries@[k]).0@ != key@,
            decreases self.entries@.len() - i,
        {
            if self.entries[i].0 == wanted {
                return Some(i);
            }
            i = i + 1;
        }
        None
    }

    /// Whether the map has an entry for a key.
    pub fn contains_key(&self, key: &str) -> (found: bool)
        ensures
            found == self@.contains_key(key@),
    {
        let at = self.find(key);
        at.is_some()
    }

    /// The value for a key, where the map has one.
    pub fn get(&self, key: &str) -> (value: Option<&V>)
        ensures
            match value {
                Some(v) => self@.contains_key(key@) && self@[key@] == *v,
                None => !self@.contains_key(key@),
            },
    {
        match self.find(key) {
            Some(i) => {
                proof {
                    use_type_invariant(self);
                    self.lemma_positions();
                }
                Some(&self.entries[i].1)
            },
            None => None,
        }
    }

    /// Sets the value for a key, in place where the key is there already,
    /// at the end where it is new.
    pub fn insert(&mut self, key: &str, value: V)
        ensures
            final(self)@ == old(self)@.insert(key@, value),
            old(self)@.contains_key(key@) ==> final(self).spec_len() == old(self).spec_len(),
            !old(self)@.contains_key(key@) ==> final(self).spec_len() == old(self).spec_len() + 1,
            forall|i: int|
                0 <= i < old(self).spec_len() ==> final(self).spec_key_at(i) == old(self).spec_key_at(i),
            !old(self)@.contains_key(key@) ==> final(self).spec_key_at(
                old(self).spec_len() as int,
            ) == key@,
    {
        proof {
            use_type_invariant(&*self);
            self.lemma_positions();
        }
        let ghost before = *self;
        let at = self.find(key);
        let mut entries: Vec<(String, V)> = Vec::new();
        core::mem::swap(&mut entries, &mut self.entries);
        match at {
            Some(i) => {
                entries.set(i, (key.to_owned(), value));
            },
            None => {
                entries.push((key.to_owned(), value));
            },
        }
        self.entries = entries;
        proof {
            self.lemma_positions();
            let target = before@.insert(key@, value);
            assert forall|k: Seq<char>| self@.contains_key(k) <==> target.contains_key(k) by {
                if target.contains_key(k) {
                    if k == key@ {
                        match at {
                            Some(i) => {
                                assert(self.entries@[i as int].0@ == k);
                            },
                            None => {
                                assert(self.entries@[before.entries@.len() as int].0@ == k);
                            },
                        }
                    } else {
                        let p = before.position(k);
                        assert(self.entries@[p].0@ == k);
                    }
                }
            }
            assert forall|k: Seq<char>| self@.contains_key(k) implies self@[k] == target[k] by {
            }
        }
    }

    /// Takes the entry for a key away, where there is one.
    pub fn remove(&mut self, key: &str)
        ensures
            final(self)@ == old(self)@.remove(key@),
    {
        proof {
            use_type_invariant(&*self);
            self.lemma_positions();
        }
        let ghost before = *self;
        let at = self.find(key);
        match at {
            Some(i) => {
                let mut entries: Vec<(String, V)> = Vec::new();
                core::mem::swap(&mut entries, &mut self.entries);
                let _gone = entries.remove(i);
                proof {
                    assert forall|a: int, b: int| 0 <= a < b < entries@.len() implies (
                    #[trigger] entries@[a]).0@ != (#[trigger] entries@[b]).0@ by {
                    }
                }
                self.entries = entries;
                proof {
                    self.lemma_positions();
                    let target = before@.remove(key@);
                    assert forall|k: Seq<char>| self@.contains_key(k) <==> target.contains_key(
                        k,
                    ) by {
                        if target.contains_key(k) {
                            let p0 = before.position(k);
                            let p = if p0 < i { p0 } else { p0 - 1 };
                            assert(self.entries@[p] == before.entries@[p0]);
                        }
                    }
                    assert forall|k: Seq<char>| self@.contains_key(k) implies self@[k]
                        == target[k] by {
                    }
                }
            },
            None => {
            },
        }
    }

    /// Takes every entry away.
    pub fn clear(&mut self)
        ensures
            final(self)@ == Map::<Seq<char>, V>::empty(),
            final(self).spec_len() == 0,
    {
        self.entries = Vec::new();
    }
}


/// A time is kept by a bound: it is above the bound, or at the bound
/// where the bound counts in.
pub open spec fn time_kept(time: i64, bound: int, inclusive: bool) -> bool {
    if inclusive {
        time >= bound
    } else {
        time > bound
    }
}

/// The entries of a map of times that a bound keeps.
pub open spec fn times_kept(times: Map<Seq<char>, i64>, bound: int, inclusive: bool) -> Map<
    Seq<char>,
    i64,
> {
    Map::new(
        |k: Seq<char>| times.contains_key(k) && time_kept(times[k], bound, inclusive),
        |k: Seq<char>| times[k],
    )
}

impl StringMap<i64> {
    /// Takes away every entry whose time a bound does not keep.
    pub fn retain_times(&mut self, bound: i128, inclusive: bool)
        ensures
            final(self)@ == times_kept(old(self)@, bound as int, inclusive),
    {
        proof {
            use_type_invariant(&*self);
            self.lemma_positions();
        }
        let ghost before = *self;
        let mut entries: Vec<(String, i64)> = Vec::new();
        core::mem::swap(&mut entries, &mut self.entries);
        let mut kept: Vec<(String, i64)> = Vec::new();
        let ghost mut origin: Seq<int> = Seq::empty();
        let mut i: usize = 0;
        while i < entries.len()
            invariant
                i <= entries@.len(),
                entries@ == before.entries@,
                origin.len() == kept@.len(),
                forall|j: int|
                    0 <= j < kept@.len() ==> 0 <= #[trigger] origin[j] < i && kept@[j].0@
                        == entries@[origin[j]].0@ && kept@[j].1 == entries@[origin[j]].1
                        && time_kept(kept@[j].1, bound as int, inclusive),
                forall|a: int, b: int|
                    0 <= a < b < kept@.len() ==> #[trigger] origin[a] < #[trigger] origin[b],
                forall|k: int|
                    0 <= k < i && time_kept(
                        (#[trigger] entries@[k]).1,
                        bound as int,
                        inclusive,
                    ) ==> exists|j: int| 0 <= j < kept@.len() && #[trigger] origin[j] == k,
            decreases entries@.len() - i,
        {
            let time: i64 = entries[i].1;
            let keep = if inclusive {
                (time as i128) >= bound
            } else {
                (time as i128) > bound
            };
            if keep {
                let ghost earlier = origin;
                let ghost earlier_kept = kept@;
                kept.push((entries[i].0.clone(), time));
                proof {
                    origin = origin.push(i as int);
                    assert forall|k: int|
                        0 <= k < i + 1 && time_kept(
                            (#[trigger] entries@[k]).1,
                            bound as int,
                            inclusive,
                        ) implies exists|j: int| 0 <= j < kept@.len() && #[trigger] origin[j]
                        == k by {
                        if k == i {
                            assert(origin[earlier.len() as int] == k);
                        } else {
                            let w = choose|j: int|
                                0 <= j < earlier_kept.len() && #[trigger] earlier[j] == k;
                            assert(origin[w] == k);
                        }
                    }
                }
            }
            i = i + 1;
        }
        proof {
            assert forall|a: int, b: int| 0 <= a < b < kept@.len() implies (
            #[trigger] kept@[a]).0@ != (#[trigger] kept@[b]).0@ by {
                assert(origin[a] < origin[b]);
            }
        }
        self.entries = kept;
        proof {
            self.lemma_positions();
            let target = times_kept(before@, bound as int, inclusive);
            assert forall|k: Seq<char>| self@.contains_key(k) <==> target.contains_key(k) by {
                if self.has(k) {
                    let p = self.position(k);
                    let o = origin[p];
                }
            }
            assert forall|k: Seq<char>| self@.contains_key(k) implies self@[k] == target[k] by {
                let p = self.position(k);
                let o = origin[p];
            }
        }
    }
}


/// Every item of a list stands before every later one.
pub open spec fn in_order<T>(list: Seq<T>, before: spec_fn(T, T) -> bool) -> bool {
    forall|a: int, b: int| 0 <= a < b < list.len() ==> before(#[trigger] list[a], #[trigger] list[b])
}

/// A list in order stays in order where an item is put in behind all that
/// stand before it and in front of all that stand behind it. The list
/// then holds that item and what it held before, and nothing else.
pub proof fn lemma_insert_in_order<T>(list: Seq<T>, item: T, at: int, before: spec_fn(T, T) -> bool)
    requires
        0 <= at <= list.len(),
        in_order(list, before),
        forall|j: int| 0 <= j < at ==> before(#[trigger] list[j], item),
        forall|j: int| at <= j < list.len() ==> before(item, #[trigger] list[j]),
    ensures
        in_order(list.insert(at, item), before),
        list.insert(at, item).contains(item),
        forall|x: T| list.contains(x) ==> #[trigger] list.insert(at, item).contains(x),
        forall|j: int|
            0 <= j < list.insert(at, item).len() ==> (#[trigger] list.insert(at, item)[j]) == item
                || list.contains(list.insert(at, item)[j]),
{
    let after = list.insert(at, item);
    assert(after[at] == item);
    assert forall|a: int, b: int| 0 <= a < b < after.len() implies before(
        #[trigger] after[a],
        #[trigger] after[b],
    ) by {
    }
    assert forall|x: T| list.contains(x) implies #[trigger] after.contains(x) by {
        let w = choose|j: int| 0 <= j < list.len() && list[j] == x;
        if w < at {
            assert(after[w] == x);
        } else {
            assert(after[w + 1] == x);
        }
    }
}

} // verus!
