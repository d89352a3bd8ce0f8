//! A map from text to values that keeps the order in which keys first came.
use vstd::prelude::*;

use crate::text::str_eq;

verus! {

/// A map keyed by text. Each key occurs once, and the value of a key stands at
/// the key's place.
#[derive(Debug)]
pub struct StrMap<V> {
    names: Vec<String>,
    values: Vec<V>,
}

/// Whether `k` is one of the names.
spec fn has_name(names: Seq<String>, k: Seq<char>) -> bool {
    exists|i: int| 0 <= i < names.len() && (#[trigger] names[i])@ == k
}

/// The place of `k` among the names.
spec fn place_of(names: Seq<String>, k: Seq<char>) -> int {
    choose|i: int| 0 <= i < names.len() && (#[trigger] names[i])@ == k
}

spec fn distinct(names: Seq<String>) -> bool {
    forall|i: int, j: int|
        0 <= i < j < names.len() ==> (#[trigger] names[i])@ != (#[trigger] names[j])@
}

spec fn as_map<V>(names: Seq<String>, values: Seq<V>) -> Map<Seq<char>, V> {
    Map::new(|k: Seq<char>| has_name(names, k), |k: Seq<char>| values[place_of(names, k)])
}

impl<V> View for StrMap<V> {
    type V = Map<Seq<char>, V>;

    closed spec fn view(&self) -> Map<Seq<char>, V> {
        as_map(self.names@, self.values@)
    }
}

proof fn lemma_place(names: Seq<String>, i: int)
    requires
        distinct(names),
        0 <= i < names.len(),
    ensures
        has_name(names, names[i]@),
        place_of(names, names[i]@) == i,
{
    let k = names[i]@;
    assert(has_name(names, k));
    let j = place_of(names, k);
    assert(names[j]@ == k);
}

/// The set of the names has as many members as there are names.
proof fn lemma_name_count<V>(names: Seq<String>, values: Seq<V>)
    requires
        distinct(names),
    ensures
        as_map(names, values).dom().finite(),
        as_map(names, values).dom().len() == names.len(),
    decreases names.len(),
{
    let d = as_map(names, values).dom();
    if names.len() == 0 {
        assert(d =~= Set::empty());
    } else {
        let rest = names.drop_last();
        let last = names.last()@;
        lemma_name_count(rest, values);
        let dr = as_map(rest, values).dom();
        assert(!dr.contains(last));
        assert forall|k: Seq<char>| d.contains(k) == dr.insert(last).contains(k) by {
            if has_name(names, k) {
                let i = place_of(names, k);
                if i < rest.len() {
                    assert(rest[i]@ == k);
                }
            }
            if has_name(rest, k) {
                let i = place_of(rest, k);
                assert(names[i]@ == k);
            }
            assert(names[names.len() - 1]@ == last);
        }
        assert(d =~= dr.insert(last));
    }
}

impl<V> StrMap<V> {
    #[verifier::type_invariant]
    spec fn wf(self) -> bool {
        self.names@.len() == self.values@.len() && distinct(self.names@)
    }

    /// The keys in the order in which they first came.
    pub closed spec fn keys(self) -> Seq<Seq<char>> {
        self.names@.map_values(|n: String| n@)
    }

    /// A map without entries.
    pub fn new() -> (m: Self)
        ensures
            m@ == Map::<Seq<char>, V>::empty(),
            m.keys() == Seq::<Seq<char>>::empty(),
    {
        let m = StrMap { names: Vec::new(), values: Vec::new() };
        assert(m@ =~= Map::<Seq<char>, V>::empty());
        assert(m.keys() =~= Seq::<Seq<char>>::empty());
        m
    }

    fn find(&self, key: &str) -> (r: Option<usize>)
        ensures
            r is Some <==> has_name(self.names@, key@),
            r is Some ==> r->0 < self.names@.len() && self.names@[r->0 as int]@ == key@,
    {
        let mut i: usize = 0;
        while i < self.names.len()
            invariant
                i <= self.names@.len(),
                forall|j: int| 0 <= j < i ==> (#[trigger] self.names@[j])@ != key@,
            decreases self.names@.len() - i,
        {
            if str_eq(self.names[i].as_str(), key) {
                return Some(i);
            }
            i = i + 1;
        }
        None
    }

    /// How many entries the map has.
    pub fn len(&self) -> (n: usize)
        ensures
            n == self@.dom().len(),
            n == self.keys().len(),
            self@.dom().finite(),
            self.keys().no_duplicates(),
    {
        proof {
            use_type_invariant(self);
            lemma_name_count(self.names@, self.values@);
        }
        self.names.len()
    }

    /// Whether the map has an entry for `key`.
    pub fn contains_key(&self, key: &str) -> (b: bool)
        ensures
            b == self@.dom().contains(key@),
    {
        self.find(key).is_some()
    }

    /// The value of `key`, where there is one.
    pub fn get(&self, key: &str) -> (r: Option<&V>)
        ensures
            r is Some <==> self@.dom().contains(key@),
            r is Some ==> *r->0 == self@[key@],
    {
        proof {
            use_type_invariant(self);
        }
        match self.find(key) {
            Some(i) => {
                proof {
                    lemma_place(self.names@, i as int);
                }
                Some(&self.values[i])
            },
            None => None,
        }
    }

    /// The value of `key`, to be changed in place, where there is one.
    pub fn get_mut(&mut self, key: &str) -> (r: Option<&mut V>)
        ensures
            r is Some <==> old(self)@.dom().contains(key@),
            r is Some ==> *r->0 == old(self)@[key@],
            r is Some ==> final(self)@ == old(self)@.insert(key@, *final(r->0)),
            r is None ==> final(self)@ == old(self)@,
            final(self).keys() == old(self).keys(),
    {
        proof {
            use_type_invariant(&*self);
        }
        match self.find(key) {
            Some(i) => {
                proof {
                    lemma_place(self.names@, i as int);
                    let names = self.names@;
                    let values = self.values@;
                    assert forall|v: V|
                        as_map(names, #[trigger] values.update(i as int, v)) == as_map(
                            names,
                            values,
                        ).insert(key@, v) by {
                        assert(as_map(names, values.update(i as int, v)) =~= as_map(
                            names,
                            values,
                        ).insert(key@, v)) by {
                            assert forall|k: Seq<char>| has_name(names, k) && k != key@ implies place_of(names, k) != i by {
                                assert(names[place_of(names, k)]@ == k);
                            }
                        }
                    }
                }
                Some(&mut self.values[i])
            },
            None => None,
        }
    }

    /// Gives `key` the value `value`, and returns the one it had.
    pub fn insert(&mut self, key: String, value: V) -> (r: Option<V>)
        ensures
            final(self)@ == old(self)@.insert(key@, value),
            r is Some <==> old(self)@.dom().contains(key@),
            r is Some ==> r->0 == old(self)@[key@],
            final(self).keys() == if old(self)@.dom().contains(key@) {
                old(self).keys()
            } else {
                old(self).keys().push(key@)
            },
    {
        proof {
            use_type_invariant(&*self);
        }
        let ghost names0 = self.names@;
        let ghost values0 = self.values@;
        match self.find(key.as_str()) {
            Some(i) => {
                proof {
                    lemma_place(names0, i as int);
                    assert(as_map(names0, values0.update(i as int, value)) =~= as_map(
                        names0,
                        values0,
                    ).insert(key@, value)) by {
                        assert forall|k: Seq<char>| has_name(names0, k) && k != key@ implies place_of(names0, k) != i by {
                            assert(names0[place_of(names0, k)]@ == k);
                        }
                    }
                }
                let mut v = value;
                std::mem::swap(&mut self.values[i], &mut v);
                Some(v)
            },
            None => {
                let mut taken = StrMap::new();
                std::mem::swap(&mut taken, self);
                let StrMap { mut names, mut values } = taken;
                names.push(key);
                values.push(value);
                proof {
                    lemma_pushed(names0, values0, key, value);
                    assert(names@.map_values(|n: String| n@) =~= names0.map_values(|n: String| n@).push(key@));
                }
                *self = StrMap { names, values };
                None
            },
        }
    }

    /// Takes the entry of `key` out, and returns its value.
    pub fn remove(&mut self, key: &str) -> (r: Option<V>)
        ensures
            final(self)@ == old(self)@.remove(key@),
            r is Some <==> old(self)@.dom().contains(key@),
            r is Some ==> r->0 == old(self)@[key@],
            final(self).keys() == without(old(self).keys(), key@),
    {
        proof {
            use_type_invariant(&*self);
        }
        let ghost names0 = self.names@;
        let ghost values0 = self.values@;
        match self.find(key) {
            Some(i) => {
                let mut taken = StrMap::new();
                std::mem::swap(&mut taken, self);
                let StrMap { mut names, mut values } = taken;
                let _name = names.remove(i);
                let value = values.remove(i);
                proof {
                    lemma_removed(names0, values0, i as int);
                }
                *self = StrMap { names, values };
                Some(value)
            },
            None => {
                proof {
                    assert(self@ =~= self@.remove(key@));
                    lemma_filter_all(self.keys(), key@);
                }
                None
            },
        }
    }

    /// The key at place `i`.
    pub fn key_at(&self, i: usize) -> (k: &String)
        requires
            i < self.keys().len(),
        ensures
            k@ == self.keys()[i as int],
            self@.dom().contains(k@),
    {
        proof {
            use_type_invariant(self);
            lemma_place(self.names@, i as int);
        }
        &self.names[i]
    }

    /// The value of the key at place `i`.
    pub fn value_at(&self, i: usize) -> (v: &V)
        requires
            i < self.keys().len(),
        ensures
            self@.dom().contains(self.keys()[i as int]),
            *v == self@[self.keys()[i as int]],
    {
        proof {
            use_type_invariant(self);
            lemma_place(self.names@, i as int);
        }
        &self.values[i]
    }
}

impl<V: Clone> Clone for StrMap<V> {
    fn clone(&self) -> (r: Self)
        ensures
            r.keys() == self.keys(),
            r@.dom() == self@.dom(),
            forall|k: Seq<char>| #[trigger]
                self@.dom().contains(k) ==> cloned::<V>(self@[k], r@[k]),
    {
        proof {
            use_type_invariant(self);
        }
        let names = self.names.clone();
        let values = self.values.clone();
        assert(names@ =~= self.names@);
        let r = StrMap { names, values };
        assert(r@.dom() =~= self@.dom());
        assert forall|k: Seq<char>| #[trigger] self@.dom().contains(k) implies cloned::<V>(
            self@[k],
            r@[k],
        ) by {
            let i = place_of(self.names@, k);
            assert(self.names@[i]@ == k);
            assert(cloned::<V>(self.values[i], r.values[i]));
        }
        r
    }
}

/// The keys of a map are its domain.
pub proof fn lemma_keys<V>(m: StrMap<V>)
    ensures
        forall|i: int|
            0 <= i < m.keys().len() ==> #[trigger] m@.dom().contains(m.keys()[i]),
        forall|k: Seq<char>| #[trigger] m@.dom().contains(k) ==> m.keys().contains(k),
{
    assert forall|i: int| 0 <= i < m.keys().len() implies #[trigger] m@.dom().contains(m.keys()[i]) by {
        assert(m.names@[i]@ == m.keys()[i]);
    }
    assert forall|k: Seq<char>| #[trigger] m@.dom().contains(k) implies m.keys().contains(k) by {
        let i = place_of(m.names@, k);
        assert(m.names@[i]@ == k);
        assert(m.keys()[i] == k);
    }
}

/// `keys` without `key`, the others in order.
pub open spec fn without(keys: Seq<Seq<char>>, key: Seq<char>) -> Seq<Seq<char>> {
    keys.filter(|k: Seq<char>| k != key)
}

proof fn lemma_filter_all(s: Seq<Seq<char>>, key: Seq<char>)
    requires
        forall|i: int| 0 <= i < s.len() ==> #[trigger] s[i] != key,
    ensures
        without(s, key) == s,
    decreases s.len(),
{
    reveal(Seq::filter);
    let p = |k: Seq<char>| k != key;
    if s.len() > 0 {
        lemma_filter_all(s.drop_last(), key);
        assert(p(s.last()));
        assert(s.drop_last().push(s.last()) =~= s);
    }
}

proof fn lemma_filter_one(s: Seq<Seq<char>>, i: int)
    requires
        0 <= i < s.len(),
        forall|j: int| 0 <= j < s.len() && j != i ==> #[trigger] s[j] != s[i],
    ensures
        without(s, s[i]) == s.remove(i),
    decreases s.len(),
{
    reveal(Seq::filter);
    let key = s[i];
    let p = |k: Seq<char>| k != key;
    let head = s.drop_last();
    if i == s.len() - 1 {
        lemma_filter_all(head, key);
        assert(s.remove(i) =~= head);
    } else {
        lemma_filter_one(head, i);
        assert(p(s.last()));
        assert(head.remove(i).push(s.last()) =~= s.remove(i));
    }
}

proof fn lemma_pushed<V>(names: Seq<String>, values: Seq<V>, name: String, value: V)
    requires
        distinct(names),
        names.len() == values.len(),
        !has_name(names, name@),
    ensures
        distinct(names.push(name)),
        as_map(names.push(name), values.push(value)) == as_map(names, values).insert(name@, value),
{
    let n1 = names.push(name);
    let v1 = values.push(value);
    assert(distinct(n1));
    lemma_place(n1, names.len() as int);
    assert forall|k: Seq<char>| has_name(names, k) implies #[trigger] has_name(n1, k) && place_of(
        n1,
        k,
    ) == place_of(names, k) by {
        let i = place_of(names, k);
        assert(n1[i]@ == k);
        lemma_place(n1, i);
    }
    assert forall|k: Seq<char>| #[trigger] has_name(n1, k) && k != name@ implies has_name(names, k) by {
        let i = place_of(n1, k);
        assert(n1[i]@ == k);
        assert(names[i]@ == k);
    }
    assert(as_map(n1, v1) =~= as_map(names, values).insert(name@, value));
}

proof fn lemma_removed<V>(names: Seq<String>, values: Seq<V>, i: int)
    requires
        distinct(names),
        names.len() == values.len(),
        0 <= i < names.len(),
    ensures
        distinct(names.remove(i)),
        as_map(names, values).dom().contains(names[i]@),
        as_map(names, values)[names[i]@] == values[i],
        as_map(names.remove(i), values.remove(i)) == as_map(names, values).remove(names[i]@),
        names.remove(i).map_values(|n: String| n@) == without(
            names.map_values(|n: String| n@),
            names[i]@,
        ),
{
    let n1 = names.remove(i);
    let v1 = values.remove(i);
    let key = names[i]@;
    lemma_place(names, i);
    assert(distinct(n1));
    assert forall|k: Seq<char>| #[trigger] has_name(n1, k) implies k != key && has_name(names, k) && v1[place_of(
        n1,
        k,
    )] == values[place_of(names, k)] by {
        let j = place_of(n1, k);
        let j0 = if j < i { j } else { j + 1 };
        assert(names[j0]@ == k);
        lemma_place(names, j0);
    }
    assert forall|k: Seq<char>| #[trigger] has_name(names, k) && k != key implies has_name(n1, k) by {
        let j0 = place_of(names, k);
        let j = if j0 < i { j0 } else { j0 - 1 };
        assert(n1[j]@ == k);
    }
    assert(as_map(n1, v1) =~= as_map(names, values).remove(key));
    let ks = names.map_values(|n: String| n@);
    lemma_filter_one(ks, i);
    assert(ks[i] == key);
    assert(ks.remove(i) =~= n1.map_values(|n: String| n@));
}

} // verus!
