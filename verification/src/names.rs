//! A map from names to values that remembers the order in which the names came in.

use vstd::prelude::*;

use crate::text::same_text;

verus! {

/// No name occurs twice.
pub open spec fn distinct_names<K, V>(e: Seq<(K, V)>) -> bool {
    forall|i: int, j: int| 0 <= i < j < e.len() ==> (#[trigger] e[i]).0 != (#[trigger] e[j]).0
}

/// `e` holds a value for the name `k`.
pub open spec fn has_name<K, V>(e: Seq<(K, V)>, k: K) -> bool {
    exists|i: int| 0 <= i < e.len() && (#[trigger] e[i]).0 == k
}

/// The position of the name `k` in `e`.
pub open spec fn position<K, V>(e: Seq<(K, V)>, k: K) -> int {
    choose|i: int| 0 <= i < e.len() && (#[trigger] e[i]).0 == k
}

/// The map that `e` lists.
pub open spec fn as_map<K, V>(e: Seq<(K, V)>) -> Map<K, V> {
    Map::new(|k: K| has_name(e, k), |k: K| e[position(e, k)].1)
}

/// `e` after the name `k` was given the value `v`: in its place, or at the end if it is new.
pub open spec fn with_entry<K, V>(e: Seq<(K, V)>, k: K, v: V) -> Seq<(K, V)> {
    if has_name(e, k) {
        e.update(position(e, k), (k, v))
    } else {
        e.push((k, v))
    }
}

/// Giving a name a value changes the map at that name only, and keeps the names distinct.
pub proof fn lemma_with_entry<K, V>(e: Seq<(K, V)>, k: K, v: V)
    requires
        distinct_names(e),
    ensures
        distinct_names(with_entry(e, k, v)),
        as_map(with_entry(e, k, v)) == as_map(e).insert(k, v),
        e.len() <= with_entry(e, k, v).len() <= e.len() + 1,
{
    let f = with_entry(e, k, v);
    let p = position(e, k);
    assert(f[if has_name(e, k) { p } else { e.len() as int }].0 == k);
    assert forall|x: K| has_name(f, x) <==> has_name(e, x) || x == k by {
        if has_name(e, x) {
            let i = position(e, x);
            assert(f[i].0 == x);
        }
        if has_name(f, x) {
            let i = position(f, x);
            if i < e.len() {
                assert(e[i].0 == f[i].0);
            }
        }
    }
    assert forall|x: K| has_name(f, x) implies f[position(f, x)].1 == (if x == k {
        v
    } else {
        e[position(e, x)].1
    }) by {
        let i = position(f, x);
        if x != k {
            let j = position(e, x);
            assert(e[j].0 == x && f[j].0 == x);
            assert(i == j);
        }
    }
    assert(as_map(f) =~= as_map(e).insert(k, v));
}

/// The position of a name in a list without repetition is the only one that holds it.
pub proof fn lemma_position<K, V>(e: Seq<(K, V)>, i: int)
    requires
        distinct_names(e),
        0 <= i < e.len(),
    ensures
        has_name(e, e[i].0),
        position(e, e[i].0) == i,
        as_map(e).dom().contains(e[i].0),
        as_map(e)[e[i].0] == e[i].1,
{
    let p = position(e, e[i].0);
    assert(e[p].0 == e[i].0);
}

/// A list of distinct names that all occur in another list is no longer than that list.
pub proof fn lemma_names_fit<K, V, W>(a: Seq<(K, V)>, b: Seq<(K, W)>)
    requires
        distinct_names(a),
        forall|i: int| 0 <= i < a.len() ==> has_name(b, (#[trigger] a[i]).0),
    ensures
        a.len() <= b.len(),
    decreases a.len(),
{
    if a.len() > 0 {
        let k = a.last().0;
        assert(has_name(b, a[a.len() - 1].0));
        let p = position(b, k);
        let rest = b.remove(p);
        let front = a.drop_last();
        assert forall|i: int| 0 <= i < front.len() implies has_name(rest, (#[trigger] front[i]).0) by {
            assert(front[i] == a[i]);
            assert(a[i].0 != a[a.len() - 1].0);
            assert(has_name(b, a[i].0));
            let q = position(b, a[i].0);
            if q < p {
                assert(rest[q].0 == a[i].0);
            } else {
                assert(rest[q - 1].0 == a[i].0);
            }
        }
        assert forall|i: int, j: int| 0 <= i < j < front.len() implies (#[trigger] front[i]).0 != (
        #[trigger] front[j]).0 by {
            assert(front[i] == a[i] && front[j] == a[j]);
        }
        lemma_names_fit(front, rest);
    }
}

/// If all names of one list occur in another of the same length, both hold the same names.
pub proof fn lemma_same_names<K, V, W>(a: Seq<(K, V)>, b: Seq<(K, W)>, k: K)
    requires
        distinct_names(a),
        a.len() == b.len(),
        forall|i: int| 0 <= i < a.len() ==> has_name(b, (#[trigger] a[i]).0),
        has_name(b, k),
    ensures
        has_name(a, k),
{
    if !has_name(a, k) {
        let v = arbitrary::<V>();
        let more = a.push((k, v));
        assert forall|i: int, j: int| 0 <= i < j < more.len() implies (#[trigger] more[i]).0 != (
        #[trigger] more[j]).0 by {
            assert(more[i] == a[i]);
            if j < a.len() {
                assert(more[j] == a[j]);
            }
        }
        assert forall|i: int| 0 <= i < more.len() implies has_name(b, (#[trigger] more[i]).0) by {
            if i < a.len() {
                assert(more[i] == a[i]);
            }
        }
        lemma_names_fit(more, b);
    }
}

/// A map from names to values, in the order in which the names were first given.
#[derive(Debug)]
pub struct NameMap<V> {
    list: Vec<(String, V)>,
}

impl<V> NameMap<V> {
    /// The names with their values, in order.
    pub closed spec fn entries(self) -> Seq<(Seq<char>, V)> {
        self.list@.map_values(|p: (String, V)| (p.0@, p.1))
    }

    #[verifier::type_invariant]
    spec fn names_are_distinct(self) -> bool {
        distinct_names(self.entries())
    }

    /// The empty map.
    pub fn new() -> (r: Self)
        ensures
            r.entries() == Seq::<(Seq<char>, V)>::empty(),
            r@ == Map::<Seq<char>, V>::empty(),
    {
        let list: Vec<(String, V)> = Vec::new();
        assert(list@.map_values(|p: (String, V)| (p.0@, p.1)) =~= Seq::empty());
        let r = NameMap { list };
        assert(r@ =~= Map::empty());
        r
    }

    /// The number of names.
    pub fn len(&self) -> (r: usize)
        ensures
            r == self.entries().len(),
            distinct_names(self.entries()),
    {
        proof {
            use_type_invariant(self);
        }
        self.list.len()
    }

    /// Whether no name has a value.
    pub fn is_empty(&self) -> (r: bool)
        ensures
            r == (self.entries().len() == 0),
    {
        self.list.len() == 0
    }

    /// The name at position `i`.
    pub fn name_at(&self, i: usize) -> (r: &String)
        requires
            i < self.entries().len(),
        ensures
            r@ == self.entries()[i as int].0,
    {
        &self.list[i].0
    }

    /// The value at position `i`.
    pub fn value_at(&self, i: usize) -> (r: &V)
        requires
            i < self.entries().len(),
        ensures
            *r == self.entries()[i as int].1,
    {
        &self.list[i].1
    }

    /// The position of `name`.
    pub fn find(&self, name: &str) -> (r: Option<usize>)
        ensures
            r is Some <==> has_name(self.entries(), name@),
            r matches Some(i) ==> i < self.entries().len() && i == position(self.entries(), name@)
                && self.entries()[i as int].0 == name@,
    {
        let mut i: usize = 0;
        while i < self.list.len()
            invariant
                i <= self.entries().len(),
                self.entries().len() == self.list@.len(),
                forall|j: int| 0 <= j < i ==> (#[trigger] self.entries()[j]).0 != name@,
            decreases self.list@.len() - i,
        {
            if same_text(self.list[i].0.as_str(), name) {
                proof {
                    use_type_invariant(self);
                    assert(self.entries()[i as int].0 == name@);
                    lemma_position(self.entries(), i as int);
                }
                return Some(i);
            }
            i += 1;
        }
        None
    }

    /// The value of `name`.
    pub fn get(&self, name: &str) -> (r: Option<&V>)
        ensures
            r is Some <==> self@.dom().contains(name@),
            r matches Some(v) ==> *v == self@[name@],
    {
        match self.find(name) {
            Some(i) => Some(&self.list[i].1),
            None => None,
        }
    }

    /// Whether `name` has a value.
    pub fn contains_key(&self, name: &str) -> (r: bool)
        ensures
            r == self@.dom().contains(name@),
    {
        self.find(name).is_some()
    }

    /// Gives `name` the value `value`.
    pub fn insert(&mut self, name: String, value: V)
        ensures
            final(self).entries() == with_entry(old(self).entries(), name@, value),
            final(self)@ == old(self)@.insert(name@, value),
    {
        proof {
            use_type_invariant(&*self);
            lemma_with_entry(self.entries(), name@, value);
        }
        let ghost before = self.entries();
        let at = self.find(name.as_str());
        let mut list: Vec<(String, V)> = Vec::new();
        assert(list@.map_values(|p: (String, V)| (p.0@, p.1)) =~= Seq::empty());
        std::mem::swap(&mut self.list, &mut list);
        let ghost moved = list@;
        match at {
            Some(i) => {
                list.set(i, (name, value));
            },
            None => {
                list.push((name, value));
            },
        }
        assert(list@.map_values(|p: (String, V)| (p.0@, p.1)) =~= with_entry(
            before,
            name@,
            value,
        ));
        self.list = list;
    }

    /// Takes every value away.
    pub fn clear(&mut self)
        ensures
            final(self).entries() == Seq::<(Seq<char>, V)>::empty(),
            final(self)@ == Map::<Seq<char>, V>::empty(),
    {
        let list: Vec<(String, V)> = Vec::new();
        assert(list@.map_values(|p: (String, V)| (p.0@, p.1)) =~= Seq::empty());
        self.list = list;
        assert(self@ =~= Map::empty());
    }
}

impl<V> View for NameMap<V> {
    type V = Map<Seq<char>, V>;

    open spec fn view(&self) -> Map<Seq<char>, V> {
        as_map(self.entries())
    }
}

} // verus!
