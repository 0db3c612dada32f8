//! How often a run went from one step to another.

use vstd::prelude::*;
use vstd::seq_lib::{to_multiset_contains, to_multiset_insert};

use crate::names::{as_map, distinct_names, has_name, lemma_position, lemma_with_entry, position, with_entry};
use crate::text::same_text;

verus! {

/// An edge: the names of the step that was left and of the step that was entered.
pub type Edge = (Seq<char>, Seq<char>);

/// One counted edge, as an entry of a table.
pub open spec fn edge_entry(e: (String, String, usize)) -> (Edge, usize) {
    ((e.0@, e.1@), e.2)
}

/// The table in descending order of its counts.
pub open spec fn descending(t: Seq<(String, String, usize)>) -> bool {
    forall|i: int, j: int| 0 <= i < j < t.len() ==> (#[trigger] t[i]).2 >= (#[trigger] t[j]).2
}

/// The table lists exactly the edges of `m`, each of them once and with its count.
pub open spec fn lists(t: Seq<(String, String, usize)>, m: Map<Edge, usize>) -> bool {
    &&& t.len() == m.dom().len()
    &&& forall|i: int|
        0 <= i < t.len() ==> m.dom().contains(edge_entry(#[trigger] t[i]).0) && m[edge_entry(
            t[i],
        ).0] == t[i].2
    &&& forall|i: int, j: int|
        0 <= i < j < t.len() ==> edge_entry(#[trigger] t[i]).0 != edge_entry(#[trigger] t[j]).0
    &&& forall|e: Edge| #[trigger]
        m.dom().contains(e) ==> exists|i: int|
            0 <= i < t.len() && edge_entry(#[trigger] t[i]).0 == e
}

/// A table with the entries of a table of distinct edges lists the edges of that table.
proof fn lemma_lists(t: Seq<(String, String, usize)>, kept: Seq<(String, String, usize)>)
    requires
        t.to_multiset() == kept.to_multiset(),
        distinct_names(kept.map_values(|e: (String, String, usize)| edge_entry(e))),
    ensures
        lists(t, as_map(kept.map_values(|e: (String, String, usize)| edge_entry(e)))),
{
    let entries = kept.map_values(|e: (String, String, usize)| edge_entry(e));
    let m = as_map(entries);
    assert(kept.no_duplicates()) by {
        assert forall|i: int, j: int|
            0 <= i < kept.len() && 0 <= j < kept.len() && i != j implies kept[i] != kept[j] by {
            assert(entries[i].0 != entries[j].0);
        }
    }
    kept.lemma_multiset_has_no_duplicates();
    t.lemma_multiset_has_no_duplicates_conv();
    assert forall|i: int| 0 <= i < t.len() implies kept.contains(#[trigger] t[i]) by {
        assert(t.contains(t[i]));
        to_multiset_contains(t, t[i]);
        to_multiset_contains(kept, t[i]);
    }
    assert forall|i: int| 0 <= i < t.len() implies m.dom().contains(edge_entry(#[trigger] t[i]).0)
        && m[edge_entry(t[i]).0] == t[i].2 by {
        let p = choose|p: int| 0 <= p < kept.len() && kept[p] == t[i];
        assert(entries[p].0 == edge_entry(t[i]).0);
        lemma_position(entries, p);
    }
    assert forall|i: int, j: int| 0 <= i < j < t.len() implies edge_entry(#[trigger] t[i]).0
        != edge_entry(#[trigger] t[j]).0 by {
        let p = choose|p: int| 0 <= p < kept.len() && kept[p] == t[i];
        let q = choose|q: int| 0 <= q < kept.len() && kept[q] == t[j];
        if p != q {
            assert(entries[p].0 != entries[q].0);
        }
    }
    assert forall|e: Edge| #[trigger] m.dom().contains(e) implies exists|i: int|
        0 <= i < t.len() && edge_entry(#[trigger] t[i]).0 == e by {
        let p = position(entries, e);
        assert(entries[p].0 == e);
        assert(kept.contains(kept[p]));
        to_multiset_contains(kept, kept[p]);
        to_multiset_contains(t, kept[p]);
        let i = choose|i: int| 0 <= i < t.len() && t[i] == kept[p];
        assert(edge_entry(t[i]).0 == e);
    }
    let names = t.map_values(|e: (String, String, usize)| edge_entry(e).0);
    assert(names.no_duplicates()) by {
        assert forall|i: int, j: int|
            0 <= i < names.len() && 0 <= j < names.len() && i != j implies names[i] != names[j] by {
            if i < j {
                assert(edge_entry(t[i]).0 != edge_entry(t[j]).0);
            } else {
                assert(edge_entry(t[j]).0 != edge_entry(t[i]).0);
            }
        }
    }
    names.unique_seq_to_set();
    assert(names.to_set() =~= m.dom()) by {
        assert forall|e: Edge| names.to_set().contains(e) <==> m.dom().contains(e) by {
            if m.dom().contains(e) {
                let i = choose|i: int| 0 <= i < t.len() && edge_entry(#[trigger] t[i]).0 == e;
                assert(names[i] == e);
            }
            if names.to_set().contains(e) {
                let i = choose|i: int| 0 <= i < names.len() && names[i] == e;
                assert(edge_entry(t[i]).0 == e);
            }
        }
    }
}

/// The number of times that each edge was taken.
#[derive(Debug)]
pub struct EdgeCounts {
    list: Vec<(String, String, usize)>,
}

impl EdgeCounts {
    /// The counted edges as they are kept.
    pub closed spec fn table(self) -> Seq<(String, String, usize)> {
        self.list@
    }

    /// The counted edges with their counts.
    pub open spec fn entries(self) -> Seq<(Edge, usize)> {
        self.table().map_values(|e: (String, String, usize)| edge_entry(e))
    }

    #[verifier::type_invariant]
    spec fn edges_are_distinct(self) -> bool {
        distinct_names(self.entries())
    }

    /// How often `edge` was taken.
    pub open spec fn count_spec(self, edge: Edge) -> nat {
        if self@.dom().contains(edge) {
            self@[edge] as nat
        } else {
            0
        }
    }

    /// No edge was taken yet.
    pub fn new() -> (r: Self)
        ensures
            r@ == Map::<Edge, usize>::empty(),
            r.table() == Seq::<(String, String, usize)>::empty(),
    {
        let list: Vec<(String, String, usize)> = Vec::new();
        assert(list@.map_values(|e: (String, String, usize)| edge_entry(e)) =~= Seq::empty());
        let r = EdgeCounts { list };
        assert(r@ =~= Map::empty());
        r
    }

    /// The position of an edge.
    fn find(&self, from: &str, to: &str) -> (r: Option<usize>)
        ensures
            match r {
                Some(i) => {
                    &&& i < self.entries().len()
                    &&& has_name(self.entries(), (from@, to@))
                    &&& i == position(self.entries(), (from@, to@))
                    &&& self.entries()[i as int].0 == (from@, to@)
                },
                None => !has_name(self.entries(), (from@, to@)),
            },
    {
        let mut i: usize = 0;
        while i < self.list.len()
            invariant
                i <= self.entries().len(),
                self.entries().len() == self.list@.len(),
                forall|j: int| 0 <= j < i ==> (#[trigger] self.entries()[j]).0 != (from@, to@),
            decreases self.list@.len() - i,
        {
            if same_text(self.list[i].0.as_str(), from) && same_text(self.list[i].1.as_str(), to) {
                proof {
                    use_type_invariant(self);
                    assert(self.entries()[i as int].0 == (from@, to@));
                    lemma_position(self.entries(), i as int);
                }
                return Some(i);
            }
            assert(self.entries()[i as int].0 == (self.list@[i as int].0@, self.list@[i as int].1@));
            i += 1;
        }
        None
    }

    /// How often the edge was taken.
    pub fn count(&self, from: &str, to: &str) -> (r: usize)
        ensures
            r == self.count_spec((from@, to@)),
    {
        match self.find(from, to) {
            Some(i) => self.list[i].2,
            None => 0,
        }
    }

    /// Counts the edge once more and returns its new count.
    pub fn bump(&mut self, from: &str, to: &str) -> (r: usize)
        requires
            old(self).count_spec((from@, to@)) < usize::MAX,
        ensures
            r == old(self).count_spec((from@, to@)) + 1,
            final(self)@ == old(self)@.insert((from@, to@), r),
    {
        let at = self.find(from, to);
        let count: usize = self.count(from, to) + 1;
        proof {
            use_type_invariant(&*self);
            lemma_with_entry(self.entries(), (from@, to@), count);
        }
        let ghost before = self.entries();
        let mut list: Vec<(String, String, usize)> = Vec::new();
        assert(list@.map_values(|e: (String, String, usize)| edge_entry(e)) =~= Seq::empty());
        std::mem::swap(&mut self.list, &mut list);
        match at {
            Some(i) => {
                list.set(i, (from.to_owned(), to.to_owned(), count));
            },
            None => {
                list.push((from.to_owned(), to.to_owned(), count));
            },
        }
        assert(list@.map_values(|e: (String, String, usize)| edge_entry(e)) =~= with_entry(
            before,
            (from@, to@),
            count,
        ));
        self.list = list;
        count
    }

    /// Forgets all counts.
    pub fn clear(&mut self)
        ensures
            final(self)@ == Map::<Edge, usize>::empty(),
    {
        let list: Vec<(String, String, usize)> = Vec::new();
        assert(list@.map_values(|e: (String, String, usize)| edge_entry(e)) =~= Seq::empty());
        self.list = list;
        assert(self@ =~= Map::empty());
    }

    /// All counted edges, in descending order of their counts.
    pub fn by_count(&self) -> (r: Vec<(String, String, usize)>)
        ensures
            r@.to_multiset() == self.table().to_multiset(),
            descending(r@),
            lists(r@, self@),
    {
        let mut r: Vec<(String, String, usize)> = Vec::new();
        let mut k: usize = 0;
        assert(self.list@.take(0) =~= r@);
        while k < self.list.len()
            invariant
                k <= self.list@.len(),
                r@.to_multiset() == self.list@.take(k as int).to_multiset(),
                descending(r@),
                r@.len() == k,
            decreases self.list@.len() - k,
        {
            let entry = (self.list[k].0.clone(), self.list[k].1.clone(), self.list[k].2);
            let mut p: usize = r.len();
            while p > 0 && r[p - 1].2 < entry.2
                invariant
                    p <= r@.len(),
                    forall|i: int| p <= i < r@.len() ==> (#[trigger] r@[i]).2 < entry.2,
                decreases p,
            {
                p -= 1;
            }
            let ghost before = r@;
            proof {
                to_multiset_insert(before, p as int, entry);
                to_multiset_insert(self.list@.take(k as int), k as int, entry);
                assert(self.list@.take(k as int).insert(k as int, entry) =~= self.list@.take(k + 1));
            }
            r.insert(p, entry);
            proof {
                assert forall|i: int, j: int| 0 <= i < j < r@.len() implies (#[trigger] r@[i]).2
                    >= (#[trigger] r@[j]).2 by {
                    let i0 = if i < p { i } else { i - 1 };
                    let j0 = if j < p { j } else { j - 1 };
                    if i != p {
                        assert(r@[i] == before[i0]);
                    }
                    if j != p {
                        assert(r@[j] == before[j0]);
                    }
                    if j == p && i < p {
                        assert(before[i].2 >= before[p - 1].2);
                    }
                }
            }
            k += 1;
        }
        assert(self.list@.take(k as int) =~= self.list@);
        proof {
            use_type_invariant(self);
            lemma_lists(r@, self.list@);
        }
        r
    }
}

impl View for EdgeCounts {
    type V = Map<Edge, usize>;

    open spec fn view(&self) -> Map<Edge, usize> {
        as_map(self.entries())
    }
}

} // verus!
