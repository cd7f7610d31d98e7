//! A map keyed by repository name that keeps its entries sorted by
//! name, so that every listing of it comes out in one stable order.
use vstd::prelude::*;
use crate::text::{lemma_seq_less_asymmetric, lemma_seq_less_irreflexive,
    lemma_seq_less_total, lemma_seq_less_transitive, seq_less, str_eq, str_less};

verus! {

/// Names in `s` strictly increase.
pub open spec fn names_sorted<T>(s: Seq<(Seq<char>, T)>) -> bool {
    forall|i: int, j: int| 0 <= i < j < s.len() ==> seq_less(#[trigger] s[i].0, #[trigger] s[j].0)
}

/// Some entry of `s` is named `k`.
pub open spec fn has_name<T>(s: Seq<(Seq<char>, T)>, k: Seq<char>) -> bool {
    exists|i: int| 0 <= i < s.len() && #[trigger] s[i].0 == k
}

/// A position of `s` that holds the name `k`, when there is one.
pub open spec fn index_of_name<T>(s: Seq<(Seq<char>, T)>, k: Seq<char>) -> int {
    choose|i: int| 0 <= i < s.len() && #[trigger] s[i].0 == k
}

/// The map an entry listing stands for.
pub open spec fn to_map<T>(s: Seq<(Seq<char>, T)>) -> Map<Seq<char>, T> {
    Map::new(|k: Seq<char>| has_name(s, k), |k: Seq<char>| s[index_of_name(s, k)].1)
}

/// In a sorted listing the entry at `i` is what the map holds for its name.
pub proof fn lemma_to_map_at<T>(s: Seq<(Seq<char>, T)>, i: int)
    requires
        names_sorted(s),
        0 <= i < s.len(),
    ensures
        to_map(s).contains_key(s[i].0),
        to_map(s)[s[i].0] == s[i].1,
{
    let k = s[i].0;
    assert(has_name(s, k));
    let j = index_of_name(s, k);
    assert(0 <= j < s.len() && s[j].0 == k);
    if j != i {
        lemma_seq_less_irreflexive(k);
        if j < i {
            assert(seq_less(s[j].0, s[i].0));
        } else {
            assert(seq_less(s[i].0, s[j].0));
        }
    }
    assert(to_map(s)[k] == s[j].1);
}

/// Entries of a map keyed by name, kept sorted by name.
pub struct NameMap<V: View> {
    entries: Vec<(String, V)>,
}

pub open spec fn entry_view<V: View>(e: (String, V)) -> (Seq<char>, V::V) {
    (e.0@, e.1@)
}

impl<V: View> NameMap<V> {
    /// The entries, sorted by name.
    pub closed spec fn listing(&self) -> Seq<(Seq<char>, V::V)> {
        self.entries@.map_values(|e: (String, V)| entry_view(e))
    }

    /// The entries are strictly sorted by name: the type's invariant,
    /// which every value of it meets.
    #[verifier::type_invariant]
    pub open spec fn wf(&self) -> bool {
        names_sorted(self.listing())
    }
}

impl<V: View> View for NameMap<V> {
    type V = Map<Seq<char>, V::V>;

    open spec fn view(&self) -> Map<Seq<char>, V::V> {
        to_map(self.listing())
    }
}

impl<V: View> NameMap<V> {
    pub fn new() -> (r: Self)
        ensures
            r.listing() == Seq::<(Seq<char>, V::V)>::empty(),
            r@ == Map::<Seq<char>, V::V>::empty(),
    {
        let r = NameMap { entries: Vec::new() };
        assert(r.listing() =~= Seq::<(Seq<char>, V::V)>::empty());
        assert(r@ =~= Map::<Seq<char>, V::V>::empty());
        r
    }

    pub fn len(&self) -> (n: usize)
        ensures
            n == self.listing().len(),
    {
        self.entries.len()
    }

    pub fn is_empty(&self) -> (r: bool)
        ensures
            r == (self.listing().len() == 0),
            r == (self@.dom() == Set::<Seq<char>>::empty()),
    {
        proof {
            use_type_invariant(self);
        }
        if self.entries.len() > 0 {
            proof {
                lemma_to_map_at(self.listing(), 0);
            }
            assert(self@.dom().contains(self.listing()[0].0));
        } else {
            assert(self@.dom() =~= Set::<Seq<char>>::empty());
        }
        self.entries.len() == 0
    }

    /// The name and value at position `i` of the sorted listing.
    pub fn entry(&self, i: usize) -> (r: (&String, &V))
        requires
            i < self.listing().len(),
        ensures
            r.0@ == self.listing()[i as int].0,
            r.1@ == self.listing()[i as int].1,
    {
        let e = &self.entries[i];
        (&e.0, &e.1)
    }

    /// Index of the first entry whose name is not below `k`.
    fn position(&self, k: &str) -> (p: usize)
        ensures
            p <= self.listing().len(),
            forall|j: int| 0 <= j < p ==> seq_less(#[trigger] self.listing()[j].0, k@),
            p < self.listing().len() ==> !seq_less(self.listing()[p as int].0, k@),
    {
        let mut p: usize = 0;
        while p < self.entries.len()
            invariant
                p <= self.entries.len(),
                self.listing().len() == self.entries.len(),
                forall|j: int| 0 <= j < p ==> seq_less(#[trigger] self.listing()[j].0, k@),
            decreases self.entries.len() - p,
        {
            assert(self.listing()[p as int].0 == self.entries@[p as int].0@);
            if !str_less(self.entries[p].0.as_str(), k) {
                return p;
            }
            p += 1;
        }
        p
    }

    /// The value stored under `k`.
    pub fn get(&self, k: &str) -> (r: Option<&V>)
        ensures
            r is Some <==> self@.contains_key(k@),
            r matches Some(v) ==> v@ == self@[k@],
    {
        proof {
            use_type_invariant(self);
        }
        let p = self.position(k);
        if p < self.entries.len() && str_eq(self.entries[p].0.as_str(), k) {
            proof {
                lemma_to_map_at(self.listing(), p as int);
            }
            assert(self.listing()[p as int].0 == k@);
            Some(&self.entries[p].1)
        } else {
            proof {
                self.lemma_absent_after_position(k@, p as int);
            }
            None
        }
    }

    proof fn lemma_absent_after_position(&self, k: Seq<char>, p: int)
        requires
            self.wf(),
            0 <= p <= self.listing().len(),
            forall|j: int| 0 <= j < p ==> seq_less(#[trigger] self.listing()[j].0, k),
            p < self.listing().len() ==> !seq_less(self.listing()[p].0, k),
            p < self.listing().len() ==> self.listing()[p].0 != k,
        ensures
            !self@.contains_key(k),
    {
        let s = self.listing();
        if has_name(s, k) {
            let i = choose|i: int| 0 <= i < s.len() && #[trigger] s[i].0 == k;
            if i < p {
                lemma_seq_less_irreflexive(k);
            } else if i > p {
                lemma_seq_less_total(s[p].0, k);
                assert(seq_less(s[p].0, s[i].0));
            }
        }
    }

    /// Store `v` under `k`, returning the value it replaces.
    pub fn insert(&mut self, k: String, v: V) -> (prev: Option<V>)
        ensures
            final(self)@ == old(self)@.insert(k@, v@),
            prev is Some <==> old(self)@.contains_key(k@),
            prev matches Some(pv) ==> pv@ == old(self)@[k@],
    {
        proof {
            use_type_invariant(&*self);
        }
        let p = self.position(k.as_str());
        let ghost s = self.listing();
        if p < self.entries.len() && str_eq(self.entries[p].0.as_str(), k.as_str()) {
            proof {
                lemma_to_map_at(s, p as int);
            }
            let mut entries = Vec::new();
            std::mem::swap(&mut entries, &mut self.entries);
            let (_, old_v) = entries.remove(p);
            entries.insert(p, (k, v));
            proof {
                let t = entries@.map_values(|e: (String, V)| entry_view(e));
                assert(t =~= s.update(p as int, (k@, v@)));
                assert forall|i: int, j: int| 0 <= i < j < t.len() implies seq_less(#[trigger] t[i].0, #[trigger] t[j].0) by {
                    assert(t[i].0 == s[i].0);
                    assert(t[j].0 == s[j].0);
                }
            }
            self.entries = entries;
            proof {
                let t = self.listing();
                assert(t =~= s.update(p as int, (k@, v@)));
                self.lemma_map_update(s, p as int, k@, v@);
            }
            Some(old_v)
        } else {
            proof {
                self.lemma_absent_after_position(k@, p as int);
                if p < s.len() {
                    lemma_seq_less_total(s[p as int].0, k@);
                }
            }
            let ghost kv = k@;
            let mut entries = Vec::new();
            std::mem::swap(&mut entries, &mut self.entries);
            entries.insert(p, (k, v));
            proof {
                let t = entries@.map_values(|e: (String, V)| entry_view(e));
                assert(t =~= s.insert(p as int, (kv, v@)));
                assert forall|i: int, j: int| 0 <= i < j < t.len() implies seq_less(#[trigger] t[i].0, #[trigger] t[j].0) by {
                    if j < p {
                        assert(t[i].0 == s[i].0 && t[j].0 == s[j].0);
                    } else if j == p {
                        assert(t[i].0 == s[i].0);
                    } else if i == p {
                        assert(t[j].0 == s[j - 1].0);
                        if j - 1 > p {
                            lemma_seq_less_transitive(kv, s[p as int].0, s[j - 1].0);
                        }
                    } else if i < p {
                        assert(t[i].0 == s[i].0 && t[j].0 == s[j - 1].0);
                    } else {
                        assert(t[i].0 == s[i - 1].0 && t[j].0 == s[j - 1].0);
                    }
                }
            }
            self.entries = entries;
            proof {
                let t = self.listing();
                assert(t =~= s.insert(p as int, (kv, v@)));
                self.lemma_map_insert(s, p as int, kv, v@);
            }
            None
        }
    }

    proof fn lemma_map_update(&self, s: Seq<(Seq<char>, V::V)>, p: int, k: Seq<char>, v: V::V)
        requires
            names_sorted(s),
            0 <= p < s.len(),
            s[p].0 == k,
            self.listing() == s.update(p, (k, v)),
            names_sorted(self.listing()),
        ensures
            self@ == to_map(s).insert(k, v),
    {
        let t = self.listing();
        assert forall|x: Seq<char>| #[trigger] to_map(t).contains_key(x) <==> to_map(s).insert(k, v).contains_key(x) by {
            if has_name(t, x) {
                let i = choose|i: int| 0 <= i < t.len() && #[trigger] t[i].0 == x;
                assert(s[i].0 == x);
            }
            if has_name(s, x) {
                let i = choose|i: int| 0 <= i < s.len() && #[trigger] s[i].0 == x;
                assert(t[i].0 == x);
            }
            if x == k {
                assert(t[p].0 == k);
            }
        }
        assert forall|x: Seq<char>| #[trigger] to_map(t).contains_key(x) implies to_map(t)[x] == to_map(s).insert(k, v)[x] by {
            let i = choose|i: int| 0 <= i < t.len() && #[trigger] t[i].0 == x;
            lemma_to_map_at(t, i);
            if i != p {
                lemma_listing_facts(t, i, p);
                lemma_to_map_at(s, i);
            }
        }
        assert(to_map(t) =~= to_map(s).insert(k, v));
    }

    proof fn lemma_map_insert(&self, s: Seq<(Seq<char>, V::V)>, p: int, k: Seq<char>, v: V::V)
        requires
            names_sorted(s),
            0 <= p <= s.len(),
            !has_name(s, k),
            self.listing() == s.insert(p, (k, v)),
            names_sorted(self.listing()),
        ensures
            self@ == to_map(s).insert(k, v),
    {
        let t = self.listing();
        assert forall|x: Seq<char>| #[trigger] to_map(t).contains_key(x) <==> to_map(s).insert(k, v).contains_key(x) by {
            if has_name(t, x) {
                let i = choose|i: int| 0 <= i < t.len() && #[trigger] t[i].0 == x;
                if i < p {
                    assert(s[i].0 == x);
                } else if i > p {
                    assert(s[i - 1].0 == x);
                }
            }
            if has_name(s, x) {
                let i = choose|i: int| 0 <= i < s.len() && #[trigger] s[i].0 == x;
                if i < p {
                    assert(t[i].0 == x);
                } else {
                    assert(t[i + 1].0 == x);
                }
            }
            if x == k {
                assert(t[p].0 == k);
            }
        }
        assert forall|x: Seq<char>| #[trigger] to_map(t).contains_key(x) implies to_map(t)[x] == to_map(s).insert(k, v)[x] by {
            let i = choose|i: int| 0 <= i < t.len() && #[trigger] t[i].0 == x;
            lemma_to_map_at(t, i);
            if i < p {
                lemma_to_map_at(s, i);
            } else if i > p {
                lemma_to_map_at(s, i - 1);
            }
        }
        assert(to_map(t) =~= to_map(s).insert(k, v));
    }

    /// Drop the entry stored under `k`, returning its value.
    pub fn remove(&mut self, k: &str) -> (prev: Option<V>)
        ensures
            final(self)@ == old(self)@.remove(k@),
            prev is Some <==> old(self)@.contains_key(k@),
            prev matches Some(pv) ==> pv@ == old(self)@[k@],
    {
        proof {
            use_type_invariant(&*self);
        }
        let p = self.position(k);
        let ghost s = self.listing();
        if p < self.entries.len() && str_eq(self.entries[p].0.as_str(), k) {
            proof {
                lemma_to_map_at(s, p as int);
            }
            let mut entries = Vec::new();
            std::mem::swap(&mut entries, &mut self.entries);
            let (_, old_v) = entries.remove(p);
            proof {
                let t = entries@.map_values(|e: (String, V)| entry_view(e));
                assert(t =~= s.remove(p as int));
                assert forall|i: int, j: int| 0 <= i < j < t.len() implies seq_less(#[trigger] t[i].0, #[trigger] t[j].0) by {
                    if j < p {
                        assert(t[i].0 == s[i].0 && t[j].0 == s[j].0);
                    } else if i < p {
                        assert(t[i].0 == s[i].0 && t[j].0 == s[j + 1].0);
                    } else {
                        assert(t[i].0 == s[i + 1].0 && t[j].0 == s[j + 1].0);
                    }
                }
            }
            self.entries = entries;
            proof {
                let t = self.listing();
                assert(t =~= s.remove(p as int));
                assert forall|x: Seq<char>| #[trigger] to_map(t).contains_key(x) <==> to_map(s).remove(k@).contains_key(x) by {
                    if has_name(t, x) {
                        let i = choose|i: int| 0 <= i < t.len() && #[trigger] t[i].0 == x;
                        if i < p {
                            assert(s[i].0 == x);
                            assert(seq_less(s[i].0, s[p as int].0));
                            lemma_seq_less_irreflexive(x);
                        } else {
                            assert(s[i + 1].0 == x);
                            assert(seq_less(s[p as int].0, s[i + 1].0));
                            lemma_seq_less_irreflexive(x);
                        }
                    }
                    if has_name(s, x) && x != k@ {
                        let i = choose|i: int| 0 <= i < s.len() && #[trigger] s[i].0 == x;
                        if i < p {
                            assert(t[i].0 == x);
                        } else {
                            assert(i != p);
                            assert(t[i - 1].0 == x);
                        }
                    }
                }
                assert forall|x: Seq<char>| #[trigger] to_map(t).contains_key(x) implies to_map(t)[x] == to_map(s).remove(k@)[x] by {
                    let i = choose|i: int| 0 <= i < t.len() && #[trigger] t[i].0 == x;
                    lemma_to_map_at(t, i);
                    if i < p {
                        lemma_to_map_at(s, i);
                    } else {
                        lemma_to_map_at(s, i + 1);
                    }
                }
                assert(to_map(t) =~= to_map(s).remove(k@));
            }
            Some(old_v)
        } else {
            proof {
                self.lemma_absent_after_position(k@, p as int);
                assert(self@.remove(k@) =~= self@);
            }
            None
        }
    }

    /// Drop every entry.
    pub fn clear(&mut self)
        ensures
            final(self)@ == Map::<Seq<char>, V::V>::empty(),
            final(self).listing() == Seq::<(Seq<char>, V::V)>::empty(),
    {
        self.entries = Vec::new();
        assert(self.listing() =~= Seq::<(Seq<char>, V::V)>::empty());
        assert(self@ =~= Map::<Seq<char>, V::V>::empty());
    }
}

/// A sorted listing holds each name once, and its map has exactly its
/// names: the facts callers need to walk a listing in order.
pub proof fn lemma_listing_facts<T>(s: Seq<(Seq<char>, T)>, i: int, j: int)
    requires
        names_sorted(s),
        0 <= i < s.len(),
        0 <= j < s.len(),
    ensures
        s[i].0 == s[j].0 ==> i == j,
        i < j ==> !seq_less(s[j].0, s[i].0),
{
    lemma_seq_less_irreflexive(s[i].0);
    if i < j {
        lemma_seq_less_asymmetric(s[i].0, s[j].0);
    } else if j < i {
        lemma_seq_less_asymmetric(s[j].0, s[i].0);
    }
}

} // verus!
