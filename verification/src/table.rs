//! The service table: services keyed by id, kept in ascending id order so that
//! the inventory lists them in that order.
use vstd::prelude::*;
use vstd::string::*;
use crate::model::{Service, ServiceView};
use crate::text::{chars_of, lemma_lex_strict_total, lemma_lex_transitive, lex_compare, lex_lt};

verus! {

/// The views of a list of services.
pub open spec fn rows(s: Seq<Service>) -> Seq<ServiceView> {
    s.map_values(|x: Service| x@)
}

/// Ids strictly ascend along the list (so no id occurs twice).
pub open spec fn ids_ascending(s: Seq<ServiceView>) -> bool {
    forall|i: int, j: int| 0 <= i < j < s.len() ==> lex_lt(s[i].id, s[j].id)
}

/// A list of service rows read as a map from id to row.
pub open spec fn rows_map(s: Seq<ServiceView>) -> Map<Seq<char>, ServiceView> {
    Map::new(
        |k: Seq<char>| exists|i: int| 0 <= i < s.len() && s[i].id == k,
        |k: Seq<char>| s[choose|i: int| 0 <= i < s.len() && s[i].id == k],
    )
}

/// In a list with ascending ids, an id names exactly one row.
pub proof fn lemma_rows_unique(s: Seq<ServiceView>, i: int, j: int)
    requires
        ids_ascending(s),
        0 <= i < s.len(),
        0 <= j < s.len(),
        s[i].id == s[j].id,
    ensures
        i == j,
{
    if i < j {
        lemma_lex_strict_total(s[i].id, s[j].id);
    } else if j < i {
        lemma_lex_strict_total(s[j].id, s[i].id);
    }
}

/// The row of `rows_map` under the id of row `i`.
pub proof fn lemma_rows_map_at(s: Seq<ServiceView>, i: int)
    requires
        ids_ascending(s),
        0 <= i < s.len(),
    ensures
        rows_map(s).contains_key(s[i].id),
        rows_map(s)[s[i].id] == s[i],
{
    let k = s[i].id;
    assert(rows_map(s).dom().contains(k));
    let j = choose|j: int| 0 <= j < s.len() && s[j].id == k;
    lemma_rows_unique(s, i, j);
}

/// Services keyed by id, in ascending id order.
#[derive(Clone, Debug)]
pub struct ServiceTable {
    entries: Vec<Service>,
}

impl View for ServiceTable {
    type V = Map<Seq<char>, ServiceView>;

    closed spec fn view(&self) -> Map<Seq<char>, ServiceView> {
        rows_map(rows(self.entries@))
    }
}

impl ServiceTable {
    /// The table's internal consistency: ids ascend.
    pub closed spec fn wf(&self) -> bool {
        ids_ascending(rows(self.entries@))
    }

    /// The rows in ascending id order.
    pub closed spec fn ordered(&self) -> Seq<ServiceView> {
        rows(self.entries@)
    }

    /// The rows in id order are exactly the table's contents.
    pub proof fn lemma_ordered(&self)
        requires
            self.wf(),
        ensures
            ids_ascending(self.ordered()),
            rows_map(self.ordered()) == self@,
    {
    }

    /// Every row sits under its own id.
    pub proof fn lemma_keys_are_ids(&self)
        requires
            self.wf(),
        ensures
            forall|k: Seq<char>| #[trigger] self@.contains_key(k) ==> self@[k].id == k,
    {
        assert forall|k: Seq<char>| #[trigger] self@.contains_key(k) implies self@[k].id == k by {
            let s = rows(self.entries@);
            let j = choose|j: int| 0 <= j < s.len() && s[j].id == k;
            lemma_rows_map_at(s, j);
        }
    }

    pub fn new() -> (r: Self)
        ensures
            r.wf(),
            r@ == Map::<Seq<char>, ServiceView>::empty(),
            r.ordered() == Seq::<ServiceView>::empty(),
    {
        let r = ServiceTable { entries: Vec::new() };
        assert(rows(r.entries@) =~= seq![]);
        assert(r@ =~= Map::<Seq<char>, ServiceView>::empty());
        r
    }

    /// A table holding services whose ids already ascend.
    pub fn from_ordered(entries: Vec<Service>) -> (r: Self)
        requires
            ids_ascending(rows(entries@)),
        ensures
            r.wf(),
            r.ordered() == rows(entries@),
            r@ == rows_map(rows(entries@)),
    {
        ServiceTable { entries }
    }

    /// The services in ascending id order.
    pub fn into_ordered(self) -> (r: Vec<Service>)
        requires
            self.wf(),
        ensures
            rows(r@) == self.ordered(),
            ids_ascending(rows(r@)),
            rows_map(rows(r@)) == self@,
    {
        self.entries
    }

    /// The services in ascending id order, borrowed.
    pub fn ordered_rows(&self) -> (r: &Vec<Service>)
        ensures
            rows(r@) == self.ordered(),
    {
        &self.entries
    }

    /// The number of services.
    pub fn len(&self) -> (r: usize)
        ensures
            r == self.ordered().len(),
    {
        self.entries.len()
    }

    /// Where `id` is, or where it would go: the first position whose id is not
    /// below it.
    fn position(&self, id: &Vec<char>) -> (r: (usize, bool))
        requires
            self.wf(),
        ensures
            r.0 <= self.entries@.len(),
            forall|k: int| 0 <= k < r.0 ==> lex_lt(rows(self.entries@)[k].id, id@),
            r.1 ==> r.0 < self.entries@.len() && rows(self.entries@)[r.0 as int].id == id@,
            !r.1 && r.0 < self.entries@.len() ==> lex_lt(id@, rows(self.entries@)[r.0 as int].id),
    {
        let mut i: usize = 0;
        while i < self.entries.len()
            invariant
                i <= self.entries@.len(),
                forall|k: int| 0 <= k < i ==> lex_lt(rows(self.entries@)[k].id, id@),
            decreases self.entries.len() - i,
        {
            let key = chars_of(self.entries[i].id.as_str());
            assert(rows(self.entries@)[i as int].id == key@);
            let c = lex_compare(&key, id);
            if c == 0 {
                return (i, true);
            }
            if c > 0 {
                return (i, false);
            }
            i = i + 1;
        }
        (i, false)
    }

    /// Whether a service with this id is present.
    pub fn contains(&self, id: &str) -> (r: bool)
        requires
            self.wf(),
        ensures
            r == self@.contains_key(id@),
    {
        let key = chars_of(id);
        let (p, found) = self.position(&key);
        proof {
            let s = rows(self.entries@);
            if found {
                lemma_rows_map_at(s, p as int);
            } else if self@.contains_key(id@) {
                let j = choose|j: int| 0 <= j < s.len() && s[j].id == id@;
                if j < p {
                    lemma_lex_strict_total(s[j].id, id@);
                } else if j > p {
                    lemma_lex_transitive(id@, s[p as int].id, s[j].id);
                    lemma_lex_strict_total(id@, s[j].id);
                } else {
                    lemma_lex_strict_total(id@, s[j].id);
                }
            }
        }
        found
    }

    /// Adds `service`, replacing any service with the same id.
    pub fn insert(&mut self, service: Service)
        requires
            old(self).wf(),
        ensures
            final(self).wf(),
            final(self)@ == old(self)@.insert(service@.id, service@),
    {
        let key = chars_of(service.id.as_str());
        let (p, found) = self.position(&key);
        let ghost before = rows(self.entries@);
        let ghost v = service@;
        if found {
            self.entries.set(p, service);
            proof {
                let s = rows(self.entries@);
                assert(s =~= before.update(p as int, v));
                assert(ids_ascending(s)) by {
                    assert forall|i: int, j: int| 0 <= i < j < s.len() implies lex_lt(s[i].id, s[j].id) by {
                        assert(s[i].id == before[i].id);
                        assert(s[j].id == before[j].id);
                    }
                }
                self.lemma_after_update(before, s, p as int, v);
            }
        } else {
            self.entries.insert(p, service);
            proof {
                let s = rows(self.entries@);
                assert(s =~= before.insert(p as int, v));
                assert(ids_ascending(s)) by {
                    assert forall|i: int, j: int| 0 <= i < j < s.len() implies lex_lt(s[i].id, s[j].id) by {
                        if j < p {
                        } else if j == p {
                        } else if i < p {
                            assert(s[j] == before[j - 1]);
                            if j - 1 > p {
                                lemma_lex_transitive(v.id, before[p as int].id, before[j - 1].id);
                            }
                            lemma_lex_transitive(s[i].id, v.id, before[j - 1].id);
                        } else if i == p {
                            assert(s[j] == before[j - 1]);
                            if j - 1 > p {
                                lemma_lex_transitive(v.id, before[p as int].id, before[j - 1].id);
                            }
                        } else {
                            assert(s[i] == before[i - 1]);
                            assert(s[j] == before[j - 1]);
                        }
                    }
                }
                assert forall|k: int| 0 <= k < before.len() implies before[k].id != v.id by {
                    if k < p {
                        lemma_lex_strict_total(before[k].id, v.id);
                    } else if k == p {
                        lemma_lex_strict_total(v.id, before[k].id);
                    } else {
                        lemma_lex_transitive(v.id, before[p as int].id, before[k].id);
                        lemma_lex_strict_total(v.id, before[k].id);
                    }
                }
                self.lemma_after_insert(before, s, p as int, v);
            }
        }
    }

    proof fn lemma_after_update(&self, before: Seq<ServiceView>, s: Seq<ServiceView>, p: int, v: ServiceView)
        requires
            ids_ascending(before),
            ids_ascending(s),
            0 <= p < before.len(),
            before[p].id == v.id,
            s == before.update(p, v),
        ensures
            rows_map(s) == rows_map(before).insert(v.id, v),
    {
        let m = rows_map(before).insert(v.id, v);
        assert forall|k: Seq<char>| #[trigger] rows_map(s).dom().contains(k) == m.dom().contains(k) by {
            if rows_map(s).dom().contains(k) {
                let j = choose|j: int| 0 <= j < s.len() && s[j].id == k;
                if j != p {
                    assert(before[j].id == k);
                }
            }
            if rows_map(before).dom().contains(k) {
                let j = choose|j: int| 0 <= j < before.len() && before[j].id == k;
                assert(s[j].id == k);
            }
            if k == v.id {
                assert(s[p].id == k);
            }
        }
        assert forall|k: Seq<char>| #[trigger] rows_map(s).dom().contains(k) implies rows_map(s)[k] == m[k] by {
            let j = choose|j: int| 0 <= j < s.len() && s[j].id == k;
            lemma_rows_map_at(s, j);
            if j == p {
            } else {
                assert(s[j] == before[j]);
                lemma_rows_map_at(before, j);
                if k == v.id {
                    lemma_rows_unique(before, j, p);
                }
            }
        }
        assert(rows_map(s) =~= m);
    }

    proof fn lemma_after_insert(&self, before: Seq<ServiceView>, s: Seq<ServiceView>, p: int, v: ServiceView)
        requires
            ids_ascending(before),
            ids_ascending(s),
            0 <= p <= before.len(),
            forall|k: int| 0 <= k < before.len() ==> before[k].id != v.id,
            s == before.insert(p, v),
        ensures
            rows_map(s) == rows_map(before).insert(v.id, v),
    {
        let m = rows_map(before).insert(v.id, v);
        assert forall|k: Seq<char>| #[trigger] rows_map(s).dom().contains(k) == m.dom().contains(k) by {
            if rows_map(s).dom().contains(k) {
                let j = choose|j: int| 0 <= j < s.len() && s[j].id == k;
                if j < p {
                    assert(before[j].id == k);
                } else if j > p {
                    assert(before[j - 1].id == k);
                }
            }
            if rows_map(before).dom().contains(k) {
                let j = choose|j: int| 0 <= j < before.len() && before[j].id == k;
                if j < p {
                    assert(s[j].id == k);
                } else {
                    assert(s[j + 1].id == k);
                }
            }
            if k == v.id {
                assert(s[p].id == k);
            }
        }
        assert forall|k: Seq<char>| #[trigger] rows_map(s).dom().contains(k) implies rows_map(s)[k] == m[k] by {
            let j = choose|j: int| 0 <= j < s.len() && s[j].id == k;
            lemma_rows_map_at(s, j);
            if j < p {
                assert(s[j] == before[j]);
                lemma_rows_map_at(before, j);
            } else if j > p {
                assert(s[j] == before[j - 1]);
                lemma_rows_map_at(before, j - 1);
            }
        }
        assert(rows_map(s) =~= m);
    }

    /// Takes out the service with this id, if there is one.
    pub fn remove(&mut self, id: &str) -> (r: Option<Service>)
        requires
            old(self).wf(),
        ensures
            final(self).wf(),
            old(self)@.contains_key(id@) ==> (r matches Some(s) && s@ == old(self)@[id@]),
            !old(self)@.contains_key(id@) ==> r is None,
            final(self)@ == old(self)@.remove(id@),
    {
        let key = chars_of(id);
        let (p, found) = self.position(&key);
        let ghost before = rows(self.entries@);
        proof {
            if !found && rows_map(before).contains_key(id@) {
                let j = choose|j: int| 0 <= j < before.len() && before[j].id == id@;
                if j < p {
                    lemma_lex_strict_total(before[j].id, id@);
                } else if j > p {
                    lemma_lex_transitive(id@, before[p as int].id, before[j].id);
                    lemma_lex_strict_total(id@, before[j].id);
                } else {
                    lemma_lex_strict_total(id@, before[j].id);
                }
            }
        }
        if !found {
            assert(rows_map(before).remove(id@) =~= rows_map(before));
            return None;
        }
        let s = self.entries.remove(p);
        proof {
            lemma_rows_map_at(before, p as int);
            let after = rows(self.entries@);
            assert(after =~= before.remove(p as int));
            assert(ids_ascending(after)) by {
                assert forall|i: int, j: int| 0 <= i < j < after.len() implies lex_lt(after[i].id, after[j].id) by {
                    let bi = if i < p { i } else { i + 1 };
                    let bj = if j < p { j } else { j + 1 };
                    assert(after[i] == before[bi]);
                    assert(after[j] == before[bj]);
                }
            }
            let m = rows_map(before).remove(id@);
            assert forall|k: Seq<char>| #[trigger] rows_map(after).dom().contains(k) == m.dom().contains(k) by {
                if rows_map(after).dom().contains(k) {
                    let j = choose|j: int| 0 <= j < after.len() && after[j].id == k;
                    let bj = if j < p { j } else { j + 1 };
                    assert(before[bj].id == k);
                    if k == id@ {
                        lemma_rows_unique(before, bj, p as int);
                    }
                }
                if m.dom().contains(k) {
                    let j = choose|j: int| 0 <= j < before.len() && before[j].id == k;
                    if j < p {
                        assert(after[j].id == k);
                    } else if j > p {
                        assert(after[j - 1].id == k);
                    }
                }
            }
            assert forall|k: Seq<char>| #[trigger] rows_map(after).dom().contains(k) implies rows_map(after)[k] == m[k] by {
                let j = choose|j: int| 0 <= j < after.len() && after[j].id == k;
                lemma_rows_map_at(after, j);
                let bj = if j < p { j } else { j + 1 };
                lemma_rows_map_at(before, bj);
            }
            assert(rows_map(after) =~= m);
        }
        Some(s)
    }
}

} // verus!
