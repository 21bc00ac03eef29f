use vstd::prelude::*;
use vstd::string::*;

use crate::errors::StoreError;
use crate::value::{obj_lookup, Entry, Id, Value, ValueView};

verus! {

broadcast use
    vstd::std_specs::vec::axiom_vec_index_decreases,
    vstd::std_specs::vec::axiom_vec_decreases_to_view,
    vstd::seq::axiom_seq_index_decreases,
    crate::value::group_value_view;

/// The statements this layer submits to a store: the four shapes the
/// CRUD runtime needs and nothing more. A `DefineTable` carries the
/// declared fields as name/kind-name pairs.
#[derive(Debug, PartialEq, Eq)]
pub enum Statement {
    Lookup { table: String, id: Id },
    Insert { table: String, data: Value },
    Delete { table: String, id: Id },
    DefineTable { table: String, fields: Vec<(String, String)> },
}

/// What an insert stores and returns: the submitted object with the
/// assigned identity appended under the reserved key "id".
pub open spec fn stored_object(data: ValueView, table: Seq<char>, n: u64) -> ValueView {
    ValueView::Object(
        data->Object_0.push(("id"@, ValueView::Reference(table, Id::Number(n)))),
    )
}

/// The mathematical model of the in-memory store: the stored records as
/// a map from (table, identifier) to value, the next identifier an
/// insert will assign, and the tables declared so far.
pub struct StoreView {
    pub records: Map<(Seq<char>, u64), ValueView>,
    pub next_id: u64,
    pub tables: Seq<Seq<char>>,
}

struct MemRecord {
    table: String,
    id: u64,
    data: Value,
}

spec fn rkey(r: MemRecord) -> (Seq<char>, u64) {
    (r.table@, r.id)
}

spec fn rec_map(s: Seq<MemRecord>) -> Map<(Seq<char>, u64), ValueView>
    decreases s.len(),
{
    if s.len() == 0 {
        Map::empty()
    } else {
        rec_map(s.drop_last()).insert(rkey(s.last()), s.last().data@)
    }
}

spec fn distinct_keys(s: Seq<MemRecord>) -> bool {
    forall|i: int, j: int|
        0 <= i < j < s.len() ==> (#[trigger] rkey(s[i])) != (#[trigger] rkey(s[j]))
}

proof fn lemma_rec_map_at(s: Seq<MemRecord>, j: int)
    requires
        distinct_keys(s),
        0 <= j < s.len(),
    ensures
        rec_map(s).contains_key(rkey(s[j])),
        rec_map(s)[rkey(s[j])] == s[j].data@,
    decreases s.len(),
{
    if j < s.len() - 1 {
        assert(distinct_keys(s.drop_last()));
        assert(s.drop_last()[j] == s[j]);
        lemma_rec_map_at(s.drop_last(), j);
        assert(rkey(s.last()) != rkey(s[j]));
    }
}

proof fn lemma_rec_map_none(s: Seq<MemRecord>, k: (Seq<char>, u64))
    requires
        forall|j: int| 0 <= j < s.len() ==> (#[trigger] rkey(s[j])) != k,
    ensures
        !rec_map(s).contains_key(k),
    decreases s.len(),
{
    if s.len() > 0 {
        lemma_rec_map_none(s.drop_last(), k);
    }
}

proof fn lemma_rec_map_contains(s: Seq<MemRecord>, k: (Seq<char>, u64))
    requires
        rec_map(s).contains_key(k),
    ensures
        exists|j: int| 0 <= j < s.len() && rkey(#[trigger] s[j]) == k,
    decreases s.len(),
{
    if s.len() > 0 {
        if rkey(s.last()) == k {
            assert(rkey(s[s.len() - 1]) == k);
        } else {
            lemma_rec_map_contains(s.drop_last(), k);
            let j = choose|j: int|
                0 <= j < s.drop_last().len() && rkey(#[trigger] s.drop_last()[j]) == k;
            assert(rkey(s[j]) == k);
        }
    }
}

proof fn lemma_rec_map_remove(s: Seq<MemRecord>, idx: int)
    requires
        distinct_keys(s),
        0 <= idx < s.len(),
    ensures
        rec_map(s.remove(idx)) == rec_map(s).remove(rkey(s[idx])),
{
    let s2 = s.remove(idx);
    let k0 = rkey(s[idx]);
    s.remove_ensures(idx);
    assert(distinct_keys(s2)) by {
        assert forall|i: int, j: int| 0 <= i < j < s2.len() implies (#[trigger] rkey(s2[i]))
            != (#[trigger] rkey(s2[j])) by {
            let i0: int = if i < idx {
                i
            } else {
                i + 1
            };
            let j0: int = if j < idx {
                j
            } else {
                j + 1
            };
            assert(s2[i] == s[i0]);
            assert(s2[j] == s[j0]);
        }
    }
    assert(rec_map(s2) =~= rec_map(s).remove(k0)) by {
        assert forall|k: (Seq<char>, u64)| #[trigger]
            rec_map(s2).contains_key(k) implies rec_map(s).remove(k0).contains_key(k)
            && rec_map(s2)[k] == rec_map(s).remove(k0)[k] by {
            lemma_rec_map_contains(s2, k);
            let j = choose|j: int| 0 <= j < s2.len() && rkey(#[trigger] s2[j]) == k;
            let j0: int = if j < idx {
                j
            } else {
                j + 1
            };
            assert(s2[j] == s[j0]);
            assert(k != k0);
            lemma_rec_map_at(s2, j);
            lemma_rec_map_at(s, j0);
        }
        assert forall|k: (Seq<char>, u64)| #[trigger]
            rec_map(s).remove(k0).contains_key(k) implies rec_map(s2).contains_key(k) by {
            lemma_rec_map_contains(s, k);
            let j0 = choose|j: int| 0 <= j < s.len() && rkey(#[trigger] s[j]) == k;
            assert(j0 != idx);
            let j: int = if j0 < idx {
                j0
            } else {
                j0 - 1
            };
            assert(s2[j] == s[j0]);
            lemma_rec_map_at(s2, j);
        }
    }
}

/// An in-memory record store: the store-access capability made concrete.
/// It accepts the four statement shapes and answers each with at most
/// one value, as the capability contract demands. Inserts assign fresh
/// numeric identifiers from a counter; a point lookup therefore matches
/// at most one record.
pub struct MemStore {
    records: Vec<MemRecord>,
    next_id: u64,
    tables: Vec<String>,
}

impl View for MemStore {
    type V = StoreView;

    closed spec fn view(&self) -> StoreView {
        StoreView {
            records: rec_map(self.records@),
            next_id: self.next_id,
            tables: Seq::new(
                self.tables@.len(),
                |i: int|
                    if 0 <= i < self.tables@.len() {
                        self.tables@[i]@
                    } else {
                        Seq::empty()
                    },
            ),
        }
    }
}

impl MemStore {
    /// The store's internal soundness: record keys are distinct and
    /// every assigned identifier is below the counter, so the next
    /// insert's identifier is fresh.
    pub closed spec fn wf(self) -> bool {
        &&& distinct_keys(self.records@)
        &&& forall|i: int|
            0 <= i < self.records@.len() ==> (#[trigger] self.records@[i]).id < self.next_id
        &&& self.next_id >= 1
    }

    /// An empty store; the first insert assigns identifier 1.
    pub fn new() -> (s: MemStore)
        ensures
            s.wf(),
            s@.records == Map::<(Seq<char>, u64), ValueView>::empty(),
            s@.next_id == 1,
            s@.tables == Seq::<Seq<char>>::empty(),
    {
        let s = MemStore { records: Vec::new(), next_id: 1, tables: Vec::new() };
        proof {
            assert(s@.tables =~= Seq::<Seq<char>>::empty());
        }
        s
    }

    /// Submit one statement: the single primitive of the store-access
    /// capability. A lookup answers the record at (table, id) or nothing
    /// and changes nothing. An insert stores the object with the fresh
    /// identity appended under "id", returns the stored object, and
    /// advances the counter. A delete removes the addressed record if
    /// present and succeeds either way. A table definition only records
    /// the declaration. This in-memory store itself never fails; the
    /// `Result` is the capability's contract, which a remote store uses.
    #[verifier::loop_isolation(false)]
    pub fn submit(&mut self, stmt: Statement) -> (r: Result<Option<Value>, StoreError>)
        requires
            old(self).wf(),
            stmt matches Statement::Insert { table, data } ==> old(self)@.next_id < u64::MAX
                && data is Object && obj_lookup(data@->Object_0, "id"@) is None,
        ensures
            final(self).wf(),
            match stmt {
                Statement::Lookup { table, id } => final(self)@ == old(self)@ && (r matches Ok(opt)
                    && match old(self)@.records.get((table@, id->Number_0)) {
                    Option::Some(v) => opt matches Some(x) && x@ == v,
                    Option::None => opt is None,
                }),
                Statement::Insert { table, data } => {
                    let n = old(self)@.next_id;
                    let stored = stored_object(data@, table@, n);
                    &&& final(self)@.records == old(self)@.records.insert((table@, n), stored)
                    &&& final(self)@.next_id == n + 1
                    &&& final(self)@.tables == old(self)@.tables
                    &&& r matches Ok(opt) && opt matches Some(x) && x@ == stored
                },
                Statement::Delete { table, id } => {
                    &&& final(self)@.records == old(self)@.records.remove((table@, id->Number_0))
                    &&& final(self)@.next_id == old(self)@.next_id
                    &&& final(self)@.tables == old(self)@.tables
                    &&& r matches Ok(opt) && opt is None
                },
                Statement::DefineTable { table, fields } => {
                    &&& final(self)@.records == old(self)@.records
                    &&& final(self)@.next_id == old(self)@.next_id
                    &&& final(self)@.tables == old(self)@.tables.push(table@)
                    &&& r matches Ok(opt) && opt is None
                },
            },
    {
        match stmt {
            Statement::Lookup { table, id } => {
                let Id::Number(n) = id;
                let ghost key = (table@, n);
                let mut i: usize = 0;
                while i < self.records.len()
                    invariant
                        i <= self.records.len(),
                        self == old(self),
                        forall|j: int| 0 <= j < i as int ==> (#[trigger] rkey(self.records@[j]))
                            != key,
                    decreases self.records.len() - i,
                {
                    if self.records[i].table == table && self.records[i].id == n {
                        proof {
                            lemma_rec_map_at(self.records@, i as int);
                        }
                        return Ok(Some(self.records[i].data.duplicate()));
                    }
                    i = i + 1;
                }
                proof {
                    lemma_rec_map_none(self.records@, key);
                }
                Ok(None)
            },
            Statement::Insert { table, data } => {
                let n = self.next_id;
                let ghost dv = data@;
                let mut pairs = match data {
                    Value::Object(pairs) => pairs,
                    _ => {
                        proof {
                            assert(false);
                        }
                        vstd::pervasive::unreached()
                    },
                };
                pairs.push(
                    Entry {
                        key: String::from_str("id"),
                        value: Value::Reference(table.clone(), Id::Number(n)),
                    },
                );
                let stored = Value::Object(pairs);
                proof {
                    assert(stored@->Object_0 =~= dv->Object_0.push(
                        ("id"@, ValueView::Reference(table@, Id::Number(n))),
                    ));
                }
                let answer = stored.duplicate();
                let ghost old_records = self.records@;
                self.records.push(MemRecord { table, id: n, data: stored });
                self.next_id = n + 1;
                proof {
                    assert(self.records@.drop_last() =~= old_records);
                    assert forall|i: int, j: int| 0 <= i < j < self.records@.len() implies (
                    #[trigger] rkey(self.records@[i])) != (#[trigger] rkey(self.records@[j])) by {
                        if j == self.records@.len() - 1 {
                            assert(self.records@[i].id < n);
                        }
                    }
                    assert(self@.tables =~= old(self)@.tables);
                }
                Ok(Some(answer))
            },
            Statement::Delete { table, id } => {
                let Id::Number(n) = id;
                let ghost key = (table@, n);
                let mut i: usize = 0;
                while i < self.records.len()
                    invariant
                        i <= self.records.len(),
                        self == old(self),
                        forall|j: int| 0 <= j < i as int ==> (#[trigger] rkey(self.records@[j]))
                            != key,
                    decreases self.records.len() - i,
                {
                    if self.records[i].table == table && self.records[i].id == n {
                        proof {
                            lemma_rec_map_remove(self.records@, i as int);
                            s_remove_keeps_wf(self.records@, i as int, self.next_id);
                        }
                        self.records.remove(i);
                        proof {
                            assert(self@.tables =~= old(self)@.tables);
                        }
                        return Ok(None);
                    }
                    i = i + 1;
                }
                proof {
                    lemma_rec_map_none(self.records@, key);
                    assert(self@.records =~= self@.records.remove(key));
                }
                Ok(None)
            },
            Statement::DefineTable { table, fields: _ } => {
                self.tables.push(table);
                proof {
                    assert(self@.tables =~= old(self)@.tables.push(table@));
                }
                Ok(None)
            },
        }
    }
}

proof fn s_remove_keeps_wf(s: Seq<MemRecord>, idx: int, bound: u64)
    requires
        distinct_keys(s),
        0 <= idx < s.len(),
        forall|i: int| 0 <= i < s.len() ==> (#[trigger] s[i]).id < bound,
    ensures
        distinct_keys(s.remove(idx)),
        forall|i: int| 0 <= i < s.remove(idx).len() ==> (#[trigger] s.remove(idx)[i]).id < bound,
{
    let s2 = s.remove(idx);
    s.remove_ensures(idx);
    assert forall|i: int, j: int| 0 <= i < j < s2.len() implies (#[trigger] rkey(s2[i]))
        != (#[trigger] rkey(s2[j])) by {
        let i0: int = if i < idx {
            i
        } else {
            i + 1
        };
        let j0: int = if j < idx {
            j
        } else {
            j + 1
        };
        assert(s2[i] == s[i0]);
        assert(s2[j] == s[j0]);
    }
    assert forall|i: int| 0 <= i < s2.len() implies (#[trigger] s2[i]).id < bound by {
        let i0: int = if i < idx {
            i
        } else {
            i + 1
        };
        assert(s2[i] == s[i0]);
    }
}

} // verus!
