//! Ledger entries of one kind, found by their key.

use vstd::prelude::*;

use crate::records::DataKey;

verus! {

/// A finite map from keys to entries of one kind.
///
/// A call reads and writes a handful of entries, so they are kept in a list
/// that is searched from the front.
#[derive(Debug)]
pub struct Table<V> {
    rows: Vec<(DataKey, V)>,
}

/// Row `i` of `rows` is filed under `key`.
spec fn row_holds<V>(rows: Seq<(DataKey, V)>, i: int, key: DataKey) -> bool {
    0 <= i < rows.len() && rows[i].0 == key
}

/// No key is filed twice.
spec fn distinct<V>(rows: Seq<(DataKey, V)>) -> bool {
    forall|i: int, j: int|
        0 <= i < rows.len() && 0 <= j < rows.len() && i != j ==> (#[trigger] rows[i]).0 != (
        #[trigger] rows[j]).0
}

/// The map that a list of rows stands for.
spec fn rows_map<V>(rows: Seq<(DataKey, V)>) -> Map<DataKey, V> {
    Map::new(
        |key: DataKey| exists|i: int| row_holds(rows, i, key),
        |key: DataKey| rows[choose|i: int| row_holds(rows, i, key)].1,
    )
}

/// In rows without repeated keys, the row that holds a key decides its value.
proof fn lemma_row<V>(rows: Seq<(DataKey, V)>, i: int)
    requires
        distinct(rows),
        0 <= i < rows.len(),
    ensures
        rows_map(rows).contains_key(rows[i].0),
        rows_map(rows)[rows[i].0] == rows[i].1,
{
    let key = rows[i].0;
    assert(row_holds(rows, i, key));
    let j = choose|j: int| row_holds(rows, j, key);
    assert(row_holds(rows, j, key));
    assert(i == j);
}

/// A list of rows stands for a finite map.
proof fn lemma_finite<V>(rows: Seq<(DataKey, V)>)
    ensures
        rows_map(rows).dom().finite(),
    decreases rows.len(),
{
    if rows.len() == 0 {
        assert(rows_map(rows).dom() =~= Set::empty());
    } else {
        let rest = rows.drop_last();
        lemma_finite(rest);
        assert(rows_map(rows).dom() =~= rows_map(rest).dom().insert(rows.last().0)) by {
            assert forall|key: DataKey| rows_map(rows).dom().contains(key) == rows_map(
                rest,
            ).dom().insert(rows.last().0).contains(key) by {
                if rows_map(rows).dom().contains(key) {
                    let i = choose|i: int| row_holds(rows, i, key);
                    if i < rest.len() {
                        assert(row_holds(rest, i, key));
                    }
                }
                if rows_map(rest).dom().contains(key) {
                    let i = choose|i: int| row_holds(rest, i, key);
                    assert(row_holds(rows, i, key));
                }
                assert(row_holds(rows, rows.len() - 1, rows.last().0));
            }
        }
    }
}

impl<V> View for Table<V> {
    type V = Map<DataKey, V>;

    closed spec fn view(&self) -> Map<DataKey, V> {
        rows_map(self.rows@)
    }
}

impl<V> Table<V> {
    #[verifier::type_invariant]
    spec fn well_formed(self) -> bool {
        distinct(self.rows@)
    }
}

impl<V: Copy> Table<V> {
    /// A table always stands for a finite map.
    pub proof fn lemma_view_finite(&self)
        ensures
            self@.dom().finite(),
    {
        lemma_finite(self.rows@);
    }

    /// A table without entries.
    pub fn new() -> (table: Table<V>)
        ensures
            table@ == Map::<DataKey, V>::empty(),
    {
        let table = Table { rows: Vec::new() };
        assert(table@ =~= Map::<DataKey, V>::empty());
        table
    }

    /// The row that holds `key`, if there is one.
    fn find(&self, key: DataKey) -> (found: Option<usize>)
        ensures
            match found {
                Some(i) => row_holds(self.rows@, i as int, key),
                None => forall|i: int| !row_holds(self.rows@, i, key),
            },
    {
        let mut i: usize = 0;
        while i < self.rows.len()
            invariant
                i <= self.rows.len(),
                forall|j: int| 0 <= j < i ==> !row_holds(self.rows@, j, key),
            decreases self.rows.len() - i,
        {
            if self.rows[i].0 == key {
                return Some(i);
            }
            i += 1;
        }
        None
    }

    /// The entry filed under `key`, if there is one.
    pub fn get(&self, key: DataKey) -> (value: Option<V>)
        ensures
            value == (if self@.contains_key(key) {
                Some(self@[key])
            } else {
                None
            }),
    {
        proof {
            use_type_invariant(self);
        }
        match self.find(key) {
            Some(i) => {
                proof {
                    lemma_row(self.rows@, i as int);
                }
                Some(self.rows[i].1)
            },
            None => None,
        }
    }

    /// Whether an entry is filed under `key`.
    pub fn has(&self, key: DataKey) -> (yes: bool)
        ensures
            yes == self@.contains_key(key),
    {
        match self.find(key) {
            Some(_) => true,
            None => false,
        }
    }

    /// Files `value` under `key`, in place of what was there.
    pub fn set(&mut self, key: DataKey, value: V)
        ensures
            final(self)@ == old(self)@.insert(key, value),
    {
        proof {
            use_type_invariant(&*self);
        }
        let ghost before = self.rows@;
        let found = self.find(key);
        let mut rows: Vec<(DataKey, V)> = Vec::new();
        std::mem::swap(&mut rows, &mut self.rows);
        match found {
            Some(i) => {
                rows.set(i, (key, value));
            },
            None => {
                rows.push((key, value));
            },
        }
        proof {
            let after = rows@;
            let at: int = match found {
                Some(i) => i as int,
                None => before.len() as int,
            };
            assert(forall|i: int| 0 <= i < before.len() && i != at ==> !row_holds(before, i, key));
            assert forall|i: int, j: int|
                0 <= i < after.len() && 0 <= j < after.len() && i != j implies (
            #[trigger] after[i]).0 != (#[trigger] after[j]).0 by {
                if i != at {
                    assert(after[i] == before[i] && !row_holds(before, i, key));
                }
                if j != at {
                    assert(after[j] == before[j] && !row_holds(before, j, key));
                }
            }
            lemma_row(after, at);
            assert forall|k: DataKey| k != key implies (#[trigger] rows_map(after).dom().contains(k)
                <==> rows_map(before).dom().contains(k)) && (rows_map(before).dom().contains(k)
                ==> rows_map(after)[k] == rows_map(before)[k]) by {
                if rows_map(before).dom().contains(k) {
                    let i = choose|i: int| row_holds(before, i, k);
                    assert(after[i] == before[i]);
                    lemma_row(before, i);
                    lemma_row(after, i);
                }
                if rows_map(after).dom().contains(k) {
                    let i = choose|i: int| row_holds(after, i, k);
                    assert(row_holds(before, i, k));
                }
            }
            assert(rows_map(after) =~= rows_map(before).insert(key, value));
        }
        self.rows = rows;
    }

    /// Drops the entry filed under `key`, if there is one.
    pub fn remove(&mut self, key: DataKey)
        ensures
            final(self)@ == old(self)@.remove(key),
    {
        proof {
            use_type_invariant(&*self);
        }
        let ghost before = self.rows@;
        let found = self.find(key);
        let mut rows: Vec<(DataKey, V)> = Vec::new();
        std::mem::swap(&mut rows, &mut self.rows);
        if let Some(i) = found {
            rows.remove(i);
        }
        proof {
            let after = rows@;
            assert(distinct(after));
            assert forall|k: DataKey|
                (#[trigger] rows_map(after).dom().contains(k) <==> k != key && rows_map(
                    before,
                ).dom().contains(k)) && (rows_map(after).dom().contains(k) ==> rows_map(after)[k]
                    == rows_map(before)[k]) by {
                if k != key && rows_map(before).dom().contains(k) {
                    let i = choose|i: int| row_holds(before, i, k);
                    let j = match found {
                        Some(at) => if i < at {
                            i
                        } else {
                            i - 1
                        },
                        None => i,
                    };
                    assert(after[j] == before[i]);
                    lemma_row(before, i);
                    lemma_row(after, j);
                }
                if rows_map(after).dom().contains(k) {
                    let j = choose|j: int| row_holds(after, j, k);
                    let i = match found {
                        Some(at) => if j < at {
                            j
                        } else {
                            j + 1
                        },
                        None => j,
                    };
                    assert(before[i] == after[j]);
                    assert(row_holds(before, i, k));
                }
            }
            assert(rows_map(after) =~= rows_map(before).remove(key));
        }
        self.rows = rows;
    }
}

} // verus!
