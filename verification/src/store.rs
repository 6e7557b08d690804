use vstd::prelude::*;

use crate::record::{FormRecord, RecordData};

verus! {

/// The contents of a sequence of rows as a mathematical map from primary
/// key to row, later rows winning on a repeated key.
pub open spec fn table_of(rows: Seq<FormRecord>) -> Map<Seq<char>, RecordData>
    decreases rows.len(),
{
    if rows.len() == 0 {
        Map::empty()
    } else {
        table_of(rows.drop_last()).insert(rows.last()@.user_id, rows.last()@)
    }
}

/// Pairwise-distinct primary keys.
pub open spec fn keys_distinct(rows: Seq<FormRecord>) -> bool {
    forall|i: int, j: int|
        0 <= i < j < rows.len() ==> rows[i]@.user_id != rows[j]@.user_id
}

/// A key is in the table exactly when some row carries it.
proof fn lemma_table_of_dom(rows: Seq<FormRecord>, k: Seq<char>)
    ensures
        table_of(rows).contains_key(k) <==> exists|i: int|
            0 <= i < rows.len() && rows[i]@.user_id == k,
    decreases rows.len(),
{
    if rows.len() > 0 {
        lemma_table_of_dom(rows.drop_last(), k);
        if rows.last()@.user_id == k {
            assert(rows[rows.len() - 1]@.user_id == k);
        } else if table_of(rows).contains_key(k) {
            let i = choose|i: int| 0 <= i < rows.drop_last().len() && rows.drop_last()[i]@.user_id
                == k;
            assert(rows[i]@.user_id == k);
        } else {
            assert(forall|i: int| 0 <= i < rows.len() ==> rows[i]@.user_id != k) by {
                assert(forall|i: int|
                    0 <= i < rows.len() - 1 ==> rows[i]@.user_id == rows.drop_last()[i]@.user_id);
            }
        }
    }
}

/// With distinct keys, the table maps each row's key to that row.
proof fn lemma_table_of_get(rows: Seq<FormRecord>, i: int)
    requires
        keys_distinct(rows),
        0 <= i < rows.len(),
    ensures
        table_of(rows).contains_key(rows[i]@.user_id),
        table_of(rows)[rows[i]@.user_id] == rows[i]@,
    decreases rows.len(),
{
    if i == rows.len() - 1 {
        assert(rows.last() == rows[i]);
    } else {
        assert(keys_distinct(rows.drop_last())) by {
            assert(forall|m: int|
                0 <= m < rows.len() - 1 ==> rows.drop_last()[m] == rows[m]);
        }
        lemma_table_of_get(rows.drop_last(), i);
        assert(rows.drop_last()[i] == rows[i]);
        assert(rows[i]@.user_id != rows.last()@.user_id);
    }
}

/// Replacing the row that carries a key updates the table at that key
/// and nothing else.
proof fn lemma_table_of_update(rows: Seq<FormRecord>, i: int, rec: FormRecord)
    requires
        keys_distinct(rows),
        0 <= i < rows.len(),
        rows[i]@.user_id == rec@.user_id,
    ensures
        table_of(rows.update(i, rec)) == table_of(rows).insert(rec@.user_id, rec@),
    decreases rows.len(),
{
    let updated = rows.update(i, rec);
    if i == rows.len() - 1 {
        assert(updated.drop_last() =~= rows.drop_last());
        assert(updated.last() == rec);
        assert(table_of(rows).insert(rec@.user_id, rec@) =~= table_of(
            rows.drop_last(),
        ).insert(rows.last()@.user_id, rows.last()@).insert(rec@.user_id, rec@));
        assert(table_of(rows.drop_last()).insert(rows.last()@.user_id, rows.last()@).insert(
            rec@.user_id,
            rec@,
        ) =~= table_of(rows.drop_last()).insert(rec@.user_id, rec@));
    } else {
        assert(keys_distinct(rows.drop_last())) by {
            assert(forall|m: int|
                0 <= m < rows.len() - 1 ==> rows.drop_last()[m] == rows[m]);
        }
        assert(rows.drop_last()[i] == rows[i]);
        lemma_table_of_update(rows.drop_last(), i, rec);
        assert(updated.drop_last() =~= rows.drop_last().update(i, rec));
        assert(updated.last() == rows.last());
        // the replaced key differs from the last row's key, so the two
        // inserts commute
        assert(rec@.user_id != rows.last()@.user_id);
        assert(table_of(rows.drop_last()).insert(rec@.user_id, rec@).insert(
            rows.last()@.user_id,
            rows.last()@,
        ) =~= table_of(rows.drop_last()).insert(rows.last()@.user_id, rows.last()@).insert(
            rec@.user_id,
            rec@,
        ));
    }
}

/// An in-memory image of the `form_data` table: rows with pairwise
/// distinct `user_id` primary keys, viewed as a map from key to row.
pub struct FormStore {
    rows: Vec<FormRecord>,
}

impl View for FormStore {
    type V = Map<Seq<char>, RecordData>;

    closed spec fn view(&self) -> Map<Seq<char>, RecordData> {
        table_of(self.rows@)
    }
}

impl FormStore {
    /// The primary-key invariant: no two rows share a `user_id`.
    pub closed spec fn wf(&self) -> bool {
        keys_distinct(self.rows@)
    }

    /// An empty table.
    pub fn new() -> (s: FormStore)
        ensures
            s.wf(),
            s@ == Map::<Seq<char>, RecordData>::empty(),
    {
        FormStore { rows: Vec::new() }
    }

    /// The index of the row keyed by `user_id`, if any.
    fn index_of(&self, user_id: &String) -> (r: Option<usize>)
        ensures
            match r {
                Some(i) => i < self.rows@.len() && self.rows@[i as int]@.user_id == user_id@,
                None => forall|i: int|
                    0 <= i < self.rows@.len() ==> self.rows@[i]@.user_id != user_id@,
            },
    {
        let n = self.rows.len();
        let mut i: usize = 0;
        while i < n
            invariant
                0 <= i <= n,
                n == self.rows@.len(),
                forall|j: int| 0 <= j < i ==> self.rows@[j]@.user_id != user_id@,
            decreases n - i,
        {
            if self.rows[i].user_id == *user_id {
                return Some(i);
            }
            i = i + 1;
        }
        None
    }

    /// Insert-or-replace: afterwards the table maps `rec`'s key to `rec`
    /// and is elsewhere unchanged.
    pub fn upsert(&mut self, rec: FormRecord)
        requires
            old(self).wf(),
        ensures
            final(self).wf(),
            final(self)@ == old(self)@.insert(rec@.user_id, rec@),
    {
        let found = self.index_of(&rec.user_id);
        match found {
            Some(i) => {
                proof {
                    lemma_table_of_update(self.rows@, i as int, rec);
                }
                let ghost old_rows = self.rows@;
                self.rows[i] = rec;
                assert(self.rows@ =~= old_rows.update(i as int, rec));
            }
            None => {
                let ghost old_rows = self.rows@;
                self.rows.push(rec);
                assert(self.rows@.drop_last() =~= old_rows);
                assert(keys_distinct(self.rows@)) by {
                    assert(forall|m: int|
                        0 <= m < old_rows.len() ==> self.rows@[m] == old_rows[m]);
                }
            }
        }
    }

    /// Lookup by primary key: the stored row, whose key equals the one
    /// asked for, or `None` when the key was never written.
    pub fn find(&self, user_id: &String) -> (r: Option<&FormRecord>)
        requires
            self.wf(),
        ensures
            match r {
                Some(rec) => self@.contains_key(user_id@) && rec@ == self@[user_id@]
                    && rec@.user_id == user_id@,
                None => !self@.contains_key(user_id@),
            },
    {
        proof {
            lemma_table_of_dom(self.rows@, user_id@);
        }
        let found = self.index_of(user_id);
        match found {
            Some(i) => {
                proof {
                    lemma_table_of_get(self.rows@, i as int);
                }
                Some(&self.rows[i])
            }
            None => None,
        }
    }
}

} // verus!
