use vstd::prelude::*;

use crate::record::RecordData;

verus! {

/// Overwrite law: saving twice under one identifier leaves the table as
/// if only the second save had happened — the second snapshot replaces
/// the first whole, with no merge of old and new field values.
pub proof fn lemma_overwrite(
    table: Map<Seq<char>, RecordData>,
    id: Seq<char>,
    first: RecordData,
    second: RecordData,
)
    ensures
        table.insert(id, first).insert(id, second) == table.insert(id, second),
{
    assert(table.insert(id, first).insert(id, second) =~= table.insert(id, second));
}

/// Round-trip law: straight after a save, a load of the saved identifier
/// finds exactly the saved snapshot, and every other identifier's entry
/// is as it was.
pub proof fn lemma_save_then_load(table: Map<Seq<char>, RecordData>, rec: RecordData)
    ensures
        table.insert(rec.user_id, rec).contains_key(rec.user_id),
        table.insert(rec.user_id, rec)[rec.user_id] == rec,
        forall|k: Seq<char>|
            k != rec.user_id ==> table.insert(rec.user_id, rec).contains_key(k)
                == table.contains_key(k),
        forall|k: Seq<char>|
            k != rec.user_id && table.contains_key(k) ==> table.insert(rec.user_id, rec)[k]
                == table[k],
{
}

/// Racing saves to one identifier: in whichever order the two upserts
/// commit, the table afterwards holds one of the two snapshots whole —
/// never a mixture of fields from both.
pub proof fn lemma_racing_saves(
    table: Map<Seq<char>, RecordData>,
    id: Seq<char>,
    a: RecordData,
    b: RecordData,
)
    ensures
        table.insert(id, a).insert(id, b)[id] == b,
        table.insert(id, b).insert(id, a)[id] == a,
{
}

} // verus!
