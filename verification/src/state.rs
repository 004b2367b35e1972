//! The registry's state model: configuration, id counter and entry collection,
//! together with the spec-level functions that the operation contracts use.

use vstd::prelude::*;

verus! {

/// Workflow position of an entry. Any value may be set from any other; there
/// is no enforced transition order.
#[derive(Clone, Copy, Debug, PartialEq, Eq, Structural)]
pub enum Status {
    ToDo,
    InProgress,
    Done,
    Cancelled,
}

/// Urgency of an entry. Creation defaults to `High` when none is supplied.
#[derive(Clone, Copy, Debug, PartialEq, Eq, Structural)]
pub enum Priority {
    NoPriority,
    Low,
    Medium,
    High,
}

/// A single work item held by the registry.
#[derive(Debug, PartialEq)]
pub struct Entry {
    pub id: u64,
    pub description: String,
    pub status: Status,
    pub priority: Priority,
}

impl Clone for Entry {
    /// The clone keeps every field, so it equals the original.
    fn clone(&self) -> (res: Self)
        ensures
            res == *self,
    {
        Entry {
            id: self.id,
            description: self.description.clone(),
            status: self.status,
            priority: self.priority,
        }
    }
}

/// Singleton configuration: the identity allowed to mutate the registry.
#[derive(Debug, PartialEq)]
pub struct Config {
    pub owner: String,
}

/// The registry's durable state, handed to every operation as an explicit
/// handle: the configuration, the last-allocated entry id, and the live
/// entries ordered ascending by id.
#[derive(Debug)]
pub struct Store {
    pub config: Config,
    pub entry_seq: u64,
    pub entries: Vec<Entry>,
}

impl Store {
    /// Well-formedness: every live id was allocated by the counter
    /// (`1..=entry_seq`) and the collection ascends strictly by id, so ids
    /// are unique and never reused ahead of the counter.
    pub open spec fn wf(self) -> bool {
        &&& forall|i: int|
            0 <= i < self.entries@.len() ==> 1 <= (#[trigger] self.entries@[i]).id
                <= self.entry_seq
        &&& sorted_by_id(self.entries@)
    }
}

/// Entry ids strictly increase along the collection.
pub open spec fn sorted_by_id(s: Seq<Entry>) -> bool {
    forall|i: int, j: int| 0 <= i < j < s.len() ==> (#[trigger] s[i]).id < (#[trigger] s[j]).id
}

/// Some live entry carries the given id.
pub open spec fn has_id(s: Seq<Entry>, id: u64) -> bool {
    exists|i: int| 0 <= i < s.len() && (#[trigger] s[i]).id == id
}

/// The index holding the given id; meaningful when `has_id` holds, and then
/// unique for a collection with strictly ascending ids.
pub open spec fn idx_of_id(s: Seq<Entry>, id: u64) -> int {
    choose|i: int| 0 <= i < s.len() && (#[trigger] s[i]).id == id
}

/// The live entry carrying the given id; meaningful when `has_id` holds.
pub open spec fn entry_of_id(s: Seq<Entry>, id: u64) -> Entry {
    s[idx_of_id(s, id)]
}

/// Field-wise merge of a partial update: a supplied field replaces the stored
/// one, an omitted field keeps it; the id is never part of the patch.
pub open spec fn merge_entry(
    e: Entry,
    description: Option<String>,
    status: Option<Status>,
    priority: Option<Priority>,
) -> Entry {
    Entry {
        id: e.id,
        description: match description {
            Some(d) => d,
            None => e.description,
        },
        status: match status {
            Some(st) => st,
            None => e.status,
        },
        priority: match priority {
            Some(p) => p,
            None => e.priority,
        },
    }
}

/// The collection after deleting `id`: unchanged when the id is absent,
/// otherwise with that one entry removed.
pub open spec fn delete_result(s: Seq<Entry>, id: u64) -> Seq<Entry> {
    if has_id(s, id) {
        s.remove(idx_of_id(s, id))
    } else {
        s
    }
}

/// The collection after a partial update of entry `id`; meaningful when
/// `has_id` holds.
pub open spec fn update_result(
    s: Seq<Entry>,
    id: u64,
    description: Option<String>,
    status: Option<Status>,
    priority: Option<Priority>,
) -> Seq<Entry> {
    s.update(idx_of_id(s, id), merge_entry(entry_of_id(s, id), description, status, priority))
}

/// Largest page a single list query will return.
pub const MAX_LIMIT: u32 = 30;

/// Page size of a list query that names none.
pub const DEFAULT_LIMIT: u32 = 10;

/// The number of leading entries whose id does not exceed `bound`; for an
/// ascending collection, the index where the page strictly after `bound`
/// begins.
pub open spec fn first_above(s: Seq<Entry>, bound: u64) -> int
    decreases s.len(),
{
    if s.len() == 0 {
        0
    } else if s.first().id > bound {
        0
    } else {
        1 + first_above(s.drop_first(), bound)
    }
}

/// `first_above` is what a left-to-right scan finds: the first index whose
/// id exceeds the bound, with everything before it at or below the bound.
pub proof fn lemma_first_above_is_scan(s: Seq<Entry>, bound: u64, k: int)
    requires
        0 <= k <= s.len(),
        forall|j: int| 0 <= j < k ==> (#[trigger] s[j]).id <= bound,
        k == s.len() || s[k].id > bound,
    ensures
        first_above(s, bound) == k,
    decreases s.len(),
{
    if s.len() == 0 {
    } else if k == 0 {
    } else {
        assert(s[0].id <= bound);
        let t = s.drop_first();
        assert forall|j: int| 0 <= j < k - 1 implies (#[trigger] t[j]).id <= bound by {
            assert(t[j] == s[j + 1]);
        }
        assert(k - 1 == t.len() || t[k - 1].id > bound);
        lemma_first_above_is_scan(t, bound, k - 1);
    }
}

/// In a strictly ascending collection, at most one index holds a given id.
pub proof fn lemma_sorted_id_index_unique(s: Seq<Entry>, i: int, j: int)
    requires
        sorted_by_id(s),
        0 <= i < s.len(),
        0 <= j < s.len(),
        s[i].id == s[j].id,
    ensures
        i == j,
{
    if i < j {
        assert(s[i].id < s[j].id);
    } else if j < i {
        assert(s[j].id < s[i].id);
    }
}

/// A partial update that supplies no field leaves the entry identical.
pub proof fn lemma_merge_omission_identity(e: Entry)
    ensures
        merge_entry(e, None::<String>, None::<Status>, None::<Priority>) == e,
{
}

/// A partial update of a present id that supplies no field leaves the whole
/// collection identical.
pub proof fn lemma_update_omission_identity(s: Seq<Entry>, id: u64)
    requires
        has_id(s, id),
    ensures
        update_result(s, id, None::<String>, None::<Status>, None::<Priority>) == s,
{
    lemma_merge_omission_identity(entry_of_id(s, id));
    assert(update_result(s, id, None::<String>, None::<Status>, None::<Priority>) =~= s);
}

/// Deleting is idempotent: after one delete the id is gone, and deleting the
/// same id again (or an id that was never present) changes nothing.
pub proof fn lemma_delete_idempotent(s: Seq<Entry>, id: u64)
    requires
        sorted_by_id(s),
    ensures
        !has_id(delete_result(s, id), id),
        delete_result(delete_result(s, id), id) == delete_result(s, id),
{
    if has_id(s, id) {
        let i = idx_of_id(s, id);
        assert(0 <= i < s.len() && s[i].id == id);
        let t = s.remove(i);
        assert forall|j: int| 0 <= j < t.len() implies (#[trigger] t[j]).id != id by {
            if j < i {
                if t[j].id == id {
                    lemma_sorted_id_index_unique(s, j, i);
                }
            } else {
                if t[j].id == id {
                    lemma_sorted_id_index_unique(s, j + 1, i);
                }
            }
        }
    }
}

} // verus!
