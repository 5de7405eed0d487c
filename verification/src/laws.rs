//! The library-wide laws, proved once over the store's spec-level
//! mutations. Contiguity itself (ids equal `1..=N` after every mutation) is
//! stated directly on the mutators: each `ensures final(self).wf()`.

use vstd::prelude::*;

use crate::store::deleted;
use crate::store::ids_contiguous;
use crate::store::toggled;
use crate::store::updated;
use crate::todo::Todo;

verus! {

/// Toggling the same id twice restores the collection exactly: the
/// matching item's `completed` flag returns to its original value, and no
/// other field or item is ever touched.
pub proof fn lemma_toggle_idempotent(s: Seq<Todo>, id: int)
    ensures
        toggled(toggled(s, id), id) == s,
{
    if 1 <= id <= s.len() {
        assert(toggled(toggled(s, id), id) =~= s);
    }
}

/// An update changes only the text fields of the matching item: its id and
/// completion flag, and every field of every other item, are unchanged.
pub proof fn lemma_update_isolation(s: Seq<Todo>, id: int, name: String, description: String)
    ensures
        updated(s, id, name, description).len() == s.len(),
        forall|j: int|
            0 <= j < s.len() && j != id - 1 ==> updated(s, id, name, description)[j] == s[j],
        1 <= id <= s.len() ==> {
            &&& updated(s, id, name, description)[id - 1].id == s[id - 1].id
            &&& updated(s, id, name, description)[id - 1].completed == s[id - 1].completed
            &&& updated(s, id, name, description)[id - 1].name == name
            &&& updated(s, id, name, description)[id - 1].description == description
        },
{
}

/// On a contiguous collection, an id that no item carries leaves toggle,
/// update and delete all as exact no-ops.
pub proof fn lemma_missing_id_no_op(s: Seq<Todo>, id: int, name: String, description: String)
    requires
        ids_contiguous(s),
        forall|j: int| 0 <= j < s.len() ==> (#[trigger] s[j]).id != id,
    ensures
        toggled(s, id) == s,
        updated(s, id, name, description) == s,
        deleted(s, id) == s,
{
    if 1 <= id <= s.len() {
        assert(s[id - 1].id == id);
    }
}

} // verus!
