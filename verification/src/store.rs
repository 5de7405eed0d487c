//! The ordered collection of todo items and its mutations.
//!
//! The store's invariant (`ids_contiguous`) is that the ids of the live
//! collection are exactly `1..=N` in order, `N` being the current length.
//! Appending keeps that for free; deletion restores it by re-indexing every
//! remaining item. Operations that are handed an absent id are no-ops; a
//! lookup with an absent id returns the sentinel item.

use vstd::prelude::*;

use crate::todo::Todo;
use crate::todo::with_completed;
use crate::todo::with_fields;
use crate::todo::with_id;

verus! {

/// Invariant I1: the ids of `s` are the contiguous sequence `1..=len`,
/// i.e. each item's id equals 1 + its position.
pub open spec fn ids_contiguous(s: Seq<Todo>) -> bool {
    forall|i: int| 0 <= i < s.len() ==> (#[trigger] s[i]).id == i + 1
}

/// The item appended by `add` on a collection `s`: next dense id, the given
/// text fields, not completed.
pub open spec fn appended(s: Seq<Todo>, name: String, description: String) -> Todo {
    Todo { id: (s.len() + 1) as i32, name, description, completed: false }
}

/// What `toggle_completed(id)` leaves behind: under `ids_contiguous`, the
/// item with id `id` sits at position `id - 1`; an absent id changes nothing.
pub open spec fn toggled(s: Seq<Todo>, id: int) -> Seq<Todo> {
    if 1 <= id <= s.len() {
        s.update(id - 1, with_completed(s[id - 1], !s[id - 1].completed))
    } else {
        s
    }
}

/// What `update_fields(id, name, description)` leaves behind: only the text
/// fields of the matching item change; an absent id changes nothing.
pub open spec fn updated(s: Seq<Todo>, id: int, name: String, description: String) -> Seq<Todo> {
    if 1 <= id <= s.len() {
        s.update(id - 1, with_fields(s[id - 1], name, description))
    } else {
        s
    }
}

/// `s` with every item's id reset to 1 + its position.
pub open spec fn reindexed(s: Seq<Todo>) -> Seq<Todo> {
    Seq::new(s.len(), |i: int| with_id(s[i], i + 1))
}

/// What `delete(id)` leaves behind: the matching item removed and the rest
/// re-indexed densely; an absent id changes nothing.
pub open spec fn deleted(s: Seq<Todo>, id: int) -> Seq<Todo> {
    if 1 <= id <= s.len() {
        reindexed(s.remove(id - 1))
    } else {
        s
    }
}

/// The ordered collection of todo items.
pub struct TodoStore {
    pub todos: Vec<Todo>,
}

impl View for TodoStore {
    type V = Seq<Todo>;

    open spec fn view(&self) -> Seq<Todo> {
        self.todos@
    }
}

impl TodoStore {
    /// The store's invariant: ids are dense, `1..=N` in order.
    pub open spec fn wf(self) -> bool {
        ids_contiguous(self@)
    }

    /// An empty store.
    pub fn new() -> (r: TodoStore)
        ensures
            r@ == Seq::<Todo>::empty(),
            r.wf(),
    {
        TodoStore { todos: Vec::new() }
    }

    /// The current number of items.
    pub fn len(&self) -> (n: usize)
        ensures
            n == self@.len(),
    {
        self.todos.len()
    }

    /// Read-only view of the collection for rendering.
    pub fn snapshot(&self) -> (r: &Vec<Todo>)
        ensures
            r@ == self@,
    {
        &self.todos
    }

    /// Appends a new item with the next dense id and `completed == false`,
    /// and returns a copy of it. Never fails; appending cannot break id
    /// contiguity.
    pub fn add(&mut self, name: String, description: String) -> (r: Todo)
        requires
            old(self).wf(),
            old(self)@.len() + 1 <= i32::MAX,
        ensures
            final(self).wf(),
            final(self)@ == old(self)@.push(appended(old(self)@, name, description)),
            r == final(self)@.last(),
    {
        let id: i32 = (self.todos.len() as i32) + 1;
        let item = Todo { id, name, description, completed: false };
        let r = item.clone();
        self.todos.push(item);
        proof {
            assert forall|i: int| 0 <= i < self@.len() implies (#[trigger] self@[i]).id == i
                + 1 by {
                if i < old(self)@.len() {
                    assert(self@[i] == old(self)@[i]);
                }
            }
        }
        r
    }

    /// Flips `completed` on the item whose id is `id`; a silent no-op when
    /// no item matches. Toggling twice restores the original state.
    pub fn toggle_completed(&mut self, id: i32)
        requires
            old(self).wf(),
        ensures
            final(self).wf(),
            final(self)@ == toggled(old(self)@, id as int),
    {
        if 1 <= id && (id as usize) <= self.todos.len() {
            let i: usize = (id as usize) - 1;
            let e: &mut Todo = &mut self.todos[i];
            e.completed = !e.completed;
        }
    }

    /// Replaces `name` and `description` on the item whose id is `id`,
    /// leaving its id and completion flag alone; a silent no-op when no
    /// item matches.
    pub fn update_fields(&mut self, id: i32, name: String, description: String)
        requires
            old(self).wf(),
        ensures
            final(self).wf(),
            final(self)@ == updated(old(self)@, id as int, name, description),
    {
        if 1 <= id && (id as usize) <= self.todos.len() {
            let i: usize = (id as usize) - 1;
            let e: &mut Todo = &mut self.todos[i];
            e.name = name;
            e.description = description;
        }
    }

    /// Removes the item whose id is `id` (a silent no-op when none matches)
    /// and re-indexes the remaining items to restore dense ids. The
    /// re-index runs on every deletion, not only when a gap is detected.
    pub fn delete(&mut self, id: i32)
        requires
            old(self).wf(),
        ensures
            final(self).wf(),
            final(self)@ == deleted(old(self)@, id as int),
    {
        if 1 <= id && (id as usize) <= self.todos.len() {
            proof {
                assert(old(self)@[old(self)@.len() - 1].id == old(self)@.len());
            }
            let i: usize = (id as usize) - 1;
            self.todos.remove(i);
            reassign_indexes(&mut self.todos);
        }
    }

    /// Linear scan for the item whose id is `id`; returns a copy of it, or
    /// the sentinel item (id -1, empty fields) when no item matches.
    /// Callers must treat a sentinel result as "not found".
    pub fn find_by_id(&self, id: i32) -> (r: Todo)
        requires
            self.wf(),
        ensures
            1 <= id <= self@.len() ==> r == self@[id - 1],
            !(1 <= id <= self@.len()) ==> r.is_sentinel(),
    {
        let mut selected: Todo = Todo::new();
        let n: usize = self.todos.len();
        for j in 0..n
            invariant
                self.wf(),
                n == self@.len(),
                1 <= id <= j ==> selected == self@[id - 1],
                !(1 <= id <= j) ==> selected.is_sentinel(),
        {
            if self.todos[j].id == id {
                selected = self.todos[j].clone();
            }
        }
        selected
    }
}

/// Resets every item's id to 1 + its position, preserving relative order
/// and all other fields.
pub fn reassign_indexes(todos: &mut Vec<Todo>)
    requires
        old(todos)@.len() <= i32::MAX,
    ensures
        final(todos)@ == reindexed(old(todos)@),
{
    let ghost orig = todos@;
    let n: usize = todos.len();
    for j in 0..n
        invariant
            todos@.len() == orig.len(),
            n == orig.len(),
            n <= i32::MAX,
            forall|k: int| 0 <= k < j ==> todos@[k] == with_id(orig[k], k + 1),
            forall|k: int| j <= k < n ==> todos@[k] == orig[k],
    {
        let e: &mut Todo = &mut todos[j];
        e.id = (j as i32) + 1;
    }
    proof {
        assert(todos@ =~= reindexed(orig));
    }
}

} // verus!
