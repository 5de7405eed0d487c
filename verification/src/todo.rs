//! The todo item itself, its sentinel value, and the spec-level field
//! updates that the store's contracts are written over.

use vstd::prelude::*;

verus! {

/// One todo item. `id` is 1 + the item's position in the store; the store
/// re-establishes that after every structural change. `id == -1` is a
/// reserved sentinel that no stored item ever carries: a lookup that finds
/// nothing returns the sentinel item instead of failing.
#[derive(Debug, PartialEq)]
pub struct Todo {
    pub id: i32,
    pub name: String,
    pub description: String,
    pub completed: bool,
}

impl Todo {
    /// The sentinel item: id -1, empty text fields, not completed.
    pub open spec fn is_sentinel(self) -> bool {
        &&& self.id == -1
        &&& self.name@ == Seq::<char>::empty()
        &&& self.description@ == Seq::<char>::empty()
        &&& !self.completed
    }

    /// Builds the sentinel item, the stand-in for "not found".
    pub fn new() -> (r: Todo)
        ensures
            r.is_sentinel(),
    {
        Todo { id: -1, name: String::new(), description: String::new(), completed: false }
    }
}

impl Clone for Todo {
    /// A clone is equal to the original, field for field.
    fn clone(&self) -> (r: Todo)
        ensures
            r == *self,
    {
        Todo {
            id: self.id,
            name: self.name.clone(),
            description: self.description.clone(),
            completed: self.completed,
        }
    }
}

/// `t` with its `completed` flag replaced; everything else kept.
pub open spec fn with_completed(t: Todo, completed: bool) -> Todo {
    Todo { id: t.id, name: t.name, description: t.description, completed }
}

/// `t` with its text fields replaced; `id` and `completed` kept.
pub open spec fn with_fields(t: Todo, name: String, description: String) -> Todo {
    Todo { id: t.id, name, description, completed: t.completed }
}

/// `t` with its id replaced; everything else kept.
pub open spec fn with_id(t: Todo, id: int) -> Todo {
    Todo { id: id as i32, name: t.name, description: t.description, completed: t.completed }
}

} // verus!
