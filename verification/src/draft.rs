//! Uncommitted form text.
//!
//! A draft is a snapshot taken once when a form opens — it does not track
//! later store mutations — and it is written back to the store only on
//! submit (add form) or save (edit form); otherwise it is discarded.

use vstd::prelude::*;

use crate::todo::Todo;

verus! {

/// The editable text fields of one open form.
pub struct DraftBuffer {
    pub name: String,
    pub description: String,
}

impl DraftBuffer {
    /// An empty draft, as the add form starts (and restarts after submit).
    pub fn new() -> (r: DraftBuffer)
        ensures
            r.name@ == Seq::<char>::empty(),
            r.description@ == Seq::<char>::empty(),
    {
        DraftBuffer { name: String::new(), description: String::new() }
    }

    /// The one-shot copy taken when the edit form opens: the item's current
    /// text fields, frozen into the draft.
    pub fn from_todo(t: &Todo) -> (r: DraftBuffer)
        ensures
            r.name == t.name,
            r.description == t.description,
    {
        DraftBuffer { name: t.name.clone(), description: t.description.clone() }
    }

    /// A keystroke in the name field: the draft's name becomes the field's
    /// current text.
    pub fn set_name(&mut self, name: String)
        ensures
            final(self).name == name,
            final(self).description == old(self).description,
    {
        self.name = name;
    }

    /// A keystroke in the description field.
    pub fn set_description(&mut self, description: String)
        ensures
            final(self).name == old(self).name,
            final(self).description == description,
    {
        self.description = description;
    }
}

} // verus!
