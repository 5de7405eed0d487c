//! The whole application state and its user-input events.
//!
//! `TodoApp` owns the store, the view state machine, the always-present add
//! draft, and — only while the editing view is open — an edit draft. Each
//! public method is one user-input event: it runs to completion, mutating
//! exactly this state, before the next event arrives. A renderer outside
//! the library reads `snapshot`/`nav_state`/the drafts and forwards events
//! back in; no logic lives out there.

use vstd::prelude::*;

use crate::draft::DraftBuffer;
use crate::nav::NavState;
use crate::nav::NavigationController;
use crate::store::TodoStore;
use crate::store::appended;
use crate::store::deleted;
use crate::store::toggled;
use crate::store::updated;
use crate::todo::Todo;

verus! {

/// All mutable state of the application, one field per logical owner.
pub struct TodoApp {
    pub store: TodoStore,
    pub nav: NavigationController,
    pub add_draft: DraftBuffer,
    pub edit_draft: Option<DraftBuffer>,
}

impl TodoApp {
    /// The application's invariant: the store's ids are dense, and an edit
    /// draft exists exactly while the editing view is open.
    pub open spec fn wf(self) -> bool {
        &&& self.store.wf()
        &&& (self.nav.state is EditingItem <==> self.edit_draft is Some)
    }

    /// A fresh application: empty store, list view, empty add draft, no
    /// edit draft.
    pub fn new() -> (r: TodoApp)
        ensures
            r.wf(),
            r.store@ == Seq::<Todo>::empty(),
            r.nav.state == NavState::ListView,
            r.add_draft.name@ == Seq::<char>::empty(),
            r.add_draft.description@ == Seq::<char>::empty(),
            r.edit_draft is None,
    {
        TodoApp {
            store: TodoStore::new(),
            nav: NavigationController::new(),
            add_draft: DraftBuffer::new(),
            edit_draft: None,
        }
    }

    /// The collection, for rendering.
    pub fn snapshot(&self) -> (r: &Vec<Todo>)
        ensures
            r@ == self.store@,
    {
        self.store.snapshot()
    }

    /// The current view tag, for rendering.
    pub fn nav_state(&self) -> (s: NavState)
        ensures
            s == self.nav.state,
    {
        self.nav.current()
    }

    /// A keystroke in the add form's name field.
    pub fn add_name_input(&mut self, text: String)
        requires
            old(self).wf(),
        ensures
            final(self).wf(),
            final(self).add_draft.name == text,
            final(self).add_draft.description == old(self).add_draft.description,
            final(self).store == old(self).store,
            final(self).nav == old(self).nav,
            final(self).edit_draft == old(self).edit_draft,
    {
        self.add_draft.set_name(text);
    }

    /// A keystroke in the add form's description field.
    pub fn add_description_input(&mut self, text: String)
        requires
            old(self).wf(),
        ensures
            final(self).wf(),
            final(self).add_draft.name == old(self).add_draft.name,
            final(self).add_draft.description == text,
            final(self).store == old(self).store,
            final(self).nav == old(self).nav,
            final(self).edit_draft == old(self).edit_draft,
    {
        self.add_draft.set_description(text);
    }

    /// The add form's submit button: appends a new item built from the add
    /// draft, then resets the draft to empty. Empty text is accepted; there
    /// is no validation.
    pub fn add_submit(&mut self)
        requires
            old(self).wf(),
            old(self).store@.len() + 1 <= i32::MAX,
        ensures
            final(self).wf(),
            final(self).store@ == old(self).store@.push(
                appended(old(self).store@, old(self).add_draft.name, old(self).add_draft.description),
            ),
            final(self).add_draft.name@ == Seq::<char>::empty(),
            final(self).add_draft.description@ == Seq::<char>::empty(),
            final(self).nav == old(self).nav,
            final(self).edit_draft == old(self).edit_draft,
    {
        let name = self.add_draft.name.clone();
        let description = self.add_draft.description.clone();
        self.store.add(name, description);
        self.add_draft = DraftBuffer::new();
    }

    /// A list entry was clicked: enter the editing view for that id and
    /// take the one-shot draft copy of the item's current text. Selecting
    /// an absent id is tolerated: the lookup yields the sentinel item, so
    /// the draft opens empty.
    pub fn select(&mut self, id: i32)
        requires
            old(self).wf(),
        ensures
            final(self).wf(),
            final(self).store == old(self).store,
            final(self).add_draft == old(self).add_draft,
            final(self).nav.state == NavState::EditingItem(id),
            final(self).edit_draft is Some,
            1 <= id <= old(self).store@.len() ==> {
                &&& final(self).edit_draft->0.name == old(self).store@[id - 1].name
                &&& final(self).edit_draft->0.description == old(self).store@[id - 1].description
            },
            !(1 <= id <= old(self).store@.len()) ==> {
                &&& final(self).edit_draft->0.name@ == Seq::<char>::empty()
                &&& final(self).edit_draft->0.description@ == Seq::<char>::empty()
            },
    {
        let item = self.store.find_by_id(id);
        self.edit_draft = Some(DraftBuffer::from_todo(&item));
        self.nav.select(id);
    }

    /// A keystroke in the edit form's name field.
    pub fn edit_name_input(&mut self, text: String)
        requires
            old(self).wf(),
            old(self).nav.state is EditingItem,
        ensures
            final(self).wf(),
            final(self).edit_draft is Some,
            final(self).edit_draft->0.name == text,
            final(self).edit_draft->0.description == old(self).edit_draft->0.description,
            final(self).store == old(self).store,
            final(self).nav == old(self).nav,
            final(self).add_draft == old(self).add_draft,
    {
        let description = match &self.edit_draft {
            Some(d) => d.description.clone(),
            None => String::new(),
        };
        self.edit_draft = Some(DraftBuffer { name: text, description });
    }

    /// A keystroke in the edit form's description field.
    pub fn edit_description_input(&mut self, text: String)
        requires
            old(self).wf(),
            old(self).nav.state is EditingItem,
        ensures
            final(self).wf(),
            final(self).edit_draft is Some,
            final(self).edit_draft->0.name == old(self).edit_draft->0.name,
            final(self).edit_draft->0.description == text,
            final(self).store == old(self).store,
            final(self).nav == old(self).nav,
            final(self).add_draft == old(self).add_draft,
    {
        let name = match &self.edit_draft {
            Some(d) => d.name.clone(),
            None => String::new(),
        };
        self.edit_draft = Some(DraftBuffer { name, description: text });
    }

    /// The editing view's toggle button: flips the item's completion flag
    /// in the store at once, bypassing the draft and independent of a later
    /// save. A no-op on the store when the edited id no longer exists.
    pub fn edit_toggle(&mut self)
        requires
            old(self).wf(),
            old(self).nav.state is EditingItem,
        ensures
            final(self).wf(),
            final(self).store@ == toggled(old(self).store@, old(self).nav.state->0 as int),
            final(self).nav == old(self).nav,
            final(self).add_draft == old(self).add_draft,
            final(self).edit_draft == old(self).edit_draft,
    {
        let id: i32 = match self.nav.current() {
            NavState::EditingItem(i) => i,
            NavState::ListView => -1,
        };
        self.store.toggle_completed(id);
    }

    /// The edit form's save button: writes the draft's text into the
    /// matching item (a store no-op when the id no longer exists), then
    /// returns to the list view, dropping the draft.
    pub fn edit_save(&mut self)
        requires
            old(self).wf(),
            old(self).nav.state is EditingItem,
        ensures
            final(self).wf(),
            final(self).store@ == updated(
                old(self).store@,
                old(self).nav.state->0 as int,
                old(self).edit_draft->0.name,
                old(self).edit_draft->0.description,
            ),
            final(self).nav.state == NavState::ListView,
            final(self).edit_draft is None,
            final(self).add_draft == old(self).add_draft,
    {
        let id: i32 = match self.nav.current() {
            NavState::EditingItem(i) => i,
            NavState::ListView => -1,
        };
        let (name, description) = match &self.edit_draft {
            Some(d) => (d.name.clone(), d.description.clone()),
            None => (String::new(), String::new()),
        };
        self.store.update_fields(id, name, description);
        self.nav.save_and_close();
        self.edit_draft = None;
    }

    /// The editing view's delete button: removes the matching item (a
    /// store no-op when the id no longer exists), re-indexes the rest, then
    /// returns to the list view, dropping the draft.
    pub fn edit_delete(&mut self)
        requires
            old(self).wf(),
            old(self).nav.state is EditingItem,
        ensures
            final(self).wf(),
            final(self).store@ == deleted(old(self).store@, old(self).nav.state->0 as int),
            final(self).nav.state == NavState::ListView,
            final(self).edit_draft is None,
            final(self).add_draft == old(self).add_draft,
    {
        let id: i32 = match self.nav.current() {
            NavState::EditingItem(i) => i,
            NavState::ListView => -1,
        };
        self.store.delete(id);
        self.nav.delete_and_close();
        self.edit_draft = None;
    }

    /// The editing view's back button: discard the draft without
    /// committing anything and return to the list view.
    pub fn edit_back(&mut self)
        requires
            old(self).wf(),
        ensures
            final(self).wf(),
            final(self).store == old(self).store,
            final(self).add_draft == old(self).add_draft,
            final(self).nav.state == NavState::ListView,
            final(self).edit_draft is None,
    {
        self.nav.back();
        self.edit_draft = None;
    }
}

} // verus!
