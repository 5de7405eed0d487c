//! The view state machine: which of the two screens is active.
//!
//! The controller starts in the list view and moves to editing a single
//! item when one is selected. No transition is ever rejected: selecting an
//! absent id still enters the editing view (the lookup then yields the
//! sentinel item), and every way out of the editing view returns to the
//! list unconditionally.

use vstd::prelude::*;

verus! {

/// The current view: browsing the list, or editing the item with the given
/// id. The id is whatever was selected; it may no longer name a live item.
#[derive(Clone, Copy, Debug, PartialEq, Eq, Structural)]
pub enum NavState {
    ListView,
    EditingItem(i32),
}

/// Owns the current view tag; every mutation of it goes through here.
pub struct NavigationController {
    pub state: NavState,
}

impl NavigationController {
    /// Starts in the list view.
    pub fn new() -> (r: NavigationController)
        ensures
            r.state == NavState::ListView,
    {
        NavigationController { state: NavState::ListView }
    }

    /// The current view tag.
    pub fn current(&self) -> (s: NavState)
        ensures
            s == self.state,
    {
        self.state
    }

    /// A list entry was clicked: move to editing that id, whether or not an
    /// item with that id still exists.
    pub fn select(&mut self, id: i32)
        ensures
            final(self).state == NavState::EditingItem(id),
    {
        self.state = NavState::EditingItem(id);
    }

    /// Leave the editing view without committing anything.
    pub fn back(&mut self)
        ensures
            final(self).state == NavState::ListView,
    {
        self.state = NavState::ListView;
    }

    /// Leave the editing view after a save.
    pub fn save_and_close(&mut self)
        ensures
            final(self).state == NavState::ListView,
    {
        self.state = NavState::ListView;
    }

    /// Leave the editing view after a deletion.
    pub fn delete_and_close(&mut self)
        ensures
            final(self).state == NavState::ListView,
    {
        self.state = NavState::ListView;
    }
}

} // verus!
