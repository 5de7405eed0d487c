//! Core state model of a single-user, in-process todo-list manager.
//!
//! The library owns three cooperating pieces of state:
//! - [`store::TodoStore`]: the ordered collection of todo items, which keeps
//!   the ids dense (`1..=N`, id equals 1 + position) across every mutation;
//! - [`nav::NavigationController`]: the view state machine (list view vs.
//!   editing one item);
//! - [`draft::DraftBuffer`]: uncommitted form text, copied once from the
//!   store when a form opens and written back only on submit/save.
//!
//! [`app_model::TodoApp`] ties the three together: one method per user-input
//! event, each with a contract that pins down the whole new state.
//! Rendering and event input are left to a caller outside the library.

pub mod app_model;
pub mod draft;
pub mod laws;
pub mod nav;
pub mod store;
pub mod todo;
