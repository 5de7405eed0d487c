use todo_core::app_model::TodoApp;
use todo_core::draft::DraftBuffer;
use todo_core::nav::NavState;
use todo_core::nav::NavigationController;
use todo_core::todo::Todo;

fn assert_item(t: &Todo, id: i32, name: &str, description: &str, completed: bool) {
    assert_eq!(t.id, id);
    assert_eq!(t.name, name);
    assert_eq!(t.description, description);
    assert_eq!(t.completed, completed);
}

/// Scenario A driven through the application's events.
fn after_scenario_a() -> TodoApp {
    let mut app = TodoApp::new();

    app.add_name_input("Buy milk".to_string());
    app.add_description_input("2% gal".to_string());
    app.add_submit();
    {
        let v = app.snapshot();
        assert_eq!(v.len(), 1);
        assert_item(&v[0], 1, "Buy milk", "2% gal", false);
    }

    app.add_name_input("Walk dog".to_string());
    app.add_description_input("".to_string());
    app.add_submit();
    {
        let v = app.snapshot();
        assert_eq!(v.len(), 2);
        assert_item(&v[0], 1, "Buy milk", "2% gal", false);
        assert_item(&v[1], 2, "Walk dog", "", false);
    }

    app.select(1);
    app.edit_delete();
    {
        let v = app.snapshot();
        assert_eq!(v.len(), 1);
        assert_item(&v[0], 1, "Walk dog", "", false);
    }
    app
}

#[test]
fn scenario_a() {
    after_scenario_a();
}

#[test]
fn scenario_b() {
    let mut app = after_scenario_a();

    app.select(1);
    assert_eq!(app.nav_state(), NavState::EditingItem(1));
    {
        let d = app.edit_draft.as_ref().unwrap();
        assert_eq!(d.name, "Walk dog");
        assert_eq!(d.description, "");
    }

    app.edit_name_input("Walk the dog".to_string());
    app.edit_description_input("30 min".to_string());
    app.edit_save();

    let v = app.snapshot();
    assert_eq!(v.len(), 1);
    assert_item(&v[0], 1, "Walk the dog", "30 min", false);
    assert_eq!(app.nav_state(), NavState::ListView);
    assert!(app.edit_draft.is_none());
}

#[test]
fn scenario_c() {
    let mut app = after_scenario_a();
    let before = app.snapshot().clone();

    app.select(99);
    assert_eq!(app.nav_state(), NavState::EditingItem(99));
    let sentinel = app.store.find_by_id(99);
    assert_item(&sentinel, -1, "", "", false);
    {
        // the edit form renders empty fields
        let d = app.edit_draft.as_ref().unwrap();
        assert_eq!(d.name, "");
        assert_eq!(d.description, "");
    }

    app.edit_back();
    assert_eq!(app.nav_state(), NavState::ListView);
    assert!(app.edit_draft.is_none());
    assert_eq!(app.snapshot(), &before);
}

#[test]
fn new_app_starts_empty_in_list_view() {
    let app = TodoApp::new();
    assert_eq!(app.snapshot().len(), 0);
    assert_eq!(app.nav_state(), NavState::ListView);
    assert_eq!(app.add_draft.name, "");
    assert_eq!(app.add_draft.description, "");
    assert!(app.edit_draft.is_none());
}

#[test]
fn add_submit_resets_the_add_draft() {
    let mut app = TodoApp::new();
    app.add_name_input("a".to_string());
    app.add_description_input("b".to_string());
    app.add_submit();
    assert_eq!(app.add_draft.name, "");
    assert_eq!(app.add_draft.description, "");
    // submitting the now-empty draft is allowed: no validation
    app.add_submit();
    let v = app.snapshot();
    assert_eq!(v.len(), 2);
    assert_item(&v[1], 2, "", "", false);
}

#[test]
fn edit_draft_is_a_one_shot_copy() {
    let mut app = TodoApp::new();
    app.add_name_input("original".to_string());
    app.add_submit();
    app.select(1);

    // a store mutation after the form opened does not leak into the draft
    app.edit_toggle();
    assert!(app.snapshot()[0].completed);
    let d = app.edit_draft.as_ref().unwrap();
    assert_eq!(d.name, "original");
    assert_eq!(d.description, "");
}

#[test]
fn edit_toggle_commits_immediately_and_independently_of_save() {
    let mut app = TodoApp::new();
    app.add_name_input("a".to_string());
    app.add_submit();
    app.select(1);
    app.edit_toggle();
    assert!(app.snapshot()[0].completed);
    // leaving without saving keeps the toggle
    app.edit_back();
    assert!(app.snapshot()[0].completed);
}

#[test]
fn edit_back_discards_the_draft() {
    let mut app = TodoApp::new();
    app.add_name_input("a".to_string());
    app.add_description_input("b".to_string());
    app.add_submit();
    app.select(1);
    app.edit_name_input("discarded".to_string());
    app.edit_back();
    assert_item(&app.snapshot()[0], 1, "a", "b", false);
}

#[test]
fn saving_after_the_item_was_deleted_is_a_no_op_on_the_store() {
    let mut app = TodoApp::new();
    app.add_name_input("a".to_string());
    app.add_submit();
    app.select(1);
    // the underlying item disappears while the form is open
    app.store.delete(1);
    app.edit_name_input("never lands".to_string());
    app.edit_save();
    assert_eq!(app.snapshot().len(), 0);
    assert_eq!(app.nav_state(), NavState::ListView);
}

#[test]
fn navigation_controller_transitions() {
    let mut nav = NavigationController::new();
    assert_eq!(nav.current(), NavState::ListView);
    nav.select(3);
    assert_eq!(nav.current(), NavState::EditingItem(3));
    nav.back();
    assert_eq!(nav.current(), NavState::ListView);
    nav.select(-5);
    assert_eq!(nav.current(), NavState::EditingItem(-5));
    nav.save_and_close();
    assert_eq!(nav.current(), NavState::ListView);
    nav.select(1);
    nav.delete_and_close();
    assert_eq!(nav.current(), NavState::ListView);
}

#[test]
fn draft_buffer_accumulates_keystrokes() {
    let mut d = DraftBuffer::new();
    assert_eq!(d.name, "");
    assert_eq!(d.description, "");
    d.set_name("n".to_string());
    d.set_description("desc".to_string());
    assert_eq!(d.name, "n");
    assert_eq!(d.description, "desc");
    d.set_name("n2".to_string());
    assert_eq!(d.name, "n2");
    assert_eq!(d.description, "desc");
}

#[test]
fn draft_buffer_from_todo_copies_the_text_fields() {
    let mut t = Todo::new();
    t.id = 4;
    t.name = "a name".to_string();
    t.description = "a description".to_string();
    t.completed = true;
    let d = DraftBuffer::from_todo(&t);
    assert_eq!(d.name, "a name");
    assert_eq!(d.description, "a description");
}
