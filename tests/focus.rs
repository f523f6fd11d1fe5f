use dbv::application::app::App;
use dbv::application::store::{Focus, Pane, Store, StoreAction, Task};
use dbv::components::connection_list::ConnectionListComponent;
use dbv::sql::connection::Connection;
use dbv::events::key::Keys;
use dbv::events::EventState;

fn at(column: u8, row: u8) -> Focus {
    Focus::GridPane(Pane { column, row })
}

#[test]
fn help_overlay_returns_to_the_pane_it_was_opened_from() {
    let mut app = App::new();
    assert_eq!(app.store.selected_pane, at(0, 0));
    app.event_handling(Keys::Char('?'));
    assert_eq!(app.store.selected_pane, Focus::HelpOverlay);
    app.event_handling(Keys::Esc);
    assert_eq!(app.store.selected_pane, at(0, 0));

    app.event_handling(Keys::CtrlChar('l'));
    app.event_handling(Keys::CtrlChar('j'));
    assert_eq!(app.store.selected_pane, at(1, 1));
    app.event_handling(Keys::Char('?'));
    assert_eq!(app.store.selected_pane, Focus::HelpOverlay);
    app.event_handling(Keys::Char('q'));
    assert_eq!(app.store.selected_pane, at(1, 1));
    assert!(!app.store.exit);

    app.event_handling(Keys::CtrlChar('j'));
    app.event_handling(Keys::Char('?'));
    app.event_handling(Keys::CtrlChar('k'));
    assert_eq!(app.store.selected_pane, at(1, 2));
}

#[test]
fn pane_moves_wrap_within_a_column() {
    let mut app = App::new();
    app.event_handling(Keys::CtrlChar('k'));
    assert_eq!(app.store.selected_pane, at(0, 2));
    app.event_handling(Keys::CtrlChar('j'));
    assert_eq!(app.store.selected_pane, at(0, 0));
    app.event_handling(Keys::CtrlChar('j'));
    app.event_handling(Keys::CtrlChar('h'));
    assert_eq!(app.store.selected_pane, at(1, 1));
    app.event_handling(Keys::CtrlChar('h'));
    assert_eq!(app.store.selected_pane, at(0, 1));
}

#[test]
fn q_exits_from_a_pane() {
    let mut app = App::new();
    assert!(matches!(app.event(&Keys::Char('q')), EventState::Consumed));
    assert!(app.store.exit);
}

#[test]
fn command_bar_takes_keys_and_gives_focus_back() {
    let mut app = App::new();
    app.event_handling(Keys::CtrlChar('l'));
    app.event_handling(Keys::Char(':'));
    assert_eq!(app.store.selected_pane, Focus::CommandBar);
    assert_eq!(app.command.text_input, ":");
    app.event_handling(Keys::Char('q'));
    assert!(!app.store.exit);
    app.event_handling(Keys::Backspace);
    assert_eq!(app.command.text_input, ":");
    app.event_handling(Keys::Char('w'));
    assert_eq!(app.command.text_input, ":w");
    app.event_handling(Keys::Enter);
    assert_eq!(app.command.text_input, "");
    assert_eq!(app.store.selected_pane, at(1, 0));

    app.event_handling(Keys::Char(':'));
    app.event_handling(Keys::Esc);
    assert_eq!(app.store.selected_pane, at(1, 0));
    assert_eq!(app.command.text_input, "");
}

#[test]
fn global_keys_are_wasted_while_locked() {
    let mut app = App::new();
    app.store.is_lock = true;
    assert!(matches!(app.event(&Keys::CtrlChar('j')), EventState::Wasted));
    assert!(matches!(app.event(&Keys::Char('q')), EventState::Wasted));
    assert_eq!(app.store.selected_pane, at(0, 0));
    assert!(!app.store.exit);
}

#[test]
fn inserting_a_connection_through_the_popup() {
    let mut app = App::new();
    app.event_handling(Keys::Char('i'));
    assert_eq!(app.store.selected_pane, Focus::InsertPopup);
    assert!(app.store.is_lock);
    app.event_handling(Keys::Char('q'));
    app.event_handling(Keys::Char('b'));
    assert!(!app.store.exit);
    app.event_handling(Keys::Enter);
    assert!(!app.store.is_lock);
    assert_eq!(app.store.selected_pane, at(0, 0));
    assert_eq!(app.store.user_data.connection_list.list.len(), 1);
    assert_eq!(app.store.user_data.connection_list.list[0].connection_string, "qb");

    app.event_handling(Keys::Char('j'));
    assert_eq!(app.connection_list.selected, Some(0));
    app.event_handling(Keys::Enter);
    assert_eq!(app.store.user_data.connection_list.current_connection, Some(0));
    assert!(app.store.user_data.connection_list.is_loading);
    let tasks = app.store.take_tasks();
    assert!(matches!(tasks.as_slice(), [Task::FetchDatabases(0)]));

    app.event_handling(Keys::Char('d'));
    assert_eq!(app.store.user_data.connection_list.list.len(), 0);
    assert_eq!(app.connection_list.selected, None);
}

#[test]
fn blank_popup_text_is_dismissed() {
    let mut app = App::new();
    app.event_handling(Keys::Char('i'));
    app.event_handling(Keys::Char(' '));
    app.event_handling(Keys::Enter);
    assert!(!app.store.is_lock);
    assert_eq!(app.store.selected_pane, at(0, 0));
    assert_eq!(app.store.user_data.connection_list.list.len(), 0);
    assert!(app.connection_list.popup.is_none());
}

#[test]
fn database_enter_queues_table_listing() {
    let mut app = App::new();
    app.update(vec![dbv::application::app::UpdateAction::SendStoreAction(
        StoreAction::SendDatabaseData(vec!["alpha".to_string(), "beta".to_string()]),
    )]);
    assert_eq!(app.store.selected_pane, at(0, 1));
    app.event_handling(Keys::Char('k'));
    assert_eq!(app.database_list.highlighted, Some(1));
    app.event_handling(Keys::Enter);
    assert_eq!(app.store.database_list.current_database, Some(1));
    let tasks = app.store.take_tasks();
    assert!(matches!(tasks.as_slice(), [Task::FetchTables(n)] if n == "beta"));

    app.update(vec![dbv::application::app::UpdateAction::SendStoreAction(
        StoreAction::SendTablesData(vec!["users".to_string()]),
    )]);
    app.event_handling(Keys::Char('j'));
    app.event_handling(Keys::Enter);
    let tasks = app.store.take_tasks();
    assert!(matches!(tasks.as_slice(), [Task::FetchRecords(d, t)] if d == "beta" && t == "users"));
}

#[test]
fn help_enter_replays_the_highlighted_key() {
    let mut app = App::new();
    app.event_handling(Keys::Char('?'));
    assert_eq!(app.help_view.content.len(), 3);
    app.event_handling(Keys::Char('j'));
    app.event_handling(Keys::Char('j'));
    app.event_handling(Keys::Enter);
    assert_eq!(app.store.selected_pane, at(0, 0));
    let tasks = app.store.take_tasks();
    assert!(matches!(tasks.as_slice(), [Task::ReplayKey(Keys::Char('d'))]));
}

#[test]
fn space_check_uses_minimum_size() {
    assert!(!App::verify_space_available(50, 40));
    assert!(!App::verify_space_available(80, 21));
    assert!(App::verify_space_available(51, 22));
}

#[test]
fn repeated_overlay_cycles_return_to_their_panes() {
    let mut app = App::new();
    let keys = [
        Keys::Char(':'),
        Keys::Esc,
        Keys::CtrlChar('j'),
        Keys::Char('?'),
        Keys::Esc,
        Keys::CtrlChar('l'),
        Keys::Char(':'),
        Keys::Esc,
    ];
    let mut seen = Vec::new();
    for k in keys.iter() {
        app.event_handling(*k);
        seen.push(app.store.selected_pane);
    }
    assert_eq!(seen[1], at(0, 0));
    assert_eq!(seen[4], at(0, 1));
    assert_eq!(seen[7], at(1, 1));
}

#[test]
fn removing_a_connection_consumes_the_key() {
    let mut store = Store::new();
    for s in ["a", "b", "c"] {
        store.user_data.connection_list.list.push(Connection::new(s.to_string()));
    }
    let mut list = ConnectionListComponent::new();
    list.selected = Some(1);
    assert!(matches!(list.event(&Keys::Char('d'), &mut store), EventState::Consumed));
    let left: Vec<&str> =
        store.user_data.connection_list.list.iter().map(|c| c.connection_string.as_str()).collect();
    assert_eq!(left, vec!["a", "c"]);
    assert_eq!(store.log_contents().len(), 1);
    assert_eq!(list.selected, Some(1));
    assert!(matches!(list.event(&Keys::Char('i'), &mut store), EventState::Consumed));
}

#[test]
fn confirming_an_edit_replaces_the_highlighted_connection() {
    let mut app = App::new();
    app.store.user_data.connection_list.list.push(Connection::new("x".to_string()));
    app.event_handling(Keys::Char('j'));
    app.event_handling(Keys::Char('e'));
    assert_eq!(app.store.selected_pane, Focus::InsertPopup);
    app.event_handling(Keys::Char('y'));
    app.event_handling(Keys::Enter);
    assert_eq!(app.store.user_data.connection_list.list.len(), 1);
    assert_eq!(app.store.user_data.connection_list.list[0].connection_string, "xy");
    assert_eq!(app.store.selected_pane, at(0, 0));
    assert!(!app.store.is_lock);
}

#[test]
fn esc_leaves_the_insert_popup() {
    let mut app = App::new();
    app.event_handling(Keys::Char('i'));
    app.event_handling(Keys::Esc);
    assert_eq!(app.store.selected_pane, at(0, 0));
    assert!(!app.store.is_lock);
    assert!(app.connection_list.popup.is_none());
}
