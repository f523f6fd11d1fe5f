use dbv::application::app::{App, AppAction, UpdateAction};
use dbv::application::store::{Focus, Pane, Store, StoreAction, Task};
use dbv::components::log_view::LogContent;
use dbv::sql::connection::Connection;

fn names(items: &[&str]) -> Vec<String> {
    items.iter().map(|s| s.to_string()).collect()
}

#[test]
fn databases_loaded_replaces_list_and_focuses_database_pane() {
    let mut store = Store::new();
    store.user_data.connection_list.is_loading = true;
    store.update(StoreAction::SendDatabaseData(names(&["alpha", "beta"])));
    assert_eq!(store.database_list.list.len(), 2);
    assert_eq!(store.database_list.list, names(&["alpha", "beta"]));
    assert_eq!(store.selected_pane, Focus::GridPane(Pane { column: 0, row: 1 }));
    assert!(!store.user_data.connection_list.is_loading);
    assert_eq!(store.log_contents().len(), 1);
    match &store.log_contents()[0] {
        LogContent::Info(text) => assert_eq!(text, "[\"alpha\", \"beta\"]"),
        other => panic!("unexpected entry {:?}", other),
    }
}

#[test]
fn query_failed_logs_one_error_and_clears_connection() {
    let mut store = Store::new();
    store.user_data.connection_list.list.push(Connection::new("mysql://x".to_string()));
    store.user_data.connection_list.set_current_connection(0);
    store.update(StoreAction::SendError("boom".to_string()));
    assert_eq!(store.log_contents().len(), 1);
    match &store.log_contents()[0] {
        LogContent::Error(text) => assert_eq!(text, "\"boom\""),
        other => panic!("unexpected entry {:?}", other),
    }
    assert_eq!(store.user_data.connection_list.current_connection, None);
    assert_eq!(store.selected_pane, Focus::GridPane(Pane { column: 0, row: 0 }));
}

#[test]
fn tables_loaded_focuses_table_pane() {
    let mut store = Store::new();
    store.update(StoreAction::SendTablesData(names(&["users"])));
    assert_eq!(store.tables_list, names(&["users"]));
    assert_eq!(store.selected_pane, Focus::GridPane(Pane { column: 0, row: 2 }));
}

#[test]
fn edit_connection_item_changes_nothing() {
    let mut store = Store::new();
    store.update(StoreAction::SendEditConnectionItem(3));
    assert_eq!(store.log_contents().len(), 0);
    assert_eq!(store.selected_pane, Focus::GridPane(Pane { column: 0, row: 0 }));
}

#[test]
fn later_outcome_wins_whatever_was_submitted_first() {
    let mut app = App::new();
    app.update(vec![
        UpdateAction::SendStoreAction(StoreAction::SendTablesData(names(&["late_query"]))),
        UpdateAction::SendStoreAction(StoreAction::SendTablesData(names(&["early_query", "x"]))),
    ]);
    assert_eq!(app.store.tables_list, names(&["early_query", "x"]));
    assert_eq!(app.store.selected_pane, Focus::GridPane(Pane { column: 0, row: 2 }));

    app.update(vec![
        UpdateAction::SendAppAction(AppAction::SendRecords(
            names(&["a"]),
            vec![names(&["1"]), names(&["2"])],
            Some(2),
        )),
        UpdateAction::SendAppAction(AppAction::SendRecords(
            names(&["b", "c"]),
            vec![names(&["3", "4"])],
            None,
        )),
    ]);
    assert_eq!(app.records_view.header(), &names(&["b", "c"]));
    assert_eq!(app.records_view.rows(), &vec![names(&["3", "4"])]);
    assert_eq!(app.records_view.total(), None);
    assert_eq!(app.store.selected_pane, Focus::GridPane(Pane { column: 1, row: 1 }));
}

#[test]
fn empty_records_clear_the_grid() {
    let mut app = App::new();
    app.update(vec![UpdateAction::SendAppAction(AppAction::SendRecords(
        names(&["a"]),
        vec![names(&["1"])],
        Some(1),
    ))]);
    app.store.selected_pane = Focus::GridPane(Pane { column: 0, row: 0 });
    app.update(vec![UpdateAction::SendAppAction(AppAction::SendRecords(vec![], vec![], Some(0)))]);
    assert_eq!(app.records_view.header().len(), 0);
    assert_eq!(app.records_view.rows().len(), 0);
    assert_eq!(app.records_view.total(), Some(0));
    assert_eq!(app.store.selected_pane, Focus::GridPane(Pane { column: 1, row: 1 }));
}

#[test]
fn reset_clears_lists() {
    let mut app = App::new();
    app.update(vec![
        UpdateAction::SendStoreAction(StoreAction::SendDatabaseData(names(&["a"]))),
        UpdateAction::SendStoreAction(StoreAction::SendTablesData(names(&["t"]))),
        UpdateAction::SendAppAction(AppAction::SendReset),
    ]);
    assert_eq!(app.store.database_list.list.len(), 0);
    assert_eq!(app.store.tables_list.len(), 0);
}

#[test]
fn log_helpers_append_entries() {
    let mut store = Store::new();
    store.log("one");
    store.success("two");
    store.error("three");
    store.debug("four");
    let kinds: Vec<String> = store
        .log_contents()
        .iter()
        .map(|e| match e {
            LogContent::Info(t) => format!("info {}", t),
            LogContent::Success(t) => format!("success {}", t),
            LogContent::Error(t) => format!("error {}", t),
            LogContent::Debug(t) => format!("debug {}", t),
        })
        .collect();
    assert_eq!(kinds, vec!["info one", "success two", "error three", "debug four"]);
}

#[test]
fn tasks_are_handed_over_in_order() {
    let mut store = Store::new();
    store.submit(Task::FetchDatabases(1));
    store.submit(Task::FetchTables("shop".to_string()));
    let tasks = store.take_tasks();
    assert_eq!(tasks.len(), 2);
    assert!(matches!(tasks[0], Task::FetchDatabases(1)));
    assert!(matches!(&tasks[1], Task::FetchTables(n) if n == "shop"));
    assert_eq!(store.take_tasks().len(), 0);
}

#[test]
fn failed_connection_is_logged_and_cleared() {
    let mut store = Store::new();
    store.user_data.connection_list.list.push(Connection::new("bad://".to_string()));
    store.user_data.connection_list.set_current_connection(0);
    store.user_data.connection_list.is_loading = true;
    assert_eq!(store.user_data.connection_list.current_connection_string().map(|s| s.as_str()), Some("bad://"));
    store.connection_failed("no driver");
    assert_eq!(store.user_data.connection_list.current_connection, None);
    assert!(!store.user_data.connection_list.is_loading);
    assert_eq!(store.user_data.connection_list.current_connection_string(), None);
    assert!(matches!(&store.log_contents()[0], LogContent::Error(t) if t == "no driver"));
}

#[test]
fn listing_log_entry_quotes_and_escapes_each_item() {
    let mut store = Store::new();
    store.update(StoreAction::SendTablesData(names(&["a\"b", "c"])));
    match &store.log_contents()[0] {
        LogContent::Info(text) => assert_eq!(text, "[\"a\\\"b\", \"c\"]"),
        other => panic!("unexpected entry {:?}", other),
    }
    let mut empty = Store::new();
    empty.update(StoreAction::SendTablesData(vec![]));
    assert!(matches!(&empty.log_contents()[0], LogContent::Info(t) if t == "[]"));
}
