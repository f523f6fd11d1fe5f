use crate::application::preferences::Preference;
use crate::application::user_data::UserData;
use crate::components::log_view::{LogContent, LogKind};
use crate::events::key::Keys;
use crate::sql::connection::ConnectionList;
use crate::sql::database::DatabaseList;
use crate::utils::{debug_list_text, debug_text, quoted, quoted_list};
use vstd::prelude::*;

verus! {

/// Outcome of a background query, applied to the store on the next tick.
#[derive(Debug, Clone)]
pub enum StoreAction {
    /// The databases of the current connection.
    SendDatabaseData(Vec<String>),
    /// The tables of the current database.
    SendTablesData(Vec<String>),
    SendEditConnectionItem(usize),
    /// A query or a connection failed with this message.
    SendError(String),
}

/// Logged when a query is asked for while no connection is in use.
pub const NO_CONNECTION_MESSAGE: &'static str = "No current connection is set.";

/// Panes in each of the two columns of the layout.
pub const PANE_ROWS: u8 = 3;

/// A pane of the two-column layout: column 0 holds the connection, database
/// and table lists; column 1 the tabs, the records and the log.
#[derive(Debug, Clone, Copy, PartialEq, Eq, Structural)]
pub struct Pane {
    pub column: u8,
    pub row: u8,
}

/// What receives the keys: a pane, or an overlay that remembers the pane
/// under it.
#[derive(Debug, Clone, Copy, PartialEq, Eq, Structural)]
pub enum Focus {
    GridPane(Pane),
    HelpOverlay,
    CommandBar,
    InsertPopup,
}

/// Work that the interface loop runs off the interface thread for the store;
/// each ends by posting one action.
#[derive(Debug, Clone)]
pub enum Task {
    /// Open the pool of the connection at this index and list its databases.
    FetchDatabases(usize),
    /// List the tables of this database.
    FetchTables(String),
    /// Fetch the rows of a table: database, then table.
    FetchRecords(String, String),
    /// Feed this key back to the input as if it had been pressed.
    ReplayKey(Keys),
}

pub open spec fn pane(column: u8, row: u8) -> Focus {
    Focus::GridPane(Pane { column, row })
}

/// The pane under the focus: the focused pane, or the one an overlay will
/// give the focus back to.
pub open spec fn pane_under(s: Store) -> Pane {
    match s.selected_pane {
        Focus::GridPane(p) => p,
        _ => s.previous_selected_pane,
    }
}

pub open spec fn pane_is_valid(p: Pane) -> bool {
    p.column <= 1 && p.row < PANE_ROWS
}

/// State of the application, owned by the interface thread.
#[derive(Debug)]
pub struct Store {
    pub preference: Preference,
    pub user_data: UserData,
    pub database_list: DatabaseList,
    pub tables_list: Vec<String>,
    pub exit: bool,
    pub selected_pane: Focus,
    pub previous_selected_pane: Pane,
    pub is_lock: bool,
    pub log_contents: Vec<LogContent>,
    pub tasks: Vec<Task>,
}

impl Store {
    pub open spec fn wf(self) -> bool {
        &&& (self.selected_pane matches Focus::GridPane(p) ==> pane_is_valid(p))
        &&& pane_is_valid(self.previous_selected_pane)
        &&& self.selected_pane == Focus::InsertPopup ==> self.is_lock
    }

    /// The log entries as kinds and texts.
    pub open spec fn log_view(self) -> Seq<(LogKind, Seq<char>)> {
        self.log_contents@.map_values(|e: LogContent| e@)
    }

    /// `after` is this store with `action` applied.
    pub open spec fn applied(self, action: StoreAction, after: Store) -> bool {
        match action {
            StoreAction::SendDatabaseData(d) => {
                &&& after == (Store {
                    database_list: DatabaseList { list: d, ..self.database_list },
                    user_data: UserData {
                        connection_list: ConnectionList {
                            is_loading: false,
                            ..self.user_data.connection_list
                        },
                    },
                    selected_pane: pane(0, 1),
                    log_contents: after.log_contents,
                    ..self
                })
                &&& after.log_view() == self.log_view().push(
                    (LogKind::Info, debug_list_text(d.deep_view())),
                )
            },
            StoreAction::SendTablesData(d) => {
                &&& after == (Store {
                    tables_list: d,
                    selected_pane: pane(0, 2),
                    log_contents: after.log_contents,
                    ..self
                })
                &&& after.log_view() == self.log_view().push(
                    (LogKind::Info, debug_list_text(d.deep_view())),
                )
            },
            StoreAction::SendError(e) => {
                &&& after == (Store {
                    user_data: UserData {
                        connection_list: ConnectionList {
                            current_connection: None,
                            ..self.user_data.connection_list
                        },
                    },
                    log_contents: after.log_contents,
                    ..self
                })
                &&& after.log_view() == self.log_view().push((LogKind::Error, debug_text(e@)))
            },
            StoreAction::SendEditConnectionItem(_) => after == self,
        }
    }

    /// `after` is this store with one entry of `kind` and `text` logged.
    pub open spec fn logged(self, kind: LogKind, text: Seq<char>, after: Store) -> bool {
        &&& after == (Store { log_contents: after.log_contents, ..self })
        &&& after.log_view() == self.log_view().push((kind, text))
    }

    pub fn new() -> (r: Self)
        ensures
            r.wf(),
            r.preference.theme_config.is_default(),
            r.user_data.connection_list.list@.len() == 0,
            r.user_data.connection_list.current_connection is None,
            !r.user_data.connection_list.is_loading,
            r.database_list.list@.len() == 0,
            r.database_list.current_database is None,
            r.tables_list@.len() == 0,
            !r.exit,
            r.selected_pane == pane(0, 0),
            r.previous_selected_pane == (Pane { column: 0, row: 0 }),
            !r.is_lock,
            r.log_contents@.len() == 0,
            r.tasks@.len() == 0,
    {
        Store {
            preference: Preference::default(),
            user_data: UserData::new(),
            database_list: DatabaseList::new(),
            tables_list: Vec::new(),
            exit: false,
            selected_pane: Focus::GridPane(Pane { column: 0, row: 0 }),
            previous_selected_pane: Pane { column: 0, row: 0 },
            is_lock: false,
            log_contents: Vec::new(),
            tasks: Vec::new(),
        }
    }

    pub fn reset_database_list(&mut self)
        ensures
            *final(self) == (Store { database_list: final(self).database_list, ..*old(self) }),
            final(self).database_list.list@.len() == 0,
            final(self).database_list.current_database is None,
    {
        self.database_list = DatabaseList::new();
    }

    pub fn reset_tables_list(&mut self)
        ensures
            *final(self) == (Store { tables_list: final(self).tables_list, ..*old(self) }),
            final(self).tables_list@.len() == 0,
    {
        self.tables_list = Vec::new();
    }

    /// Applies the outcome of a background query.
    pub fn update(&mut self, action: StoreAction)
        requires
            old(self).wf(),
        ensures
            old(self).applied(action, *final(self)),
            final(self).wf(),
    {
        match action {
            StoreAction::SendDatabaseData(data) => {
                let text = quoted_list(&data);
                self.push_log(LogContent::Info(text));
                self.user_data.connection_list.is_loading = false;
                self.database_list.list = data;
                self.selected_pane = Focus::GridPane(Pane { column: 0, row: 1 });
            },
            StoreAction::SendTablesData(data) => {
                let text = quoted_list(&data);
                self.push_log(LogContent::Info(text));
                self.tables_list = data;
                self.selected_pane = Focus::GridPane(Pane { column: 0, row: 2 });
            },
            StoreAction::SendError(e) => {
                let text = quoted(e.as_str());
                self.push_log(LogContent::Error(text));
                self.user_data.connection_list.current_connection = None;
            },
            StoreAction::SendEditConnectionItem(_) => {},
        }
    }

    fn push_log(&mut self, entry: LogContent)
        ensures
            *final(self) == (Store { log_contents: final(self).log_contents, ..*old(self) }),
            final(self).log_view() == old(self).log_view().push(entry@),
    {
        self.log_contents.push(entry);
        proof {
            assert(final(self).log_view() =~= old(self).log_view().push(entry@));
        }
    }

    /// Records that the current connection could not be opened: logs the
    /// message as an error and leaves no connection in use and none loading.
    pub fn connection_failed(&mut self, message: &str)
        requires
            old(self).wf(),
        ensures
            final(self).wf(),
            *final(self) == (Store {
                user_data: UserData {
                    connection_list: ConnectionList {
                        current_connection: None,
                        is_loading: false,
                        ..old(self).user_data.connection_list
                    },
                },
                log_contents: final(self).log_contents,
                ..*old(self)
            }),
            final(self).log_view() == old(self).log_view().push((LogKind::Error, message@)),
    {
        self.error(message);
        self.user_data.connection_list.reset_current_connection();
        self.user_data.connection_list.is_loading = false;
    }

    pub fn log(&mut self, content: &str)
        ensures
            old(self).logged(LogKind::Info, content@, *final(self)),
    {
        self.push_log(LogContent::Info(String::from_str(content)));
    }

    pub fn success(&mut self, content: &str)
        ensures
            old(self).logged(LogKind::Success, content@, *final(self)),
    {
        self.push_log(LogContent::Success(String::from_str(content)));
    }

    pub fn error(&mut self, content: &str)
        ensures
            old(self).logged(LogKind::Error, content@, *final(self)),
    {
        self.push_log(LogContent::Error(String::from_str(content)));
    }

    pub fn debug(&mut self, content: &str)
        ensures
            old(self).logged(LogKind::Debug, content@, *final(self)),
    {
        self.push_log(LogContent::Debug(String::from_str(content)));
    }

    pub fn log_contents(&self) -> (r: &Vec<LogContent>)
        ensures
            *r == self.log_contents,
    {
        &self.log_contents
    }

    /// Queues background work for the interface loop.
    pub fn submit(&mut self, task: Task)
        ensures
            *final(self) == (Store { tasks: final(self).tasks, ..*old(self) }),
            final(self).tasks@ == old(self).tasks@.push(task),
    {
        self.tasks.push(task);
    }

    /// Hands over the queued background work, oldest first, and empties the
    /// queue.
    pub fn take_tasks(&mut self) -> (r: Vec<Task>)
        ensures
            r@ == old(self).tasks@,
            *final(self) == (Store { tasks: final(self).tasks, ..*old(self) }),
            final(self).tasks@.len() == 0,
    {
        self.tasks.split_off(0)
    }
}

} // verus!
