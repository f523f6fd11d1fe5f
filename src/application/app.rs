use crate::application::store::{pane, pane_under, Focus, Pane, Store, StoreAction, PANE_ROWS};
use crate::components::command::CommandComponent;
use crate::components::connection_list::ConnectionListComponent;
use crate::components::database_list::DatabaseListComponent;
use crate::components::help_view::HelpViewComponent;
use crate::components::log_view::LogViewComponent;
use crate::components::records_view::RecordsViewComponent;
use crate::components::tab::TabComponent;
use crate::components::table_list::TableListComponent;
use crate::events::key::Keys;
use crate::events::EventState;
use vstd::prelude::*;

verus! {

/// Outcome of background work, posted to the interface thread.
#[derive(Debug, Clone)]
pub enum UpdateAction {
    SendStoreAction(StoreAction),
    SendAppAction(AppAction),
}

/// Outcome that concerns the panes rather than the store.
#[derive(Debug, Clone)]
pub enum AppAction {
    SendResetDatabaseList,
    SendResetTableList,
    SendResetRecords,
    SendReset,
    /// Rows of a table: column names, rows as text, and the row count when
    /// it is known.
    SendRecords(Vec<String>, Vec<Vec<String>>, Option<i64>),
}

/// Smallest terminal, in columns and rows, that the layout is drawn in.
pub const MIN_WIDTH: u16 = 51;

pub const MIN_HEIGHT: u16 = 22;

/// The pane one row down (`down`) or up in the same column, wrapping at the
/// column's ends.
pub open spec fn move_row(p: Pane, down: bool) -> Pane {
    if down {
        Pane {
            row: if p.row + 1 >= PANE_ROWS {
                0
            } else {
                (p.row + 1) as u8
            },
            ..p
        }
    } else {
        Pane {
            row: if p.row == 0 || p.row >= PANE_ROWS {
                (PANE_ROWS - 1) as u8
            } else {
                (p.row - 1) as u8
            },
            ..p
        }
    }
}

/// The pane at the same row of the other column, the row clamped into it.
pub open spec fn switch_column(p: Pane) -> Pane {
    Pane {
        column: if p.column == 0 {
            1
        } else {
            0
        },
        row: if p.row >= PANE_ROWS {
            (PANE_ROWS - 1) as u8
        } else {
            p.row
        },
    }
}

pub open spec fn restore(s: Store) -> Store {
    Store { selected_pane: Focus::GridPane(s.previous_selected_pane), ..s }
}

pub open spec fn is_global_key(k: Keys) -> bool {
    ||| k == Keys::CtrlChar('j')
    ||| k == Keys::CtrlChar('k')
    ||| k == Keys::CtrlChar('l')
    ||| k == Keys::CtrlChar('h')
    ||| k == Keys::Char('q')
    ||| k == Keys::Esc
    ||| k == Keys::Char(':')
    ||| k == Keys::Char('?')
}

/// The store after the global handling of key `k`. Nothing is handled while
/// the store is locked or the command bar has the focus. The help overlay
/// is left by any navigation key, `q` or Esc. On a pane, Ctrl+j/Ctrl+k move
/// down/up the column, Ctrl+l/Ctrl+h switch columns, and `q` asks to exit.
/// `:` opens the command bar and `?` the help overlay, each remembering the
/// pane under the focus.
pub open spec fn global_step(s: Store, k: Keys) -> Store {
    if s.is_lock || s.selected_pane == Focus::CommandBar || !is_global_key(k) {
        s
    } else if k == Keys::Char(':') {
        Store {
            previous_selected_pane: pane_under(s),
            selected_pane: Focus::CommandBar,
            ..s
        }
    } else if k == Keys::Char('?') {
        Store {
            previous_selected_pane: pane_under(s),
            selected_pane: Focus::HelpOverlay,
            ..s
        }
    } else if s.selected_pane == Focus::HelpOverlay {
        restore(s)
    } else if k == Keys::Char('q') {
        Store { exit: true, ..s }
    } else {
        match s.selected_pane {
            Focus::GridPane(p) => if k == Keys::CtrlChar('j') {
                Store { selected_pane: Focus::GridPane(move_row(p, true)), ..s }
            } else if k == Keys::CtrlChar('k') {
                Store { selected_pane: Focus::GridPane(move_row(p, false)), ..s }
            } else if k == Keys::CtrlChar('l') || k == Keys::CtrlChar('h') {
                Store { selected_pane: Focus::GridPane(switch_column(p)), ..s }
            } else {
                s
            },
            _ => s,
        }
    }
}

/// Whether the global handling consumes key `k`.
pub open spec fn global_consumes(s: Store, k: Keys) -> bool {
    !s.is_lock && s.selected_pane != Focus::CommandBar && is_global_key(k)
}

/// The interface state: the panes and the store.
#[derive(Debug)]
pub struct App {
    pub tab: TabComponent,
    pub connection_list: ConnectionListComponent,
    pub database_list: DatabaseListComponent,
    pub table_list: TableListComponent,
    pub command: CommandComponent,
    pub records_view: RecordsViewComponent,
    pub help_view: HelpViewComponent,
    pub log_view: LogViewComponent,
    pub store: Store,
}

pub const HELP_TITLE_CONNECTIONS: &'static str = "Connection list";

impl App {
    pub open spec fn wf(&self) -> bool {
        &&& self.store.wf()
        &&& self.connection_list.wf()
        &&& self.connection_list.popup is Some ==> self.store.is_lock
        &&& self.store.selected_pane == Focus::InsertPopup ==> self.connection_list.popup is Some
        &&& self.records_view.wf()
        &&& self.tab.wf()
    }

    /// `after` is this state with the pane outcome `action` applied. A
    /// result set replaces the records pane's data, even when it has no
    /// rows, and focuses the pane. Resets empty the database or table
    /// panes, and `SendReset` the store's lists too.
    pub open spec fn app_action_applied(self, action: AppAction, after: App) -> bool {
        match action {
            AppAction::SendRecords(columns, rows, total) => {
                &&& after == (App {
                    records_view: after.records_view,
                    store: Store { selected_pane: pane(1, 1), ..self.store },
                    ..self
                })
                &&& after.records_view.model() == self.records_view.model().with_records(
                    columns.deep_view(),
                    rows.deep_view(),
                    total,
                )
            },
            AppAction::SendResetDatabaseList => after == (App {
                database_list: DatabaseListComponent { highlighted: None, selected: None },
                ..self
            }),
            AppAction::SendResetTableList => after == (App {
                table_list: TableListComponent { highlighted: None, selected: None },
                ..self
            }),
            AppAction::SendResetRecords => after == self,
            AppAction::SendReset => {
                &&& after == (App {
                    database_list: DatabaseListComponent { highlighted: None, selected: None },
                    table_list: TableListComponent { highlighted: None, selected: None },
                    store: Store {
                        database_list: after.store.database_list,
                        tables_list: after.store.tables_list,
                        ..self.store
                    },
                    ..self
                })
                &&& after.store.database_list.list@.len() == 0
                &&& after.store.database_list.current_database is None
                &&& after.store.tables_list@.len() == 0
            },
        }
    }

    /// `after` is this state with the outcome `action` applied.
    pub open spec fn update_applied(self, action: UpdateAction, after: App) -> bool {
        match action {
            UpdateAction::SendStoreAction(a) => {
                &&& self.store.applied(a, after.store)
                &&& after == (App { store: after.store, ..self })
            },
            UpdateAction::SendAppAction(a) => self.app_action_applied(a, after),
        }
    }

    /// `after` is this state with `actions` applied one after the other, in
    /// order.
    pub open spec fn applied_in_order(self, actions: Seq<UpdateAction>, after: App) -> bool
        decreases actions.len(),
    {
        if actions.len() == 0 {
            after == self
        } else {
            exists|mid: App|
                #![trigger self.update_applied(actions[0], mid)]
                self.update_applied(actions[0], mid) && mid.applied_in_order(
                    actions.drop_first(),
                    after,
                )
        }
    }

    /// `after` is this state once the pane or overlay that has the focus
    /// after the global handling of `k` has handled `k` too. Only that
    /// handler's state and the store change. The command bar gives the focus
    /// back once its text is confirmed; the help overlay shows the help of
    /// the pane under it when it has just been opened.
    pub open spec fn dispatched(self, k: Keys, after: App) -> bool {
        let mid = global_step(self.store, k);
        match mid.selected_pane {
            Focus::GridPane(p) => if p.column == 0 && p.row == 0 {
                &&& after == (App { connection_list: after.connection_list, store: after.store, ..self })
                &&& exists|r: EventState|
                    #[trigger] self.connection_list.handled(mid, k, after.connection_list, after.store, r)
            } else if p.column == 0 && p.row == 1 {
                &&& after == (App { database_list: after.database_list, store: after.store, ..self })
                &&& exists|r: EventState|
                    #[trigger] self.database_list.handled(mid, k, after.database_list, after.store, r)
            } else if p.column == 0 {
                &&& after == (App { table_list: after.table_list, store: after.store, ..self })
                &&& exists|r: EventState|
                    #[trigger] self.table_list.handled(mid, k, after.table_list, after.store, r)
            } else if p.row == 0 {
                &&& after == (App { tab: after.tab, store: mid, ..self })
                &&& exists|r: EventState| #[trigger] self.tab.handled(k, after.tab, r)
            } else if p.row == 1 {
                &&& after == (App { records_view: after.records_view, store: mid, ..self })
                &&& exists|r: EventState| #[trigger] self.records_view.handled(k, after.records_view, r)
            } else {
                &&& after == (App { log_view: after.log_view, store: mid, ..self })
                &&& exists|r: EventState| #[trigger] self.log_view.handled(mid, k, after.log_view, r)
            },
            Focus::CommandBar => {
                &&& after == (App { command: after.command, store: after.store, ..self })
                &&& exists|r: EventState, s: Store|
                    #[trigger] self.command.handled(mid, k, after.command, s, r) && after.store == (
                    if r is ConfirmedText {
                        restore(s)
                    } else {
                        s
                    })
            },
            Focus::HelpOverlay => {
                &&& after == (App { help_view: after.help_view, store: after.store, ..self })
                &&& exists|h: HelpViewComponent, r: EventState|
                    #[trigger] h.handled(mid, k, after.help_view, after.store, r) && (
                    self.store.selected_pane == Focus::HelpOverlay ==> h == self.help_view)
            },
            Focus::InsertPopup => {
                &&& after == (App { connection_list: after.connection_list, store: after.store, ..self })
                &&& exists|r: EventState|
                    #[trigger] self.connection_list.handled(mid, k, after.connection_list, after.store, r)
            },
        }
    }

    /// `after` is this state once key `k` is handled: globally first, then
    /// by what has the focus. The exit flag follows the global handling. A
    /// key that the global handling consumes leaves the lock alone and the
    /// focus where that handling put it. Esc in the command bar or the insert
    /// popup gives the focus back to the pane under it.
    pub open spec fn key_handled(self, k: Keys, after: App) -> bool {
        let g = global_step(self.store, k);
        &&& self.dispatched(k, after)
        &&& after.store.exit == g.exit
        &&& global_consumes(self.store, k) ==> {
            &&& after.store.selected_pane == g.selected_pane
            &&& after.store.previous_selected_pane == g.previous_selected_pane
            &&& after.store.is_lock == self.store.is_lock
        }
        &&& ((self.store.selected_pane == Focus::CommandBar || self.store.selected_pane
            == Focus::InsertPopup) && k == Keys::Esc) ==> after.store.selected_pane
            == Focus::GridPane(self.store.previous_selected_pane)
    }

    pub fn new() -> (r: Self)
        ensures
            r.wf(),
            r.store.selected_pane == pane(0, 0),
            !r.store.is_lock,
            !r.store.exit,
    {
        App {
            tab: TabComponent::new(),
            connection_list: ConnectionListComponent::new(),
            database_list: DatabaseListComponent::new(),
            table_list: TableListComponent::new(),
            command: CommandComponent::new(),
            records_view: RecordsViewComponent::new(),
            help_view: HelpViewComponent::new(
                0,
                String::from_str(HELP_TITLE_CONNECTIONS),
                App::help_view_text(Pane { column: 0, row: 0 }),
            ),
            log_view: LogViewComponent::new(),
            store: Store::new(),
        }
    }

    /// The keys listed in the help overlay of a pane, for the panes that
    /// have some.
    pub fn help_view_text(selected_pane: Pane) -> (r: Option<Vec<(String, String)>>)
        ensures
            selected_pane == (Pane { column: 0, row: 0 }) ==> r is Some,
            selected_pane != (Pane { column: 0, row: 0 }) ==> r is None,
    {
        if selected_pane.column == 0 && selected_pane.row == 0 {
            Some(ConnectionListComponent::help_content_text())
        } else {
            None
        }
    }

    /// Title of the help overlay of a pane.
    pub fn help_title(selected_pane: Pane) -> (r: String)
        ensures
            selected_pane == (Pane { column: 0, row: 0 }) ==> r@ == HELP_TITLE_CONNECTIONS@,
    {
        let title = if selected_pane.column == 0 {
            if selected_pane.row == 0 {
                HELP_TITLE_CONNECTIONS
            } else if selected_pane.row == 1 {
                "Database list"
            } else {
                "Table list"
            }
        } else if selected_pane.row == 0 {
            "Tab"
        } else if selected_pane.row == 1 {
            "Records"
        } else {
            "Log"
        };
        String::from_str(title)
    }

    /// Whether a terminal of `width` columns and `height` rows is large
    /// enough for the layout.
    pub fn verify_space_available(width: u16, height: u16) -> (r: bool)
        ensures
            r == (width >= MIN_WIDTH && height >= MIN_HEIGHT),
    {
        width >= MIN_WIDTH && height >= MIN_HEIGHT
    }

    /// Global handling of a key, before the focused pane sees it: moving
    /// between panes, opening and leaving overlays, and exiting.
    pub fn event(&mut self, input: &Keys) -> (r: EventState)
        requires
            old(self).wf(),
        ensures
            final(self).wf(),
            *final(self) == (App { store: global_step(old(self).store, *input), ..*old(self) }),
            global_consumes(old(self).store, *input) ==> r is Consumed,
            !global_consumes(old(self).store, *input) ==> r is Wasted,
    {
        if self.store.is_lock || self.store.selected_pane == Focus::CommandBar {
            return EventState::Wasted;
        }
        let under = match self.store.selected_pane {
            Focus::GridPane(p) => p,
            _ => self.store.previous_selected_pane,
        };
        match input {
            Keys::Char(':') => {
                self.store.previous_selected_pane = under;
                self.store.selected_pane = Focus::CommandBar;
                return EventState::Consumed;
            },
            Keys::Char('?') => {
                self.store.previous_selected_pane = under;
                self.store.selected_pane = Focus::HelpOverlay;
                return EventState::Consumed;
            },
            Keys::CtrlChar('j') | Keys::CtrlChar('k') | Keys::CtrlChar('l') | Keys::CtrlChar('h')
            | Keys::Char('q') | Keys::Esc => {},
            _ => return EventState::Wasted,
        }
        if self.store.selected_pane == Focus::HelpOverlay {
            self.store.selected_pane = Focus::GridPane(self.store.previous_selected_pane);
            return EventState::Consumed;
        }
        if let Keys::Char('q') = input {
            self.store.exit = true;
            return EventState::Consumed;
        }
        if let Focus::GridPane(p) = self.store.selected_pane {
            let next = match input {
                Keys::CtrlChar('j') => Pane {
                    column: p.column,
                    row: if p.row + 1 >= PANE_ROWS {
                        0
                    } else {
                        p.row + 1
                    },
                },
                Keys::CtrlChar('k') => Pane {
                    column: p.column,
                    row: if p.row == 0 || p.row >= PANE_ROWS {
                        PANE_ROWS - 1
                    } else {
                        p.row - 1
                    },
                },
                Keys::CtrlChar('l') | Keys::CtrlChar('h') => Pane {
                    column: if p.column == 0 {
                        1
                    } else {
                        0
                    },
                    row: if p.row >= PANE_ROWS {
                        PANE_ROWS - 1
                    } else {
                        p.row
                    },
                },
                _ => p,
            };
            self.store.selected_pane = Focus::GridPane(next);
        }
        EventState::Consumed
    }

    /// Handles a key: first globally, then by the pane or overlay that has
    /// the focus afterwards. Opening the help overlay fills it with the help
    /// of the pane under it.
    pub fn event_handling(&mut self, k: Keys)
        requires
            old(self).wf(),
        ensures
            final(self).wf(),
            old(self).key_handled(k, *final(self)),
    {
        let before = self.store.selected_pane;
        self.event(&k);
        if self.store.selected_pane == Focus::HelpOverlay && before != Focus::HelpOverlay {
            let p = self.store.previous_selected_pane;
            let id = (p.column as u32) * (PANE_ROWS as u32) + (p.row as u32);
            self.help_view = HelpViewComponent::new(
                id,
                App::help_title(p),
                App::help_view_text(p),
            );
        }
        match self.store.selected_pane {
            Focus::GridPane(p) => {
                if p.column == 0 && p.row == 0 {
                    let _r = self.connection_list.event(&k, &mut self.store);
                } else if p.column == 0 && p.row == 1 {
                    let _r = self.database_list.event(&k, &mut self.store);
                } else if p.column == 0 {
                    let _r = self.table_list.event(&k, &mut self.store);
                } else if p.row == 0 {
                    let _r = self.tab.event(&k);
                } else if p.row == 1 {
                    let _r = self.records_view.event(&k);
                } else {
                    let _r = self.log_view.event(&k, &self.store);
                }
            },
            Focus::CommandBar => {
                let event = self.command.event(&k, &mut self.store);
                let ghost s = self.store;
                if let EventState::ConfirmedText(_) = event {
                    self.store.selected_pane = Focus::GridPane(self.store.previous_selected_pane);
                }
            },
            Focus::HelpOverlay => {
                let _r = self.help_view.event(&k, &mut self.store);
            },
            Focus::InsertPopup => {
                let _r = self.connection_list.event(&k, &mut self.store);
            },
        }
    }

    /// Applies an outcome that concerns the panes.
    pub fn update_action(&mut self, action: AppAction)
        requires
            old(self).wf(),
        ensures
            final(self).wf(),
            old(self).app_action_applied(action, *final(self)),
    {
        match action {
            AppAction::SendResetDatabaseList => {
                self.database_list = DatabaseListComponent::new();
            },
            AppAction::SendResetTableList => {
                self.table_list = TableListComponent::new();
            },
            AppAction::SendResetRecords => {},
            AppAction::SendReset => {
                self.store.reset_database_list();
                self.store.reset_tables_list();
                self.database_list = DatabaseListComponent::new();
                self.table_list = TableListComponent::new();
            },
            AppAction::SendRecords(columns, rows, total) => {
                self.records_view.set_header(columns);
                self.records_view.set_body(rows);
                self.records_view.set_total(total);
                self.store.selected_pane = Focus::GridPane(Pane { column: 1, row: 1 });
            },
        }
    }

    /// Applies one outcome of background work.
    pub fn apply(&mut self, action: UpdateAction)
        requires
            old(self).wf(),
        ensures
            final(self).wf(),
            old(self).update_applied(action, *final(self)),
    {
        match action {
            UpdateAction::SendStoreAction(a) => {
                self.store.update(a);
            },
            UpdateAction::SendAppAction(a) => {
                self.update_action(a);
            },
        }
    }

    /// Applies the outcomes posted since the last tick, in the order they
    /// were posted.
    pub fn update(&mut self, actions: Vec<UpdateAction>)
        requires
            old(self).wf(),
        ensures
            final(self).wf(),
            old(self).applied_in_order(actions@, *final(self)),
    {
        let ghost all = actions@;
        let mut actions = actions;
        let ghost mut done: int = 0;
        proof {
            assert(all.subrange(0, 0) =~= Seq::<UpdateAction>::empty());
        }
        while actions.len() > 0
            invariant
                self.wf(),
                0 <= done <= all.len(),
                actions@ == all.subrange(done, all.len() as int),
                old(self).applied_in_order(all.subrange(0, done), *self),
            decreases actions@.len(),
        {
            let ghost before = *self;
            let a = actions.remove(0);
            self.apply(a);
            proof {
                lemma_applied_in_order_push(*old(self), all.subrange(0, done), a, before, *self);
                assert(all.subrange(0, done).push(a) =~= all.subrange(0, done + 1));
                done = done + 1;
                assert(actions@ =~= all.subrange(done, all.len() as int));
            }
        }
        proof {
            assert(all.subrange(0, done) =~= all);
        }
    }
}

/// Applying a sequence of outcomes and then one more is applying the
/// sequence with that outcome appended.
pub proof fn lemma_applied_in_order_push(
    s: App,
    done: Seq<UpdateAction>,
    a: UpdateAction,
    mid: App,
    after: App,
)
    requires
        s.applied_in_order(done, mid),
        mid.update_applied(a, after),
    ensures
        s.applied_in_order(done.push(a), after),
    decreases done.len(),
{
    if done.len() == 0 {
        assert(done.push(a).drop_first() =~= Seq::<UpdateAction>::empty());
        assert(done.push(a)[0] == a);
        assert(after.applied_in_order(done.push(a).drop_first(), after));
    } else {
        let next = choose|m: App|
            #![trigger s.update_applied(done[0], m)]
            s.update_applied(done[0], m) && m.applied_in_order(done.drop_first(), mid);
        lemma_applied_in_order_push(next, done.drop_first(), a, mid, after);
        assert(done.push(a).drop_first() =~= done.drop_first().push(a));
        assert(done.push(a)[0] == done[0]);
    }
}

/// Draining two outcomes is applying the first, then the second.
pub proof fn lemma_drain_two(s: App, first: UpdateAction, second: UpdateAction, after: App)
    requires
        s.applied_in_order(seq![first, second], after),
    ensures
        exists|mid: App| #[trigger] s.update_applied(first, mid) && mid.update_applied(second, after),
{
    let acts = seq![first, second];
    let mid = choose|m: App|
        #![trigger s.update_applied(acts[0], m)]
        s.update_applied(acts[0], m) && m.applied_in_order(acts.drop_first(), after);
    let rest = acts.drop_first();
    assert(rest[0] == second);
    let last = choose|m: App|
        #![trigger mid.update_applied(rest[0], m)]
        mid.update_applied(rest[0], m) && m.applied_in_order(rest.drop_first(), after);
    assert(rest.drop_first().len() == 0);
    assert(s.update_applied(first, mid) && mid.update_applied(second, after));
}

/// When two listings for the same pane are drained, whichever was posted
/// last decides the list and the focus, whatever order they were asked in.
pub proof fn lemma_drain_last_listing_wins(
    s: App,
    first: Vec<String>,
    second: Vec<String>,
    after: App,
)
    ensures
        s.applied_in_order(
            seq![
                UpdateAction::SendStoreAction(StoreAction::SendTablesData(first)),
                UpdateAction::SendStoreAction(StoreAction::SendTablesData(second)),
            ],
            after,
        ) ==> after.store.tables_list == second && after.store.selected_pane == pane(0, 2),
        s.applied_in_order(
            seq![
                UpdateAction::SendStoreAction(StoreAction::SendDatabaseData(first)),
                UpdateAction::SendStoreAction(StoreAction::SendDatabaseData(second)),
            ],
            after,
        ) ==> after.store.database_list.list == second && after.store.selected_pane == pane(0, 1),
{
    let t1 = UpdateAction::SendStoreAction(StoreAction::SendTablesData(first));
    let t2 = UpdateAction::SendStoreAction(StoreAction::SendTablesData(second));
    if s.applied_in_order(seq![t1, t2], after) {
        lemma_drain_two(s, t1, t2, after);
    }
    let d1 = UpdateAction::SendStoreAction(StoreAction::SendDatabaseData(first));
    let d2 = UpdateAction::SendStoreAction(StoreAction::SendDatabaseData(second));
    if s.applied_in_order(seq![d1, d2], after) {
        lemma_drain_two(s, d1, d2, after);
    }
}

/// When two result sets are drained, the records pane holds the
/// columns, rows and count of the one posted last.
pub proof fn lemma_drain_last_records_win(
    s: App,
    columns1: Vec<String>,
    rows1: Vec<Vec<String>>,
    total1: Option<i64>,
    columns2: Vec<String>,
    rows2: Vec<Vec<String>>,
    total2: Option<i64>,
    after: App,
)
    requires
        s.applied_in_order(
            seq![
                UpdateAction::SendAppAction(AppAction::SendRecords(columns1, rows1, total1)),
                UpdateAction::SendAppAction(AppAction::SendRecords(columns2, rows2, total2)),
            ],
            after,
        ),
    ensures
        after.records_view.model().header == columns2.deep_view(),
        after.records_view.model().rows == rows2.deep_view(),
        after.records_view.model().total == total2,
        after.store.selected_pane == pane(1, 1),
{
    let a1 = UpdateAction::SendAppAction(AppAction::SendRecords(columns1, rows1, total1));
    let a2 = UpdateAction::SendAppAction(AppAction::SendRecords(columns2, rows2, total2));
    lemma_drain_two(s, a1, a2, after);
    let mid = choose|m: App| #[trigger] s.update_applied(a1, m) && m.update_applied(a2, after);
    crate::components::records_view::lemma_last_records_win(
        s.records_view.model(),
        columns1.deep_view(),
        rows1.deep_view(),
        total1,
        columns2.deep_view(),
        rows2.deep_view(),
        total2,
    );
}

/// Handling a key that opens an overlay (`?` or `:`) on a pane and then Esc
/// gives the focus back to that pane, whatever the pane; so any number of
/// such cycles, from any panes, each end where they began.
pub proof fn lemma_key_overlay_round_trip(a0: App, a1: App, a2: App, p: Pane, open: Keys)
    requires
        a0.wf(),
        !a0.store.is_lock,
        a0.store.selected_pane == Focus::GridPane(p),
        open == Keys::Char('?') || open == Keys::Char(':'),
        a0.key_handled(open, a1),
        a1.key_handled(Keys::Esc, a2),
    ensures
        a2.store.selected_pane == Focus::GridPane(p),
{
}

/// Opening the help overlay or the command bar from a pane and leaving it
/// again gives the focus back to that pane, whatever the pane.
pub proof fn lemma_overlay_round_trip(s: Store, p: Pane)
    requires
        s.wf(),
        !s.is_lock,
        s.selected_pane == Focus::GridPane(p),
    ensures
        global_step(global_step(s, Keys::Char('?')), Keys::Esc).selected_pane == Focus::GridPane(p),
        global_step(global_step(s, Keys::Char('?')), Keys::Char('q')).selected_pane
            == Focus::GridPane(p),
        !global_step(global_step(s, Keys::Char('?')), Keys::Char('q')).exit || s.exit,
        restore(global_step(s, Keys::Char(':'))).selected_pane == Focus::GridPane(p),
{
}

} // verus!
