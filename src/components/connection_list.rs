use crate::application::store::{pane_under, Focus, Store, Task};
use crate::application::user_data::UserData;
use crate::sql::connection::ConnectionList;
use crate::components::input_popup::{is_blank_text, InputAction, InputPopupComponent};
use crate::components::{next_index, next_index_of, prev_index, prev_index_of};
use crate::components::log_view::LogKind;
use crate::events::key::Keys;
use crate::events::EventState;
use crate::sql::connection::Connection;
use vstd::prelude::*;

verus! {

pub const POPUP_TITLE: &'static str = "Connection string";

pub const REMOVED_MESSAGE: &'static str = "Connection string removed.";

pub const CONNECTING_MESSAGE: &'static str = "Trying to connect to the database...";

/// The connections pane: the highlighted connection, and the popup that
/// inserts or edits a connection string while it is open.
#[derive(Debug)]
pub struct ConnectionListComponent {
    pub selected: Option<usize>,
    pub popup: Option<InputPopupComponent>,
}

/// The highlight after the item at `removed` is taken out of a list that
/// now holds `len` items: kept where it still points at an item.
pub open spec fn selection_after_removal(removed: usize, len: usize) -> Option<usize> {
    if len == 0 {
        None
    } else if removed < len {
        Some(removed)
    } else {
        Some((len - 1) as usize)
    }
}

/// The keys the connections pane acts on when no popup is open.
pub open spec fn is_list_key(k: Keys) -> bool {
    ||| k == Keys::Char('i')
    ||| k == Keys::Char('j')
    ||| k == Keys::Char('k')
    ||| k == Keys::Char('d')
    ||| k == Keys::Char('e')
    ||| k == Keys::Enter
}

/// `store` with `list` as its connections.
pub open spec fn with_connections(store: Store, list: Vec<Connection>) -> Store {
    Store {
        user_data: UserData {
            connection_list: ConnectionList { list, ..store.user_data.connection_list },
        },
        ..store
    }
}

/// `store` once the popup is open: locked, focused on the popup, and
/// remembering the pane under the focus.
pub open spec fn opened(store: Store) -> Store {
    Store {
        is_lock: true,
        selected_pane: Focus::InsertPopup,
        previous_selected_pane: pane_under(store),
        ..store
    }
}

impl ConnectionListComponent {
    pub open spec fn wf(self) -> bool {
        self.popup matches Some(p) ==> p.wf()
    }

    pub fn new() -> (r: Self)
        ensures
            r.wf(),
            r.selected is None,
            r.popup is None,
    {
        ConnectionListComponent { selected: None, popup: None }
    }

    /// Opens the popup, which takes the focus and locks the global keys.
    fn open_popup(&mut self, store: &mut Store, content: String, action: InputAction)
        requires
            old(store).wf(),
        ensures
            final(self).selected == old(self).selected,
            final(self).popup matches Some(p) && p.wf() && p.content == content && p.action
                == action && p.title@ == POPUP_TITLE@,
            *final(store) == opened(*old(store)),
    {
        if let Focus::GridPane(p) = store.selected_pane {
            store.previous_selected_pane = p;
        }
        store.selected_pane = Focus::InsertPopup;
        store.is_lock = true;
        self.popup = Some(InputPopupComponent::new(String::from_str(POPUP_TITLE), content, action));
    }

    /// Closes the popup, unlocks the global keys and gives the focus back.
    fn close_popup(&mut self, store: &mut Store)
        ensures
            final(self).selected == old(self).selected,
            final(self).popup is None,
            *final(store) == (Store {
                is_lock: false,
                selected_pane: Focus::GridPane(old(store).previous_selected_pane),
                ..*old(store)
            }),
    {
        self.popup = None;
        store.is_lock = false;
        store.selected_pane = Focus::GridPane(store.previous_selected_pane);
    }

    /// `after`, `store_after` and `r` are this pane, the store and the result
    /// after it handles `input`.
    pub open spec fn handled(
        self,
        store: Store,
        input: Keys,
        after: Self,
        store_after: Store,
        r: EventState,
    ) -> bool {
        let conns = store.user_data.connection_list;
        let len = conns.list@.len();
        let sel = self.selected;
        let valid = sel is Some && sel->0 < len;
        let closed = Store {
            is_lock: false,
            selected_pane: Focus::GridPane(store.previous_selected_pane),
            ..store
        };
        match self.popup {
            Some(p) => {
                &&& r is Consumed
                &&& after.selected == sel
                &&& if input == Keys::Esc || (input == Keys::Enter && is_blank_text(p.content@)) {
                    after.popup is None && store_after == closed
                } else if input == Keys::Enter {
                    &&& after.popup is None
                    &&& store_after == with_connections(closed, store_after.user_data.connection_list.list)
                    &&& p.action == InputAction::Insert ==> store_after.user_data.connection_list.list@
                        == conns.list@.push(Connection { connection_string: p.content })
                    &&& (p.action == InputAction::Edit && valid) ==> store_after.user_data.connection_list.list@
                        == conns.list@.update(sel->0 as int, Connection { connection_string: p.content })
                    &&& (p.action == InputAction::Edit && !valid) ==> store_after.user_data.connection_list.list
                        == conns.list
                } else {
                    &&& store_after == store
                    &&& after.popup is Some
                    &&& exists|pr: EventState| #[trigger] p.handled(store, input, after.popup->0, store, pr)
                }
            },
            None => {
                &&& input == Keys::Char('i') ==> {
                    &&& (after.popup matches Some(q) && q.action == InputAction::Insert
                        && q.content@.len() == 0)
                    &&& after.selected == sel
                    &&& store_after == opened(store)
                    &&& r is Consumed
                }
                &&& (input == Keys::Char('j') && len > 0) ==> after == (ConnectionListComponent {
                    selected: next_index(sel, len as usize),
                    ..self
                }) && store_after == store && r is Consumed
                &&& (input == Keys::Char('k') && len > 0) ==> after == (ConnectionListComponent {
                    selected: prev_index(sel, len as usize),
                    ..self
                }) && store_after == store && r is Consumed
                &&& (input == Keys::Char('d') && len > 0) ==> {
                    &&& r is Consumed
                    &&& valid ==> {
                        &&& after == (ConnectionListComponent {
                            selected: selection_after_removal(sel->0, (len - 1) as usize),
                            ..self
                        })
                        &&& store_after == (Store {
                            log_contents: store_after.log_contents,
                            ..with_connections(store, store_after.user_data.connection_list.list)
                        })
                        &&& store_after.user_data.connection_list.list@ == conns.list@.remove(
                            sel->0 as int,
                        )
                        &&& store_after.log_view() == store.log_view().push(
                            (LogKind::Info, REMOVED_MESSAGE@),
                        )
                    }
                    &&& !valid ==> after == self && store_after == store
                }
                &&& (input == Keys::Char('e') && len > 0) ==> {
                    &&& r is Consumed
                    &&& valid ==> {
                        &&& (after.popup matches Some(q) && q.action == InputAction::Edit
                            && q.content == conns.list@[sel->0 as int].connection_string)
                        &&& after.selected == sel
                        &&& store_after == (Store {
                            user_data: UserData {
                                connection_list: ConnectionList { current_connection: None, ..conns },
                            },
                            ..opened(store)
                        })
                    }
                    &&& !valid ==> after == self && store_after == store
                }
                &&& (input == Keys::Enter && len > 0) ==> {
                    &&& r is Consumed
                    &&& after == self
                    &&& valid ==> {
                        &&& store_after == (Store {
                            user_data: UserData {
                                connection_list: ConnectionList {
                                    current_connection: Some(sel->0),
                                    is_loading: true,
                                    ..conns
                                },
                            },
                            tasks: store_after.tasks,
                            log_contents: store_after.log_contents,
                            ..store
                        })
                        &&& store_after.tasks@ == store.tasks@.push(Task::FetchDatabases(sel->0))
                        &&& store_after.log_view() == store.log_view().push(
                            (LogKind::Info, CONNECTING_MESSAGE@),
                        )
                    }
                    &&& !valid ==> store.logged(LogKind::Info, CONNECTING_MESSAGE@, store_after)
                }
                &&& !is_list_key(input) ==> after == self && store_after == store && (if len > 0 {
                    r is Wasted
                } else {
                    r is Consumed
                })
                &&& (len == 0 && input != Keys::Char('i')) ==> after == self && store_after == store
                    && r is Consumed
            },
        }
    }

    /// While the popup is open, keys edit it: a confirmed text is inserted as
    /// a new connection, or replaces the highlighted one's; confirming or
    /// dismissing closes the popup. Otherwise `i` opens the popup to insert,
    /// and on a list that is not empty `j`/`k` move the highlight, `d`
    /// removes the highlighted connection, `e` opens the popup to edit it,
    /// and Enter makes it the current connection and queues the listing of
    /// its databases.
    pub fn event(&mut self, input: &Keys, store: &mut Store) -> (r: EventState)
        requires
            old(self).wf(),
            old(store).wf(),
        ensures
            final(self).wf(),
            final(store).wf(),
            old(self).handled(*old(store), *input, *final(self), *final(store), r),
    {
        if self.popup.is_some() {
            let mut popup = self.popup.take().unwrap();
            let event = popup.event(input, store);
            self.popup = Some(popup);
            match event {
                EventState::ConfirmedText(content) => {
                    let action = self.popup.as_ref().unwrap().action;
                    match action {
                        InputAction::Insert => {
                            store.user_data.connection_list.list.push(Connection::new(content));
                        },
                        InputAction::Edit => {
                            if let Some(i) = self.selected {
                                if i < store.user_data.connection_list.list.len() {
                                    store.user_data.connection_list.list.set(
                                        i,
                                        Connection::new(content),
                                    );
                                }
                            }
                        },
                    }
                    self.close_popup(store);
                },
                EventState::Escaped => {
                    self.close_popup(store);
                },
                _ => {},
            }
            return EventState::Consumed;
        }
        if let Keys::Char('i') = input {
            self.open_popup(store, String::new(), InputAction::Insert);
            return EventState::Consumed;
        }
        let len = store.user_data.connection_list.list.len();
        if len > 0 {
            match input {
                Keys::Char('j') => {
                    self.selected = next_index_of(self.selected, len);
                },
                Keys::Char('k') => {
                    self.selected = prev_index_of(self.selected, len);
                },
                Keys::Char('d') => {
                    if let Some(index) = self.selected {
                        if index < len {
                            store.user_data.connection_list.list.remove(index);
                            store.log(REMOVED_MESSAGE);
                            let new_len = len - 1;
                            self.selected = if new_len == 0 {
                                None
                            } else if index < new_len {
                                Some(index)
                            } else {
                                Some(new_len - 1)
                            };
                        }
                    }
                },
                Keys::Char('e') => {
                    let index = match self.selected {
                        Some(i) => i,
                        None => return EventState::Consumed,
                    };
                    if index >= len {
                        return EventState::Consumed;
                    }
                    let content = store.user_data.connection_list.list[index].connection_string.clone();
                    self.open_popup(store, content, InputAction::Edit);
                    store.user_data.connection_list.reset_current_connection();
                },
                Keys::Enter => {
                    store.log(CONNECTING_MESSAGE);
                    if let Some(index) = self.selected {
                        if index < len {
                            store.user_data.connection_list.set_current_connection(index);
                            store.user_data.connection_list.is_loading = true;
                            store.submit(Task::FetchDatabases(index));
                        }
                    }
                },
                _ => return EventState::Wasted,
            }
        }
        EventState::Consumed
    }
}

impl ConnectionListComponent {
    /// The keys of the connections pane, each with what it does.
    pub fn help_content_text() -> (r: Vec<(String, String)>)
        ensures
            r@.len() == 3,
            r@[0].0@ == "i"@ && r@[0].1@ == "Insert a new database connection"@,
            r@[1].0@ == "d"@ && r@[1].1@ == "Delete the database connection"@,
            r@[2].0@ == "e"@ && r@[2].1@ == "Edit the database connection"@,
    {
        vec![
            (String::from_str("i"), String::from_str("Insert a new database connection")),
            (String::from_str("d"), String::from_str("Delete the database connection")),
            (String::from_str("e"), String::from_str("Edit the database connection")),
        ]
    }
}

} // verus!
