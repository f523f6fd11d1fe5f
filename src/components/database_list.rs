use crate::application::store::{Store, Task};
use crate::sql::database::DatabaseList;
use crate::components::{next_index, next_index_of, prev_index, prev_index_of};
use crate::events::key::Keys;
use crate::events::EventState;
use vstd::prelude::*;

verus! {

/// The databases pane: the highlighted database, and the one whose tables
/// were asked for.
#[derive(Debug, Clone, Copy)]
pub struct DatabaseListComponent {
    pub highlighted: Option<usize>,
    pub selected: Option<usize>,
}

impl DatabaseListComponent {
    pub fn new() -> (r: Self)
        ensures
            r.highlighted is None,
            r.selected is None,
    {
        DatabaseListComponent { highlighted: None, selected: None }
    }

    /// `after`, `store_after` and `r` are this pane, the store and the result after it handles `input`.
    pub open spec fn handled(self, store: Store, input: Keys, after: Self, store_after: Store, r: EventState) -> bool {
        ({
            let len = store.database_list.list@.len();
            let h = self.highlighted;
            &&& len == 0 ==> after == self && store_after == store
                && r is Consumed
            &&& (len > 0 && input == Keys::Char('j')) ==> after.highlighted
                == next_index(h, len as usize) && after.selected == self.selected
                && store_after == store && r is Consumed
            &&& (len > 0 && input == Keys::Char('k')) ==> after.highlighted
                == prev_index(h, len as usize) && after.selected == self.selected
                && store_after == store && r is Consumed
            &&& (len > 0 && input == Keys::Enter && h is Some && h->0 < len) ==> {
                &&& after.selected == h
                &&& store_after == (Store {
                    database_list: DatabaseList { current_database: h, ..store.database_list },
                    tasks: store_after.tasks,
                    ..store
                })
                &&& after.highlighted == h
                &&& store_after.tasks@.len() == store.tasks@.len() + 1
                &&& store_after.tasks@.drop_last() == store.tasks@
                &&& (store_after.tasks@.last() matches Task::FetchTables(name) && name@ == store.database_list.list@[h->0 as int]@)
                &&& r is Consumed
            }
            &&& (len > 0 && input == Keys::Enter && !(h is Some && h->0 < len)) ==> after == self
                && store_after == store && r is Consumed
            &&& (len > 0 && input != Keys::Char('j') && input != Keys::Char('k') && input
                != Keys::Enter) ==> after == self && store_after == store
                && r is Wasted
        })
    }

    /// On a list that is not empty, `j`/`k` move the highlight and Enter
    /// makes the highlighted database the current one and queues the
    /// listing of its tables.
    pub fn event(&mut self, input: &Keys, store: &mut Store) -> (r: EventState)
        requires
            old(store).wf(),
        ensures
            final(store).wf(),
            final(store).exit == old(store).exit,
            old(self).handled(*old(store), *input, *final(self), *final(store), r),
    {
        let len = store.database_list.list.len();
        if len > 0 {
            match input {
                Keys::Char('j') => {
                    self.highlighted = next_index_of(self.highlighted, len);
                },
                Keys::Char('k') => {
                    self.highlighted = prev_index_of(self.highlighted, len);
                },
                Keys::Enter => {
                    if let Some(index) = self.highlighted {
                        if index < len {
                            let current_db = store.database_list.list[index].clone();
                            store.database_list.current_database = Some(index);
                            store.submit(Task::FetchTables(current_db));
                            proof {
                                assert(final(store).tasks@.drop_last() =~= old(store).tasks@);
                            }
                            self.selected = Some(index);
                        }
                    }
                },
                _ => return EventState::Wasted,
            }
        }
        EventState::Consumed
    }
}

} // verus!
