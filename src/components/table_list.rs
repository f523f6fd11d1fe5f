use crate::application::store::{Store, Task};
use crate::components::{next_index, next_index_of, prev_index, prev_index_of};
use crate::events::key::Keys;
use crate::events::EventState;
use vstd::prelude::*;

verus! {

/// The tables pane: the highlighted table, and the one whose rows were
/// asked for.
#[derive(Debug, Clone, Copy)]
pub struct TableListComponent {
    pub highlighted: Option<usize>,
    pub selected: Option<usize>,
}

impl TableListComponent {
    pub fn new() -> (r: Self)
        ensures
            r.highlighted is None,
            r.selected is None,
    {
        TableListComponent { highlighted: None, selected: None }
    }

    /// `after`, `store_after` and `r` are this pane, the store and the result after it handles `input`.
    pub open spec fn handled(self, store: Store, input: Keys, after: Self, store_after: Store, r: EventState) -> bool {
        ({
            let len = store.tables_list@.len();
            let h = self.highlighted;
            let db = store.database_list.current_database;
            &&& len == 0 ==> after == self && store_after == store
                && r is Consumed
            &&& (len > 0 && input == Keys::Char('j')) ==> after.highlighted
                == next_index(h, len as usize) && after.selected == self.selected
                && store_after == store && r is Consumed
            &&& (len > 0 && input == Keys::Char('k')) ==> after.highlighted
                == prev_index(h, len as usize) && after.selected == self.selected
                && store_after == store && r is Consumed
            &&& (len > 0 && input == Keys::Enter && h is Some && h->0 < len && db is Some
                && db->0 < store.database_list.list@.len()) ==> {
                &&& after.selected == h
                &&& after.highlighted == h
                &&& store_after == (Store { tasks: store_after.tasks, ..store })
                &&& store_after.tasks@.len() == store.tasks@.len() + 1
                &&& store_after.tasks@.drop_last() == store.tasks@
                &&& (store_after.tasks@.last() matches Task::FetchRecords(d, t) && d@ == store.database_list.list@[db->0 as int]@ && t@ == store.tables_list@[h->0 as int]@)
                &&& r is Consumed
            }
            &&& (len > 0 && input == Keys::Enter && !(h is Some && h->0 < len && db is Some && db->0
                < store.database_list.list@.len())) ==> after == self && store_after == store
                && r is Consumed
            &&& (len > 0 && input != Keys::Char('j') && input != Keys::Char('k') && input
                != Keys::Enter) ==> after == self && store_after == store
                && r is Wasted
        })
    }

    /// On a list that is not empty, `j`/`k` move the highlight and Enter
    /// queues the fetch of the highlighted table's rows from the current
    /// database.
    pub fn event(&mut self, input: &Keys, store: &mut Store) -> (r: EventState)
        requires
            old(store).wf(),
        ensures
            final(store).wf(),
            final(store).exit == old(store).exit,
            old(self).handled(*old(store), *input, *final(self), *final(store), r),
    {
        let len = store.tables_list.len();
        if len > 0 {
            match input {
                Keys::Char('j') => {
                    self.highlighted = next_index_of(self.highlighted, len);
                },
                Keys::Char('k') => {
                    self.highlighted = prev_index_of(self.highlighted, len);
                },
                Keys::Enter => {
                    if let (Some(index), Some(db)) = (
                        self.highlighted,
                        store.database_list.current_database,
                    ) {
                        if index < len && db < store.database_list.list.len() {
                            let db_name = store.database_list.list[db].clone();
                            let table_name = store.tables_list[index].clone();
                            store.submit(Task::FetchRecords(db_name, table_name));
                            proof {
                                assert(final(store).tasks@.drop_last() =~= old(store).tasks@);
                            }
                            self.selected = Some(index);
                        }
                    }
                },
                _ => return EventState::Wasted,
            }
        }
        EventState::Consumed
    }
}

} // verus!
