use crate::application::store::{Focus, Store, Task};
use crate::components::{next_index, next_index_of, prev_index, prev_index_of};
use crate::events::key::Keys;
use crate::events::EventState;
use vstd::prelude::*;

verus! {

/// The help overlay: the keys of a pane, each with what it does.
#[derive(Debug)]
pub struct HelpViewComponent {
    pub id: u32,
    pub content: Vec<(String, String)>,
    pub title: String,
    pub highlighted: Option<usize>,
}

impl HelpViewComponent {
    pub fn new(id: u32, title: String, content: Option<Vec<(String, String)>>) -> (r: Self)
        ensures
            r.id == id,
            r.title == title,
            content matches Some(c) ==> r.content == c,
            content is None ==> r.content@.len() == 0,
            r.highlighted is None,
    {
        let content = match content {
            Some(c) => c,
            None => Vec::new(),
        };
        HelpViewComponent { id, content, title, highlighted: None }
    }

    /// `after`, `store_after` and `r` are this overlay, the store and the result after it handles `input`.
    pub open spec fn handled(self, store: Store, input: Keys, after: Self, store_after: Store, r: EventState) -> bool {
        ({
            let len = self.content@.len();
            let h = self.highlighted;
            &&& after.content == self.content
            &&& input == Keys::Char('j') ==> after.highlighted == next_index(
                h,
                len as usize,
            ) && store_after == store && r is Consumed
            &&& input == Keys::Char('k') ==> after.highlighted == prev_index(
                h,
                len as usize,
            ) && store_after == store && r is Consumed
            &&& (input == Keys::Enter && h is Some && h->0 < len) ==> {
                let key = self.content@[h->0 as int].0@;
                &&& store_after == (Store {
                    selected_pane: Focus::GridPane(store.previous_selected_pane),
                    tasks: store_after.tasks,
                    ..store
                })
                &&& after.highlighted == h
                &&& key.len() > 0 ==> store_after.tasks@ == store.tasks@.push(
                    Task::ReplayKey(Keys::Char(key[0])),
                )
                &&& key.len() == 0 ==> store_after.tasks@ == store.tasks@
                &&& r is Consumed
            }
            &&& (input == Keys::Enter && !(h is Some && h->0 < len)) ==> after.highlighted == h
                && store_after == store && r is Consumed
            &&& (input != Keys::Char('j') && input != Keys::Char('k') && input
                != Keys::Enter) ==> after.highlighted == h && store_after == store && r is Wasted
        })
    }

    /// `j`/`k` move the highlight through the entries, wrapping around.
    /// Enter closes the overlay and queues the highlighted entry's key, to be
    /// handled as if it had been pressed in the pane under the overlay.
    pub fn event(&mut self, input: &Keys, store: &mut Store) -> (r: EventState)
        requires
            old(store).wf(),
        ensures
            final(store).wf(),
            final(store).exit == old(store).exit,
            old(self).handled(*old(store), *input, *final(self), *final(store), r),
    {
        let len = self.content.len();
        match input {
            Keys::Char('j') => {
                self.highlighted = next_index_of(self.highlighted, len);
            },
            Keys::Char('k') => {
                self.highlighted = prev_index_of(self.highlighted, len);
            },
            Keys::Enter => {
                if let Some(i) = self.highlighted {
                    if i < len {
                        store.selected_pane = Focus::GridPane(store.previous_selected_pane);
                        let key = self.content[i].0.as_str();
                        if key.unicode_len() > 0 {
                            store.submit(Task::ReplayKey(Keys::Char(key.get_char(0))));
                        }
                    }
                }
            },
            _ => return EventState::Wasted,
        }
        EventState::Consumed
    }
}

} // verus!
