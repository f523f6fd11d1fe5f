use crate::application::store::Store;
use crate::components::{next_index, next_index_of, prev_index, prev_index_of};
use crate::events::key::Keys;
use crate::events::EventState;
use vstd::prelude::*;

verus! {

#[derive(Debug, Clone, Copy, PartialEq, Eq, Structural)]
pub enum LogKind {
    Debug,
    Info,
    Error,
    Success,
}

/// An entry of the log pane.
#[derive(Debug, Clone)]
pub enum LogContent {
    Debug(String),
    Info(String),
    Error(String),
    Success(String),
}

impl View for LogContent {
    type V = (LogKind, Seq<char>);

    open spec fn view(&self) -> (LogKind, Seq<char>) {
        match self {
            LogContent::Debug(s) => (LogKind::Debug, s@),
            LogContent::Info(s) => (LogKind::Info, s@),
            LogContent::Error(s) => (LogKind::Error, s@),
            LogContent::Success(s) => (LogKind::Success, s@),
        }
    }
}

/// The log pane: which entry is highlighted.
#[derive(Debug, Clone)]
pub struct LogViewComponent {
    pub selected: Option<usize>,
}

impl LogViewComponent {
    pub fn new() -> (r: Self)
        ensures
            r.selected is None,
    {
        LogViewComponent { selected: None }
    }

    /// `after` and `r` are this pane and the result after it handles `input`, with `store`'s entries.
    pub open spec fn handled(self, store: Store, input: Keys, after: Self, r: EventState) -> bool {
        let len = store.log_contents@.len() as usize;
        &&& input == Keys::Char('j') ==> after.selected == next_index(self.selected, len)
            && r is Consumed
        &&& input == Keys::Char('k') ==> after.selected == prev_index(self.selected, len)
            && r is Consumed
        &&& (input != Keys::Char('j') && input != Keys::Char('k')) ==> after.selected
            == self.selected && r is Wasted
    }

    /// `j` and `k` move the highlight down and up through the entries,
    /// wrapping around; other keys are wasted.
    pub fn event(&mut self, input: &Keys, store: &Store) -> (r: EventState)
        ensures
            old(self).handled(*store, *input, *final(self), r),
    {
        let len = store.log_contents.len();
        match input {
            Keys::Char('j') => {
                self.selected = next_index_of(self.selected, len);
            },
            Keys::Char('k') => {
                self.selected = prev_index_of(self.selected, len);
            },
            _ => return EventState::Wasted,
        }
        EventState::Consumed
    }
}

} // verus!
