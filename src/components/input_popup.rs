use crate::application::store::{Focus, Store};
use crate::events::key::Keys;
use crate::events::EventState;
use crate::utils::{char_text, is_blank, is_white_space};
use vstd::prelude::*;

verus! {

/// What a confirmed popup text is for.
#[derive(Debug, Clone, Copy, PartialEq, Eq, Structural)]
pub enum InputAction {
    Insert,
    Edit,
}

/// A popup that edits one line of text with a cursor. The cursor counts
/// characters from the start of the text.
#[derive(Debug)]
pub struct InputPopupComponent {
    pub title: String,
    pub content: String,
    pub action: InputAction,
    pub cursor_pos: usize,
}

pub open spec fn is_blank_text(s: Seq<char>) -> bool {
    forall|i: int| 0 <= i < s.len() ==> is_white_space(#[trigger] s[i])
}

impl InputPopupComponent {
    pub open spec fn wf(self) -> bool {
        self.cursor_pos <= self.content@.len()
    }

    /// The cursor starts after the last character.
    pub fn new(title: String, content: String, action: InputAction) -> (r: Self)
        ensures
            r.wf(),
            r.title == title,
            r.content == content,
            r.action == action,
            r.cursor_pos == content@.len(),
    {
        let cursor_pos = content.as_str().unicode_len();
        InputPopupComponent { title, content, action, cursor_pos }
    }

    pub fn default() -> (r: Self)
        ensures
            r.wf(),
            r.title@.len() == 0,
            r.content@.len() == 0,
            r.action == InputAction::Insert,
            r.cursor_pos == 0,
    {
        InputPopupComponent {
            title: String::new(),
            content: String::new(),
            action: InputAction::Insert,
            cursor_pos: 0,
        }
    }

    /// `after`, `store_after` and `r` are the popup, the store and the result after it handles `input`.
    pub open spec fn handled(self, store: Store, input: Keys, after: Self, store_after: Store, r: EventState) -> bool {
        &&& after.title == self.title
        &&& after.action == self.action
        &&& input != Keys::Enter ==> store_after == store
        &&& match input {
            Keys::ArrowLeft => {
                &&& after.content == self.content
                &&& after.cursor_pos == if self.cursor_pos > 0 {
                    (self.cursor_pos - 1) as usize
                } else {
                    0
                }
                &&& r is Consumed
            },
            Keys::ArrowRight => {
                &&& after.content == self.content
                &&& after.cursor_pos == if self.cursor_pos
                    < self.content@.len() {
                    (self.cursor_pos + 1) as usize
                } else {
                    self.cursor_pos
                }
                &&& r is Consumed
            },
            Keys::Backspace => {
                &&& self.cursor_pos > 0 ==> after.content@ == self.content@.remove(self.cursor_pos - 1) && after.cursor_pos == self.cursor_pos - 1
                &&& self.cursor_pos == 0 ==> after.content == self.content
                    && after.cursor_pos == 0
                &&& r is Consumed
            },
            Keys::Char(c) => {
                &&& after.content@ == self.content@.insert(
                    self.cursor_pos as int,
                    c,
                )
                &&& after.cursor_pos == self.cursor_pos + 1
                &&& r is Consumed
            },
            Keys::Enter => if is_blank_text(self.content@) {
                &&& after.content == self.content
                &&& store_after == (Store {
                    selected_pane: Focus::GridPane(store.previous_selected_pane),
                    ..store
                })
                &&& r is Escaped
            } else {
                &&& after.content@.len() == 0
                &&& store_after == store
                &&& r == EventState::ConfirmedText(self.content)
            },
            Keys::Esc => after.content == self.content && r is Escaped,
            _ => after.content == self.content && r is Wasted,
        }
    }

    /// Edits the text: arrows move the cursor, characters go in at the
    /// cursor, Backspace removes the character before it. Enter hands over a
    /// text that is not blank and clears it; on a blank text it dismisses the
    /// popup and gives the focus back. Esc dismisses it.
    pub fn event(&mut self, input: &Keys, store: &mut Store) -> (r: EventState)
        requires
            old(self).wf(),
        ensures
            final(self).wf(),
            old(self).handled(*old(store), *input, *final(self), *final(store), r),
    {
        match input {
            Keys::ArrowLeft => {
                if self.cursor_pos > 0 {
                    self.cursor_pos = self.cursor_pos - 1;
                }
            },
            Keys::ArrowRight => {
                if self.cursor_pos < self.content.as_str().unicode_len() {
                    self.cursor_pos = self.cursor_pos + 1;
                }
            },
            Keys::Backspace => {
                if self.cursor_pos > 0 {
                    let s = self.content.as_str();
                    let n = s.unicode_len();
                    let cur = self.cursor_pos;
                    let edited = String::from_str(s.substring_char(0, cur - 1)).concat(
                        s.substring_char(cur, n),
                    );
                    proof {
                        assert(edited@ =~= old(self).content@.remove(cur - 1));
                    }
                    self.content = edited;
                    self.cursor_pos = cur - 1;
                }
            },
            Keys::Enter => {
                if is_blank(self.content.as_str()) {
                    store.selected_pane = Focus::GridPane(store.previous_selected_pane);
                    return EventState::Escaped;
                }
                let event = EventState::ConfirmedText(self.content.clone());
                self.content = String::new();
                self.cursor_pos = 0;
                return event;
            },
            Keys::Char(c) => {
                let s = self.content.as_str();
                let n = s.unicode_len();
                let cur = self.cursor_pos;
                let t = char_text(*c);
                let edited = String::from_str(s.substring_char(0, cur)).concat(t.as_str()).concat(
                    s.substring_char(cur, n),
                );
                proof {
                    assert(edited@ =~= old(self).content@.insert(cur as int, *c));
                }
                // the edited text is one character longer, and its length fits a usize
                let _len = edited.as_str().unicode_len();
                self.content = edited;
                self.cursor_pos = cur + 1;
            },
            Keys::Esc => {
                return EventState::Escaped;
            },
            _ => return EventState::Wasted,
        }
        EventState::Consumed
    }
}

} // verus!
