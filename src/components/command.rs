use crate::application::store::{Focus, Store};
use crate::events::key::Keys;
use crate::events::EventState;
use crate::utils::char_text;
use vstd::prelude::*;

verus! {

/// The one-line command bar.
#[derive(Debug)]
pub struct CommandComponent {
    pub text_input: String,
}

/// `s` without its last character; empty stays empty.
pub open spec fn drop_last(s: Seq<char>) -> Seq<char> {
    if s.len() == 0 {
        s
    } else {
        s.subrange(0, s.len() - 1)
    }
}

/// `s` without its last character.
pub fn without_last(s: &str) -> (r: String)
    ensures
        r@ == drop_last(s@),
{
    let n = s.unicode_len();
    if n == 0 {
        String::from_str(s)
    } else {
        String::from_str(s.substring_char(0, n - 1))
    }
}

impl CommandComponent {
    pub fn new() -> (r: Self)
        ensures
            r.text_input@.len() == 0,
    {
        CommandComponent { text_input: String::new() }
    }

    /// `after`, `store_after` and `r` are the bar, the store and the result after it handles `input`.
    pub open spec fn handled(self, store: Store, input: Keys, after: Self, store_after: Store, r: EventState) -> bool {
        match input {
            Keys::Backspace => {
                &&& after.text_input@ == drop_last(self.text_input@)
                &&& store_after == store
                &&& r is Consumed
            },
            Keys::Enter => {
                &&& after.text_input@.len() == 0
                &&& store_after == store
                &&& r == EventState::ConfirmedText(self.text_input)
            },
            Keys::Char(c) => {
                &&& after.text_input@ == self.text_input@.push(c)
                &&& store_after == store
                &&& r is Consumed
            },
            Keys::Esc => {
                &&& after.text_input@.len() == 0
                &&& store_after == (Store {
                    selected_pane: Focus::GridPane(store.previous_selected_pane),
                    ..store
                })
                &&& r is Consumed
            },
            _ => {
                &&& after.text_input == self.text_input
                &&& store_after == store
                &&& r is Wasted
            },
        }
    }

    /// Edits the command text: characters are appended, Backspace removes
    /// the last one, Enter hands the text over and clears it, Esc clears it
    /// and gives the focus back to the pane under the bar.
    pub fn event(&mut self, input: &Keys, store: &mut Store) -> (r: EventState)
        ensures
            old(self).handled(*old(store), *input, *final(self), *final(store), r),
    {
        match input {
            Keys::Backspace => {
                let s = without_last(self.text_input.as_str());
                self.text_input = s;
            },
            Keys::Enter => {
                let result = EventState::ConfirmedText(self.text_input.clone());
                self.text_input = String::new();
                return result;
            },
            Keys::Char(c) => {
                let t = char_text(*c);
                self.text_input.append(t.as_str());
                proof {
                    assert(final(self).text_input@ =~= old(self).text_input@.push(*c));
                }
            },
            Keys::Esc => {
                self.text_input = String::new();
                store.selected_pane = Focus::GridPane(store.previous_selected_pane);
            },
            _ => return EventState::Wasted,
        }
        EventState::Consumed
    }
}

} // verus!
