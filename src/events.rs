pub mod events;
pub mod key;

use vstd::prelude::*;

verus! {

/// What a pane made of a key.
#[derive(Debug, Clone)]
pub enum EventState {
    /// The key was acted on.
    Consumed,
    /// A text entry was confirmed with this text.
    ConfirmedText(String),
    /// A text entry was dismissed.
    Escaped,
    /// The key meant nothing here.
    Wasted,
}

} // verus!
