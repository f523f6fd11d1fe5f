use crate::events::key::Keys;
use vstd::prelude::*;

verus! {

/// What the input source hands the interface loop on each poll.
#[derive(Debug, Clone, Copy)]
pub enum EventThread {
    /// Nothing happened before the poll timed out.
    Tick,
    /// A key was pressed.
    Event(Keys),
}

} // verus!
