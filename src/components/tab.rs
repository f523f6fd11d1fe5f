use crate::events::key::Keys;
use crate::events::EventState;
use vstd::prelude::*;

verus! {

/// What the right-hand column shows of a table.
#[derive(Debug, Clone, Copy, PartialEq, Eq, Structural)]
pub enum Tab {
    Record,
    Structure,
}

impl Tab {
    pub fn name(&self) -> (r: &'static str)
        ensures
            *self == Tab::Record ==> r@ == "Record"@,
            *self == Tab::Structure ==> r@ == "Structure"@,
    {
        match self {
            Tab::Record => "Record",
            Tab::Structure => "Structure",
        }
    }
}

/// The tab bar.
#[derive(Debug)]
pub struct TabComponent {
    pub selected_tab: usize,
    pub tabs: Vec<Tab>,
}

impl TabComponent {
    pub open spec fn wf(self) -> bool {
        self.tabs@.len() > 0 && self.selected_tab < self.tabs@.len()
    }

    pub fn new() -> (r: Self)
        ensures
            r.wf(),
            r.selected_tab == 0,
            r.tabs@ == seq![Tab::Record, Tab::Structure],
    {
        let tabs = vec![Tab::Record, Tab::Structure];
        proof {
            assert(tabs@ =~= seq![Tab::Record, Tab::Structure]);
        }
        TabComponent { selected_tab: 0, tabs }
    }

    /// `after` and `r` are the tab bar and the result after it handles `input`.
    pub open spec fn handled(self, input: Keys, after: Self, r: EventState) -> bool {
        let n = self.tabs@.len();
        let right = input == Keys::Char('l') || input == Keys::ArrowRight;
        let left = input == Keys::Char('h') || input == Keys::ArrowLeft;
        &&& after.tabs == self.tabs
        &&& right ==> after.selected_tab == (if self.selected_tab + 1 == n {
            0
        } else {
            self.selected_tab + 1
        }) && r is Consumed
        &&& left ==> after.selected_tab == (if self.selected_tab == 0 {
            n - 1
        } else {
            self.selected_tab - 1
        }) && r is Consumed
        &&& !(right || left) ==> after.selected_tab == self.selected_tab && r is Wasted
    }

    /// `l` or the right arrow selects the next tab, `h` or the left arrow
    /// the previous one, wrapping around.
    pub fn event(&mut self, input: &Keys) -> (r: EventState)
        requires
            old(self).wf(),
        ensures
            final(self).wf(),
            old(self).handled(*input, *final(self), r),
    {
        let n = self.tabs.len();
        match input {
            Keys::Char('l') | Keys::ArrowRight => {
                if self.selected_tab == n - 1 {
                    self.selected_tab = 0;
                } else {
                    self.selected_tab = self.selected_tab + 1;
                }
                EventState::Consumed
            },
            Keys::Char('h') | Keys::ArrowLeft => {
                if self.selected_tab == 0 {
                    self.selected_tab = n - 1;
                } else {
                    self.selected_tab = self.selected_tab - 1;
                }
                EventState::Consumed
            },
            _ => EventState::Wasted,
        }
    }
}

} // verus!
