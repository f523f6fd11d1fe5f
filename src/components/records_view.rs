use crate::components::widgets::custom_table::CustomTableState;
use crate::events::key::Keys;
use crate::events::EventState;
use vstd::prelude::*;

verus! {

/// The records pane as values: column names, rows of cell texts, the row
/// count when known, and the viewport state.
pub struct GridModel {
    pub header: Seq<Seq<char>>,
    pub rows: Seq<Seq<Seq<char>>>,
    pub total: Option<i64>,
    pub state: CustomTableState,
}

impl GridModel {
    /// The model after the header is replaced by `header`.
    pub open spec fn with_header(self, header: Seq<Seq<char>>) -> Self {
        GridModel {
            header,
            state: self.state.with_header_length(header.len() as usize),
            ..self
        }
    }

    /// The model after the body is replaced by `rows`.
    pub open spec fn with_body(self, rows: Seq<Seq<Seq<char>>>) -> Self {
        GridModel { rows, state: self.state.with_content_length(rows.len() as usize), ..self }
    }

    /// The model after a whole result set is loaded.
    pub open spec fn with_records(
        self,
        header: Seq<Seq<char>>,
        rows: Seq<Seq<Seq<char>>>,
        total: Option<i64>,
    ) -> Self {
        GridModel { total, ..self.with_header(header).with_body(rows) }
    }
}

/// The records pane: a result set and the viewport over it.
#[derive(Debug)]
pub struct RecordsViewComponent {
    header: Vec<String>,
    rows: Vec<Vec<String>>,
    total: Option<i64>,
    table_state: CustomTableState,
}

impl RecordsViewComponent {
    pub closed spec fn model(&self) -> GridModel {
        GridModel {
            header: self.header.deep_view(),
            rows: self.rows.deep_view(),
            total: self.total,
            state: self.table_state,
        }
    }

    pub open spec fn wf(&self) -> bool {
        &&& self.model().state.wf()
        &&& self.model().state.header_length == self.model().header.len()
        &&& self.model().state.content_length == self.model().rows.len()
    }

    pub fn new() -> (r: Self)
        ensures
            r.wf(),
            r.model().header.len() == 0,
            r.model().rows.len() == 0,
            r.model().total is None,
            r.model().state.offset_x == 0,
            r.model().state.offset_y == 0,
            r.model().state.position is None,
            r.model().state.max_element_in_col == 0,
    {
        RecordsViewComponent {
            header: Vec::new(),
            rows: Vec::new(),
            total: None,
            table_state: CustomTableState::new(0, 0),
        }
    }

    /// Replaces the column names.
    pub fn set_header(&mut self, header: Vec<String>)
        requires
            old(self).wf(),
        ensures
            final(self).model() == old(self).model().with_header(header.deep_view()),
            final(self).wf(),
    {
        self.table_state = self.table_state.header_length(header.len());
        self.header = header;
    }

    /// Replaces the rows.
    pub fn set_body(&mut self, rows: Vec<Vec<String>>)
        requires
            old(self).wf(),
        ensures
            final(self).model() == old(self).model().with_body(rows.deep_view()),
            final(self).wf(),
    {
        self.table_state = self.table_state.content_length(rows.len());
        self.rows = rows;
    }

    pub fn set_total(&mut self, total: Option<i64>)
        requires
            old(self).wf(),
        ensures
            final(self).model() == (GridModel { total, ..old(self).model() }),
            final(self).wf(),
    {
        self.total = total;
    }

    pub fn header(&self) -> (r: &Vec<String>)
        ensures
            r.deep_view() == self.model().header,
    {
        &self.header
    }

    pub fn rows(&self) -> (r: &Vec<Vec<String>>)
        ensures
            r.deep_view() == self.model().rows,
    {
        &self.rows
    }

    pub fn total(&self) -> (r: Option<i64>)
        ensures
            r == self.model().total,
    {
        self.total
    }

    pub fn table_state(&self) -> (r: CustomTableState)
        ensures
            r == self.model().state,
    {
        self.table_state
    }

    /// Recomputes the viewport for a drawing area of `area_height` rows.
    pub fn compute_window(&mut self, area_height: usize)
        requires
            old(self).wf(),
        ensures
            final(self).model() == (GridModel {
                state: old(self).model().state.with_area(area_height),
                ..old(self).model()
            }),
            final(self).wf(),
            final(self).model().state.selection_in_data(),
    {
        self.table_state.compute_window(area_height);
    }

    /// `after` and `r` are this pane and the result after it handles `input`.
    pub open spec fn handled(self, input: Keys, after: Self, r: EventState) -> bool {
        &&& after.model().header == self.model().header
        &&& after.model().rows == self.model().rows
        &&& after.model().total == self.model().total
        &&& ({
            let s = self.model().state;
            let t = after.model().state;
            let moves = input == Keys::Char('h') || input == Keys::Char('l') || input
                == Keys::Char('j') || input == Keys::Char('k');
            &&& (self.model().rows.len() == 0 || !moves) ==> t == s && r is Wasted
            &&& (self.model().rows.len() > 0 && moves) ==> r is Consumed
            &&& (self.model().rows.len() > 0 && input == Keys::Char('h')) ==> t
                == s.prev_col_spec()
            &&& (self.model().rows.len() > 0 && input == Keys::Char('l')) ==> t
                == s.next_col_spec()
            &&& (self.model().rows.len() > 0 && input == Keys::Char('j')) ==> t
                == s.next_row_spec()
            &&& (self.model().rows.len() > 0 && input == Keys::Char('k')) ==> t
                == s.prev_row_spec()
        })
    }

    /// With rows loaded, `h`/`l` move through the columns and `j`/`k`
    /// through the rows; other keys, and any key on an empty pane, are
    /// wasted.
    pub fn event(&mut self, input: &Keys) -> (r: EventState)
        requires
            old(self).wf(),
        ensures
            final(self).wf(),
            old(self).handled(*input, *final(self), r),
    {
        if self.rows.len() > 0 {
            match input {
                Keys::Char('h') => {
                    self.table_state.prev_col();
                },
                Keys::Char('l') => {
                    self.table_state.next_col();
                },
                Keys::Char('j') => {
                    self.table_state.next_row();
                },
                Keys::Char('k') => {
                    self.table_state.prev_row();
                },
                _ => return EventState::Wasted,
            }
            EventState::Consumed
        } else {
            EventState::Wasted
        }
    }
}

/// Replacing the header, or the rows, twice with the same data gives the
/// same state as replacing them once.
pub proof fn lemma_set_data_idempotent(
    m: GridModel,
    header: Seq<Seq<char>>,
    rows: Seq<Seq<Seq<char>>>,
)
    ensures
        m.with_header(header).with_header(header) == m.with_header(header),
        m.with_body(rows).with_body(rows) == m.with_body(rows),
{
    crate::components::widgets::custom_table::lemma_table_state_replace_idempotent(
        m.state,
        header.len() as usize,
        rows.len() as usize,
    );
}

/// Of two result sets loaded one after the other, the pane keeps only the
/// later one: its columns, its rows and its count.
pub proof fn lemma_last_records_win(
    m: GridModel,
    header1: Seq<Seq<char>>,
    rows1: Seq<Seq<Seq<char>>>,
    total1: Option<i64>,
    header2: Seq<Seq<char>>,
    rows2: Seq<Seq<Seq<char>>>,
    total2: Option<i64>,
)
    ensures
        ({
            let after = m.with_records(header1, rows1, total1).with_records(header2, rows2, total2);
            &&& after.header == header2
            &&& after.rows == rows2
            &&& after.total == total2
        }),
{
}

} // verus!
