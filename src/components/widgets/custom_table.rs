use vstd::math::min;
use vstd::prelude::*;

verus! {

/// Most columns shown side by side.
pub const MAX_ELEMENT_ROW: usize = 4;

/// Rows of a drawing area taken by the borders and the header block.
pub const HEADER_RESERVED_ROWS: usize = 4;

/// Scroll and highlight state of the result grid.
///
/// The grid holds `header_length` columns and `content_length` body rows.
/// `offset_x` is the first column shown and `offset_y` the first body row
/// shown. `position` is the highlighted cell relative to that window: its
/// column counts from `offset_x`, its row is 0 for the header and `r >= 1`
/// for body row `offset_y + r - 1`. `max_element_in_row` is the number of
/// columns shown; `max_element_in_col` is the number of body rows that the
/// last drawing area could hold.
#[derive(Debug, Clone, Copy)]
pub struct CustomTableState {
    pub offset_x: usize,
    pub offset_y: usize,
    pub position: Option<(usize, usize)>,
    pub header_length: usize,
    pub content_length: usize,
    pub max_element_in_row: usize,
    pub max_element_in_col: usize,
}

/// Body rows that a drawing area of `area_height` rows can hold.
pub open spec fn rows_for_area(area_height: usize) -> int {
    if area_height >= HEADER_RESERVED_ROWS {
        area_height - HEADER_RESERVED_ROWS
    } else {
        0
    }
}

impl CustomTableState {
    /// Columns shown at once.
    pub open spec fn visible_width(self) -> int {
        min(MAX_ELEMENT_ROW as int, self.header_length as int)
    }

    /// Body rows shown at once: what the last drawing area holds, and never
    /// more rows than there are.
    pub open spec fn visible_height(self) -> int {
        min(self.max_element_in_col as int, self.content_length as int)
    }

    pub open spec fn is_empty_grid(self) -> bool {
        self.header_length == 0 || self.content_length == 0
    }

    /// `offset_x` lies in `[0, max(0, header_length - visible_width)]`.
    pub open spec fn column_offset_in_range(self) -> bool {
        self.offset_x <= self.header_length - self.visible_width()
    }

    /// `offset_y` lies in `[0, max(0, content_length - visible_height)]`.
    pub open spec fn row_offset_in_range(self) -> bool {
        self.offset_y <= self.content_length - self.visible_height()
    }

    /// A highlight that fits the current window.
    pub open spec fn fits_window(self, p: Option<(usize, usize)>) -> bool {
        match p {
            Some((c, r)) => c < self.max_element_in_row && r <= self.visible_height(),
            None => true,
        }
    }

    /// The highlighted cell lies in the data: its column is one of the
    /// `header_length` columns, its row the header or one of the body rows.
    pub open spec fn selection_in_data(self) -> bool {
        match self.position {
            Some((c, r)) => self.offset_x + c < self.header_length && (r == 0 || self.offset_y + r
                - 1 < self.content_length),
            None => true,
        }
    }

    pub open spec fn wf(self) -> bool {
        &&& self.max_element_in_row == self.visible_width()
        &&& self.column_offset_in_range()
        &&& self.row_offset_in_range()
        &&& self.fits_window(self.position)
    }

    /// A highlight brought into the current window.
    pub open spec fn clamp_position(self, p: Option<(usize, usize)>) -> Option<(usize, usize)> {
        match p {
            Some((c, r)) => if self.max_element_in_row == 0 {
                None
            } else {
                Some(
                    (
                        min(c as int, self.max_element_in_row - 1) as usize,
                        min(r as int, self.visible_height()) as usize,
                    ),
                )
            },
            None => None,
        }
    }

    /// Row offset and highlighted row brought back within the row bounds.
    pub open spec fn clamp_rows(self) -> Self {
        let h = self.visible_height();
        CustomTableState {
            offset_y: min(self.offset_y as int, self.content_length - h) as usize,
            position: match self.position {
                Some((c, r)) => Some((c, min(r as int, h) as usize)),
                None => None,
            },
            ..self
        }
    }

    /// Column window recomputed, and column offset and highlighted column
    /// brought back within the column bounds.
    pub open spec fn clamp_cols(self) -> Self {
        let w = self.visible_width();
        CustomTableState {
            max_element_in_row: w as usize,
            offset_x: min(self.offset_x as int, self.header_length - w) as usize,
            position: match self.position {
                Some((c, r)) => if w == 0 {
                    None
                } else {
                    Some((min(c as int, w - 1) as usize, r))
                },
                None => None,
            },
            ..self
        }
    }

    /// The state after the header is replaced by one of `n` columns.
    pub open spec fn with_header_length(self, n: usize) -> Self {
        (CustomTableState { header_length: n, ..self }).clamp_cols()
    }

    /// The state after the body is replaced by one of `n` rows.
    pub open spec fn with_content_length(self, n: usize) -> Self {
        (CustomTableState { content_length: n, ..self }).clamp_rows()
    }

    /// The state after a drawing area of `area_height` rows is measured.
    pub open spec fn with_area(self, area_height: usize) -> Self {
        (CustomTableState { max_element_in_col: rows_for_area(area_height) as usize, ..self }).clamp_rows()
    }

    /// The state after `next_col`: the highlight moves one column right, or at
    /// the right edge of the window the window scrolls, up to the last column.
    /// An empty grid stays as it is.
    pub open spec fn next_col_spec(self) -> Self {
        if self.is_empty_grid() {
            self
        } else {
            match self.position {
                None => (CustomTableState { position: Some((0, 0)), ..self }),
                Some((c, r)) => if c + 1 < self.max_element_in_row {
                    (CustomTableState {
                        position: Some(((c + 1) as usize, r)),
                        ..self
                    })
                } else {
                    (CustomTableState {
                        offset_x: min(
                            self.offset_x + 1,
                            self.header_length - self.max_element_in_row,
                        ) as usize,
                        ..self
                    })
                },
            }
        }
    }

    /// The state after `prev_col`: the highlight moves one column left, or at
    /// the left edge of the window the window scrolls, down to the first column.
    /// An empty grid stays as it is.
    pub open spec fn prev_col_spec(self) -> Self {
        if self.is_empty_grid() {
            self
        } else {
            match self.position {
                None => self,
                Some((c, r)) => if c > 0 {
                    (CustomTableState {
                        position: Some(((c - 1) as usize, r)),
                        ..self
                    })
                } else {
                    (CustomTableState {
                        offset_x: if self.offset_x > 0 {
                            (self.offset_x - 1) as usize
                        } else {
                            0
                        },
                        ..self
                    })
                },
            }
        }
    }

    /// The state after `next_row`: the highlight moves one row down, or at the
    /// bottom of the window the window scrolls, up to the last row.
    /// An empty grid stays as it is.
    pub open spec fn next_row_spec(self) -> Self {
        if self.is_empty_grid() {
            self
        } else {
            match self.position {
                None => (CustomTableState { position: Some((0, 0)), ..self }),
                Some((c, r)) => if r < self.visible_height() {
                    (CustomTableState {
                        position: Some((c, (r + 1) as usize)),
                        ..self
                    })
                } else {
                    (CustomTableState {
                        offset_y: min(
                            self.offset_y + 1,
                            self.content_length - self.visible_height(),
                        ) as usize,
                        ..self
                    })
                },
            }
        }
    }

    /// The state after `prev_row`: the highlight moves one row up; on the first
    /// row shown the window scrolls up while it can.
    /// An empty grid stays as it is.
    pub open spec fn prev_row_spec(self) -> Self {
        if self.is_empty_grid() {
            self
        } else {
            match self.position {
                None => (CustomTableState { position: Some((0, 0)), ..self }),
                Some((c, r)) => if r == 1 && self.offset_y > 0 {
                    (CustomTableState {
                        offset_y: (self.offset_y - 1) as usize,
                        ..self
                    })
                } else {
                    (CustomTableState {
                        position: Some((c, if r > 0 { (r - 1) as usize } else { 0 })),
                        ..self
                    })
                },
            }
        }
    }

    pub fn new(header_length: usize, content_length: usize) -> (r: Self)
        ensures
            r.wf(),
            r.header_length == header_length,
            r.content_length == content_length,
            r.offset_x == 0,
            r.offset_y == 0,
            r.position is None,
            r.max_element_in_row == min(MAX_ELEMENT_ROW as int, header_length as int),
            r.max_element_in_col == 0,
    {
        let max_element_in_row = if header_length > MAX_ELEMENT_ROW {
            MAX_ELEMENT_ROW
        } else {
            header_length
        };
        CustomTableState {
            offset_x: 0,
            offset_y: 0,
            position: None,
            header_length,
            content_length,
            max_element_in_row,
            max_element_in_col: 0,
        }
    }

    /// Body rows shown at once.
    pub fn visible_rows(&self) -> (r: usize)
        ensures
            r == self.visible_height(),
    {
        if self.max_element_in_col <= self.content_length {
            self.max_element_in_col
        } else {
            self.content_length
        }
    }

    fn clamp_rows_in_place(&mut self)
        ensures
            *final(self) == old(self).clamp_rows(),
    {
        let h = self.visible_rows();
        let limit = self.content_length - h;
        if self.offset_y > limit {
            self.offset_y = limit;
        }
        if let Some((c, r)) = self.position {
            if r > h {
                self.position = Some((c, h));
            }
        }
    }

    fn clamp_cols_in_place(&mut self)
        ensures
            *final(self) == old(self).clamp_cols(),
    {
        let w = if self.header_length > MAX_ELEMENT_ROW {
            MAX_ELEMENT_ROW
        } else {
            self.header_length
        };
        self.max_element_in_row = w;
        let limit = self.header_length - w;
        if self.offset_x > limit {
            self.offset_x = limit;
        }
        if let Some((c, r)) = self.position {
            if w == 0 {
                self.position = None;
            } else if c > w - 1 {
                self.position = Some((w - 1, r));
            }
        }
    }

    /// Replaces the number of body rows, keeping offsets and highlight
    /// within the new bounds.
    pub fn content_length(self, content_length: usize) -> (r: Self)
        requires
            self.wf(),
        ensures
            r == self.with_content_length(content_length),
            r.wf(),
    {
        let mut s = self;
        s.content_length = content_length;
        s.clamp_rows_in_place();
        s
    }

    /// Replaces the number of columns, keeping offsets and highlight within
    /// the new bounds.
    pub fn header_length(self, header_length: usize) -> (r: Self)
        requires
            self.wf(),
        ensures
            r == self.with_header_length(header_length),
            r.wf(),
    {
        let mut s = self;
        s.header_length = header_length;
        s.clamp_cols_in_place();
        s
    }

    /// Recomputes the window for a drawing area of `area_height` rows, and
    /// brings offsets and highlight back within the bounds it gives.
    pub fn compute_window(&mut self, area_height: usize)
        requires
            old(self).wf(),
        ensures
            *final(self) == old(self).with_area(area_height),
            final(self).max_element_in_col == rows_for_area(area_height),
            final(self).wf(),
            final(self).selection_in_data(),
    {
        self.max_element_in_col = if area_height >= HEADER_RESERVED_ROWS {
            area_height - HEADER_RESERVED_ROWS
        } else {
            0
        };
        self.clamp_rows_in_place();
    }

    /// Moves the highlight one column right; at the right edge of the window
    /// the window scrolls instead, up to the last column.
    pub fn next_col(&mut self)
        requires
            old(self).wf(),
        ensures
            final(self).wf(),
            final(self).column_offset_in_range(),
            final(self).selection_in_data(),
            *final(self) == old(self).next_col_spec(),
    {
        if self.header_length == 0 || self.content_length == 0 {
            return ;
        }
        match self.position {
            None => {
                self.position = Some((0, 0));
            },
            Some((c, r)) => {
                if c + 1 < self.max_element_in_row {
                    self.position = Some((c + 1, r));
                } else if self.offset_x + self.max_element_in_row < self.header_length {
                    self.offset_x = self.offset_x + 1;
                }
            },
        }
    }

    /// Moves the highlight one column left; at the left edge of the window
    /// the window scrolls instead, down to the first column.
    pub fn prev_col(&mut self)
        requires
            old(self).wf(),
        ensures
            final(self).wf(),
            final(self).column_offset_in_range(),
            final(self).selection_in_data(),
            *final(self) == old(self).prev_col_spec(),
    {
        if self.header_length == 0 || self.content_length == 0 {
            return ;
        }
        if let Some((c, r)) = self.position {
            if c > 0 {
                self.position = Some((c - 1, r));
            } else if self.offset_x > 0 {
                self.offset_x = self.offset_x - 1;
            }
        }
    }

    /// Moves the highlight one row down; at the bottom of the window the
    /// window scrolls instead, up to the last row.
    pub fn next_row(&mut self)
        requires
            old(self).wf(),
        ensures
            final(self).wf(),
            final(self).row_offset_in_range(),
            final(self).selection_in_data(),
            *final(self) == old(self).next_row_spec(),
    {
        if self.header_length == 0 || self.content_length == 0 {
            return ;
        }
        let h = self.visible_rows();
        match self.position {
            None => {
                self.position = Some((0, 0));
            },
            Some((c, r)) => {
                if r < h {
                    self.position = Some((c, r + 1));
                } else if self.offset_y + h < self.content_length {
                    self.offset_y = self.offset_y + 1;
                }
            },
        }
    }

    /// Moves the highlight one row up; on the first row shown the window
    /// scrolls up while it can, and from the first body row the highlight
    /// goes to the header.
    pub fn prev_row(&mut self)
        requires
            old(self).wf(),
        ensures
            final(self).wf(),
            final(self).row_offset_in_range(),
            final(self).selection_in_data(),
            *final(self) == old(self).prev_row_spec(),
    {
        if self.header_length == 0 || self.content_length == 0 {
            return ;
        }
        match self.position {
            None => {
                self.position = Some((0, 0));
            },
            Some((c, r)) => {
                if r == 1 && self.offset_y > 0 {
                    self.offset_y = self.offset_y - 1;
                } else if r > 0 {
                    self.position = Some((c, r - 1));
                }
            },
        }
    }

    pub fn selected(&self) -> (r: Option<(usize, usize)>)
        ensures
            r == self.position,
    {
        self.position
    }

    /// Highlights `new_pos`, brought into the current window.
    pub fn select(&mut self, new_pos: Option<(usize, usize)>)
        requires
            old(self).wf(),
        ensures
            *final(self) == (CustomTableState {
                position: old(self).clamp_position(new_pos),
                ..*old(self)
            }),
            final(self).wf(),
    {
        self.position = match new_pos {
            Some((c, r)) => if self.max_element_in_row == 0 {
                None
            } else {
                let h = self.visible_rows();
                let c2 = if c > self.max_element_in_row - 1 {
                    self.max_element_in_row - 1
                } else {
                    c
                };
                let r2 = if r > h {
                    h
                } else {
                    r
                };
                Some((c2, r2))
            },
            None => None,
        };
    }
}

/// Replacing the header or the body twice with the same data leaves the
/// state as one replacement does.
pub proof fn lemma_table_state_replace_idempotent(s: CustomTableState, columns: usize, rows: usize)
    ensures
        s.with_header_length(columns).with_header_length(columns) == s.with_header_length(columns),
        s.with_content_length(rows).with_content_length(rows) == s.with_content_length(rows),
{
}

} // verus!
