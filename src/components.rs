pub mod command;
pub mod connection_list;
pub mod database_list;
pub mod help_view;
pub mod input_popup;
pub mod log_view;
pub mod records_view;
pub mod tab;
pub mod table_list;
pub mod widgets;

use crate::application::preferences::{ThemeConfig, RGB};
use vstd::prelude::*;

verus! {

/// Border colour of a pane: the theme's selected colour when it has the
/// focus, its unselected colour otherwise.
pub fn selected_color(selected: bool, theme_config: ThemeConfig) -> (r: RGB)
    ensures
        r == if selected {
            theme_config.selected_color
        } else {
            theme_config.unselected_color
        },
{
    if selected {
        theme_config.selected_color
    } else {
        theme_config.unselected_color
    }
}

/// Highlight of a list of `len` items after moving down: the first item
/// when none is highlighted, wrapping from the last item to the first.
pub open spec fn next_index(selected: Option<usize>, len: usize) -> Option<usize> {
    if len == 0 {
        selected
    } else {
        match selected {
            None => Some(0),
            Some(i) => if i + 1 >= len {
                Some(0)
            } else {
                Some((i + 1) as usize)
            },
        }
    }
}

/// Highlight of a list of `len` items after moving up: the last item when
/// none is highlighted, wrapping from the first item to the last.
pub open spec fn prev_index(selected: Option<usize>, len: usize) -> Option<usize> {
    if len == 0 {
        selected
    } else {
        match selected {
            None => Some((len - 1) as usize),
            Some(i) => if i == 0 || i > len {
                Some((len - 1) as usize)
            } else {
                Some((i - 1) as usize)
            },
        }
    }
}

pub fn next_index_of(selected: Option<usize>, len: usize) -> (r: Option<usize>)
    ensures
        r == next_index(selected, len),
{
    if len == 0 {
        return selected;
    }
    match selected {
        None => Some(0),
        Some(i) => if i >= len - 1 {
            Some(0)
        } else {
            Some(i + 1)
        },
    }
}

pub fn prev_index_of(selected: Option<usize>, len: usize) -> (r: Option<usize>)
    ensures
        r == prev_index(selected, len),
{
    if len == 0 {
        return selected;
    }
    match selected {
        None => Some(len - 1),
        Some(i) => if i == 0 || i > len {
            Some(len - 1)
        } else {
            Some(i - 1)
        },
    }
}

} // verus!
