use dbv::components::records_view::RecordsViewComponent;
use dbv::components::widgets::custom_table::CustomTableState;
use dbv::events::key::Keys;
use dbv::events::EventState;

fn drawn(columns: usize, rows: usize, area_height: usize) -> CustomTableState {
    let mut s = CustomTableState::new(columns, rows);
    s.compute_window(area_height);
    s
}

#[test]
fn new_state_limits_visible_columns() {
    let s = CustomTableState::new(10, 3);
    assert_eq!(s.max_element_in_row, 4);
    assert_eq!(s.offset_x, 0);
    assert_eq!(s.offset_y, 0);
    assert_eq!(s.selected(), None);
    let t = CustomTableState::new(2, 3);
    assert_eq!(t.max_element_in_row, 2);
}

#[test]
fn next_col_scrolls_to_last_window() {
    let mut s = drawn(10, 20, 30);
    s.select(Some((3, 0)));
    for _ in 0..6 {
        s.next_col();
    }
    assert_eq!(s.offset_x, 6);
    assert_eq!(s.selected(), Some((3, 0)));
    s.next_col();
    assert_eq!(s.offset_x, 6);
    assert_eq!(s.selected(), Some((3, 0)));
}

#[test]
fn next_col_from_nothing_highlights_first_cell() {
    let mut s = drawn(10, 20, 30);
    s.next_col();
    assert_eq!(s.selected(), Some((0, 0)));
    for _ in 0..3 {
        s.next_col();
    }
    assert_eq!(s.selected(), Some((3, 0)));
    assert_eq!(s.offset_x, 0);
    s.next_col();
    assert_eq!(s.offset_x, 1);
}

#[test]
fn prev_col_scrolls_back_at_left_edge() {
    let mut s = drawn(10, 20, 30);
    s.select(Some((3, 0)));
    for _ in 0..3 {
        s.next_col();
    }
    assert_eq!(s.offset_x, 3);
    s.prev_col();
    assert_eq!(s.selected(), Some((2, 0)));
    s.prev_col();
    s.prev_col();
    assert_eq!(s.selected(), Some((0, 0)));
    assert_eq!(s.offset_x, 3);
    s.prev_col();
    assert_eq!(s.offset_x, 2);
    for _ in 0..5 {
        s.prev_col();
    }
    assert_eq!(s.offset_x, 0);
    assert_eq!(s.selected(), Some((0, 0)));
}

#[test]
fn column_offset_stays_in_range() {
    let mut s = drawn(7, 5, 20);
    let moves = [true, true, false, true, true, true, true, true, true, false, true, true, true, false, false, false, false, false, false, false, true];
    for m in moves.iter() {
        if *m {
            s.next_col();
        } else {
            s.prev_col();
        }
        assert!(s.offset_x <= 7 - 4);
        if let Some((c, _)) = s.selected() {
            assert!(s.offset_x + c < 7);
        }
    }
}

#[test]
fn row_offset_stays_in_range() {
    let mut s = drawn(3, 12, 9);
    assert_eq!(s.visible_rows(), 5);
    for _ in 0..30 {
        s.next_row();
        assert!(s.offset_y <= 12 - 5);
    }
    assert_eq!(s.offset_y, 7);
    assert_eq!(s.selected(), Some((0, 5)));
    for _ in 0..30 {
        s.prev_row();
        assert!(s.offset_y <= 12 - 5);
    }
    assert_eq!(s.offset_y, 0);
    assert_eq!(s.selected(), Some((0, 0)));
}

#[test]
fn next_row_walks_header_then_rows() {
    let mut s = drawn(3, 3, 30);
    assert_eq!(s.visible_rows(), 3);
    s.next_row();
    assert_eq!(s.selected(), Some((0, 0)));
    s.next_row();
    assert_eq!(s.selected(), Some((0, 1)));
    s.next_row();
    s.next_row();
    assert_eq!(s.selected(), Some((0, 3)));
    s.next_row();
    assert_eq!(s.selected(), Some((0, 3)));
    assert_eq!(s.offset_y, 0);
}

#[test]
fn prev_row_scrolls_up_from_first_body_row() {
    let mut s = drawn(3, 10, 7);
    for _ in 0..6 {
        s.next_row();
    }
    assert_eq!(s.selected(), Some((0, 3)));
    assert_eq!(s.offset_y, 2);
    s.prev_row();
    s.prev_row();
    assert_eq!(s.selected(), Some((0, 1)));
    s.prev_row();
    assert_eq!(s.offset_y, 1);
    assert_eq!(s.selected(), Some((0, 1)));
    s.prev_row();
    s.prev_row();
    assert_eq!(s.offset_y, 0);
    assert_eq!(s.selected(), Some((0, 0)));
}

#[test]
fn navigating_an_empty_grid_does_nothing() {
    let mut s = drawn(0, 0, 30);
    s.next_col();
    s.next_row();
    s.prev_row();
    s.prev_col();
    assert_eq!(s.selected(), None);
    assert_eq!(s.offset_x, 0);
    assert_eq!(s.offset_y, 0);
    let mut t = drawn(4, 0, 30);
    t.next_row();
    assert_eq!(t.selected(), None);
}

#[test]
fn shrinking_the_area_keeps_selection_in_data() {
    let mut s = drawn(10, 50, 30);
    assert_eq!(s.visible_rows(), 26);
    for _ in 0..40 {
        s.next_row();
    }
    assert_eq!(s.selected(), Some((0, 26)));
    assert_eq!(s.offset_y, 13);
    s.compute_window(10);
    assert_eq!(s.visible_rows(), 6);
    assert_eq!(s.selected(), Some((0, 6)));
    assert_eq!(s.offset_y, 13);
    s.compute_window(3);
    assert_eq!(s.visible_rows(), 0);
    assert_eq!(s.selected(), Some((0, 0)));
    assert!(s.offset_y <= 50);
}

#[test]
fn shrinking_the_data_clamps_offsets() {
    let mut s = drawn(10, 50, 14);
    s.select(Some((3, 0)));
    for _ in 0..5 {
        s.next_col();
    }
    for _ in 0..60 {
        s.next_row();
    }
    assert_eq!(s.offset_x, 5);
    assert_eq!(s.offset_y, 40);
    let s = s.header_length(5).content_length(4);
    assert_eq!(s.offset_x, 1);
    assert_eq!(s.offset_y, 0);
    assert_eq!(s.selected(), Some((3, 4)));
    let s = s.header_length(0);
    assert_eq!(s.selected(), None);
    assert_eq!(s.max_element_in_row, 0);
}

#[test]
fn select_is_clamped_into_window() {
    let mut s = drawn(3, 10, 8);
    s.select(Some((9, 9)));
    assert_eq!(s.selected(), Some((2, 4)));
    s.select(None);
    assert_eq!(s.selected(), None);
}

fn sample_header() -> Vec<String> {
    vec!["id".to_string(), "name".to_string()]
}

fn sample_rows() -> Vec<Vec<String>> {
    vec![
        vec!["1".to_string(), "ada".to_string()],
        vec!["2".to_string(), "bob".to_string()],
        vec!["3".to_string(), "cy".to_string()],
    ]
}

#[test]
fn setting_the_same_data_twice_changes_nothing() {
    let mut v = RecordsViewComponent::new();
    v.compute_window(20);
    v.set_header(sample_header());
    v.set_body(sample_rows());
    v.event(&Keys::Char('j'));
    v.event(&Keys::Char('j'));
    v.event(&Keys::Char('l'));
    let header_once = v.header().clone();
    let rows_once = v.rows().clone();
    let state_once = v.table_state();
    v.set_header(sample_header());
    v.set_body(sample_rows());
    assert_eq!(v.header(), &header_once);
    assert_eq!(v.rows(), &rows_once);
    let state_twice = v.table_state();
    assert_eq!(state_twice.offset_x, state_once.offset_x);
    assert_eq!(state_twice.offset_y, state_once.offset_y);
    assert_eq!(state_twice.selected(), state_once.selected());
    assert_eq!(state_twice.header_length, 2);
    assert_eq!(state_twice.content_length, 3);
}

#[test]
fn records_view_keys_move_the_highlight() {
    let mut v = RecordsViewComponent::new();
    assert!(matches!(v.event(&Keys::Char('j')), EventState::Wasted));
    v.compute_window(20);
    v.set_header(sample_header());
    v.set_body(sample_rows());
    v.set_total(Some(3));
    assert_eq!(v.total(), Some(3));
    assert!(matches!(v.event(&Keys::Char('j')), EventState::Consumed));
    assert!(matches!(v.event(&Keys::Char('j')), EventState::Consumed));
    assert!(matches!(v.event(&Keys::Char('l')), EventState::Consumed));
    assert_eq!(v.table_state().selected(), Some((1, 1)));
    assert!(matches!(v.event(&Keys::Char('x')), EventState::Wasted));
}
