use ssm_monitor::detail_screen::detail_parts;
use ssm_monitor::layout::{centered_rect, inner, Constraint, Rect};
use ssm_monitor::list_screen::list_parts;

fn rect(x: u16, y: u16, width: u16, height: u16) -> Rect {
    Rect { x, y, width, height }
}

#[test]
fn a_box_is_put_in_the_middle() {
    assert_eq!(centered_rect(50, 10, rect(0, 0, 80, 24)), rect(15, 7, 50, 10));
}

#[test]
fn an_odd_cell_is_left_on_the_right_and_below() {
    assert_eq!(centered_rect(4, 3, rect(2, 3, 9, 8)), rect(4, 5, 4, 3));
}

#[test]
fn a_box_is_cut_down_to_its_area() {
    assert_eq!(centered_rect(50, 20, rect(1, 2, 30, 5)), rect(1, 2, 30, 5));
    assert_eq!(centered_rect(50, 20, rect(0, 0, 0, 0)), rect(0, 0, 0, 0));
}

#[test]
fn a_margin_is_taken_off_each_side() {
    assert_eq!(inner(rect(2, 3, 10, 8), 1, 2), rect(3, 5, 8, 4));
    assert_eq!(inner(rect(2, 3, 10, 8), 5, 4), rect(7, 7, 0, 0));
    assert_eq!(inner(rect(2, 3, 10, 8), 6, 0), rect(0, 0, 0, 0));
    assert_eq!(inner(rect(2, 3, 10, 8), 0, 40_000), rect(0, 0, 0, 0));
    assert_eq!(inner(rect(u16::MAX, 0, u16::MAX, 2), 3, 1), rect(u16::MAX, 1, u16::MAX - 6, 0));
}

#[test]
fn screens_are_divided_into_parts() {
    assert_eq!(
        list_parts(),
        [
            Constraint::Length(1),
            Constraint::Length(1),
            Constraint::Min(1),
            Constraint::Length(4)
        ]
    );
    assert_eq!(
        detail_parts(),
        [Constraint::Length(1), Constraint::Min(1), Constraint::Length(3)]
    );
}
