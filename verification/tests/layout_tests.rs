use enki::tui::layout::{approval_overlay, main_layout, Area};
use ratatui::layout::{Constraint, Direction, Layout, Rect};

fn area(x: u16, y: u16, width: u16, height: u16) -> Area {
    Area { x, y, width, height }
}

#[test]
fn main_layout_rows() {
    let l = main_layout(area(0, 0, 80, 24));
    assert_eq!(l.status, area(0, 0, 80, 3));
    assert_eq!(l.chat, area(0, 3, 80, 18));
    assert_eq!(l.input, area(0, 21, 80, 3));
}

#[test]
fn main_layout_matches_ratatui() {
    let rect = Rect::new(2, 1, 60, 30);
    let parts = Layout::default()
        .direction(Direction::Vertical)
        .constraints([Constraint::Length(3), Constraint::Min(3), Constraint::Length(3)])
        .split(rect);
    let l = main_layout(area(2, 1, 60, 30));
    assert_eq!(l.chat, area(parts[1].x, parts[1].y, parts[1].width, parts[1].height));
}

#[test]
fn approval_overlay_is_centered() {
    assert_eq!(approval_overlay(area(0, 0, 100, 40)), area(15, 10, 70, 20));
}
