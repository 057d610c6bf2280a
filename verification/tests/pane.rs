use kingdom_viewer::layout::Area;
use kingdom_viewer::pane::{interior_rows, make_title, pane_view, visible_lines, BORDER_ROWS};
use kingdom_viewer::session::{Accent, SessionRegistry, SessionSpec};

fn numbered(from: u32, to: u32) -> Vec<String> {
    (from..=to).map(|n| n.to_string()).collect()
}

#[test]
fn border_takes_two_rows() {
    assert_eq!(BORDER_ROWS, 2);
    assert_eq!(interior_rows(0), 0);
    assert_eq!(interior_rows(1), 0);
    assert_eq!(interior_rows(2), 0);
    assert_eq!(interior_rows(3), 1);
    assert_eq!(interior_rows(24), 22);
    assert_eq!(interior_rows(u16::MAX), u16::MAX - 2);
}

#[test]
fn more_lines_than_rows_shows_the_newest() {
    let snapshot = numbered(1, 30);
    assert_eq!(visible_lines(&snapshot, 12), numbered(21, 30));
}

#[test]
fn exactly_as_many_lines_as_rows_shows_all() {
    assert_eq!(visible_lines(&numbered(1, 10), 12), numbered(1, 10));
}

#[test]
fn fewer_lines_than_rows_shows_all() {
    assert_eq!(visible_lines(&numbered(1, 3), 12), numbered(1, 3));
    assert_eq!(visible_lines(&Vec::new(), 12), Vec::<String>::new());
}

#[test]
fn one_interior_row_shows_the_last_line() {
    assert_eq!(visible_lines(&numbered(1, 5), 3), vec!["5"]);
}

#[test]
fn pane_without_interior_shows_nothing() {
    assert_eq!(visible_lines(&numbered(1, 5), 2), Vec::<String>::new());
    assert_eq!(visible_lines(&numbered(1, 5), 1), Vec::<String>::new());
    assert_eq!(visible_lines(&numbered(1, 5), 0), Vec::<String>::new());
}

#[test]
fn view_does_not_change_the_snapshot() {
    let snapshot = numbered(1, 30);
    let _ = visible_lines(&snapshot, 5);
    assert_eq!(snapshot, numbered(1, 30));
}

#[test]
fn title_is_the_name_between_spaces() {
    assert_eq!(make_title("Agent 1 (Rust)"), " Agent 1 (Rust) ");
    assert_eq!(make_title(""), "  ");
}

#[test]
fn pane_view_carries_title_accent_and_newest_lines() {
    let accent = Accent { red: 1, green: 2, blue: 3 };
    let specs = vec![SessionSpec { name: "shell".to_string(), accent }];
    let registry = SessionRegistry::build(&specs, 100).unwrap();
    let area = Area { x: 4, y: 5, width: 20, height: 6 };
    let pane = pane_view(registry.session(1).unwrap(), &numbered(1, 9), area);
    assert_eq!(pane.area, area);
    assert_eq!(pane.title, " shell ");
    assert_eq!(pane.accent, accent);
    assert_eq!(pane.lines, numbered(6, 9));
}
