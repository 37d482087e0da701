use gimoji::colors::Colors;
use gimoji::driver::step;
use gimoji::driver::Event;
use gimoji::driver::Outcome;
use gimoji::emoji::Emoji;
use gimoji::search_entry::SearchEntry;
use gimoji::selection_view::SelectionView;

fn record(code: &str, description: &str, emoji: &str) -> Emoji {
    Emoji::new(
        code.to_string(),
        description.to_string(),
        emoji.to_string(),
        String::new(),
        code.trim_matches(':').to_string(),
    )
}

fn sample_dataset() -> Vec<Emoji> {
    vec![
        record(":art:", "Improve structure / format of the code.", "\u{1F3A8}"),
        record(":zap:", "Improve performance.", "\u{26A1}\u{FE0F}"),
        record(":bug:", "Fix a bug.", "\u{1F41B}"),
    ]
}

#[test]
fn empty_query_returns_dataset_unchanged() {
    let colors = Colors::dark();
    let mut view = SelectionView::new(sample_dataset(), &colors);
    let fv = view.filtered_view("");
    assert_eq!(fv.len(), 3);
    assert_eq!(fv.get(0).code(), ":art:");
    assert_eq!(fv.get(1).code(), ":zap:");
    assert_eq!(fv.get(2).code(), ":bug:");
}

#[test]
fn filter_keeps_matches_in_dataset_order() {
    let colors = Colors::dark();
    let mut view = SelectionView::new(sample_dataset(), &colors);
    let fv = view.filtered_view("improve");
    assert_eq!(fv.len(), 2);
    assert_eq!(fv.get(0).code(), ":art:");
    assert_eq!(fv.get(1).code(), ":zap:");
}

#[test]
fn filter_matches_any_field() {
    let colors = Colors::dark();
    let mut view = SelectionView::new(sample_dataset(), &colors);
    // By glyph.
    let fv = view.filtered_view("\u{1F41B}");
    assert_eq!(fv.len(), 1);
    assert_eq!(fv.get(0).code(), ":bug:");
    // By code and name.
    let fv = view.filtered_view("zap");
    assert_eq!(fv.len(), 1);
    assert_eq!(fv.get(0).code(), ":zap:");
}

#[test]
fn invalid_pattern_degrades_to_no_matches() {
    let colors = Colors::dark();
    let mut view = SelectionView::new(sample_dataset(), &colors);
    let fv = view.filtered_view("[");
    assert_eq!(fv.len(), 0);
    assert!(fv.selected().is_none());
}

#[test]
fn wrap_around_down_and_up() {
    let colors = Colors::dark();
    let mut view = SelectionView::new(sample_dataset(), &colors);
    let mut fv = view.filtered_view("");
    assert_eq!(fv.len(), 3);
    // Cursor at 2: move_down wraps to 0.
    fv.move_down();
    fv.move_down();
    assert_eq!(fv.cursor(), 2);
    fv.move_down();
    assert_eq!(fv.cursor(), 0);
    // Cursor at 0: move_up wraps to 2.
    fv.move_up();
    assert_eq!(fv.cursor(), 2);
}

#[test]
fn cursor_resets_when_view_shrinks() {
    let colors = Colors::dark();
    let ds = vec![
        record(":m0:", "plain", "a"),
        record(":m1:", "plain", "b"),
        record(":m2:", "special", "c"),
        record(":m3:", "plain", "d"),
        record(":m4:", "special", "e"),
    ];
    let mut view = SelectionView::new(ds, &colors);
    let mut fv = view.filtered_view("");
    assert_eq!(fv.len(), 5);
    for _ in 0..4 {
        fv.move_down();
    }
    assert_eq!(fv.cursor(), 4);
    view.set_cursor(fv.cursor());
    // Narrow the query: the view shrinks to 2 rows and the cursor resets.
    let fv = view.filtered_view("special");
    assert_eq!(fv.len(), 2);
    assert_eq!(fv.cursor(), 0);
}

#[test]
fn cursor_stays_in_bounds_through_any_sequence() {
    let colors = Colors::dark();
    let mut view = SelectionView::new(sample_dataset(), &colors);
    let mut entry = SearchEntry::new(&colors);
    let events = [
        Event::Down,
        Event::Input('b'),
        Event::Down,
        Event::Input('u'),
        Event::Up,
        Event::Erase,
        Event::Input('x'),
        Event::Input('q'),
        Event::Down,
        Event::Cancel,
        Event::Up,
        Event::Other,
    ];
    for ev in events {
        let _ = step(&mut view, &mut entry, ev);
        let fv = view.filtered_view(entry.text());
        if fv.len() > 0 {
            assert!(fv.cursor() < fv.len());
        } else {
            assert_eq!(fv.cursor(), 0);
        }
        view.set_cursor(fv.cursor());
    }
}

#[test]
fn round_trip_selection() {
    let colors = Colors::dark();
    let ds = vec![
        record(":art:", "Improve structure", "\u{1F3A8}"),
        record(":bug:", "Fix a bug", "\u{1F41B}"),
    ];
    let mut view = SelectionView::new(ds, &colors);
    let mut entry = SearchEntry::new(&colors);
    for c in "bug".chars() {
        match step(&mut view, &mut entry, Event::Input(c)) {
            Outcome::Running => {}
            _ => panic!("typing must keep the picker running"),
        }
    }
    let fv = view.filtered_view(entry.text());
    assert_eq!(fv.len(), 1);
    assert_eq!(fv.get(0).code(), ":bug:");
    match step(&mut view, &mut entry, Event::Confirm) {
        Outcome::Confirmed(glyph) => assert_eq!(glyph, "\u{1F41B}"),
        _ => panic!("confirm on a non-empty view must select"),
    }
}

#[test]
fn confirm_on_empty_view_keeps_running() {
    let colors = Colors::dark();
    let mut view = SelectionView::new(sample_dataset(), &colors);
    let mut entry = SearchEntry::new(&colors);
    for c in "nothing-matches-this".chars() {
        let _ = step(&mut view, &mut entry, Event::Input(c));
    }
    match step(&mut view, &mut entry, Event::Confirm) {
        Outcome::Running => {}
        _ => panic!("confirm on an empty view must be a no-op"),
    }
}

#[test]
fn cancel_clears_query_then_cancels() {
    let colors = Colors::dark();
    let mut view = SelectionView::new(sample_dataset(), &colors);
    let mut entry = SearchEntry::new(&colors);
    let _ = step(&mut view, &mut entry, Event::Input('a'));
    match step(&mut view, &mut entry, Event::Cancel) {
        Outcome::Running => {}
        _ => panic!("cancel on a non-empty query must only clear it"),
    }
    assert_eq!(entry.text(), "");
    match step(&mut view, &mut entry, Event::Cancel) {
        Outcome::Cancelled => {}
        _ => panic!("cancel on an empty query must cancel"),
    }
}

#[test]
fn interrupt_ends_the_loop() {
    let colors = Colors::dark();
    let mut view = SelectionView::new(sample_dataset(), &colors);
    let mut entry = SearchEntry::new(&colors);
    match step(&mut view, &mut entry, Event::Interrupt) {
        Outcome::Interrupted => {}
        _ => panic!("interrupt must end the loop"),
    }
}

#[test]
fn empty_dataset_never_selects() {
    let colors = Colors::dark();
    let mut view = SelectionView::new(Vec::new(), &colors);
    let mut fv = view.filtered_view("");
    assert_eq!(fv.len(), 0);
    assert!(fv.selected().is_none());
    fv.move_down();
    fv.move_up();
    assert_eq!(fv.cursor(), 0);
    let mut entry = SearchEntry::new(&colors);
    match step(&mut view, &mut entry, Event::Confirm) {
        Outcome::Running => {}
        _ => panic!("confirm with no records must be a no-op"),
    }
}
