//! The event loop's decision step: from the current query, dataset and
//! cursor, one input event moves the picker to its next state. The loop that
//! reads real key events and redraws the screen lives outside the library
//! and calls [`step`] once per event.

use crate::search_entry::SearchEntry;
use crate::selection_view::filtered_of;
use crate::selection_view::SelectionView;
use vstd::prelude::*;

verus! {

/// One discrete input event, as the terminal driver hands it in.
pub enum Event {
    /// Confirm the record under the cursor.
    Confirm,
    /// Cancel: clear a non-empty query, end the run on an empty one.
    Cancel,
    /// Move the cursor one row up.
    Up,
    /// Move the cursor one row down.
    Down,
    /// Append a printable character to the query.
    Input(char),
    /// Erase the last character of the query.
    Erase,
    /// An explicit abort combination.
    Interrupt,
    /// Anything else: ignored.
    Other,
}

/// The picker's state after one step.
pub enum Outcome {
    /// Keep reading events.
    Running,
    /// A record was confirmed; this is its glyph.
    Confirmed(String),
    /// Cancelled: nothing selected.
    Cancelled,
    /// Aborted by an interrupt.
    Interrupted,
}

/// Where the carried cursor lands after the view is recomputed: kept while
/// it still points into the view, reset to the top otherwise.
pub open spec fn reset_cursor(c: int, len: int) -> int {
    if c < len {
        c
    } else {
        0
    }
}

/// Where the cursor lands after moving one row up: wrapping from the first
/// row to the last, unmoved on an empty view.
pub open spec fn wrap_up(c: int, len: int) -> int {
    if len == 0 {
        c
    } else if c == 0 {
        len - 1
    } else {
        c - 1
    }
}

/// Where the cursor lands after moving one row down: wrapping from the last
/// row to the first, unmoved on an empty view.
pub open spec fn wrap_down(c: int, len: int) -> int {
    if len == 0 {
        c
    } else {
        (c + 1) % len
    }
}

/// The transition relation of the picker's event loop: given the engine and
/// query before the step and the event, it fixes the engine, the query and
/// the outcome after the step. `f` is the view filtered for the old query;
/// `c0` is the cursor after that recomputation.
pub open spec fn step_spec(
    q0: Seq<char>,
    f: Seq<crate::emoji::Emoji>,
    c0: int,
    q1: Seq<char>,
    c1: int,
    event: Event,
    out: Outcome,
) -> bool {
    match event {
        Event::Confirm => if f.len() > 0 {
            (out matches Outcome::Confirmed(g) && g@ == f[c0]@.emoji) && q1 == q0 && c1 == c0
        } else {
            out is Running && q1 == q0 && c1 == c0
        },
        Event::Cancel => if q0.len() == 0 {
            out is Cancelled && q1 == q0 && c1 == c0
        } else {
            out is Running && q1 == Seq::<char>::empty() && c1 == c0
        },
        Event::Up => out is Running && q1 == q0 && c1 == wrap_up(c0, f.len() as int),
        Event::Down => out is Running && q1 == q0 && c1 == wrap_down(c0, f.len() as int),
        Event::Input(c) => out is Running && q1 == q0.push(c) && c1 == c0,
        Event::Erase => out is Running && c1 == c0 && q1 == (if q0.len() > 0 {
            q0.drop_last()
        } else {
            q0
        }),
        Event::Interrupt => out is Interrupted && q1 == q0 && c1 == c0,
        Event::Other => out is Running && q1 == q0 && c1 == c0,
    }
}

/// Processes one input event: recomputes the filtered view for the current
/// query, then confirms, cancels, navigates, or edits the query as the
/// event directs. Total: every event yields a next state, as
/// [`step_spec`] lays down.
pub fn step(view: &mut SelectionView, entry: &mut SearchEntry, event: Event) -> (out: Outcome)
    ensures
        final(view).dataset() == old(view).dataset(),
        final(view).spec_colors() == old(view).spec_colors(),
        final(entry).spec_colors() == old(entry).spec_colors(),
        ({
            let f = filtered_of(old(view).dataset(), old(entry)@);
            let c0 = reset_cursor(old(view).spec_cursor(), f.len() as int);
            step_spec(
                old(entry)@,
                f,
                c0,
                final(entry)@,
                final(view).spec_cursor(),
                event,
                out,
            )
        }),
{
    let mut fv = view.filtered_view(entry.text());
    match event {
        Event::Confirm => {
            match fv.selected() {
                Option::Some(e) => Outcome::Confirmed(e.emoji().to_owned()),
                Option::None => Outcome::Running,
            }
        },
        Event::Cancel => {
            if entry.text().is_empty() {
                Outcome::Cancelled
            } else {
                entry.delete_all();
                Outcome::Running
            }
        },
        Event::Up => {
            fv.move_up();
            view.set_cursor(fv.cursor());
            Outcome::Running
        },
        Event::Down => {
            fv.move_down();
            view.set_cursor(fv.cursor());
            Outcome::Running
        },
        Event::Input(c) => {
            entry.append(c);
            Outcome::Running
        },
        Event::Erase => {
            entry.delete_last();
            Outcome::Running
        },
        Event::Interrupt => Outcome::Interrupted,
        Event::Other => Outcome::Running,
    }
}

} // verus!
