//! The focus graph: which field or pane of the interface receives
//! directional and activation keys, and how the directional keys move the
//! focus between them.
//!
//! The layout has three rows: `Start` and `Destination` on the first row,
//! the query options `Date`, `Time`, `Arrival`, `Ubahn`, `Sbahn`, `Tram`
//! and `Bus` on the second, and the `Routes` result pane below both.

use vstd::prelude::*;

verus! {

/// The field or pane that currently receives navigation and activation keys.
#[derive(Clone, Copy, Debug, PartialEq, Eq, Structural)]
pub enum Focus {
    Start,
    Destination,
    Date,
    Time,
    Arrival,
    Ubahn,
    Sbahn,
    Tram,
    Bus,
    Routes,
}

/// A directional navigation key (h/j/k/l or the arrow equivalents).
#[derive(Clone, Copy, Debug, PartialEq, Eq, Structural)]
pub enum NavDirection {
    Left,
    Down,
    Up,
    Right,
}

/// The row of the layout a focus sits on: 0 for the input row, 1 for the
/// option row, 2 for the result pane.
pub open spec fn row_of(f: Focus) -> int {
    match f {
        Focus::Start => 0,
        Focus::Destination => 0,
        Focus::Date => 1,
        Focus::Time => 1,
        Focus::Arrival => 1,
        Focus::Ubahn => 1,
        Focus::Sbahn => 1,
        Focus::Tram => 1,
        Focus::Bus => 1,
        Focus::Routes => 2,
    }
}

/// The column of a focus within its row, counted from the left.
pub open spec fn col_of(f: Focus) -> int {
    match f {
        Focus::Start => 0,
        Focus::Destination => 1,
        Focus::Date => 0,
        Focus::Time => 1,
        Focus::Arrival => 2,
        Focus::Ubahn => 3,
        Focus::Sbahn => 4,
        Focus::Tram => 5,
        Focus::Bus => 6,
        Focus::Routes => 0,
    }
}

/// How many foci each row holds.
pub open spec fn row_len(row: int) -> int {
    if row == 0 {
        2
    } else if row == 1 {
        7
    } else {
        1
    }
}

/// The focus sitting at a given row and column of the layout.
pub open spec fn focus_at(row: int, col: int) -> Focus {
    if row == 0 {
        if col == 0 {
            Focus::Start
        } else {
            Focus::Destination
        }
    } else if row == 1 {
        if col == 0 {
            Focus::Date
        } else if col == 1 {
            Focus::Time
        } else if col == 2 {
            Focus::Arrival
        } else if col == 3 {
            Focus::Ubahn
        } else if col == 4 {
            Focus::Sbahn
        } else if col == 5 {
            Focus::Tram
        } else {
            Focus::Bus
        }
    } else {
        Focus::Routes
    }
}

/// A move that the layout defines as a no-op: leaving a row past its left or
/// right end, moving up from the top row, or moving down from the result
/// pane.
pub open spec fn is_boundary(f: Focus, d: NavDirection) -> bool {
    match d {
        NavDirection::Left => col_of(f) == 0,
        NavDirection::Right => col_of(f) == row_len(row_of(f)) - 1,
        NavDirection::Up => row_of(f) == 0,
        NavDirection::Down => f == Focus::Routes,
    }
}

/// The transition table of the focus graph.
///
/// Within a row, left and right step one column at a time and stop at the
/// ends.  Down moves to the result pane from everywhere.  Up leaves the
/// result pane for `Date`, and leaves the option row for whichever input
/// field sits nearest above: `Start` above `Date` and `Time`, `Destination`
/// above the rest.
pub open spec fn spec_next_focus(f: Focus, d: NavDirection) -> Focus {
    match d {
        NavDirection::Left => match f {
            Focus::Destination => Focus::Start,
            Focus::Time => Focus::Date,
            Focus::Arrival => Focus::Time,
            Focus::Ubahn => Focus::Arrival,
            Focus::Sbahn => Focus::Ubahn,
            Focus::Tram => Focus::Sbahn,
            Focus::Bus => Focus::Tram,
            _ => f,
        },
        NavDirection::Right => match f {
            Focus::Start => Focus::Destination,
            Focus::Date => Focus::Time,
            Focus::Time => Focus::Arrival,
            Focus::Arrival => Focus::Ubahn,
            Focus::Ubahn => Focus::Sbahn,
            Focus::Sbahn => Focus::Tram,
            Focus::Tram => Focus::Bus,
            _ => f,
        },
        NavDirection::Down => match f {
            Focus::Routes => Focus::Routes,
            _ => Focus::Routes,
        },
        NavDirection::Up => match f {
            Focus::Date => Focus::Start,
            Focus::Time => Focus::Start,
            Focus::Arrival => Focus::Destination,
            Focus::Ubahn => Focus::Destination,
            Focus::Sbahn => Focus::Destination,
            Focus::Tram => Focus::Destination,
            Focus::Bus => Focus::Destination,
            Focus::Routes => Focus::Date,
            _ => f,
        },
    }
}

/// Pure, total transition function of the focus graph.
pub fn next_focus(f: Focus, d: NavDirection) -> (r: Focus)
    ensures
        r == spec_next_focus(f, d),
{
    match d {
        NavDirection::Left => match f {
            Focus::Destination => Focus::Start,
            Focus::Time => Focus::Date,
            Focus::Arrival => Focus::Time,
            Focus::Ubahn => Focus::Arrival,
            Focus::Sbahn => Focus::Ubahn,
            Focus::Tram => Focus::Sbahn,
            Focus::Bus => Focus::Tram,
            _ => f,
        },
        NavDirection::Right => match f {
            Focus::Start => Focus::Destination,
            Focus::Date => Focus::Time,
            Focus::Time => Focus::Arrival,
            Focus::Arrival => Focus::Ubahn,
            Focus::Ubahn => Focus::Sbahn,
            Focus::Sbahn => Focus::Tram,
            Focus::Tram => Focus::Bus,
            _ => f,
        },
        NavDirection::Down => Focus::Routes,
        NavDirection::Up => match f {
            Focus::Date => Focus::Start,
            Focus::Time => Focus::Start,
            Focus::Arrival => Focus::Destination,
            Focus::Ubahn => Focus::Destination,
            Focus::Sbahn => Focus::Destination,
            Focus::Tram => Focus::Destination,
            Focus::Bus => Focus::Destination,
            Focus::Routes => Focus::Date,
            _ => f,
        },
    }
}

/// Every move that the layout defines as a no-op boundary leaves the focus
/// unchanged, and no other move does.
pub proof fn lemma_next_focus_boundary(f: Focus, d: NavDirection)
    ensures
        is_boundary(f, d) <==> spec_next_focus(f, d) == f,
{
}

/// Every non-boundary move follows the row and column layout: left and
/// right step one column within the row, down always reaches the result
/// pane, and up returns to `Date` from the result pane and to the nearest
/// input field from the option row.
pub proof fn lemma_next_focus_layout(f: Focus, d: NavDirection)
    requires
        !is_boundary(f, d),
    ensures
        d == NavDirection::Left ==> spec_next_focus(f, d) == focus_at(row_of(f), col_of(f) - 1),
        d == NavDirection::Right ==> spec_next_focus(f, d) == focus_at(row_of(f), col_of(f) + 1),
        d == NavDirection::Down ==> spec_next_focus(f, d) == Focus::Routes,
        d == NavDirection::Up && f == Focus::Routes ==> spec_next_focus(f, d) == Focus::Date,
        d == NavDirection::Up && row_of(f) == 1 && col_of(f) <= 1 ==> spec_next_focus(f, d)
            == Focus::Start,
        d == NavDirection::Up && row_of(f) == 1 && col_of(f) > 1 ==> spec_next_focus(f, d)
            == Focus::Destination,
{
}

} // verus!
