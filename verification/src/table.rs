//! The wrap-around selection cursor over the result table.
//!
//! The cursor only moves while the input mode is `Table`; advancing past
//! the last entry wraps to the first, retreating before the first wraps to
//! the last.  Against an empty result list both operations leave the
//! cursor alone instead of inventing an index.

use vstd::prelude::*;
use vstd::arithmetic::div_mod::{lemma_add_mod_noop, lemma_mod_self_0, lemma_small_mod};
use crate::app::{App, AppModel};
use crate::app::InputMode;

verus! {

/// The selection cursor of the result table.
#[derive(Clone, Copy, Debug, PartialEq, Eq)]
pub struct RoutesTableState {
    pub selected: Option<usize>,
}

/// The cursor, when set, points into a list of the given length.
pub open spec fn cursor_in_range(sel: Option<usize>, len: nat) -> bool {
    match sel {
        Some(i) => (i as nat) < len,
        None => true,
    }
}

/// One wrap-around step forward over a list of length `n`: past the last
/// index wraps to the first, and an unset cursor lands on the first entry.
/// Over an empty list the cursor does not move.
pub open spec fn spec_advance(sel: Option<usize>, n: nat) -> Option<usize> {
    if n == 0 {
        sel
    } else {
        match sel {
            None => Some(0usize),
            Some(i) => if i + 1 >= n {
                Some(0usize)
            } else {
                Some((i + 1) as usize)
            },
        }
    }
}

/// One wrap-around step backward over a list of length `n`: before the
/// first index wraps to the last, and an unset cursor lands on the first
/// entry.  Over an empty list the cursor does not move.
pub open spec fn spec_retreat(sel: Option<usize>, n: nat) -> Option<usize> {
    if n == 0 {
        sel
    } else {
        match sel {
            None => Some(0usize),
            Some(i) => if i == 0 {
                Some((n - 1) as usize)
            } else {
                Some((i - 1) as usize)
            },
        }
    }
}

/// The cursor after a forward key: a wrap-around step while the input mode
/// is `Table`, the first entry otherwise; over an empty list no movement.
pub open spec fn spec_next_entry(m: AppModel, sel: Option<usize>) -> Option<usize> {
    if m.routes.len() == 0 {
        sel
    } else if m.input_mode == InputMode::Table {
        spec_advance(sel, m.routes.len())
    } else {
        Some(0usize)
    }
}

/// The cursor after a backward key; see [`spec_next_entry`].
pub open spec fn spec_previous_entry(m: AppModel, sel: Option<usize>) -> Option<usize> {
    if m.routes.len() == 0 {
        sel
    } else if m.input_mode == InputMode::Table {
        spec_retreat(sel, m.routes.len())
    } else {
        Some(0usize)
    }
}

impl RoutesTableState {
    /// A fresh table state with no selection.
    pub fn new() -> (r: Self)
        ensures
            r.selected is None,
    {
        RoutesTableState { selected: None }
    }

    /// Moves the selection one entry forward, wrapping around.
    pub fn next_table_entry(&mut self, app: &App)
        ensures
            final(self).selected == spec_next_entry(app@, old(self).selected),
            app@.routes.len() > 0 ==> cursor_in_range(final(self).selected, app@.routes.len()),
            cursor_in_range(old(self).selected, app@.routes.len()) ==> cursor_in_range(
                final(self).selected,
                app@.routes.len(),
            ),
    {
        let len = app.routes.len();
        if len == 0 {
            return ;
        }
        let i: usize = match app.input_mode {
            InputMode::Table => match self.selected {
                Some(i) => {
                    if i >= len - 1 {
                        0
                    } else {
                        i + 1
                    }
                },
                None => 0,
            },
            _ => 0,
        };
        self.selected = Some(i);
    }

    /// Moves the selection one entry backward, wrapping around.
    pub fn previous_table_entry(&mut self, app: &App)
        ensures
            final(self).selected == spec_previous_entry(app@, old(self).selected),
            cursor_in_range(old(self).selected, app@.routes.len()) ==> cursor_in_range(
                final(self).selected,
                app@.routes.len(),
            ),
    {
        let len = app.routes.len();
        if len == 0 {
            return ;
        }
        let i: usize = match app.input_mode {
            InputMode::Table => match self.selected {
                Some(i) => {
                    if i == 0 {
                        len - 1
                    } else {
                        i - 1
                    }
                },
                None => 0,
            },
            _ => 0,
        };
        self.selected = Some(i);
    }
}

impl core::default::Default for RoutesTableState {
    /// A fresh table state with no selection.
    fn default() -> (r: Self)
        ensures
            r.selected is None,
    {
        RoutesTableState { selected: None }
    }
}

/// The cursor reached from `sel` by `k` forward steps over a list of
/// length `n`.
pub open spec fn spec_advance_times(sel: Option<usize>, n: nat, k: nat) -> Option<usize>
    decreases k,
{
    if k == 0 {
        sel
    } else {
        spec_advance(spec_advance_times(sel, n, (k - 1) as nat), n)
    }
}

/// Stepping forward from index `i` lands on `(i + k) mod n`.
pub proof fn lemma_advance_times_mod(i: usize, n: nat, k: nat)
    requires
        0 < n <= usize::MAX,
        (i as nat) < n,
    ensures
        spec_advance_times(Some(i), n, k) == Some((((i + k) % (n as int)) as usize)),
    decreases k,
{
    if k == 0 {
        lemma_small_mod(i as nat, n);
    } else {
        lemma_advance_times_mod(i, n, (k - 1) as nat);
        let j = (i + k - 1) % (n as int);
        assert(0 <= j < n);
        if n == 1 {
            lemma_small_mod(0, 1);
        } else {
            lemma_add_mod_noop(i + k - 1, 1, n as int);
            lemma_small_mod(1, n);
            assert((j + 1) % (n as int) == (i + k) % (n as int));
            if j + 1 >= n {
                lemma_mod_self_0(n as int);
                assert(j + 1 == n);
            } else {
                lemma_small_mod((j + 1) as nat, n);
            }
        }
    }
}

/// Advancing as many times as the list is long returns the cursor to where
/// it started.
pub proof fn lemma_advance_full_cycle(i: usize, n: nat)
    requires
        0 < n <= usize::MAX,
        (i as nat) < n,
    ensures
        spec_advance_times(Some(i), n, n) == Some(i),
{
    lemma_advance_times_mod(i, n, n);
    assert((i + n) % (n as int) == i as int) by {
        lemma_add_mod_noop(i as int, n as int, n as int);
        lemma_small_mod(i as nat, n);
        lemma_mod_self_0(n as int);
        assert(((i as int) + 0) % (n as int) == i as int) by {
            lemma_small_mod(i as nat, n);
        };
    };
}

/// Retreating and then advancing over the same non-empty list is the
/// identity on a set cursor.
pub proof fn lemma_retreat_then_advance(i: usize, n: nat)
    requires
        0 < n <= usize::MAX,
        (i as nat) < n,
    ensures
        spec_advance(spec_retreat(Some(i), n), n) == Some(i),
{
}

/// Advancing with no entry selected lands on the first entry.
pub proof fn lemma_advance_from_none(n: nat)
    requires
        0 < n,
    ensures
        spec_advance(None, n) == Some(0usize),
{
}

} // verus!
