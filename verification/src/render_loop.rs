//! One iteration of the render loop: route a keyboard event through the
//! focus graph, the input-mode machine and the table selection model, and
//! say what the loop should do next.
//!
//! The loop itself — drawing, polling the keyboard with a bounded wait,
//! sending the fetch request down the queue — runs outside this crate.  It
//! calls [`tick`] once per iteration with the event it polled, performs the
//! returned action, and repeats until [`TickAction::Quit`].

use vstd::prelude::*;
use crate::app::{
    spec_can_fetch, spec_fetch_params, spec_handle_backspace, spec_handle_esc, spec_handle_fetch,
    spec_handle_i, spec_handle_nav, spec_handle_typing, App, AppModel, InputMode,
};
use crate::focus::NavDirection;
use crate::networking::{RoutesParams, RoutesParamsModel};
use crate::table::{
    cursor_in_range, spec_next_entry, spec_previous_entry, RoutesTableState,
};

verus! {

/// A keyboard event as the render loop hands it in.
#[derive(Clone, Copy, Debug, PartialEq, Eq, Structural)]
pub enum KeyInput {
    Char(char),
    Enter,
    Esc,
    Backspace,
    Left,
    Right,
    Up,
    Down,
}

/// What the render loop should do after dispatching one event.
#[derive(Clone, Debug)]
pub enum TickAction {
    /// Draw again and poll for the next event.
    Continue,
    /// Leave the loop: the quit key was pressed in normal mode.
    Quit,
    /// Enqueue this fetch request; the busy flag is already set.
    Submit(RoutesParams),
}

/// Mathematical value of a [`TickAction`].
pub enum TickActionModel {
    Continue,
    Quit,
    Submit(RoutesParamsModel),
}

impl View for TickAction {
    type V = TickActionModel;

    open spec fn view(&self) -> TickActionModel {
        match self {
            TickAction::Continue => TickActionModel::Continue,
            TickAction::Quit => TickActionModel::Quit,
            TickAction::Submit(p) => TickActionModel::Submit(p@),
        }
    }
}

/// The iteration counter one higher, stopping at the top of its range.
pub open spec fn spec_bump_frames(m: AppModel) -> AppModel {
    if m.frames < i64::MAX {
        AppModel { frames: (m.frames + 1) as i64, ..m }
    } else {
        m
    }
}

/// Dispatch of one event in normal mode: quit, activation, navigation or
/// fetch submission.
pub open spec fn spec_dispatch_normal(m: AppModel, k: KeyInput) -> (AppModel, TickActionModel) {
    match k {
        KeyInput::Char(c) => if c == 'q' {
            (m, TickActionModel::Quit)
        } else if c == 'i' {
            (spec_handle_i(m), TickActionModel::Continue)
        } else if c == 'h' {
            (spec_handle_nav(m, NavDirection::Left), TickActionModel::Continue)
        } else if c == 'l' {
            (spec_handle_nav(m, NavDirection::Right), TickActionModel::Continue)
        } else if c == 'j' {
            (spec_handle_nav(m, NavDirection::Down), TickActionModel::Continue)
        } else if c == 'k' {
            (spec_handle_nav(m, NavDirection::Up), TickActionModel::Continue)
        } else if c == 'f' || c == ' ' {
            (
                spec_handle_fetch(m),
                if spec_can_fetch(m) {
                    TickActionModel::Submit(spec_fetch_params(m))
                } else {
                    TickActionModel::Continue
                },
            )
        } else {
            (m, TickActionModel::Continue)
        },
        KeyInput::Enter => (spec_handle_i(m), TickActionModel::Continue),
        KeyInput::Left => (spec_handle_nav(m, NavDirection::Left), TickActionModel::Continue),
        KeyInput::Right => (spec_handle_nav(m, NavDirection::Right), TickActionModel::Continue),
        KeyInput::Down => (spec_handle_nav(m, NavDirection::Down), TickActionModel::Continue),
        KeyInput::Up => (spec_handle_nav(m, NavDirection::Up), TickActionModel::Continue),
        _ => (m, TickActionModel::Continue),
    }
}

/// Dispatch of one event in text capture: type, delete or commit.
pub open spec fn spec_dispatch_editing(m: AppModel, k: KeyInput) -> AppModel {
    match k {
        KeyInput::Char(c) => spec_handle_typing(m, c),
        KeyInput::Backspace => spec_handle_backspace(m),
        KeyInput::Esc => spec_handle_esc(m),
        KeyInput::Enter => spec_handle_esc(m),
        _ => m,
    }
}

/// Dispatch of one event in table selection: move the cursor or leave the
/// mode.
pub open spec fn spec_dispatch_table(m: AppModel, sel: Option<usize>, k: KeyInput) -> (
    AppModel,
    Option<usize>,
) {
    match k {
        KeyInput::Char(c) => if c == 'j' {
            (m, spec_next_entry(m, sel))
        } else if c == 'k' {
            (m, spec_previous_entry(m, sel))
        } else {
            (m, sel)
        },
        KeyInput::Down => (m, spec_next_entry(m, sel)),
        KeyInput::Up => (m, spec_previous_entry(m, sel)),
        KeyInput::Esc => (AppModel { input_mode: InputMode::Normal, ..m }, sel),
        KeyInput::Enter => (AppModel { input_mode: InputMode::Normal, ..m }, sel),
        _ => (m, sel),
    }
}

/// Dispatch of one keyboard event, before the frame counter moves: the
/// next state, the next selection cursor, and the action the loop should
/// take.
pub open spec fn spec_dispatch(m: AppModel, sel: Option<usize>, key: Option<KeyInput>) -> (
    AppModel,
    Option<usize>,
    TickActionModel,
) {
    match key {
        None => (m, sel, TickActionModel::Continue),
        Some(k) => match m.input_mode {
            InputMode::Normal => {
                let (m2, a) = spec_dispatch_normal(m, k);
                (m2, sel, a)
            },
            InputMode::Editing => (spec_dispatch_editing(m, k), sel, TickActionModel::Continue),
            InputMode::Table => {
                let (m2, s2) = spec_dispatch_table(m, sel, k);
                (m2, s2, TickActionModel::Continue)
            },
        },
    }
}

/// One whole iteration of the render loop over the model: dispatch the
/// event, then advance the frame counter — except on quit, which leaves
/// the state untouched and ends the loop.
pub open spec fn spec_tick(m: AppModel, sel: Option<usize>, key: Option<KeyInput>) -> (
    AppModel,
    Option<usize>,
    TickActionModel,
) {
    let (m2, s2, a) = spec_dispatch(m, sel, key);
    if a is Quit {
        (m, sel, TickActionModel::Quit)
    } else {
        (spec_bump_frames(m2), s2, a)
    }
}

/// Routes one event while in normal mode.
fn dispatch_normal(app: &mut App, k: KeyInput) -> (r: TickAction)
    ensures
        final(app)@ == spec_dispatch_normal(old(app)@, k).0,
        r@ == spec_dispatch_normal(old(app)@, k).1,
{
    match k {
        KeyInput::Char(c) => {
            if c == 'q' {
                return TickAction::Quit;
            } else if c == 'i' {
                app.handle_i_key();
            } else if c == 'h' {
                app.handle_h_key();
            } else if c == 'l' {
                app.handle_l_key();
            } else if c == 'j' {
                app.handle_j_key();
            } else if c == 'k' {
                app.handle_k_key();
            } else if c == 'f' || c == ' ' {
                match app.handle_fetch() {
                    Some(p) => {
                        return TickAction::Submit(p);
                    },
                    None => {},
                }
            }
        },
        KeyInput::Enter => app.handle_i_key(),
        KeyInput::Left => app.handle_h_key(),
        KeyInput::Right => app.handle_l_key(),
        KeyInput::Down => app.handle_j_key(),
        KeyInput::Up => app.handle_k_key(),
        _ => {},
    }
    TickAction::Continue
}

/// Routes one event while in text capture.
fn dispatch_editing(app: &mut App, k: KeyInput)
    ensures
        final(app)@ == spec_dispatch_editing(old(app)@, k),
{
    match k {
        KeyInput::Char(c) => app.handle_typing(c),
        KeyInput::Backspace => app.handle_backspace(),
        KeyInput::Esc => app.handle_esc(),
        KeyInput::Enter => app.handle_esc(),
        _ => {},
    }
}

/// Routes one event while in table selection.
fn dispatch_table(app: &mut App, table: &mut RoutesTableState, k: KeyInput)
    ensures
        final(app)@ == spec_dispatch_table(old(app)@, old(table).selected, k).0,
        final(table).selected == spec_dispatch_table(old(app)@, old(table).selected, k).1,
{
    match k {
        KeyInput::Char(c) => {
            if c == 'j' {
                table.next_table_entry(app);
            } else if c == 'k' {
                table.previous_table_entry(app);
            }
        },
        KeyInput::Down => table.next_table_entry(app),
        KeyInput::Up => table.previous_table_entry(app),
        KeyInput::Esc => app.input_mode = InputMode::Normal,
        KeyInput::Enter => app.input_mode = InputMode::Normal,
        _ => {},
    }
    proof {
        assert(final(app)@ =~= spec_dispatch_table(old(app)@, old(table).selected, k).0);
    }
}

/// Dispatches one polled keyboard event (or none) and advances the frame
/// counter; see [`spec_tick`].
pub fn tick(app: &mut App, table: &mut RoutesTableState, key: Option<KeyInput>) -> (r: TickAction)
    ensures
        ({
            let (m2, s2, a2) = spec_tick(old(app)@, old(table).selected, key);
            &&& final(app)@ == m2
            &&& final(table).selected == s2
            &&& r@ == a2
        }),
{
    let action = match key {
        None => TickAction::Continue,
        Some(k) => match app.input_mode {
            InputMode::Normal => dispatch_normal(app, k),
            InputMode::Editing => {
                dispatch_editing(app, k);
                TickAction::Continue
            },
            InputMode::Table => {
                dispatch_table(app, table, k);
                TickAction::Continue
            },
        },
    };
    let quit = match &action {
        TickAction::Quit => true,
        _ => false,
    };
    if quit {
        return TickAction::Quit;
    }
    if app.frames < i64::MAX {
        app.frames = app.frames + 1;
    }
    proof {
        assert(final(app)@ =~= spec_tick(old(app)@, old(table).selected, key).0);
    }
    action
}

/// A render-loop iteration never touches the result list: only the fetch
/// coordinator's write-back replaces it.
pub proof fn lemma_tick_preserves_results(m: AppModel, sel: Option<usize>, key: Option<KeyInput>)
    ensures
        spec_tick(m, sel, key).0.routes == m.routes,
{
}

/// A render-loop iteration keeps the mode/focus invariant: text capture
/// only ever starts on an editable field and table selection only on the
/// result pane.
pub proof fn lemma_tick_preserves_wf(m: AppModel, sel: Option<usize>, key: Option<KeyInput>)
    requires
        m.wf(),
    ensures
        spec_tick(m, sel, key).0.wf(),
{
}

/// Committed values move only through a commit out of text capture: an
/// iteration that starts outside text capture leaves the committed names
/// and the committed point in time as they were.
pub proof fn lemma_commit_needs_editing(m: AppModel, sel: Option<usize>, key: Option<KeyInput>)
    requires
        m.input_mode != InputMode::Editing,
    ensures
        spec_tick(m, sel, key).0.start == m.start,
        spec_tick(m, sel, key).0.destination == m.destination,
        spec_tick(m, sel, key).0.datetime == m.datetime,
{
}

/// A render-loop iteration keeps the selection cursor inside the result
/// list.
pub proof fn lemma_tick_preserves_cursor_range(
    m: AppModel,
    sel: Option<usize>,
    key: Option<KeyInput>,
)
    requires
        cursor_in_range(sel, m.routes.len()),
    ensures
        cursor_in_range(spec_tick(m, sel, key).1, spec_tick(m, sel, key).0.routes.len()),
{
}

/// The render loop raises the busy flag at submission but never lowers
/// it: only the fetch coordinator's write-back does that.
pub proof fn lemma_tick_never_clears_busy(m: AppModel, sel: Option<usize>, key: Option<KeyInput>)
    requires
        m.show_fetch_popup,
    ensures
        spec_tick(m, sel, key).0.show_fetch_popup,
{
}

/// An iteration that polled no event only advances the frame counter.
pub proof fn lemma_idle_tick(m: AppModel, sel: Option<usize>)
    ensures
        spec_tick(m, sel, None).0 == spec_bump_frames(m),
        spec_tick(m, sel, None).1 == sel,
        spec_tick(m, sel, None).2 == TickActionModel::Continue,
{
}

} // verus!
