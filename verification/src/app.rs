//! The shared application state and the event handlers of the render loop.
//!
//! A single [`App`] record holds the focus, the input mode, the draft and
//! committed field values, the transport toggles, the result list and the
//! busy flag.  The render loop owns every field but the result list, the
//! busy flag and the failure indicator, which belong to the fetch
//! coordinator's write-back (see [`crate::networking`]).

use vstd::prelude::*;
use vstd::string::*;
use crate::datetime::{
    spec_format_date, spec_format_time, spec_parse_date, spec_parse_time, format_date, format_time,
    parse_date, parse_time, DateTime,
};
use crate::focus::{spec_next_focus, next_focus, Focus, NavDirection};
use crate::networking::{FetchError, RoutesParams, RoutesParamsModel};
use crate::routes::Connection;

verus! {

/// How keys are interpreted: navigation, text capture, or movement of the
/// result-table cursor.
#[derive(Clone, Copy, Debug, PartialEq, Eq, Structural)]
pub enum InputMode {
    Normal,
    Editing,
    Table,
}

/// The shared application state.
#[derive(Debug)]
pub struct App {
    pub input_mode: InputMode,
    pub focus: Focus,
    /// Draft text of the start field.
    pub input_start: String,
    /// Draft text of the destination field.
    pub input_destination: String,
    /// Committed start name, written only by a commit of its draft.
    pub start: String,
    /// Committed destination name, written only by a commit of its draft.
    pub destination: String,
    /// The result list; replaced wholesale by the fetch coordinator,
    /// never appended to.
    pub routes: Vec<Connection>,
    pub messages: Vec<String>,
    /// The busy flag: a fetch request is outstanding.
    pub show_fetch_popup: bool,
    /// Render-loop iteration counter, diagnostic only.
    pub frames: i64,
    /// Committed point in time, date and time of day merged.
    pub datetime: DateTime,
    /// Draft text of the date field.
    pub input_date: String,
    /// Draft text of the time field.
    pub input_time: String,
    /// The last time commit failed to parse.
    pub wrong_time: bool,
    /// The last date commit failed to parse.
    pub wrong_date: bool,
    /// Search by arrival time instead of departure time.
    pub is_arrival: bool,
    pub use_ubahn: bool,
    pub use_sbahn: bool,
    pub use_tram: bool,
    pub use_bus: bool,
    /// Why the last fetch request produced no result list, for display.
    pub fetch_error: Option<FetchError>,
}

/// Mathematical value of an [`App`]: every text buffer as its character
/// sequence, the result list as a sequence.
#[verifier::ext_equal]
pub struct AppModel {
    pub input_mode: InputMode,
    pub focus: Focus,
    pub input_start: Seq<char>,
    pub input_destination: Seq<char>,
    pub start: Seq<char>,
    pub destination: Seq<char>,
    pub routes: Seq<Connection>,
    pub messages: Seq<String>,
    pub show_fetch_popup: bool,
    pub frames: i64,
    pub datetime: DateTime,
    pub input_date: Seq<char>,
    pub input_time: Seq<char>,
    pub wrong_time: bool,
    pub wrong_date: bool,
    pub is_arrival: bool,
    pub use_ubahn: bool,
    pub use_sbahn: bool,
    pub use_tram: bool,
    pub use_bus: bool,
    pub fetch_error: Option<FetchError>,
}

impl View for App {
    type V = AppModel;

    open spec fn view(&self) -> AppModel {
        AppModel {
            input_mode: self.input_mode,
            focus: self.focus,
            input_start: self.input_start@,
            input_destination: self.input_destination@,
            start: self.start@,
            destination: self.destination@,
            routes: self.routes@,
            messages: self.messages@,
            show_fetch_popup: self.show_fetch_popup,
            frames: self.frames,
            datetime: self.datetime,
            input_date: self.input_date@,
            input_time: self.input_time@,
            wrong_time: self.wrong_time,
            wrong_date: self.wrong_date,
            is_arrival: self.is_arrival,
            use_ubahn: self.use_ubahn,
            use_sbahn: self.use_sbahn,
            use_tram: self.use_tram,
            use_bus: self.use_bus,
            fetch_error: self.fetch_error,
        }
    }
}

/// The four fields whose drafts can be edited character by character.
pub open spec fn editable_focus(f: Focus) -> bool {
    f == Focus::Start || f == Focus::Destination || f == Focus::Date || f == Focus::Time
}

impl AppModel {
    /// The mode fits the focus: text capture only on an editable field,
    /// table selection only on the result pane.
    pub open spec fn wf(self) -> bool {
        &&& (self.input_mode == InputMode::Editing ==> editable_focus(self.focus))
        &&& (self.input_mode == InputMode::Table ==> self.focus == Focus::Routes)
    }
}

/// The state a run starts from: normal mode, focus on the start field,
/// empty drafts and results, every transport toggle on, and the given
/// current time as the committed point in time with its text in the date
/// and time drafts.
pub open spec fn spec_initial(now: DateTime) -> AppModel {
    AppModel {
        input_mode: InputMode::Normal,
        focus: Focus::Start,
        input_start: Seq::<char>::empty(),
        input_destination: Seq::<char>::empty(),
        start: Seq::<char>::empty(),
        destination: Seq::<char>::empty(),
        routes: Seq::<Connection>::empty(),
        messages: Seq::<String>::empty(),
        show_fetch_popup: false,
        frames: 0,
        datetime: now,
        input_date: spec_format_date(now),
        input_time: spec_format_time(now),
        wrong_time: false,
        wrong_date: false,
        is_arrival: false,
        use_ubahn: true,
        use_sbahn: true,
        use_tram: true,
        use_bus: true,
        fetch_error: None,
    }
}

/// Effect of the activation key: enter text capture on an editable field,
/// enter table selection on the result pane, flip the toggle in place on a
/// toggle field.
pub open spec fn spec_handle_i(m: AppModel) -> AppModel {
    match m.focus {
        Focus::Start => AppModel { input_mode: InputMode::Editing, ..m },
        Focus::Destination => AppModel { input_mode: InputMode::Editing, ..m },
        Focus::Date => AppModel { input_mode: InputMode::Editing, ..m },
        Focus::Time => AppModel { input_mode: InputMode::Editing, ..m },
        Focus::Routes => AppModel { input_mode: InputMode::Table, ..m },
        Focus::Arrival => AppModel { is_arrival: !m.is_arrival, ..m },
        Focus::Ubahn => AppModel { use_ubahn: !m.use_ubahn, ..m },
        Focus::Sbahn => AppModel { use_sbahn: !m.use_sbahn, ..m },
        Focus::Tram => AppModel { use_tram: !m.use_tram, ..m },
        Focus::Bus => AppModel { use_bus: !m.use_bus, ..m },
    }
}

/// Effect of a directional key in normal mode: the focus follows the focus
/// graph, nothing else moves.
pub open spec fn spec_handle_nav(m: AppModel, d: NavDirection) -> AppModel {
    AppModel { focus: spec_next_focus(m.focus, d), ..m }
}

/// Effect of a printable character in text capture: appended to the draft
/// of the focused editable field.
pub open spec fn spec_handle_typing(m: AppModel, c: char) -> AppModel {
    match m.focus {
        Focus::Start => AppModel { input_start: m.input_start.push(c), ..m },
        Focus::Destination => AppModel { input_destination: m.input_destination.push(c), ..m },
        Focus::Date => AppModel { input_date: m.input_date.push(c), ..m },
        Focus::Time => AppModel { input_time: m.input_time.push(c), ..m },
        _ => m,
    }
}

/// A draft with its last character removed; an empty draft stays empty.
pub open spec fn spec_drop_last(s: Seq<char>) -> Seq<char> {
    if s.len() > 0 {
        s.drop_last()
    } else {
        s
    }
}

/// Effect of the delete key in text capture: the draft of the focused
/// editable field loses its last character.
pub open spec fn spec_handle_backspace(m: AppModel) -> AppModel {
    match m.focus {
        Focus::Start => AppModel { input_start: spec_drop_last(m.input_start), ..m },
        Focus::Destination => AppModel {
            input_destination: spec_drop_last(m.input_destination),
            ..m
        },
        Focus::Date => AppModel { input_date: spec_drop_last(m.input_date), ..m },
        Focus::Time => AppModel { input_time: spec_drop_last(m.input_time), ..m },
        _ => m,
    }
}

/// Effect of a commit from text capture.
///
/// Start and destination drafts are committed verbatim and the mode
/// returns to normal.  A date draft is parsed against the fixed
/// `DD.MM.YYYY` pattern: on success the date half of the committed point in
/// time is replaced, the error flag cleared and the mode returns to normal;
/// on failure the error flag is set and the mode and draft stay as they
/// are, so the user can correct the draft.  A time draft behaves
/// symmetrically against `HH:MM`.
pub open spec fn spec_handle_esc(m: AppModel) -> AppModel {
    match m.focus {
        Focus::Start => AppModel { input_mode: InputMode::Normal, start: m.input_start, ..m },
        Focus::Destination => AppModel {
            input_mode: InputMode::Normal,
            destination: m.input_destination,
            ..m
        },
        Focus::Date => match spec_parse_date(m.input_date) {
            Some(ymd) => AppModel {
                input_mode: InputMode::Normal,
                datetime: m.datetime.spec_with_date(ymd.0, ymd.1, ymd.2),
                wrong_date: false,
                ..m
            },
            None => AppModel { wrong_date: true, ..m },
        },
        Focus::Time => match spec_parse_time(m.input_time) {
            Some(hm) => AppModel {
                input_mode: InputMode::Normal,
                datetime: m.datetime.spec_with_time(hm.0, hm.1),
                wrong_time: false,
                ..m
            },
            None => AppModel { wrong_time: true, ..m },
        },
        _ => AppModel { input_mode: InputMode::Normal, ..m },
    }
}

/// A fetch request may be submitted: no draft is flagged invalid and no
/// request is already outstanding.
pub open spec fn spec_can_fetch(m: AppModel) -> bool {
    !m.wrong_time && !m.wrong_date && !m.show_fetch_popup
}

/// The request a submission carries: the committed names, the committed
/// point in time, and the direction and transport toggles.
pub open spec fn spec_fetch_params(m: AppModel) -> RoutesParamsModel {
    RoutesParamsModel {
        from: m.start,
        to: m.destination,
        time: m.datetime,
        arrival: m.is_arrival,
        include_ubahn: m.use_ubahn,
        include_bus: m.use_bus,
        include_tram: m.use_tram,
        include_sbahn: m.use_sbahn,
    }
}

/// Effect of submitting a fetch: the busy flag turns on and the failure
/// indicator resets; a gated submission changes nothing.
pub open spec fn spec_handle_fetch(m: AppModel) -> AppModel {
    if spec_can_fetch(m) {
        AppModel { show_fetch_popup: true, fetch_error: None, ..m }
    } else {
        m
    }
}

/// Removes the last character of a string; an empty string stays empty.
fn drop_last_char(s: &mut String)
    ensures
        final(s)@ == spec_drop_last(old(s)@),
{
    let n = s.as_str().unicode_len();
    if n > 0 {
        let t = s.as_str().substring_char(0, n - 1).to_owned();
        proof {
            assert(t@ =~= old(s)@.drop_last());
        }
        *s = t;
    }
}

impl App {
    /// The state a run starts from, given the current time.
    pub fn new(now: DateTime) -> (r: App)
        requires
            now.wf(),
        ensures
            r@ == spec_initial(now),
            r@.wf(),
    {
        let r = App {
            input_mode: InputMode::Normal,
            focus: Focus::Start,
            input_start: String::new(),
            input_destination: String::new(),
            start: String::new(),
            destination: String::new(),
            routes: Vec::new(),
            messages: Vec::new(),
            show_fetch_popup: false,
            frames: 0,
            datetime: now,
            input_date: format_date(&now),
            input_time: format_time(&now),
            wrong_time: false,
            wrong_date: false,
            is_arrival: false,
            use_ubahn: true,
            use_sbahn: true,
            use_tram: true,
            use_bus: true,
            fetch_error: None,
        };
        proof {
            assert(r@ =~= spec_initial(now));
        }
        r
    }

    /// Runtime check of the mode/focus invariant [`AppModel::wf`].
    pub fn check_state(&self) -> (r: bool)
        ensures
            r == self@.wf(),
    {
        match self.input_mode {
            InputMode::Normal => true,
            InputMode::Editing => matches!(
                self.focus,
                Focus::Start | Focus::Destination | Focus::Date | Focus::Time
            ),
            InputMode::Table => matches!(self.focus, Focus::Routes),
        }
    }

    /// Handles the activation key.
    pub fn handle_i_key(&mut self)
        ensures
            final(self)@ == spec_handle_i(old(self)@),
    {
        match self.focus {
            Focus::Start => self.input_mode = InputMode::Editing,
            Focus::Destination => self.input_mode = InputMode::Editing,
            Focus::Routes => self.input_mode = InputMode::Table,
            Focus::Date => self.input_mode = InputMode::Editing,
            Focus::Time => self.input_mode = InputMode::Editing,
            Focus::Arrival => self.is_arrival = !self.is_arrival,
            Focus::Ubahn => self.use_ubahn = !self.use_ubahn,
            Focus::Sbahn => self.use_sbahn = !self.use_sbahn,
            Focus::Tram => self.use_tram = !self.use_tram,
            Focus::Bus => self.use_bus = !self.use_bus,
        }
        proof {
            assert(final(self)@ =~= spec_handle_i(old(self)@));
        }
    }

    /// Handles the left navigation key.
    pub fn handle_h_key(&mut self)
        ensures
            final(self)@ == spec_handle_nav(old(self)@, NavDirection::Left),
    {
        self.focus = next_focus(self.focus, NavDirection::Left);
        proof {
            assert(final(self)@ =~= spec_handle_nav(old(self)@, NavDirection::Left));
        }
    }

    /// Handles the down navigation key.
    pub fn handle_j_key(&mut self)
        ensures
            final(self)@ == spec_handle_nav(old(self)@, NavDirection::Down),
    {
        self.focus = next_focus(self.focus, NavDirection::Down);
        proof {
            assert(final(self)@ =~= spec_handle_nav(old(self)@, NavDirection::Down));
        }
    }

    /// Handles the up navigation key.
    pub fn handle_k_key(&mut self)
        ensures
            final(self)@ == spec_handle_nav(old(self)@, NavDirection::Up),
    {
        self.focus = next_focus(self.focus, NavDirection::Up);
        proof {
            assert(final(self)@ =~= spec_handle_nav(old(self)@, NavDirection::Up));
        }
    }

    /// Handles the right navigation key.
    pub fn handle_l_key(&mut self)
        ensures
            final(self)@ == spec_handle_nav(old(self)@, NavDirection::Right),
    {
        self.focus = next_focus(self.focus, NavDirection::Right);
        proof {
            assert(final(self)@ =~= spec_handle_nav(old(self)@, NavDirection::Right));
        }
    }

    /// Handles a printable character in text capture.
    pub fn handle_typing(&mut self, character: char)
        ensures
            final(self)@ == spec_handle_typing(old(self)@, character),
    {
        match self.focus {
            Focus::Start => crate::datetime::push_char(&mut self.input_start, character),
            Focus::Destination => crate::datetime::push_char(
                &mut self.input_destination,
                character,
            ),
            Focus::Date => crate::datetime::push_char(&mut self.input_date, character),
            Focus::Time => crate::datetime::push_char(&mut self.input_time, character),
            _ => (),
        }
        proof {
            assert(final(self)@ =~= spec_handle_typing(old(self)@, character));
        }
    }

    /// Handles the delete key in text capture.
    pub fn handle_backspace(&mut self)
        ensures
            final(self)@ == spec_handle_backspace(old(self)@),
    {
        match self.focus {
            Focus::Start => drop_last_char(&mut self.input_start),
            Focus::Destination => drop_last_char(&mut self.input_destination),
            Focus::Date => drop_last_char(&mut self.input_date),
            Focus::Time => drop_last_char(&mut self.input_time),
            _ => {},
        }
        proof {
            assert(final(self)@ =~= spec_handle_backspace(old(self)@));
        }
    }

    /// Handles a commit key in text capture; see [`spec_handle_esc`].
    pub fn handle_esc(&mut self)
        ensures
            final(self)@ == spec_handle_esc(old(self)@),
    {
        match self.focus {
            Focus::Start => {
                self.input_mode = InputMode::Normal;
                self.start = self.input_start.clone();
            },
            Focus::Destination => {
                self.input_mode = InputMode::Normal;
                self.destination = self.input_destination.clone();
            },
            Focus::Date => {
                match parse_date(self.input_date.as_str()) {
                    Some((y, mo, d)) => {
                        self.input_mode = InputMode::Normal;
                        self.datetime = DateTime {
                            year: y,
                            month: mo,
                            day: d,
                            hour: self.datetime.hour,
                            minute: self.datetime.minute,
                        };
                        self.wrong_date = false;
                    },
                    None => {
                        self.wrong_date = true;
                    },
                }
            },
            Focus::Time => {
                match parse_time(self.input_time.as_str()) {
                    Some((h, mi)) => {
                        self.input_mode = InputMode::Normal;
                        self.datetime = DateTime {
                            year: self.datetime.year,
                            month: self.datetime.month,
                            day: self.datetime.day,
                            hour: h,
                            minute: mi,
                        };
                        self.wrong_time = false;
                    },
                    None => {
                        self.wrong_time = true;
                    },
                }
            },
            _ => {
                self.input_mode = InputMode::Normal;
            },
        }
        proof {
            assert(final(self)@ =~= spec_handle_esc(old(self)@));
        }
    }

    /// Handles the fetch-trigger key: turns the busy flag on and builds the
    /// request to enqueue, unless a draft is flagged invalid or a request
    /// is already outstanding.
    pub fn handle_fetch(&mut self) -> (r: Option<RoutesParams>)
        ensures
            final(self)@ == spec_handle_fetch(old(self)@),
            r is Some <==> spec_can_fetch(old(self)@),
            r matches Some(p) ==> p@ == spec_fetch_params(old(self)@),
    {
        if self.wrong_time || self.wrong_date || self.show_fetch_popup {
            return None;
        }
        self.show_fetch_popup = true;
        self.fetch_error = None;
        let p = RoutesParams {
            from: self.start.clone(),
            to: self.destination.clone(),
            time: self.datetime,
            arrival: self.is_arrival,
            include_ubahn: self.use_ubahn,
            include_bus: self.use_bus,
            include_tram: self.use_tram,
            include_sbahn: self.use_sbahn,
        };
        proof {
            assert(final(self)@ =~= spec_handle_fetch(old(self)@));
        }
        Some(p)
    }
}

} // verus!
