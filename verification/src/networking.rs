//! The request the render loop hands to the background fetch coordinator,
//! and the write-back the coordinator applies when the request is done.
//!
//! The coordinator itself runs outside this crate: it receives an
//! [`IoEvent`] over a queue, resolves the two stop names, issues the
//! journey query, and reports back through [`apply_fetch_result`], the only
//! place that replaces the result list or clears the busy flag.

use vstd::prelude::*;
use vstd::string::*;
use crate::app::{App, AppModel};
use crate::datetime::DateTime;
use crate::routes::Connection;
use crate::table::{cursor_in_range, RoutesTableState};

verus! {

/// Everything one journey query needs: the committed stop names, the
/// committed point in time, and the direction and transport-mode toggles.
#[derive(Clone, Debug)]
pub struct RoutesParams {
    pub from: String,
    pub to: String,
    pub time: DateTime,
    pub arrival: bool,
    pub include_ubahn: bool,
    pub include_bus: bool,
    pub include_tram: bool,
    pub include_sbahn: bool,
}

/// Mathematical value of a [`RoutesParams`].
pub struct RoutesParamsModel {
    pub from: Seq<char>,
    pub to: Seq<char>,
    pub time: DateTime,
    pub arrival: bool,
    pub include_ubahn: bool,
    pub include_bus: bool,
    pub include_tram: bool,
    pub include_sbahn: bool,
}

impl View for RoutesParams {
    type V = RoutesParamsModel;

    open spec fn view(&self) -> RoutesParamsModel {
        RoutesParamsModel {
            from: self.from@,
            to: self.to@,
            time: self.time,
            arrival: self.arrival,
            include_ubahn: self.include_ubahn,
            include_bus: self.include_bus,
            include_tram: self.include_tram,
            include_sbahn: self.include_sbahn,
        }
    }
}

/// A message of the render loop to the fetch coordinator.
#[derive(Clone, Debug)]
pub enum IoEvent {
    GetRoutes(RoutesParams),
}

/// Why a fetch request produced no result list.
#[derive(Clone, Debug)]
pub enum FetchError {
    /// The committed start name resolved to no station candidate.
    NoStartStation,
    /// The committed destination name resolved to no station candidate.
    NoDestinationStation,
    /// The lookup or the journey query itself failed; the text reports the
    /// cause.
    RequestFailed(String),
}

/// The selection cursor fitted to a result list of the given length: cleared
/// when the list is empty, moved back onto the last entry when it points
/// past the end, and kept as it is otherwise.
pub open spec fn spec_clamp_cursor(sel: Option<usize>, len: nat) -> Option<usize> {
    if len == 0 {
        None
    } else {
        match sel {
            Some(i) => if i < len {
                Some(i)
            } else {
                Some((len - 1) as usize)
            },
            None => None,
        }
    }
}

/// A fitted cursor always points into the list it was fitted to.
pub proof fn lemma_clamp_in_range(sel: Option<usize>, len: nat)
    ensures
        cursor_in_range(spec_clamp_cursor(sel, len), len),
{
}

/// The application state after a successful write-back of a result list.
pub open spec fn spec_apply_routes(m: AppModel, routes: Seq<Connection>) -> AppModel {
    AppModel { routes: routes, show_fetch_popup: false, fetch_error: None, ..m }
}

/// The application state after a failed fetch request.
pub open spec fn spec_apply_fetch_error(m: AppModel, e: FetchError) -> AppModel {
    AppModel { show_fetch_popup: false, fetch_error: Some(e), ..m }
}

impl FetchError {
    /// The text an error indicator shows for this failure.
    pub fn message(&self) -> (r: String)
        ensures
            match self {
                FetchError::NoStartStation => r@ == "start matches no station"@,
                FetchError::NoDestinationStation => r@ == "destination matches no station"@,
                FetchError::RequestFailed(s) => r@ == s@,
            },
    {
        match self {
            FetchError::NoStartStation => String::from_str("start matches no station"),
            FetchError::NoDestinationStation => String::from_str("destination matches no station"),
            FetchError::RequestFailed(s) => s.clone(),
        }
    }
}

/// Whatever a fetch request came to, its write-back clears the busy flag:
/// a submitted request never leaves the state busy forever.  Success also
/// clears the failure indicator; failure records the cause.
pub proof fn lemma_write_back_clears_busy(m: AppModel, routes: Seq<Connection>, e: FetchError)
    ensures
        !spec_apply_routes(m, routes).show_fetch_popup,
        spec_apply_routes(m, routes).fetch_error is None,
        !spec_apply_fetch_error(m, e).show_fetch_popup,
        spec_apply_fetch_error(m, e).fetch_error == Some(e),
{
}

/// Applies the outcome of one fetch request to the shared state: the single
/// write-back step of the fetch coordinator.
///
/// On success the result list is replaced wholesale and the selection
/// cursor is fitted to the new length; on failure the list and the cursor
/// stay, and the failure is recorded for display.  Either way the busy flag
/// is cleared: a request never leaves the state busy forever.
pub fn apply_fetch_result(
    app: &mut App,
    table: &mut RoutesTableState,
    outcome: Result<Vec<Connection>, FetchError>,
)
    ensures
        match outcome {
            Ok(routes) => final(app)@ == spec_apply_routes(old(app)@, routes@)
                && final(table).selected == spec_clamp_cursor(old(table).selected, routes@.len()),
            Err(e) => final(app)@ == spec_apply_fetch_error(old(app)@, e) && final(table).selected
                == old(table).selected,
        },
        outcome is Ok ==> cursor_in_range(final(table).selected, final(app)@.routes.len()),
        cursor_in_range(old(table).selected, old(app)@.routes.len()) ==> cursor_in_range(
            final(table).selected,
            final(app)@.routes.len(),
        ),
        old(app)@.wf() ==> final(app)@.wf(),
{
    match outcome {
        Ok(routes) => {
            let len = routes.len();
            app.routes = routes;
            app.show_fetch_popup = false;
            app.fetch_error = None;
            if len == 0 {
                table.selected = None;
            } else {
                match table.selected {
                    Some(i) => {
                        if i >= len {
                            table.selected = Some(len - 1);
                        }
                    },
                    None => {},
                }
            }
        },
        Err(e) => {
            app.show_fetch_popup = false;
            app.fetch_error = Some(e);
        },
    }
}

} // verus!
