use mvg_tui::app::{App, InputMode};
use mvg_tui::datetime::DateTime;
use mvg_tui::focus::Focus;
use mvg_tui::networking::{apply_fetch_result, FetchError};
use mvg_tui::routes::{Connection, TicketingInformation};
use mvg_tui::table::RoutesTableState;

fn sample_time() -> DateTime {
    DateTime { year: 2024, month: 6, day: 1, hour: 10, minute: 0 }
}

fn dummy_connection(id: usize) -> Connection {
    Connection {
        unique_id: id,
        parts: vec![],
        ticketing_information: TicketingInformation {
            zones: vec![],
            alternative_zones: vec![],
            unified_ticket_ids: vec![],
            banner_hash: None,
        },
    }
}

fn app_with_routes(n: usize) -> App {
    let mut app = App::new(sample_time());
    app.routes = (0..n).map(dummy_connection).collect();
    app.focus = Focus::Routes;
    app.input_mode = InputMode::Table;
    app
}

#[test]
fn advancing_list_length_times_returns_to_start() {
    let n = 5;
    let app = app_with_routes(n);
    let mut table = RoutesTableState::new();
    table.selected = Some(2);
    for _ in 0..n {
        table.next_table_entry(&app);
    }
    assert_eq!(table.selected, Some(2));
}

#[test]
fn retreat_then_advance_is_identity() {
    let app = app_with_routes(4);
    let mut table = RoutesTableState::new();
    for start in 0..4 {
        table.selected = Some(start);
        table.previous_table_entry(&app);
        table.next_table_entry(&app);
        assert_eq!(table.selected, Some(start));
    }
}

#[test]
fn advance_from_no_selection_lands_on_first_entry() {
    let app = app_with_routes(3);
    let mut table = RoutesTableState::new();
    assert_eq!(table.selected, None);
    table.next_table_entry(&app);
    assert_eq!(table.selected, Some(0));
}

#[test]
fn advance_wraps_past_the_last_entry() {
    let app = app_with_routes(3);
    let mut table = RoutesTableState::new();
    table.selected = Some(2);
    table.next_table_entry(&app);
    assert_eq!(table.selected, Some(0));
}

#[test]
fn retreat_wraps_before_the_first_entry() {
    let app = app_with_routes(3);
    let mut table = RoutesTableState::new();
    table.selected = Some(0);
    table.previous_table_entry(&app);
    assert_eq!(table.selected, Some(2));
}

#[test]
fn moving_over_an_empty_list_changes_nothing() {
    let app = app_with_routes(0);
    let mut table = RoutesTableState::new();
    table.next_table_entry(&app);
    assert_eq!(table.selected, None);
    table.previous_table_entry(&app);
    assert_eq!(table.selected, None);
}

#[test]
fn outside_table_mode_the_first_entry_is_selected() {
    let mut app = app_with_routes(3);
    app.input_mode = InputMode::Normal;
    app.focus = Focus::Start;
    let mut table = RoutesTableState::new();
    table.selected = Some(2);
    table.next_table_entry(&app);
    assert_eq!(table.selected, Some(0));
}

/// A shorter result list pulls a cursor on the old last entry back onto a
/// valid index; an empty one clears it.
#[test]
fn write_back_clamps_the_cursor() {
    let mut app = app_with_routes(3);
    let mut table = RoutesTableState::new();
    table.selected = Some(2);
    let shorter: Vec<Connection> = vec![dummy_connection(7)];
    apply_fetch_result(&mut app, &mut table, Ok(shorter));
    assert_eq!(app.routes.len(), 1);
    assert_eq!(table.selected, Some(0));
    assert!(!app.show_fetch_popup);

    let empty: Vec<Connection> = vec![];
    apply_fetch_result(&mut app, &mut table, Ok(empty));
    assert_eq!(table.selected, None);
}

#[test]
fn write_back_keeps_a_cursor_already_in_range() {
    let mut app = app_with_routes(3);
    let mut table = RoutesTableState::new();
    table.selected = Some(1);
    let new_routes: Vec<Connection> = (0..4).map(dummy_connection).collect();
    apply_fetch_result(&mut app, &mut table, Ok(new_routes));
    assert_eq!(table.selected, Some(1));
    assert_eq!(app.routes.len(), 4);
}

#[test]
fn failed_fetch_keeps_results_and_reports() {
    let mut app = app_with_routes(2);
    app.show_fetch_popup = true;
    let mut table = RoutesTableState::new();
    table.selected = Some(1);
    apply_fetch_result(&mut app, &mut table, Err(FetchError::NoStartStation));
    assert_eq!(app.routes.len(), 2);
    assert_eq!(table.selected, Some(1));
    assert!(!app.show_fetch_popup);
    assert!(matches!(app.fetch_error, Some(FetchError::NoStartStation)));
}
