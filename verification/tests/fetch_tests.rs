use mvg_tui::app::{App, InputMode};
use mvg_tui::datetime::DateTime;
use mvg_tui::networking::{apply_fetch_result, FetchError, RoutesParams};
use mvg_tui::render_loop::{tick, KeyInput, TickAction};
use mvg_tui::routes::{Connection, TicketingInformation};
use mvg_tui::table::RoutesTableState;

fn morning() -> DateTime {
    DateTime { year: 2024, month: 6, day: 1, hour: 8, minute: 0 }
}

fn type_text(app: &mut App, table: &mut RoutesTableState, text: &str) {
    for c in text.chars() {
        tick(app, table, Some(KeyInput::Char(c)));
    }
}

fn empty_connection() -> Connection {
    Connection {
        unique_id: 0,
        parts: vec![],
        ticketing_information: TicketingInformation {
            zones: vec![],
            alternative_zones: vec![],
            unified_ticket_ids: vec![],
            banner_hash: None,
        },
    }
}

/// Submitting with committed names produces exactly one request carrying
/// those names and the four toggles; the busy flag turns on at submission
/// and turns off exactly once, at the write-back.
#[test]
fn submission_carries_the_committed_fields() {
    let mut app = App::new(morning());
    let mut table = RoutesTableState::new();
    // Commit "Dachau" into the start field.
    tick(&mut app, &mut table, Some(KeyInput::Char('i')));
    assert!(matches!(app.input_mode, InputMode::Editing));
    type_text(&mut app, &mut table, "Dachau");
    tick(&mut app, &mut table, Some(KeyInput::Esc));
    // Commit "Hauptbahnhof" into the destination field.
    tick(&mut app, &mut table, Some(KeyInput::Char('l')));
    tick(&mut app, &mut table, Some(KeyInput::Char('i')));
    type_text(&mut app, &mut table, "Hauptbahnhof");
    tick(&mut app, &mut table, Some(KeyInput::Enter));
    assert_eq!(app.start, "Dachau");
    assert_eq!(app.destination, "Hauptbahnhof");
    // Submit.
    let action = tick(&mut app, &mut table, Some(KeyInput::Char('f')));
    let params: RoutesParams = match action {
        TickAction::Submit(p) => p,
        _ => panic!("the fetch key should submit a request"),
    };
    assert_eq!(params.from, "Dachau");
    assert_eq!(params.to, "Hauptbahnhof");
    assert!(params.include_ubahn && params.include_bus && params.include_tram && params.include_sbahn);
    assert!(!params.arrival);
    assert_eq!(params.time, morning());
    assert!(app.show_fetch_popup);
    // A second press while busy submits nothing.
    let again = tick(&mut app, &mut table, Some(KeyInput::Char(' ')));
    assert!(matches!(again, TickAction::Continue));
    assert!(app.show_fetch_popup);
    // The write-back clears the busy flag once, on success here.
    apply_fetch_result(&mut app, &mut table, Ok(vec![empty_connection()]));
    assert!(!app.show_fetch_popup);
    assert_eq!(app.routes.len(), 1);
    assert!(app.fetch_error.is_none());
}

#[test]
fn submission_is_gated_by_invalid_drafts() {
    let mut app = App::new(morning());
    let mut table = RoutesTableState::new();
    app.wrong_date = true;
    let action = tick(&mut app, &mut table, Some(KeyInput::Char('f')));
    assert!(matches!(action, TickAction::Continue));
    assert!(!app.show_fetch_popup);

    app.wrong_date = false;
    app.wrong_time = true;
    let action = tick(&mut app, &mut table, Some(KeyInput::Char(' ')));
    assert!(matches!(action, TickAction::Continue));
    assert!(!app.show_fetch_popup);
}

#[test]
fn failed_fetch_clears_the_busy_flag_and_reports() {
    let mut app = App::new(morning());
    let mut table = RoutesTableState::new();
    let action = tick(&mut app, &mut table, Some(KeyInput::Char('f')));
    assert!(matches!(action, TickAction::Submit(_)));
    assert!(app.show_fetch_popup);
    apply_fetch_result(
        &mut app,
        &mut table,
        Err(FetchError::RequestFailed(String::from("connection refused"))),
    );
    assert!(!app.show_fetch_popup);
    assert!(matches!(app.fetch_error, Some(FetchError::RequestFailed(_))));
    // A new submission resets the failure indicator.
    let action = tick(&mut app, &mut table, Some(KeyInput::Char('f')));
    assert!(matches!(action, TickAction::Submit(_)));
    assert!(app.fetch_error.is_none());
}

#[test]
fn quit_key_ends_the_loop_only_in_normal_mode() {
    let mut app = App::new(morning());
    let mut table = RoutesTableState::new();
    tick(&mut app, &mut table, Some(KeyInput::Char('i')));
    let action = tick(&mut app, &mut table, Some(KeyInput::Char('q')));
    assert!(matches!(action, TickAction::Continue));
    assert_eq!(app.input_start, "q");
    tick(&mut app, &mut table, Some(KeyInput::Esc));
    let action = tick(&mut app, &mut table, Some(KeyInput::Char('q')));
    assert!(matches!(action, TickAction::Quit));
}

#[test]
fn toggles_flip_in_place_without_leaving_normal_mode() {
    let mut app = App::new(morning());
    let mut table = RoutesTableState::new();
    // Walk to the arrival toggle: down to the pane, up to Date, right twice.
    tick(&mut app, &mut table, Some(KeyInput::Down));
    tick(&mut app, &mut table, Some(KeyInput::Up));
    tick(&mut app, &mut table, Some(KeyInput::Right));
    tick(&mut app, &mut table, Some(KeyInput::Right));
    tick(&mut app, &mut table, Some(KeyInput::Enter));
    assert!(app.is_arrival);
    assert!(matches!(app.input_mode, InputMode::Normal));
    // One step right: the first transport toggle.
    tick(&mut app, &mut table, Some(KeyInput::Right));
    tick(&mut app, &mut table, Some(KeyInput::Char('i')));
    assert!(!app.use_ubahn);
    assert!(matches!(app.input_mode, InputMode::Normal));
    tick(&mut app, &mut table, Some(KeyInput::Char('i')));
    assert!(app.use_ubahn);
}
