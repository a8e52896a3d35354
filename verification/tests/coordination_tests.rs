use mvg_tui::app::App;
use mvg_tui::datetime::DateTime;
use mvg_tui::networking::apply_fetch_result;
use mvg_tui::render_loop::{tick, KeyInput, TickAction};
use mvg_tui::routes::{Connection, TicketingInformation};
use mvg_tui::table::RoutesTableState;

fn noon() -> DateTime {
    DateTime { year: 2024, month: 6, day: 1, hour: 12, minute: 0 }
}

fn connection_with_id(id: usize) -> Connection {
    Connection {
        unique_id: id,
        parts: vec![],
        ticketing_information: TicketingInformation {
            zones: vec![],
            alternative_zones: vec![],
            unified_ticket_ids: vec![],
            banner_hash: None,
        },
    }
}

/// Enqueue a fetch, run ten idle render-loop iterations: the frame counter
/// advances by ten and every iteration sees the old result list whole;
/// after the write-back the next iteration sees the new list whole.
#[test]
fn ten_idle_ticks_after_a_submission() {
    let mut app = App::new(noon());
    let mut table = RoutesTableState::new();
    app.routes = vec![connection_with_id(1), connection_with_id(2)];
    let action = tick(&mut app, &mut table, Some(KeyInput::Char('f')));
    assert!(matches!(action, TickAction::Submit(_)));
    let frames_before = app.frames;
    for _ in 0..10 {
        let action = tick(&mut app, &mut table, None);
        assert!(matches!(action, TickAction::Continue));
        // Each iteration still sees the old list, whole.
        let ids: Vec<usize> = app.routes.iter().map(|c| c.unique_id).collect();
        assert_eq!(ids, vec![1, 2]);
    }
    assert_eq!(app.frames, frames_before + 10);
    // The coordinator writes the fetched list back in one step.
    let fetched = vec![connection_with_id(8), connection_with_id(9), connection_with_id(10)];
    apply_fetch_result(&mut app, &mut table, Ok(fetched));
    let ids: Vec<usize> = app.routes.iter().map(|c| c.unique_id).collect();
    assert_eq!(ids, vec![8, 9, 10]);
    tick(&mut app, &mut table, None);
    let ids: Vec<usize> = app.routes.iter().map(|c| c.unique_id).collect();
    assert_eq!(ids, vec![8, 9, 10]);
}

#[test]
fn idle_ticks_change_nothing_but_the_counter() {
    let mut app = App::new(noon());
    let table_before = RoutesTableState::new();
    let mut table = table_before;
    let start_before = app.start.clone();
    let date_before = app.input_date.clone();
    for _ in 0..3 {
        tick(&mut app, &mut table, None);
    }
    assert_eq!(app.frames, 3);
    assert_eq!(app.start, start_before);
    assert_eq!(app.input_date, date_before);
    assert_eq!(table, table_before);
    assert!(!app.show_fetch_popup);
}
