use mvg_tui::focus::{next_focus, Focus, NavDirection};

#[test]
fn boundary_moves_are_no_ops() {
    // Left at the left end of each row.
    assert_eq!(next_focus(Focus::Start, NavDirection::Left), Focus::Start);
    assert_eq!(next_focus(Focus::Date, NavDirection::Left), Focus::Date);
    assert_eq!(next_focus(Focus::Routes, NavDirection::Left), Focus::Routes);
    // Right at the right end of each row.
    assert_eq!(
        next_focus(Focus::Destination, NavDirection::Right),
        Focus::Destination
    );
    assert_eq!(next_focus(Focus::Bus, NavDirection::Right), Focus::Bus);
    assert_eq!(next_focus(Focus::Routes, NavDirection::Right), Focus::Routes);
    // Up from the top row, down from the bottom pane.
    assert_eq!(next_focus(Focus::Start, NavDirection::Up), Focus::Start);
    assert_eq!(
        next_focus(Focus::Destination, NavDirection::Up),
        Focus::Destination
    );
    assert_eq!(next_focus(Focus::Routes, NavDirection::Down), Focus::Routes);
}

#[test]
fn top_row_moves_follow_layout() {
    assert_eq!(
        next_focus(Focus::Start, NavDirection::Right),
        Focus::Destination
    );
    assert_eq!(
        next_focus(Focus::Destination, NavDirection::Left),
        Focus::Start
    );
}

#[test]
fn option_row_advances_left_to_right() {
    assert_eq!(next_focus(Focus::Date, NavDirection::Right), Focus::Time);
    assert_eq!(next_focus(Focus::Time, NavDirection::Right), Focus::Arrival);
    assert_eq!(next_focus(Focus::Arrival, NavDirection::Right), Focus::Ubahn);
    assert_eq!(next_focus(Focus::Ubahn, NavDirection::Right), Focus::Sbahn);
    assert_eq!(next_focus(Focus::Sbahn, NavDirection::Right), Focus::Tram);
    assert_eq!(next_focus(Focus::Tram, NavDirection::Right), Focus::Bus);
}

#[test]
fn option_row_reverses_right_to_left() {
    assert_eq!(next_focus(Focus::Bus, NavDirection::Left), Focus::Tram);
    assert_eq!(next_focus(Focus::Tram, NavDirection::Left), Focus::Sbahn);
    assert_eq!(next_focus(Focus::Sbahn, NavDirection::Left), Focus::Ubahn);
    assert_eq!(next_focus(Focus::Ubahn, NavDirection::Left), Focus::Arrival);
    assert_eq!(next_focus(Focus::Arrival, NavDirection::Left), Focus::Time);
    assert_eq!(next_focus(Focus::Time, NavDirection::Left), Focus::Date);
}

#[test]
fn down_reaches_the_result_pane_from_everywhere() {
    for f in [
        Focus::Start,
        Focus::Destination,
        Focus::Date,
        Focus::Time,
        Focus::Arrival,
        Focus::Ubahn,
        Focus::Sbahn,
        Focus::Tram,
        Focus::Bus,
    ] {
        assert_eq!(next_focus(f, NavDirection::Down), Focus::Routes);
    }
}

#[test]
fn up_returns_to_the_nearest_field_above() {
    assert_eq!(next_focus(Focus::Routes, NavDirection::Up), Focus::Date);
    assert_eq!(next_focus(Focus::Date, NavDirection::Up), Focus::Start);
    assert_eq!(next_focus(Focus::Time, NavDirection::Up), Focus::Start);
    assert_eq!(next_focus(Focus::Arrival, NavDirection::Up), Focus::Destination);
    assert_eq!(next_focus(Focus::Ubahn, NavDirection::Up), Focus::Destination);
    assert_eq!(next_focus(Focus::Sbahn, NavDirection::Up), Focus::Destination);
    assert_eq!(next_focus(Focus::Tram, NavDirection::Up), Focus::Destination);
    assert_eq!(next_focus(Focus::Bus, NavDirection::Up), Focus::Destination);
}
