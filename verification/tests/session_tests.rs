use eve_l_preview::geom::{CharacterSettings, Position};
use eve_l_preview::session::SavedState;
use eve_l_preview::tables::NameTable;

#[test]
fn test_get_position_character_from_config() {
    let state = SavedState::new();
    let mut char_positions: NameTable<CharacterSettings> = NameTable::new();
    char_positions.insert("Alice".to_string(), CharacterSettings::new(100, 200, 240, 135));

    let pos = state.get_position("Alice", 123, &char_positions, false);
    assert_eq!(pos, Some(Position::new(100, 200)));
}

#[test]
fn test_get_position_new_character_no_inherit() {
    let mut state = SavedState::new();
    state.update_window_position(456, 300, 400);
    let char_positions: NameTable<CharacterSettings> = NameTable::new();

    // New character "Bob" on window 456 that has a session position, but
    // inheriting is off: no position (caller centers).
    let pos = state.get_position("Bob", 456, &char_positions, false);
    assert_eq!(pos, None);
}

#[test]
fn test_get_position_new_character_with_inherit() {
    let mut state = SavedState::new();
    state.update_window_position(789, 500, 600);
    let char_positions: NameTable<CharacterSettings> = NameTable::new();

    // New character "Charlie" with inherit enabled uses the window position.
    let pos = state.get_position("Charlie", 789, &char_positions, true);
    assert_eq!(pos, Some(Position::new(500, 600)));
}

#[test]
fn test_get_position_new_character_inherit_but_no_window_position() {
    let state = SavedState::new();
    let char_positions: NameTable<CharacterSettings> = NameTable::new();

    // Inherit enabled but window 999 has no saved position: none (center).
    let pos = state.get_position("Diana", 999, &char_positions, true);
    assert_eq!(pos, None);
}

#[test]
fn test_get_position_logged_out_window() {
    let mut state = SavedState::new();
    state.update_window_position(111, 700, 800);
    let char_positions: NameTable<CharacterSettings> = NameTable::new();

    // Empty character name (logged-out window): use the window position.
    let pos = state.get_position("", 111, &char_positions, false);
    assert_eq!(pos, Some(Position::new(700, 800)));
}

#[test]
fn test_get_position_logged_out_window_no_saved_position() {
    let state = SavedState::new();
    let char_positions: NameTable<CharacterSettings> = NameTable::new();

    // Logged-out window with no saved position: none (center).
    let pos = state.get_position("", 222, &char_positions, false);
    assert_eq!(pos, None);
}

#[test]
fn test_get_position_character_priority_over_window() {
    let mut state = SavedState::new();
    state.update_window_position(333, 900, 1000);

    let mut char_positions: NameTable<CharacterSettings> = NameTable::new();
    char_positions.insert("Eve".to_string(), CharacterSettings::new(1100, 1200, 240, 135));

    // The durable character position wins even with inherit enabled.
    let pos = state.get_position("Eve", 333, &char_positions, true);
    assert_eq!(pos, Some(Position::new(1100, 1200)));
}

#[test]
fn test_update_window_position() {
    let mut state = SavedState::new();

    state.update_window_position(444, 1300, 1400);
    assert_eq!(state.window_positions.get(444), Some(Position::new(1300, 1400)));

    // Update the existing position.
    state.update_window_position(444, 1500, 1600);
    assert_eq!(state.window_positions.get(444), Some(Position::new(1500, 1600)));
}

#[test]
fn test_update_window_position_multiple_windows() {
    let mut state = SavedState::new();

    state.update_window_position(555, 100, 200);
    state.update_window_position(666, 300, 400);

    assert_eq!(state.window_positions.get(555), Some(Position::new(100, 200)));
    assert_eq!(state.window_positions.get(666), Some(Position::new(300, 400)));
}

#[test]
fn session_round_trip_unnamed_lookup() {
    // Recording a position and immediately resolving for an unnamed entity
    // on the same window returns exactly that position.
    let mut state = SavedState::new();
    let char_positions: NameTable<CharacterSettings> = NameTable::new();
    state.update_window_position(42, 10, 20);
    let pos = state.get_position("", 42, &char_positions, false);
    assert_eq!(pos, Some(Position::new(10, 20)));
}
