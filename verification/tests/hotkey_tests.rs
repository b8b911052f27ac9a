use eve_l_preview::hotkey::{command_for_key_event, should_process_hotkey, CycleCommand};
use eve_l_preview::manager_state::{ProfileSelector, VisualSettingsState};

#[test]
fn cycle_key_press_emits_commands() {
    assert_eq!(command_for_key_event(true, true, false), Some(CycleCommand::Forward));
    assert_eq!(command_for_key_event(true, true, true), Some(CycleCommand::Backward));
    // Releases and other keys emit nothing.
    assert_eq!(command_for_key_event(true, false, false), None);
    assert_eq!(command_for_key_event(false, true, true), None);
}

#[test]
fn focus_gate_on_hotkeys() {
    // No gate configured: always process.
    assert!(should_process_hotkey(false, None));
    assert!(should_process_hotkey(false, Some(false)));
    // Gate configured: only with a focused target, and a failed focus
    // query counts as not focused.
    assert!(should_process_hotkey(true, Some(true)));
    assert!(!should_process_hotkey(true, Some(false)));
    assert!(!should_process_hotkey(true, None));
}

#[test]
fn profile_selector_starts_with_no_dialogs() {
    let s = ProfileSelector::new();
    assert!(s.edit_profile_name.is_empty());
    assert!(s.edit_profile_desc.is_empty());
    assert!(!s.show_new_dialog && !s.show_duplicate_dialog);
    assert!(!s.show_delete_confirm && !s.show_edit_dialog);
}

#[test]
fn visual_settings_state_defaults() {
    let fonts = vec!["Monospace".to_string()];
    let s = VisualSettingsState::new(fonts.clone(), None);
    assert!(!s.show_resize_confirmation);
    assert!(s.pending_resize_all.is_none());
    assert_eq!((s.current_width, s.current_height), (250, 141));
    assert_eq!(s.last_target, "---");
    assert_eq!(s.available_fonts, fonts);
    assert!(s.font_load_error.is_none());
}
