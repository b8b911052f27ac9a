use eve_l_preview::color::{HexColor, Opacity};
use eve_l_preview::config::{
    default_height, default_profiles, default_width, Config, GlobalSettings, ManagerSettings,
    PersistentState, Profile,
};
use eve_l_preview::geom::{CharacterSettings, Position};
use eve_l_preview::tables::NameTable;

// Helper to build daemon state with the visual and behavior settings the
// assertions exercise.
fn test_state(
    opacity_percent: u8,
    border_size: u16,
    border_color: &str,
    text_x: i16,
    text_y: i16,
    text_color: &str,
    hide_when_no_focus: bool,
    snap_threshold: u16,
) -> PersistentState {
    let mut profiles = default_profiles();
    let mut profile = profiles.pop().unwrap();
    profile.name = "Test Profile".to_string();
    profile.opacity_percent = opacity_percent;
    profile.border_size = border_size;
    profile.border_color = border_color.to_string();
    profile.text_x = text_x;
    profile.text_y = text_y;
    profile.text_foreground = text_color.to_string();
    profile.text_size = 18;
    profile.hide_when_no_focus = hide_when_no_focus;
    profile.snap_threshold = snap_threshold;
    PersistentState {
        profile,
        global: GlobalSettings {
            hide_when_no_focus,
            snap_threshold,
            hotkey_require_eve_focus: true,
            minimize_clients_on_switch: false,
            preserve_thumbnail_position_on_swap: false,
            default_thumbnail_width: 250,
            default_thumbnail_height: 141,
        },
        character_positions: NameTable::new(),
    }
}

#[test]
fn daemon_state_test_build_display_config_valid_colors() {
    let state = test_state(75, 3, "#FF00FF00", 15, 25, "#FFFFFFFF", true, 20);

    let config = state.build_display_config();
    assert_eq!(config.border_size, 3);
    assert_eq!(config.text_offset.x, 15);
    assert_eq!(config.text_offset.y, 25);
    assert_eq!(config.hide_when_no_focus, true);

    // Opacity: 75% is 0xBF.
    assert_eq!(config.opacity, 0xBF000000);

    // Border color #FF00FF00: 16-bit channels.
    assert_eq!(config.border_color.red, 0);
    assert_eq!(config.border_color.green, 65535);
    assert_eq!(config.border_color.blue, 0);
    assert_eq!(config.border_color.alpha, 65535);
}

#[test]
fn daemon_state_test_build_display_config_invalid_colors_fallback() {
    let state = test_state(100, 5, "invalid", 10, 20, "also_invalid", false, 15);

    let config = state.build_display_config();

    // Opacity: 100% is 0xFF.
    assert_eq!(config.opacity, 0xFF000000);

    // Default border color 0xFFFF0000 (opaque red); 0xFF * 257 = 65535.
    assert_eq!(config.border_color.red, 65535);
    assert_eq!(config.border_color.blue, 0);
    assert_eq!(config.border_color.alpha, 65535);
}

#[test]
fn daemon_state_test_update_position_with_character_name() {
    let mut state = test_state(75, 3, "#FF00FF00", 10, 20, "#FFFFFFFF", false, 15);

    state.update_position("TestChar", 100, 200, 480, 270);

    let settings = state.character_positions.get(&"TestChar".to_string()).unwrap();
    assert_eq!(settings.x, 100);
    assert_eq!(settings.y, 200);
    assert_eq!(settings.dimensions.width, 480);
    assert_eq!(settings.dimensions.height, 270);
}

#[test]
fn daemon_state_test_update_position_empty_name_ignored() {
    let mut state = test_state(75, 3, "#FF00FF00", 10, 20, "#FFFFFFFF", false, 15);

    state.update_position("", 300, 400, 480, 270);

    // An empty name records nothing.
    assert!(state.character_positions.is_empty());
}

#[test]
fn daemon_state_test_handle_character_change_both_names() {
    let mut state = test_state(75, 3, "#FF00FF00", 10, 20, "#FFFFFFFF", false, 15);
    state
        .character_positions
        .insert("NewChar".to_string(), CharacterSettings::new(500, 600, 240, 135));

    let current_pos = Position::new(100, 200);
    let result = state.handle_character_change("OldChar", "NewChar", current_pos, 480, 270);

    // The departing character's position and dimensions are saved.
    let old_settings = state.character_positions.get(&"OldChar".to_string()).unwrap();
    assert_eq!(old_settings.x, 100);
    assert_eq!(old_settings.y, 200);
    assert_eq!(old_settings.dimensions.width, 480);
    assert_eq!(old_settings.dimensions.height, 270);

    // The arriving character has a saved position, so the thumbnail moves.
    assert_eq!(result, Some(Position::new(500, 600)));

    let new_settings = state.character_positions.get(&"NewChar".to_string()).unwrap();
    assert_eq!(new_settings.x, 500);
    assert_eq!(new_settings.y, 600);
}

#[test]
fn daemon_state_test_handle_character_change_logout() {
    let mut state = test_state(75, 3, "#FF00FF00", 10, 20, "#FFFFFFFF", false, 15);

    let current_pos = Position::new(300, 400);
    let result = state.handle_character_change("LoggingOut", "", current_pos, 480, 270);

    // The departing character's position and dimensions are saved.
    let settings = state.character_positions.get(&"LoggingOut".to_string()).unwrap();
    assert_eq!(settings.x, 300);
    assert_eq!(settings.y, 400);
    assert_eq!(settings.dimensions.width, 480);
    assert_eq!(settings.dimensions.height, 270);

    // Logging out keeps the current position.
    assert_eq!(result, None);
}

#[test]
fn daemon_state_test_handle_character_change_new_character_no_saved_position() {
    let mut state = test_state(75, 3, "#FF00FF00", 10, 20, "#FFFFFFFF", false, 15);

    let current_pos = Position::new(700, 800);
    let result = state.handle_character_change("", "BrandNewChar", current_pos, 480, 270);

    // An empty departing name records nothing.
    assert!(state.character_positions.is_empty());

    // The arriving character has no saved position: keep the current one.
    assert_eq!(result, None);
}

#[test]
fn persistent_test_opacity_percent_roundtrip() {
    let state = test_state(50, 3, "#FF00FF00", 10, 20, "#FFFFFFFF", false, 15);

    let config = state.build_display_config();

    // 50% maps to 0x7F or 0x80 depending on rounding.
    assert!(config.opacity >= 0x7F000000 && config.opacity <= 0x80000000);
}

#[test]
fn hex_color_parse_six_digits_gets_full_alpha() {
    let c = HexColor::parse("00FF00").unwrap();
    assert_eq!((c.a, c.r, c.g, c.b), (255, 0, 255, 0));
    let c = HexColor::parse("#123456").unwrap();
    assert_eq!((c.a, c.r, c.g, c.b), (255, 0x12, 0x34, 0x56));
}

#[test]
fn hex_color_parse_eight_digits_carries_alpha() {
    let c = HexColor::parse("#7FFF0000").unwrap();
    assert_eq!((c.a, c.r, c.g, c.b), (0x7F, 0xFF, 0, 0));
    assert_eq!(c.argb32(), 0x7FFF0000);
}

#[test]
fn hex_color_parse_rejects_bad_input() {
    assert!(HexColor::parse("").is_none());
    assert!(HexColor::parse("#12345").is_none());
    assert!(HexColor::parse("1234567").is_none());
    assert!(HexColor::parse("#GGGGGG").is_none());
    assert!(HexColor::parse("#FF00FF0").is_none());
}

#[test]
fn hex_color_to_string_shapes() {
    let opaque = HexColor { a: 255, r: 0xAB, g: 0x00, b: 0xFF };
    assert_eq!(opaque.to_hex_string(), "#AB00FF");
    let translucent = HexColor { a: 0x7F, r: 0xFF, g: 0x00, b: 0x00 };
    assert_eq!(translucent.to_hex_string(), "#7FFF0000");
}

#[test]
fn opacity_word_from_percent() {
    assert_eq!(Opacity::from_percent(80).to_argb32(), 0xCC000000);
    assert_eq!(Opacity::from_percent(0).to_argb32(), 0);
    assert_eq!(Opacity::from_percent(100).to_argb32(), 0xFF000000);
    // Values above 100 saturate.
    assert_eq!(Opacity::from_percent(200).to_argb32(), 0xFF000000);
    // And back: 0xCC is 80%.
    assert_eq!(Opacity::from_argb32(0xCC000000).percent(), 80);
}

#[test]
fn default_profile_and_named_copy() {
    let profiles = default_profiles();
    assert_eq!(profiles.len(), 1);
    assert_eq!(profiles[0].name, "default");
    assert_eq!(profiles[0].opacity_percent, 75);
    assert_eq!(profiles[0].border_color, "#7FFF0000");
    assert_eq!(profiles[0].snap_threshold, 15);

    let p = Profile::default_with_name("Mining".to_string(), "second account".to_string());
    assert_eq!(p.name, "Mining");
    assert_eq!(p.description, "second account");
    assert_eq!(p.opacity_percent, 75);
}

#[test]
fn from_profile_config_selects_by_name_or_first() {
    let mut config = Config::default();
    let mut second = Profile::default_with_name("other".to_string(), String::new());
    second.snap_threshold = 33;
    config.profiles.push(second);
    config.manager.selected_profile = "other".to_string();

    let state = PersistentState::from_profile_config(config);
    assert_eq!(state.profile.name, "other");
    assert_eq!(state.global.snap_threshold, 33);
    assert_eq!(state.global.default_thumbnail_width, default_width());
    assert_eq!(state.global.default_thumbnail_height, default_height());

    // An unknown selection falls back to the first profile.
    let mut config = Config::default();
    config.manager = ManagerSettings::default();
    config.manager.selected_profile = "missing".to_string();
    let state = PersistentState::from_profile_config(config);
    assert_eq!(state.profile.name, "default");
}
