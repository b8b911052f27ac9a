//! Configuration model: visual profiles, global daemon behavior, and the
//! display settings derived from them.
//!
//! Reading and writing configuration files is the unverified shell's work;
//! this module holds the values themselves and every computation over them:
//! profile selection, display-configuration building (with hex color
//! parsing and fallbacks), and the two narrow mutations the daemon performs
//! during steady state — saving one entity's position and recording an
//! identity change.

use vstd::prelude::*;
use crate::color::{spec_parse_hex, HexColor, Opacity, RenderColor};
use crate::geom::{CharacterSettings, Position, TextOffset};
use crate::tables::NameTable;

verus! {

/// Strategy for writing the configuration file back to disk.
#[derive(Debug, Clone, Copy, PartialEq, Eq, Structural)]
pub enum SaveStrategy {
    /// Keep the per-entity positions already on disk (editor saves).
    PreserveCharacterPositions,
    /// Overwrite the per-entity positions with in-memory data (daemon saves).
    OverwriteCharacterPositions,
}

/// Settings of the configuration manager itself: which profile is selected
/// and where its window sits.
#[derive(Debug)]
pub struct ManagerSettings {
    pub selected_profile: String,
    pub window_width: u16,
    pub window_height: u16,
    pub window_x: Option<i16>,
    pub window_y: Option<i16>,
}

/// Global settings that are not tied to the daemon's behavior flags.
#[derive(Debug)]
pub struct GlobalSettingsPhase2 {
    pub log_level: String,
    pub minimize_clients_on_switch: bool,
}

/// One visual profile: appearance of every thumbnail, the hotkey cycle
/// order, and the per-entity saved positions.
#[derive(Debug)]
pub struct Profile {
    pub name: String,
    pub description: String,
    pub opacity_percent: u8,
    pub border_enabled: bool,
    pub border_size: u16,
    pub border_color: String,
    pub text_size: u16,
    pub text_x: i16,
    pub text_y: i16,
    pub text_foreground: String,
    pub text_background: String,
    pub text_font_family: String,
    pub hide_when_no_focus: bool,
    pub snap_threshold: u16,
    pub hotkey_require_eve_focus: bool,
    pub cycle_group: Vec<String>,
    pub character_positions: NameTable<CharacterSettings>,
}

/// The whole configuration file: manager state, shared settings, and the
/// set of profiles.
#[derive(Debug)]
pub struct Config {
    pub manager: ManagerSettings,
    pub global: GlobalSettingsPhase2,
    pub profiles: Vec<Profile>,
}

/// Behavior flags the daemon consumes, assembled from the selected profile
/// and the shared settings.
#[derive(Debug, Clone, Copy, PartialEq, Eq, Structural)]
pub struct GlobalSettings {
    pub hide_when_no_focus: bool,
    pub snap_threshold: u16,
    pub hotkey_require_eve_focus: bool,
    pub minimize_clients_on_switch: bool,
    pub preserve_thumbnail_position_on_swap: bool,
    pub default_thumbnail_width: u16,
    pub default_thumbnail_height: u16,
}

/// Immutable display settings shared by every thumbnail for one daemon run.
#[derive(Debug, Clone, Copy, PartialEq, Eq, Structural)]
pub struct DisplayConfig {
    pub opacity: u32,
    pub border_size: u16,
    pub border_color: RenderColor,
    pub text_offset: TextOffset,
    pub text_foreground: u32,
    pub hide_when_no_focus: bool,
}

pub fn default_snap_threshold() -> (r: u16)
    ensures
        r == 15,
{
    15
}

pub fn default_width() -> (r: u16)
    ensures
        r == 250,
{
    250
}

pub fn default_height() -> (r: u16)
    ensures
        r == 141,
{
    141
}

pub fn default_hotkey_require_eve_focus() -> (r: bool)
    ensures
        r == true,
{
    true
}

pub fn default_profile_name() -> (r: String)
    ensures
        r@ == "default"@,
{
    "default".to_owned()
}

pub fn default_window_width() -> (r: u16)
    ensures
        r == 600,
{
    600
}

pub fn default_window_height() -> (r: u16)
    ensures
        r == 800,
{
    800
}

pub fn default_log_level() -> (r: String)
    ensures
        r@ == "info"@,
{
    "info".to_owned()
}

pub fn default_border_enabled() -> (r: bool)
    ensures
        r == true,
{
    true
}

/// What a freshly created profile looks like.
pub open spec fn is_default_profile_body(p: Profile) -> bool {
    p.opacity_percent == 75 && p.border_enabled == true && p.border_size == 3
        && p.border_color@ == "#7FFF0000"@ && p.text_size == 22 && p.text_x == 10 && p.text_y == 20
        && p.text_foreground@ == "#FFFFFFFF"@ && p.text_background@ == "#7F000000"@
        && p.text_font_family@ == ""@ && p.hide_when_no_focus == false && p.snap_threshold == 15
        && p.hotkey_require_eve_focus == false && p.cycle_group@.len() == 0
        && p.character_positions.spec_len() == 0
}

/// The initial profile set: a single profile named `default`.
pub fn default_profiles() -> (r: Vec<Profile>)
    ensures
        r@.len() == 1,
        r@[0].name@ == "default"@,
        r@[0].description@ == "Default profile"@,
        is_default_profile_body(r@[0]),
{
    let p = Profile {
        name: "default".to_owned(),
        description: "Default profile".to_owned(),
        opacity_percent: 75,
        border_enabled: true,
        border_size: 3,
        border_color: "#7FFF0000".to_owned(),
        text_size: 22,
        text_x: 10,
        text_y: 20,
        text_foreground: "#FFFFFFFF".to_owned(),
        text_background: "#7F000000".to_owned(),
        text_font_family: "".to_owned(),
        hide_when_no_focus: false,
        snap_threshold: 15,
        hotkey_require_eve_focus: false,
        cycle_group: Vec::new(),
        character_positions: NameTable::new(),
    };
    let mut v: Vec<Profile> = Vec::new();
    v.push(p);
    v
}

impl Profile {
    /// A fresh profile with default looks under the given name.
    pub fn default_with_name(name: String, description: String) -> (r: Profile)
        ensures
            r.name == name,
            r.description == description,
            is_default_profile_body(r),
    {
        let mut profiles = default_profiles();
        let mut profile = profiles.pop().unwrap();
        profile.name = name;
        profile.description = description;
        profile
    }
}

impl Default for ManagerSettings {
    fn default() -> (r: ManagerSettings)
        ensures
            r.selected_profile@ == "default"@,
            r.window_width == 600,
            r.window_height == 800,
            r.window_x is None,
            r.window_y is None,
    {
        ManagerSettings {
            selected_profile: default_profile_name(),
            window_width: default_window_width(),
            window_height: default_window_height(),
            window_x: None,
            window_y: None,
        }
    }
}

impl Default for GlobalSettingsPhase2 {
    fn default() -> (r: GlobalSettingsPhase2)
        ensures
            r.log_level@ == "info"@,
            r.minimize_clients_on_switch == false,
    {
        GlobalSettingsPhase2 { log_level: default_log_level(), minimize_clients_on_switch: false }
    }
}

impl Default for Config {
    fn default() -> (r: Config)
        ensures
            r.manager.selected_profile@ == "default"@,
            r.profiles@.len() == 1,
            r.profiles@[0].name@ == "default"@,
            is_default_profile_body(r.profiles@[0]),
    {
        Config {
            manager: ManagerSettings::default(),
            global: GlobalSettingsPhase2::default(),
            profiles: default_profiles(),
        }
    }
}

/// The packed `0xAARRGGBB` word of a color.
pub open spec fn spec_pack_argb(c: HexColor) -> int {
    c.a * 0x1000000 + c.r * 0x10000 + c.g * 0x100 + c.b
}

/// Each 8-bit channel widened to 16 bits.
pub open spec fn spec_widen(c: HexColor) -> RenderColor {
    RenderColor {
        red: (c.r * 257) as u16,
        green: (c.g * 257) as u16,
        blue: (c.b * 257) as u16,
        alpha: (c.a * 257) as u16,
    }
}

/// The border color a profile's hex string yields; an unparsable string
/// falls back to opaque red.
pub open spec fn spec_border_color(hex: Seq<char>) -> RenderColor {
    match spec_parse_hex(hex) {
        Some(c) => spec_widen(c),
        None => spec_widen(HexColor { a: 255, r: 255, g: 0, b: 0 }),
    }
}

/// The text color a profile's hex string yields; an unparsable string falls
/// back to opaque white.
pub open spec fn spec_text_color(hex: Seq<char>) -> int {
    match spec_parse_hex(hex) {
        Some(c) => spec_pack_argb(c),
        None => 0xFFFFFFFF,
    }
}

/// The opacity word an opacity percentage yields.
pub open spec fn spec_opacity_word(p: u8) -> int {
    let q = if p > 100 {
        100int
    } else {
        p as int
    };
    ((q * 255 + 50) / 100) * 0x1000000
}

/// First index of the profile carrying `name`, or -1 when none does.
pub open spec fn profile_index(s: Seq<Profile>, name: Seq<char>) -> int
    decreases s.len(),
{
    if s.len() == 0 {
        -1
    } else if s[0].name@ == name {
        0
    } else {
        let r = profile_index(s.drop_first(), name);
        if r < 0 {
            -1
        } else {
            1 + r
        }
    }
}

proof fn lemma_profile_index_at(s: Seq<Profile>, i: int, name: Seq<char>)
    requires
        0 <= i < s.len(),
        s[i].name@ == name,
        forall|j: int| 0 <= j < i ==> (#[trigger] s[j]).name@ != name,
    ensures
        profile_index(s, name) == i,
    decreases i,
{
    if i > 0 {
        assert(forall|j: int| 0 <= j < s.drop_first().len() ==> s.drop_first()[j] == s[j + 1]);
        lemma_profile_index_at(s.drop_first(), i - 1, name);
    }
}

proof fn lemma_profile_index_absent(s: Seq<Profile>, name: Seq<char>)
    requires
        forall|j: int| 0 <= j < s.len() ==> (#[trigger] s[j]).name@ != name,
    ensures
        profile_index(s, name) == -1,
    decreases s.len(),
{
    if s.len() > 0 {
        assert(forall|j: int| 0 <= j < s.drop_first().len() ==> s.drop_first()[j] == s[j + 1]);
        lemma_profile_index_absent(s.drop_first(), name);
    }
}

/// Daemon runtime state: the selected profile's visual settings, the global
/// behavior flags, and the live per-entity position table.
#[derive(Debug)]
pub struct PersistentState {
    pub profile: Profile,
    pub global: GlobalSettings,
    pub character_positions: NameTable<CharacterSettings>,
}

impl PersistentState {
    /// Default thumbnail size for entities that have none saved yet.  The
    /// screen size is accepted for interface stability but the configured
    /// defaults decide.
    pub fn default_thumbnail_size(&self, _screen_width: u16, _screen_height: u16) -> (r: (
        u16,
        u16,
    ))
        ensures
            r.0 == self.global.default_thumbnail_width,
            r.1 == self.global.default_thumbnail_height,
    {
        (self.global.default_thumbnail_width, self.global.default_thumbnail_height)
    }

    /// Build the immutable display settings from the profile: parse the two
    /// hex colors (falling back to opaque red and opaque white), turn the
    /// opacity percentage into an opacity word, and copy the rest through.
    pub fn build_display_config(&self) -> (r: DisplayConfig)
        ensures
            r.opacity == spec_opacity_word(self.profile.opacity_percent),
            r.border_size == self.profile.border_size,
            r.border_color == spec_border_color(self.profile.border_color@),
            r.text_offset == (TextOffset { x: self.profile.text_x, y: self.profile.text_y }),
            r.text_foreground == spec_text_color(self.profile.text_foreground@),
            r.hide_when_no_focus == self.global.hide_when_no_focus,
    {
        let border_color = match HexColor::parse(self.profile.border_color.as_str()) {
            Some(c) => c.to_x11_color(),
            None => (HexColor { a: 255, r: 255, g: 0, b: 0 }).to_x11_color(),
        };
        let text_foreground = match HexColor::parse(self.profile.text_foreground.as_str()) {
            Some(c) => c.argb32(),
            None => 0xFFFFFFFFu32,
        };
        let opacity = Opacity::from_percent(self.profile.opacity_percent).to_argb32();
        DisplayConfig {
            opacity,
            border_size: self.profile.border_size,
            border_color,
            text_offset: TextOffset::from_border_edge(self.profile.text_x, self.profile.text_y),
            text_foreground,
            hide_when_no_focus: self.global.hide_when_no_focus,
        }
    }

    /// Extract daemon state from a configuration: the profile named by the
    /// manager's selection, or the first profile when the name matches none.
    pub fn from_profile_config(config: Config) -> (r: PersistentState)
        requires
            config.profiles@.len() > 0,
        ensures
            ({
                let sel = profile_index(config.profiles@, config.manager.selected_profile@);
                let idx = if sel >= 0 {
                    sel
                } else {
                    0int
                };
                &&& r.profile == config.profiles@[idx]
                &&& forall|k: Seq<char>|
                    r.character_positions.spec_get(k) == config.profiles@[idx].character_positions.spec_get(
                        k,
                    )
                &&& r.global.hide_when_no_focus == config.profiles@[idx].hide_when_no_focus
                &&& r.global.snap_threshold == config.profiles@[idx].snap_threshold
                &&& r.global.hotkey_require_eve_focus
                    == config.profiles@[idx].hotkey_require_eve_focus
                &&& r.global.minimize_clients_on_switch
                    == config.global.minimize_clients_on_switch
                &&& r.global.preserve_thumbnail_position_on_swap == false
                &&& r.global.default_thumbnail_width == 250
                &&& r.global.default_thumbnail_height == 141
            }),
    {
        let mut config = config;
        let ghost profiles0 = config.profiles@;
        let ghost selected = config.manager.selected_profile@;
        let n = config.profiles.len();
        let mut idx: usize = 0;
        let mut i: usize = 0;
        let mut found = false;
        while i < n && !found
            invariant
                0 <= i <= n,
                n == config.profiles@.len(),
                config.profiles@ == profiles0,
                config.manager.selected_profile@ == selected,
                !found ==> idx == 0 && forall|j: int|
                    0 <= j < i ==> (#[trigger] profiles0[j]).name@ != selected,
                found ==> idx < i && profiles0[idx as int].name@ == selected && forall|j: int|
                    0 <= j < idx ==> (#[trigger] profiles0[j]).name@ != selected,
            decreases n - i,
        {
            if config.profiles[i].name == config.manager.selected_profile {
                idx = i;
                found = true;
            }
            i = i + 1;
        }
        proof {
            if found {
                lemma_profile_index_at(profiles0, idx as int, selected);
            } else {
                lemma_profile_index_absent(profiles0, selected);
            }
        }
        let profile = config.profiles.remove(idx);
        PersistentState {
            global: GlobalSettings {
                hide_when_no_focus: profile.hide_when_no_focus,
                snap_threshold: profile.snap_threshold,
                hotkey_require_eve_focus: profile.hotkey_require_eve_focus,
                minimize_clients_on_switch: config.global.minimize_clients_on_switch,
                preserve_thumbnail_position_on_swap: false,
                default_thumbnail_width: default_width(),
                default_thumbnail_height: default_height(),
            },
            character_positions: profile.character_positions.duplicate(),
            profile,
        }
    }

    /// Record a dragged entity's position and size.  An empty name (no
    /// identity yet) records nothing durable; such windows are covered by
    /// the session cache instead.  The caller persists the table afterwards.
    pub fn update_position(&mut self, character_name: &str, x: i16, y: i16, width: u16, height: u16)
        ensures
            final(self).profile == old(self).profile,
            final(self).global == old(self).global,
            character_name@.len() == 0 ==> final(self).character_positions == old(
                self,
            ).character_positions,
            character_name@.len() > 0 ==> forall|k: Seq<char>|
                final(self).character_positions.spec_get(k) == (if k == character_name@ {
                    Some(
                        CharacterSettings {
                            x,
                            y,
                            dimensions: crate::geom::Dimensions { width, height },
                        },
                    )
                } else {
                    old(self).character_positions.spec_get(k)
                }),
    {
        let owned = character_name.to_owned();
        if owned.unicode_len() != 0 {
            let settings = CharacterSettings::new(x, y, width, height);
            self.character_positions.insert(owned, settings);
        }
    }

    /// Record an identity change on a window: save the departing entity's
    /// position and size under its name (nothing for an empty name), then
    /// look the arriving entity up.  Returns the arriving entity's saved
    /// position when it has one — the thumbnail moves there — and `None`
    /// otherwise, which keeps the current position.  The caller persists
    /// the table afterwards.
    pub fn handle_character_change(
        &mut self,
        old_name: &str,
        new_name: &str,
        current_position: Position,
        current_width: u16,
        current_height: u16,
    ) -> (r: Option<Position>)
        ensures
            final(self).profile == old(self).profile,
            final(self).global == old(self).global,
            old_name@.len() == 0 ==> final(self).character_positions == old(
                self,
            ).character_positions,
            old_name@.len() > 0 ==> forall|k: Seq<char>|
                final(self).character_positions.spec_get(k) == (if k == old_name@ {
                    Some(
                        CharacterSettings {
                            x: current_position.x,
                            y: current_position.y,
                            dimensions: crate::geom::Dimensions {
                                width: current_width,
                                height: current_height,
                            },
                        },
                    )
                } else {
                    old(self).character_positions.spec_get(k)
                }),
            r == (if new_name@.len() > 0 {
                match final(self).character_positions.spec_get(new_name@) {
                    Some(s) => Some(Position { x: s.x, y: s.y }),
                    None => None,
                }
            } else {
                None
            }),
    {
        let owned_old = old_name.to_owned();
        if owned_old.unicode_len() != 0 {
            let settings = CharacterSettings::new(
                current_position.x,
                current_position.y,
                current_width,
                current_height,
            );
            self.character_positions.insert(owned_old, settings);
        }
        let owned_new = new_name.to_owned();
        if owned_new.unicode_len() != 0 {
            match self.character_positions.get(&owned_new) {
                Some(settings) => Some(Position { x: settings.x, y: settings.y }),
                None => None,
            }
        } else {
            None
        }
    }
}

} // verus!
