//! State carried by the configuration manager's interface components.
//!
//! The widgets themselves belong to the unverified application; the values
//! they edit — dialog visibility, text buffers, the outcome of a profile
//! action — are plain data and live here.

use vstd::prelude::*;
use crate::geom::Dimensions;

verus! {

/// What the profile selector decided this round.
#[derive(Debug, Clone, Copy, PartialEq, Eq, Structural)]
pub enum ProfileAction {
    NoChange,
    SwitchProfile,
    ProfileCreated,
    ProfileDeleted,
    ProfileUpdated,
}

/// Dialog state of the profile selector: the name and description being
/// edited and which dialog, if any, is open.
#[derive(Debug)]
pub struct ProfileSelector {
    pub edit_profile_name: String,
    pub edit_profile_desc: String,
    pub show_new_dialog: bool,
    pub show_duplicate_dialog: bool,
    pub show_delete_confirm: bool,
    pub show_edit_dialog: bool,
}

impl ProfileSelector {
    pub fn new() -> (r: ProfileSelector)
        ensures
            r.edit_profile_name@.len() == 0,
            r.edit_profile_desc@.len() == 0,
            !r.show_new_dialog,
            !r.show_duplicate_dialog,
            !r.show_delete_confirm,
            !r.show_edit_dialog,
    {
        ProfileSelector {
            edit_profile_name: String::new(),
            edit_profile_desc: String::new(),
            show_new_dialog: false,
            show_duplicate_dialog: false,
            show_delete_confirm: false,
            show_edit_dialog: false,
        }
    }
}

/// State of the visual-settings panel: the pending resize-all request, the
/// size fields being edited, and the font list the shell discovered at
/// startup (with the discovery error, if the lookup failed).
#[derive(Debug)]
pub struct VisualSettingsState {
    pub show_resize_confirmation: bool,
    pub pending_resize_all: Option<Dimensions>,
    pub current_width: u16,
    pub current_height: u16,
    pub last_target: String,
    pub available_fonts: Vec<String>,
    pub font_load_error: Option<String>,
}

impl VisualSettingsState {
    /// Fresh panel state around the font list the shell discovered.
    pub fn new(available_fonts: Vec<String>, font_load_error: Option<String>) -> (r:
        VisualSettingsState)
        ensures
            !r.show_resize_confirmation,
            r.pending_resize_all is None,
            r.current_width == 250,
            r.current_height == 141,
            r.last_target@ == "---"@,
            r.available_fonts == available_fonts,
            r.font_load_error == font_load_error,
    {
        VisualSettingsState {
            show_resize_confirmation: false,
            pending_resize_all: None,
            current_width: 250,
            current_height: 141,
            last_target: "---".to_owned(),
            available_fonts,
            font_load_error,
        }
    }
}

} // verus!
