//! Hotkey decisions: which cycle command a key event yields, and whether a
//! command is acted on under the focus policy.
//!
//! The listener thread scans input devices and queries the device's current
//! key state when the cycle key goes down; both the command choice and the
//! focus check are decided here, on plain values.

use vstd::prelude::*;

verus! {

/// An abstract cycling command emitted by the hotkey listener.
#[derive(Debug, Clone, Copy, PartialEq, Eq, Structural)]
pub enum CycleCommand {
    Forward,
    Backward,
}

/// The command one key event produces: a press of the cycle key cycles,
/// backward when a shift modifier is held at that moment (the device's
/// current state, not a tracked flag, to avoid races in batched events).
pub fn command_for_key_event(is_cycle_key: bool, pressed: bool, shift_held: bool) -> (r: Option<
    CycleCommand,
>)
    ensures
        r == (if is_cycle_key && pressed {
            if shift_held {
                Some(CycleCommand::Backward)
            } else {
                Some(CycleCommand::Forward)
            }
        } else {
            None
        }),
{
    if is_cycle_key && pressed {
        if shift_held {
            Some(CycleCommand::Backward)
        } else {
            Some(CycleCommand::Forward)
        }
    } else {
        None
    }
}

/// Whether a cycle command should be acted on: always when no focus
/// requirement is configured; otherwise only when a target window is known
/// to be focused.
/// `None` means the focus query failed, which counts as not focused.
pub fn should_process_hotkey(require_eve_focus: bool, eve_focused: Option<bool>) -> (r: bool)
    ensures
        r == (!require_eve_focus || eve_focused == Some(true)),
{
    if require_eve_focus {
        match eve_focused {
            Some(f) => f,
            None => false,
        }
    } else {
        true
    }
}

} // verus!
