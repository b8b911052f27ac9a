//! Ephemeral, process-lifetime position cache and the resolution rule that
//! decides where a thumbnail spawns.
//!
//! Durable, entity-keyed positions always win; the per-window session cache
//! is only a fallback, for windows with no identity yet or (when the inherit
//! policy is on) for a new identity appearing in an already-positioned
//! window.

use vstd::prelude::*;
use crate::geom::{CharacterSettings, Position};
use crate::tables::{NameTable, WindowTable};

verus! {

/// Session-only state: last observed position per window handle.  Window
/// handles are ephemeral, so nothing here is ever persisted.
#[derive(Debug)]
pub struct SavedState {
    pub window_positions: WindowTable<Position>,
}

/// The spawn-position resolution rule.  In priority order: the durable
/// position of a named entity; the window's session position when a named
/// entity may inherit it; the window's session position for an unnamed
/// entity; otherwise nothing (the caller places the thumbnail by default).
pub open spec fn spec_resolved_position(
    session: WindowTable<Position>,
    name: Seq<char>,
    window: u32,
    durable: NameTable<CharacterSettings>,
    allow_inherit: bool,
) -> Option<Position> {
    if name.len() > 0 {
        match durable.spec_get(name) {
            Some(s) => Some(Position { x: s.x, y: s.y }),
            None => if allow_inherit {
                session.spec_get(window)
            } else {
                None
            },
        }
    } else {
        session.spec_get(window)
    }
}

impl SavedState {
    pub fn new() -> (r: SavedState)
        ensures
            r.window_positions.spec_len() == 0,
            forall|w: u32| r.window_positions.spec_get(w) is None,
    {
        SavedState { window_positions: WindowTable::new() }
    }

    /// Resolve the initial position for a thumbnail.  `character_name` is
    /// empty for a window with no identity yet; `allow_inherit` is the
    /// position-inheritance policy flag supplied by configuration.
    pub fn get_position(
        &self,
        character_name: &str,
        window: u32,
        character_positions: &NameTable<CharacterSettings>,
        allow_inherit: bool,
    ) -> (r: Option<Position>)
        ensures
            r == spec_resolved_position(
                self.window_positions,
                character_name@,
                window,
                *character_positions,
                allow_inherit,
            ),
    {
        let owned = character_name.to_owned();
        if owned.unicode_len() != 0 {
            match character_positions.get(&owned) {
                Some(settings) => Some(Position { x: settings.x, y: settings.y }),
                None => if allow_inherit {
                    self.window_positions.get(window)
                } else {
                    None
                },
            }
        } else {
            self.window_positions.get(window)
        }
    }

    /// Record the window's position in the session cache, overwriting any
    /// earlier entry; called after every drag release and identity change.
    pub fn update_window_position(&mut self, window: u32, x: i16, y: i16)
        ensures
            forall|w: u32|
                final(self).window_positions.spec_get(w) == (if w == window {
                    Some(Position { x, y })
                } else {
                    old(self).window_positions.spec_get(w)
                }),
    {
        self.window_positions.insert(window, Position { x, y });
    }
}

impl Default for SavedState {
    fn default() -> (r: SavedState)
        ensures
            r.window_positions.spec_len() == 0,
            forall|w: u32| r.window_positions.spec_get(w) is None,
    {
        SavedState::new()
    }
}

/// Recording a window's position and immediately resolving for an unnamed
/// entity on that window returns exactly the recorded position, whatever
/// the durable table holds.
pub proof fn lemma_session_round_trip(
    session: WindowTable<Position>,
    updated: WindowTable<Position>,
    window: u32,
    x: i16,
    y: i16,
    durable: NameTable<CharacterSettings>,
)
    requires
        // `updated` is the cache `update_window_position` leaves behind
        forall|w: u32|
            updated.spec_get(w) == (if w == window {
                Some(Position { x, y })
            } else {
                session.spec_get(w)
            }),
    ensures
        spec_resolved_position(updated, Seq::<char>::empty(), window, durable, false) == Some(
            Position { x, y },
        ),
{
}

/// A durable position for a named entity always wins: whatever the session
/// cache holds for the window, and whatever the inherit policy says,
/// resolution returns the durable entry's position.
pub proof fn lemma_durable_position_wins(
    session: WindowTable<Position>,
    name: Seq<char>,
    window: u32,
    durable: NameTable<CharacterSettings>,
    allow_inherit: bool,
)
    requires
        name.len() > 0,
        durable.spec_get(name) is Some,
    ensures
        spec_resolved_position(session, name, window, durable, allow_inherit) == (match durable.spec_get(
            name,
        ) {
            Some(s) => Some(Position { x: s.x, y: s.y }),
            None => None,
        }),
{
}

} // verus!
