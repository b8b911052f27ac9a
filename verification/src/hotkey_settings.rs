//! The hotkey-order editor's state: the text buffer a user edits and the
//! exact correspondence between that buffer and a profile's cycle order.
//!
//! Loading joins the profile's names with newlines; saving splits the
//! buffer into lines, trims surrounding blanks from each, and keeps the
//! non-empty ones, in order.

use vstd::prelude::*;
use crate::config::Profile;

verus! {

/// Which editor the hotkey-order panel shows.
#[derive(Debug, Clone, Copy, PartialEq, Eq, Structural)]
pub enum EditorMode {
    TextEdit,
    DragDrop,
}

/// Blank characters trimmed from the ends of an edited name (the space,
/// tab, and carriage-return characters a text buffer can carry).
pub open spec fn is_blank(c: char) -> bool {
    c == ' ' || c == '\t' || c == '\r'
}

/// First index at or after `i` holding a non-blank character, or the
/// length when there is none.
pub open spec fn first_non_blank(s: Seq<char>, i: int) -> int
    decreases s.len() - i,
{
    if i < 0 || i >= s.len() {
        s.len() as int
    } else if !is_blank(s[i]) {
        i
    } else {
        first_non_blank(s, i + 1)
    }
}

/// End of the last non-blank character at or after `b`, scanning back from
/// `e`; `b` when everything in between is blank.
pub open spec fn last_non_blank(s: Seq<char>, e: int, b: int) -> int
    decreases e - b,
{
    if e <= b {
        b
    } else if !is_blank(s[e - 1]) {
        e
    } else {
        last_non_blank(s, e - 1, b)
    }
}

/// The string with blanks stripped from both ends.
pub open spec fn spec_trim(s: Seq<char>) -> Seq<char> {
    let b = first_non_blank(s, 0);
    s.subrange(b, last_non_blank(s, s.len() as int, b))
}

/// The fold that splits a buffer: the finished (trimmed, non-empty) names
/// so far and the line still being read.
pub open spec fn spec_groups_state(s: Seq<char>) -> (Seq<Seq<char>>, Seq<char>)
    decreases s.len(),
{
    if s.len() == 0 {
        (Seq::empty(), Seq::empty())
    } else {
        let prev = spec_groups_state(s.drop_last());
        let c = s.last();
        if c == '\n' {
            (
                if spec_trim(prev.1).len() > 0 {
                    prev.0.push(spec_trim(prev.1))
                } else {
                    prev.0
                },
                Seq::empty(),
            )
        } else {
            (prev.0, prev.1.push(c))
        }
    }
}

/// The names a buffer holds: one per line, trimmed, empties dropped.
pub open spec fn spec_cycle_names(s: Seq<char>) -> Seq<Seq<char>> {
    let full = spec_groups_state(s);
    if spec_trim(full.1).len() > 0 {
        full.0.push(spec_trim(full.1))
    } else {
        full.0
    }
}

/// The names joined with newlines, as the text editor shows them.
pub open spec fn spec_join_lines(names: Seq<Seq<char>>) -> Seq<char>
    decreases names.len(),
{
    if names.len() == 0 {
        Seq::empty()
    } else if names.len() == 1 {
        names[0]
    } else {
        spec_join_lines(names.drop_last()) + seq!['\n'] + names.last()
    }
}

proof fn lemma_first_non_blank_step(s: Seq<char>, k: int, i: int)
    requires
        0 <= k <= i <= s.len(),
        forall|j: int| k <= j < i ==> is_blank(#[trigger] s[j]),
    ensures
        first_non_blank(s, k) == first_non_blank(s, i),
    decreases i - k,
{
    if k < i {
        lemma_first_non_blank_step(s, k + 1, i);
    }
}

proof fn lemma_last_non_blank_step(s: Seq<char>, hi: int, lo: int, b: int)
    requires
        0 <= b <= lo <= hi <= s.len(),
        forall|j: int| lo <= j < hi ==> is_blank(#[trigger] s[j]),
    ensures
        last_non_blank(s, hi, b) == last_non_blank(s, lo, b),
    decreases hi - lo,
{
    if lo < hi {
        lemma_last_non_blank_step(s, hi - 1, lo, b);
    }
}

/// A copy of the string with surrounding blanks removed.
fn trim_owned(s: &str) -> (r: String)
    ensures
        r@ == spec_trim(s@),
{
    let n = s.unicode_len();
    let mut b: usize = 0;
    while b < n && is_blank_char(s.get_char(b))
        invariant
            0 <= b <= n,
            n == s@.len(),
            forall|j: int| 0 <= j < b ==> is_blank(#[trigger] s@[j]),
        decreases n - b,
    {
        b = b + 1;
    }
    proof {
        lemma_first_non_blank_step(s@, 0, b as int);
        assert(first_non_blank(s@, 0) == b as int);
    }
    let mut e: usize = n;
    while e > b && is_blank_char(s.get_char(e - 1))
        invariant
            b <= e <= n,
            n == s@.len(),
            forall|j: int| e <= j < n ==> is_blank(#[trigger] s@[j]),
        decreases e,
    {
        e = e - 1;
    }
    proof {
        lemma_last_non_blank_step(s@, n as int, e as int, b as int);
        assert(last_non_blank(s@, n as int, b as int) == e as int);
    }
    s.substring_char(b, e).to_owned()
}

fn is_blank_char(c: char) -> (r: bool)
    ensures
        r == is_blank(c),
{
    c == ' ' || c == '\t' || c == '\r'
}

/// State of the hotkey-order editor: the multiline buffer of entity names,
/// the one-line buffer for a new name, and the active editor mode.
#[derive(Debug)]
pub struct HotkeySettingsState {
    pub cycle_group_text: String,
    pub new_character_text: String,
    pub editor_mode: EditorMode,
}

impl HotkeySettingsState {
    pub fn new() -> (r: HotkeySettingsState)
        ensures
            r.cycle_group_text@.len() == 0,
            r.new_character_text@.len() == 0,
            r.editor_mode == EditorMode::DragDrop,
    {
        HotkeySettingsState {
            cycle_group_text: String::new(),
            new_character_text: String::new(),
            editor_mode: EditorMode::DragDrop,
        }
    }

    /// Fill the text buffer from the profile's cycle order, one name per
    /// line.
    pub fn load_from_profile(&mut self, profile: &Profile)
        ensures
            final(self).cycle_group_text@ == spec_join_lines(
                profile.cycle_group@.map_values(|x: String| x@),
            ),
            final(self).new_character_text == old(self).new_character_text,
            final(self).editor_mode == old(self).editor_mode,
    {
        let ghost names = profile.cycle_group@.map_values(|x: String| x@);
        let n = profile.cycle_group.len();
        let mut out = String::new();
        let mut i: usize = 0;
        while i < n
            invariant
                0 <= i <= n,
                n == profile.cycle_group@.len(),
                names == profile.cycle_group@.map_values(|x: String| x@),
                out@ == spec_join_lines(names.take(i as int)),
            decreases n - i,
        {
            if i > 0 {
                out.append("\n");
            }
            out.append(profile.cycle_group[i].as_str());
            proof {
                reveal_strlit("\n");
                assert(names.take(i + 1).drop_last() =~= names.take(i as int));
                assert(names.take(i + 1).last() == names[i as int]);
                if i > 0 {
                    assert(out@ =~= spec_join_lines(names.take(i as int)) + seq!['\n']
                        + names[i as int]);
                } else {
                    assert(out@ =~= names[0]);
                }
            }
            i = i + 1;
        }
        proof {
            assert(names.take(n as int) =~= names);
        }
        self.cycle_group_text = out;
    }

    /// Read the text buffer back into the profile's cycle order: one name
    /// per line, trimmed, empty lines dropped.
    pub fn save_to_profile(&self, profile: &mut Profile)
        ensures
            final(profile).cycle_group@.map_values(|x: String| x@) == spec_cycle_names(
                self.cycle_group_text@,
            ),
            final(profile).name == old(profile).name,
            final(profile).description == old(profile).description,
            final(profile).character_positions == old(profile).character_positions,
            final(profile).opacity_percent == old(profile).opacity_percent,
            final(profile).border_enabled == old(profile).border_enabled,
            final(profile).border_size == old(profile).border_size,
            final(profile).border_color == old(profile).border_color,
            final(profile).text_size == old(profile).text_size,
            final(profile).text_x == old(profile).text_x,
            final(profile).text_y == old(profile).text_y,
            final(profile).text_foreground == old(profile).text_foreground,
            final(profile).text_background == old(profile).text_background,
            final(profile).text_font_family == old(profile).text_font_family,
            final(profile).hide_when_no_focus == old(profile).hide_when_no_focus,
            final(profile).snap_threshold == old(profile).snap_threshold,
            final(profile).hotkey_require_eve_focus == old(profile).hotkey_require_eve_focus,
    {
        let s = self.cycle_group_text.as_str();
        let n = s.unicode_len();
        let mut done: Vec<String> = Vec::new();
        let mut seg_start: usize = 0;
        let mut i: usize = 0;
        while i < n
            invariant
                0 <= seg_start <= i <= n,
                n == s@.len(),
                s@ == self.cycle_group_text@,
                spec_groups_state(s@.take(i as int)).1 =~= s@.subrange(seg_start as int, i as int),
                done@.map_values(|x: String| x@) =~= spec_groups_state(s@.take(i as int)).0,
            decreases n - i,
        {
            let c = s.get_char(i);
            proof {
                assert(s@.take(i + 1).drop_last() =~= s@.take(i as int));
                assert(s@.take(i + 1).last() == s@[i as int]);
            }
            if c == '\n' {
                let trimmed = trim_owned(s.substring_char(seg_start, i));
                if trimmed.unicode_len() != 0 {
                    done.push(trimmed);
                    proof {
                        assert(done@.map_values(|x: String| x@) =~= spec_groups_state(
                            s@.take(i + 1),
                        ).0);
                    }
                }
                seg_start = i + 1;
                proof {
                    assert(spec_groups_state(s@.take(i + 1)).1 =~= s@.subrange(
                        i + 1,
                        i + 1,
                    ));
                }
            } else {
                proof {
                    assert(spec_groups_state(s@.take(i + 1)).1 =~= s@.subrange(
                        seg_start as int,
                        i + 1,
                    ));
                }
            }
            i = i + 1;
        }
        proof {
            assert(s@.take(n as int) =~= s@);
        }
        let trimmed = trim_owned(s.substring_char(seg_start, n));
        if trimmed.unicode_len() != 0 {
            done.push(trimmed);
            proof {
                assert(done@.map_values(|x: String| x@) =~= spec_cycle_names(s@));
            }
        } else {
            proof {
                assert(done@.map_values(|x: String| x@) =~= spec_cycle_names(s@));
            }
        }
        profile.cycle_group = done;
    }
}

impl Default for HotkeySettingsState {
    fn default() -> (r: HotkeySettingsState)
        ensures
            r.cycle_group_text@.len() == 0,
            r.new_character_text@.len() == 0,
            r.editor_mode == EditorMode::DragDrop,
    {
        HotkeySettingsState::new()
    }
}

} // verus!
