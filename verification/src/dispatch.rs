//! Event-dispatch decisions: how one protocol event changes the registry of
//! live thumbnails and which operations follow.
//!
//! The unverified shell owns the event loop: it waits for protocol events,
//! queries live geometry, and executes the returned plans.  Every decision —
//! which thumbnail an event touches, the focus and visibility policy, drag
//! arithmetic with snapping, what a new thumbnail gets — is made here.

use vstd::prelude::*;
use crate::config::PersistentState;
use crate::geom::{Dimensions, Position};
use crate::session::{spec_resolved_position, SavedState};
use crate::snap::{find_snap_position, spec_snap_position, Rect};
use crate::thumbnail::{InputState, RenderOp, Thumbnail, ThumbnailState};

verus! {

/// First index at or after `i` whose thumbnail carries this damage handle.
pub open spec fn first_damage_from(s: Seq<Thumbnail>, damage: u32, i: int) -> int
    decreases s.len() - i,
{
    if i < 0 || i >= s.len() {
        -1
    } else if s[i].damage == damage {
        i
    } else {
        first_damage_from(s, damage, i + 1)
    }
}

/// First index at or after `i` whose thumbnail previews this source window.
pub open spec fn first_source_from(s: Seq<Thumbnail>, src: u32, i: int) -> int
    decreases s.len() - i,
{
    if i < 0 || i >= s.len() {
        -1
    } else if s[i].src == src {
        i
    } else {
        first_source_from(s, src, i + 1)
    }
}

/// A root-space point falls inside a rectangle (edges inclusive).
pub open spec fn spec_hit(g: Rect, x: i16, y: i16) -> bool {
    g.x <= x && x <= g.spec_right() && g.y <= y && y <= g.spec_bottom()
}

/// First index at or after `i` of a visible thumbnail the point falls on,
/// judged against the parallel list of live geometries.
pub open spec fn first_hit_from(s: Seq<Thumbnail>, geoms: Seq<Rect>, x: i16, y: i16, i: int) -> int
    decreases s.len() - i,
{
    if i < 0 || i >= s.len() {
        -1
    } else if s[i].visible && spec_hit(geoms[i], x, y) {
        i
    } else {
        first_hit_from(s, geoms, x, y, i + 1)
    }
}

/// First index at or after `i` of a thumbnail the point falls on, visible
/// or not (as release events are judged).
pub open spec fn first_hit_any_from(
    s: Seq<Thumbnail>,
    geoms: Seq<Rect>,
    x: i16,
    y: i16,
    i: int,
) -> int
    decreases s.len() - i,
{
    if i < 0 || i >= s.len() {
        -1
    } else if spec_hit(geoms[i], x, y) {
        i
    } else {
        first_hit_any_from(s, geoms, x, y, i + 1)
    }
}

proof fn lemma_first_damage_step(s: Seq<Thumbnail>, damage: u32, k: int, i: int)
    requires
        0 <= k <= i <= s.len(),
        forall|j: int| k <= j < i ==> (#[trigger] s[j]).damage != damage,
    ensures
        first_damage_from(s, damage, k) == first_damage_from(s, damage, i),
    decreases i - k,
{
    if k < i {
        lemma_first_damage_step(s, damage, k + 1, i);
    }
}

proof fn lemma_first_source_step(s: Seq<Thumbnail>, src: u32, k: int, i: int)
    requires
        0 <= k <= i <= s.len(),
        forall|j: int| k <= j < i ==> (#[trigger] s[j]).src != src,
    ensures
        first_source_from(s, src, k) == first_source_from(s, src, i),
    decreases i - k,
{
    if k < i {
        lemma_first_source_step(s, src, k + 1, i);
    }
}

proof fn lemma_first_hit_step(s: Seq<Thumbnail>, geoms: Seq<Rect>, x: i16, y: i16, k: int, i: int)
    requires
        0 <= k <= i <= s.len(),
        forall|j: int| k <= j < i ==> !((#[trigger] s[j]).visible && spec_hit(geoms[j], x, y)),
    ensures
        first_hit_from(s, geoms, x, y, k) == first_hit_from(s, geoms, x, y, i),
    decreases i - k,
{
    if k < i {
        lemma_first_hit_step(s, geoms, x, y, k + 1, i);
    }
}

proof fn lemma_first_hit_any_step(
    s: Seq<Thumbnail>,
    geoms: Seq<Rect>,
    x: i16,
    y: i16,
    k: int,
    i: int,
)
    requires
        0 <= k <= i <= s.len(),
        forall|j: int| k <= j < i ==> !spec_hit(#[trigger] geoms[j], x, y),
    ensures
        first_hit_any_from(s, geoms, x, y, k) == first_hit_any_from(s, geoms, x, y, i),
    decreases i - k,
{
    if k < i {
        lemma_first_hit_any_step(s, geoms, x, y, k + 1, i);
    }
}

/// Find the thumbnail a damage notification belongs to.
pub fn find_by_damage(regs: &Vec<Thumbnail>, damage: u32) -> (r: Option<usize>)
    ensures
        match r {
            Some(i) => i == first_damage_from(regs@, damage, 0) && i < regs@.len()
                && regs@[i as int].damage == damage,
            None => first_damage_from(regs@, damage, 0) == -1,
        },
{
    let n = regs.len();
    let mut i: usize = 0;
    while i < n
        invariant
            0 <= i <= n,
            n == regs@.len(),
            forall|j: int| 0 <= j < i ==> (#[trigger] regs@[j]).damage != damage,
        decreases n - i,
    {
        if regs[i].damage == damage {
            proof {
                lemma_first_damage_step(regs@, damage, 0, i as int);
            }
            return Some(i);
        }
        i = i + 1;
    }
    proof {
        lemma_first_damage_step(regs@, damage, 0, n as int);
    }
    None
}

/// Find the thumbnail that previews a source window.
pub fn find_by_source(regs: &Vec<Thumbnail>, src: u32) -> (r: Option<usize>)
    ensures
        match r {
            Some(i) => i == first_source_from(regs@, src, 0) && i < regs@.len()
                && regs@[i as int].src == src,
            None => first_source_from(regs@, src, 0) == -1,
        },
{
    let n = regs.len();
    let mut i: usize = 0;
    while i < n
        invariant
            0 <= i <= n,
            n == regs@.len(),
            forall|j: int| 0 <= j < i ==> (#[trigger] regs@[j]).src != src,
        decreases n - i,
    {
        if regs[i].src == src {
            proof {
                lemma_first_source_step(regs@, src, 0, i as int);
            }
            return Some(i);
        }
        i = i + 1;
    }
    proof {
        lemma_first_source_step(regs@, src, 0, n as int);
    }
    None
}

/// Take the thumbnail of a destroyed source window out of the registry so
/// its resources can be released; the rest keep their order.
pub fn remove_thumbnail(regs: &mut Vec<Thumbnail>, src: u32) -> (r: Option<Thumbnail>)
    ensures
        ({
            let i = first_source_from(old(regs)@, src, 0);
            match r {
                Some(t) => i >= 0 && t == old(regs)@[i] && t.src == src && final(regs)@ == old(
                    regs,
                )@.remove(i),
                None => i == -1 && final(regs)@ == old(regs)@,
            }
        }),
{
    match find_by_source(regs, src) {
        Some(i) => {
            let t = regs.remove(i);
            Some(t)
        },
        None => None,
    }
}

/// Focus arrived on a source window: its thumbnail (if any) becomes focused
/// normal — also leaving the minimized state — and, under the
/// hide-when-unfocused policy, every hidden thumbnail must be shown again.
/// Returns the index of the focused thumbnail and whether the shell must
/// now show all thumbnails.
pub fn handle_focus_in(regs: &mut Vec<Thumbnail>, src: u32, hide_when_no_focus: bool) -> (r: (
    Option<usize>,
    bool,
))
    ensures
        ({
            let i = first_source_from(old(regs)@, src, 0);
            match r.0 {
                Some(idx) => i >= 0 && idx == i && final(regs)@ == old(regs)@.update(
                    i,
                    Thumbnail { state: ThumbnailState::Normal { focused: true }, ..old(regs)@[i] },
                ),
                None => i == -1 && final(regs)@ == old(regs)@,
            }
        }),
        r.1 == (r.0 is Some && hide_when_no_focus && exists|j: int|
            0 <= j < old(regs)@.len() && !(#[trigger] old(regs)@[j]).visible),
{
    match find_by_source(regs, src) {
        Some(i) => {
            let ghost before = regs@;
            let mut t = regs.remove(i);
            t.state = ThumbnailState::Normal { focused: true };
            regs.insert(i, t);
            proof {
                assert(regs@ =~= before.update(
                    i as int,
                    Thumbnail {
                        state: ThumbnailState::Normal { focused: true },
                        ..before[i as int]
                    },
                ));
            }
            let show_all = if hide_when_no_focus {
                let mut any_hidden = false;
                let n = regs.len();
                let mut j: usize = 0;
                while j < n
                    invariant
                        0 <= j <= n,
                        n == regs@.len(),
                        regs@.len() == before.len(),
                        forall|k: int|
                            0 <= k < regs@.len() ==> (#[trigger] regs@[k]).visible
                                == before[k].visible,
                        any_hidden == exists|k: int| 0 <= k < j && !(#[trigger] before[k]).visible,
                    decreases n - j,
                {
                    if !regs[j].visible {
                        any_hidden = true;
                    }
                    j = j + 1;
                }
                any_hidden
            } else {
                false
            };
            (Some(i), show_all)
        },
        None => (None, false),
    }
}

/// Focus left a source window: its thumbnail (if any) becomes unfocused
/// normal and, under the hide-when-unfocused policy, if no thumbnail
/// remains focused or minimized, all must be hidden.  Returns the index of
/// the unfocused thumbnail and whether the shell must now hide all.
pub fn handle_focus_out(regs: &mut Vec<Thumbnail>, src: u32, hide_when_no_focus: bool) -> (r: (
    Option<usize>,
    bool,
))
    ensures
        ({
            let i = first_source_from(old(regs)@, src, 0);
            match r.0 {
                Some(idx) => i >= 0 && idx == i && final(regs)@ == old(regs)@.update(
                    i,
                    Thumbnail { state: ThumbnailState::Normal { focused: false }, ..old(regs)@[i] },
                ),
                None => i == -1 && final(regs)@ == old(regs)@,
            }
        }),
        r.1 == (r.0 is Some && hide_when_no_focus && forall|j: int|
            0 <= j < final(regs)@.len() ==> !(#[trigger] final(regs)@[j]).state.spec_is_focused()
                && !final(regs)@[j].state.spec_is_minimized()),
{
    match find_by_source(regs, src) {
        Some(i) => {
            let ghost before = regs@;
            let mut t = regs.remove(i);
            t.state = ThumbnailState::Normal { focused: false };
            regs.insert(i, t);
            let ghost updated = before.update(
                i as int,
                Thumbnail {
                    state: ThumbnailState::Normal { focused: false },
                    ..before[i as int]
                },
            );
            proof {
                assert(regs@ =~= updated);
            }
            let hide_all = if hide_when_no_focus {
                let mut none_active = true;
                let n = regs.len();
                let mut j: usize = 0;
                while j < n
                    invariant
                        0 <= j <= n,
                        n == regs@.len(),
                        regs@ == updated,
                        none_active == forall|k: int|
                            0 <= k < j ==> !(#[trigger] regs@[k]).state.spec_is_focused()
                                && !regs@[k].state.spec_is_minimized(),
                    decreases n - j,
                {
                    let focused = regs[j].state.is_focused();
                    let minimized = regs[j].state.is_minimized();
                    if focused || minimized {
                        none_active = false;
                    }
                    j = j + 1;
                }
                none_active
            } else {
                false
            };
            (Some(i), hide_all)
        },
        None => (None, false),
    }
}

/// Ops that switch every thumbnail to the requested visibility (nothing for
/// those already there), in registry order.
pub open spec fn spec_visibility_ops(s: Seq<Thumbnail>, visible: bool) -> Seq<RenderOp>
    decreases s.len(),
{
    if s.len() == 0 {
        Seq::empty()
    } else {
        spec_visibility_ops(s.drop_last(), visible) + (if s.last().visible == visible {
            Seq::<RenderOp>::empty()
        } else if visible {
            seq![RenderOp::MapWindow { window: s.last().window }]
        } else {
            seq![RenderOp::UnmapWindow { window: s.last().window }]
        })
    }
}

/// Apply the global visibility policy: set every thumbnail to the requested
/// visibility and plan the map or unmap of each one that changed.
pub fn set_all_visibility(regs: &mut Vec<Thumbnail>, visible: bool) -> (r: Vec<RenderOp>)
    ensures
        final(regs)@.len() == old(regs)@.len(),
        forall|j: int|
            0 <= j < old(regs)@.len() ==> final(regs)@[j] == (Thumbnail {
                visible,
                ..old(regs)@[j]
            }),
        r@ == spec_visibility_ops(old(regs)@, visible),
{
    let n = regs.len();
    let mut ops: Vec<RenderOp> = Vec::new();
    let mut i: usize = 0;
    while i < n
        invariant
            0 <= i <= n,
            n == regs@.len(),
            regs@.len() == old(regs)@.len(),
            forall|j: int| i <= j < regs@.len() ==> regs@[j] == old(regs)@[j],
            forall|j: int| 0 <= j < i ==> regs@[j] == (Thumbnail { visible, ..old(regs)@[j] }),
            ops@ == spec_visibility_ops(old(regs)@.take(i as int), visible),
        decreases n - i,
    {
        let mut t = regs.remove(i);
        let mut tail = t.visibility(visible);
        ops.append(&mut tail);
        regs.insert(i, t);
        proof {
            assert(old(regs)@.take(i + 1).drop_last() =~= old(regs)@.take(i as int));
            assert(old(regs)@.take(i + 1).last() == old(regs)@[i as int]);
            assert(ops@ =~= spec_visibility_ops(old(regs)@.take(i + 1), visible));
        }
        i = i + 1;
    }
    proof {
        assert(old(regs)@.take(n as int) =~= old(regs)@);
    }
    ops
}

/// What a button press decides.
#[derive(Debug, Clone, Copy, PartialEq, Eq, Structural)]
pub struct PressAction {
    /// Which thumbnail was hit.
    pub index: usize,
    /// The click button: anchor the cycle cursor on this entity.
    pub set_current: bool,
    /// The drag button: a drag begins.
    pub begin_drag: bool,
}

/// A button went down at a root-space point.  The first visible thumbnail
/// under the pointer (judged by live geometry) records the pointer and its
/// own position; the drag button starts a drag, the click button asks the
/// caller to anchor the cycle cursor on this entity.
pub fn handle_button_press(
    regs: &mut Vec<Thumbnail>,
    root_x: i16,
    root_y: i16,
    button: u8,
    geoms: &Vec<Rect>,
) -> (r: Option<PressAction>)
    requires
        geoms@.len() == old(regs)@.len(),
        forall|j: int| 0 <= j < geoms@.len() ==> (#[trigger] geoms@[j]).wf(),
    ensures
        ({
            let i = first_hit_from(old(regs)@, geoms@, root_x, root_y, 0);
            match r {
                Some(a) => {
                    &&& i >= 0
                    &&& a.index == i
                    &&& a.set_current == (button == 1)
                    &&& a.begin_drag == (button == 3)
                    &&& final(regs)@ == old(regs)@.update(
                        i,
                        Thumbnail {
                            input_state: InputState {
                                dragging: old(regs)@[i].input_state.dragging || button == 3,
                                drag_start: Position { x: root_x, y: root_y },
                                win_start: Position { x: geoms@[i].x, y: geoms@[i].y },
                            },
                            ..old(regs)@[i]
                        },
                    )
                },
                None => i == -1 && final(regs)@ == old(regs)@,
            }
        }),
{
    let n = regs.len();
    let mut i: usize = 0;
    while i < n
        invariant
            0 <= i <= n,
            n == regs@.len(),
            regs@ == old(regs)@,
            geoms@.len() == regs@.len(),
            forall|j: int| 0 <= j < geoms@.len() ==> (#[trigger] geoms@[j]).wf(),
            forall|j: int|
                0 <= j < i ==> !((#[trigger] regs@[j]).visible && spec_hit(
                    geoms@[j],
                    root_x,
                    root_y,
                )),
        decreases n - i,
    {
        let g = geoms[i];
        let visible = regs[i].visible;
        let hovered = regs[i].is_hovered(root_x, root_y, g);
        if visible && hovered {
            proof {
                lemma_first_hit_step(old(regs)@, geoms@, root_x, root_y, 0, i as int);
            }
            let ghost before = regs@;
            let mut t = regs.remove(i);
            t.input_state.drag_start = Position { x: root_x, y: root_y };
            t.input_state.win_start = Position { x: g.x, y: g.y };
            if button == 3 {
                t.input_state.dragging = true;
            }
            regs.insert(i, t);
            proof {
                assert(regs@ =~= before.update(
                    i as int,
                    Thumbnail {
                        input_state: InputState {
                            dragging: before[i as int].input_state.dragging || button == 3,
                            drag_start: Position { x: root_x, y: root_y },
                            win_start: Position { x: geoms@[i as int].x, y: geoms@[i as int].y },
                        },
                        ..before[i as int]
                    },
                ));
            }
            return Some(
                PressAction { index: i, set_current: button == 1, begin_drag: button == 3 },
            );
        }
        i = i + 1;
    }
    proof {
        lemma_first_hit_step(old(regs)@, geoms@, root_x, root_y, 0, n as int);
    }
    None
}

/// What a button release decides.
#[derive(Debug, Clone, Copy, PartialEq, Eq, Structural)]
pub struct ReleaseAction {
    /// Which thumbnail was hit.
    pub index: usize,
    /// The click button was released on it: request focus for its source.
    pub focus: bool,
    /// A drag just ended here: persist this position (the thumbnail's
    /// live-queried place) durably and in the session cache.
    pub save_position: Option<Position>,
}

/// A button came up at a root-space point.  On the first thumbnail under
/// the pointer: the click button requests focus; if a drag was live, its
/// final live-queried position must be persisted; the drag flag clears.
pub fn handle_button_release(
    regs: &mut Vec<Thumbnail>,
    root_x: i16,
    root_y: i16,
    button: u8,
    geoms: &Vec<Rect>,
) -> (r: Option<ReleaseAction>)
    requires
        geoms@.len() == old(regs)@.len(),
        forall|j: int| 0 <= j < geoms@.len() ==> (#[trigger] geoms@[j]).wf(),
    ensures
        ({
            let i = first_hit_any_from(old(regs)@, geoms@, root_x, root_y, 0);
            match r {
                Some(a) => {
                    &&& i >= 0
                    &&& a.index == i
                    &&& a.focus == (button == 1)
                    &&& a.save_position == (if old(regs)@[i].input_state.dragging {
                        Some(Position { x: geoms@[i].x, y: geoms@[i].y })
                    } else {
                        None
                    })
                    &&& final(regs)@ == old(regs)@.update(
                        i,
                        Thumbnail {
                            input_state: InputState {
                                dragging: false,
                                ..old(regs)@[i].input_state
                            },
                            ..old(regs)@[i]
                        },
                    )
                },
                None => i == -1 && final(regs)@ == old(regs)@,
            }
        }),
{
    let n = regs.len();
    let mut i: usize = 0;
    while i < n
        invariant
            0 <= i <= n,
            n == regs@.len(),
            regs@ == old(regs)@,
            geoms@.len() == regs@.len(),
            forall|j: int| 0 <= j < geoms@.len() ==> (#[trigger] geoms@[j]).wf(),
            forall|j: int| 0 <= j < i ==> !spec_hit(#[trigger] geoms@[j], root_x, root_y),
        decreases n - i,
    {
        let g = geoms[i];
        let hovered = regs[i].is_hovered(root_x, root_y, g);
        if hovered {
            proof {
                lemma_first_hit_any_step(old(regs)@, geoms@, root_x, root_y, 0, i as int);
            }
            let ghost before = regs@;
            let was_dragging = regs[i].input_state.dragging;
            let mut t = regs.remove(i);
            t.input_state.dragging = false;
            regs.insert(i, t);
            proof {
                assert(regs@ =~= before.update(
                    i as int,
                    Thumbnail {
                        input_state: InputState {
                            dragging: false,
                            ..before[i as int].input_state
                        },
                        ..before[i as int]
                    },
                ));
            }
            let save_position = if was_dragging {
                Some(Position { x: g.x, y: g.y })
            } else {
                None
            };
            return Some(ReleaseAction { index: i, focus: button == 1, save_position });
        }
        i = i + 1;
    }
    proof {
        lemma_first_hit_any_step(old(regs)@, geoms@, root_x, root_y, 0, n as int);
    }
    None
}

/// The snap peers of a drag: every visible, non-dragging thumbnail, as its
/// preview window with its live-queried corner and configured size.
pub open spec fn spec_snap_peers(s: Seq<Thumbnail>, geoms: Seq<Rect>) -> Seq<(u32, Rect)>
    decreases s.len(),
{
    if s.len() == 0 {
        Seq::empty()
    } else {
        spec_snap_peers(s.drop_last(), geoms.take(s.len() - 1)) + (if !s.last().input_state.dragging
            && s.last().visible {
            seq![
                (
                    s.last().window,
                    Rect {
                        x: geoms.last().x,
                        y: geoms.last().y,
                        width: s.last().dimensions.width,
                        height: s.last().dimensions.height,
                    },
                ),
            ]
        } else {
            Seq::<(u32, Rect)>::empty()
        })
    }
}

/// Gather the peers a dragged thumbnail may snap against.
pub fn collect_snap_peers(regs: &Vec<Thumbnail>, geoms: &Vec<Rect>) -> (r: Vec<(u32, Rect)>)
    requires
        geoms@.len() == regs@.len(),
    ensures
        r@ == spec_snap_peers(regs@, geoms@),
{
    let n = regs.len();
    let mut out: Vec<(u32, Rect)> = Vec::new();
    let mut i: usize = 0;
    while i < n
        invariant
            0 <= i <= n,
            n == regs@.len(),
            geoms@.len() == regs@.len(),
            out@ == spec_snap_peers(regs@.take(i as int), geoms@.take(i as int)),
        decreases n - i,
    {
        let t = &regs[i];
        if !t.input_state.dragging && t.visible {
            let g = geoms[i];
            out.push(
                (
                    t.window,
                    Rect {
                        x: g.x,
                        y: g.y,
                        width: t.dimensions.width,
                        height: t.dimensions.height,
                    },
                ),
            );
        }
        proof {
            assert(regs@.take(i + 1).drop_last() =~= regs@.take(i as int));
            assert(geoms@.take(i + 1).take(regs@.take(i + 1).len() - 1) =~= geoms@.take(i as int));
            assert(regs@.take(i + 1).last() == regs@[i as int]);
            assert(geoms@.take(i + 1).last() == geoms@[i as int]);
            assert(out@ =~= spec_snap_peers(regs@.take(i + 1), geoms@.take(i + 1)));
        }
        i = i + 1;
    }
    proof {
        assert(regs@.take(n as int) =~= regs@);
        assert(geoms@.take(n as int) =~= geoms@);
    }
    out
}

/// The place a dragging thumbnail moves to for a pointer position: its
/// window-start corner shifted by the pointer's travel, then snapped
/// against the peers.  `None` for a thumbnail that is not dragging.
pub fn drag_target(
    t: &Thumbnail,
    root_x: i16,
    root_y: i16,
    others: &[(u32, Rect)],
    threshold: u16,
) -> (r: Option<(i16, i16)>)
    requires
        t.wf(),
        i16::MIN <= t.input_state.win_start.x + root_x - t.input_state.drag_start.x,
        t.input_state.win_start.x + root_x - t.input_state.drag_start.x + threshold <= i16::MAX,
        i16::MIN + threshold <= t.input_state.win_start.x + root_x - t.input_state.drag_start.x,
        i16::MIN <= t.input_state.win_start.y + root_y - t.input_state.drag_start.y,
        t.input_state.win_start.y + root_y - t.input_state.drag_start.y + threshold <= i16::MAX,
        i16::MIN + threshold <= t.input_state.win_start.y + root_y - t.input_state.drag_start.y,
        t.input_state.win_start.x + root_x - t.input_state.drag_start.x + t.dimensions.width
            <= i16::MAX,
        t.input_state.win_start.y + root_y - t.input_state.drag_start.y + t.dimensions.height
            <= i16::MAX,
        forall|i: int| 0 <= i < others@.len() ==> (#[trigger] others@[i].1).wf(),
    ensures
        ({
            let nx = t.input_state.win_start.x + root_x - t.input_state.drag_start.x;
            let ny = t.input_state.win_start.y + root_y - t.input_state.drag_start.y;
            let dragged = Rect {
                x: nx as i16,
                y: ny as i16,
                width: t.dimensions.width,
                height: t.dimensions.height,
            };
            match r {
                Some(p) => t.input_state.dragging && (match spec_snap_position(
                    dragged,
                    others@.map_values(|q: (u32, Rect)| q.1),
                    threshold as int,
                ) {
                    Some(s) => p.0 == s.0 && p.1 == s.1,
                    None => p.0 == nx && p.1 == ny,
                }),
                None => !t.input_state.dragging,
            }
        }),
{
    if !t.input_state.dragging {
        return None;
    }
    let dx: i32 = root_x as i32 - t.input_state.drag_start.x as i32;
    let dy: i32 = root_y as i32 - t.input_state.drag_start.y as i32;
    let nx: i16 = (t.input_state.win_start.x as i32 + dx) as i16;
    let ny: i16 = (t.input_state.win_start.y as i32 + dy) as i16;
    let dragged = Rect { x: nx, y: ny, width: t.dimensions.width, height: t.dimensions.height };
    match find_snap_position(dragged, others, threshold) {
        Some(p) => Some(p),
        None => Some((nx, ny)),
    }
}

/// What a newly classified target window gets: its spawn position, resolved
/// through the session rules, and its thumbnail size — the entity's saved
/// size when one is recorded and non-zero, the configured default
/// otherwise.
pub fn resolve_creation(
    persistent: &PersistentState,
    session: &SavedState,
    character_name: &str,
    window: u32,
    screen_w: u16,
    screen_h: u16,
) -> (r: (Option<Position>, Dimensions))
    ensures
        r.0 == spec_resolved_position(
            session.window_positions,
            character_name@,
            window,
            persistent.character_positions,
            persistent.global.preserve_thumbnail_position_on_swap,
        ),
        r.1 == (match persistent.character_positions.spec_get(character_name@) {
            Some(s) => if s.dimensions.width != 0 && s.dimensions.height != 0 {
                s.dimensions
            } else {
                Dimensions {
                    width: persistent.global.default_thumbnail_width,
                    height: persistent.global.default_thumbnail_height,
                }
            },
            None => Dimensions {
                width: persistent.global.default_thumbnail_width,
                height: persistent.global.default_thumbnail_height,
            },
        }),
{
    let position = session.get_position(
        character_name,
        window,
        &persistent.character_positions,
        persistent.global.preserve_thumbnail_position_on_swap,
    );
    let owned = character_name.to_owned();
    let dimensions = match persistent.character_positions.get(&owned) {
        Some(settings) => {
            if settings.dimensions.width != 0 && settings.dimensions.height != 0 {
                settings.dimensions
            } else {
                let (w, h) = persistent.default_thumbnail_size(screen_w, screen_h);
                Dimensions { width: w, height: h }
            }
        },
        None => {
            let (w, h) = persistent.default_thumbnail_size(screen_w, screen_h);
            Dimensions { width: w, height: h }
        },
    };
    (position, dimensions)
}

} // verus!
