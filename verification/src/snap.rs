//! Edge snapping for dragged thumbnails.
//!
//! A dragged rectangle is compared against every peer rectangle; for each
//! axis the closest pair of edges within the snap threshold wins (ties go to
//! the earliest candidate in discovery order), and the dragged rectangle's
//! corner is nudged so those edges align.  Axes without a qualifying pair
//! pass through unchanged.  A threshold of zero disables snapping entirely.

use vstd::prelude::*;

verus! {

/// Screen-space rectangle: top-left corner plus pixel dimensions.
#[derive(Debug, Clone, Copy, PartialEq, Eq, Structural)]
pub struct Rect {
    pub x: i16,
    pub y: i16,
    pub width: u16,
    pub height: u16,
}

impl Rect {
    /// All four edges are representable as `i16` coordinates.
    pub open spec fn wf(self) -> bool {
        self.x + self.width <= i16::MAX && self.y + self.height <= i16::MAX
    }

    pub open spec fn spec_right(self) -> int {
        self.x + self.width
    }

    pub open spec fn spec_bottom(self) -> int {
        self.y + self.height
    }

    pub fn left(&self) -> (r: i16)
        ensures
            r == self.x,
    {
        self.x
    }

    pub fn right(&self) -> (r: i16)
        requires
            self.wf(),
        ensures
            r == self.spec_right(),
    {
        let r: i32 = self.x as i32 + self.width as i32;
        r as i16
    }

    pub fn top(&self) -> (r: i16)
        ensures
            r == self.y,
    {
        self.y
    }

    pub fn bottom(&self) -> (r: i16)
        requires
            self.wf(),
        ensures
            r == self.spec_bottom(),
    {
        let r: i32 = self.y as i32 + self.height as i32;
        r as i16
    }
}

/// One qualifying edge alignment: the offset that would align the edges and
/// the distance between them.
struct SnapCandidate {
    offset: i32,
    distance: i32,
}

pub open spec fn abs_int(a: int) -> int {
    if a < 0 {
        -a
    } else {
        a
    }
}

/// How one edge pair updates the best candidate so far: a pair qualifies if
/// its distance is within the threshold, and replaces the current best only
/// if strictly closer (so the earliest of equals is kept).
pub open spec fn snap_step(best: Option<(int, int)>, edge: int, target: int, thr: int) -> Option<
    (int, int),
> {
    let d = abs_int(edge - target);
    match best {
        None => if d <= thr {
            Some((target - edge, d))
        } else {
            None
        },
        Some(b) => if d <= thr && d < b.1 {
            Some((target - edge, d))
        } else {
            Some(b)
        },
    }
}

/// The four horizontal edge pairs of one peer, in discovery order:
/// left-to-peer-right, right-to-peer-left, left alignment, right alignment.
pub open spec fn peer_step_x(best: Option<(int, int)>, dragged: Rect, o: Rect, thr: int) -> Option<
    (int, int),
> {
    let b1 = snap_step(best, dragged.x as int, o.spec_right(), thr);
    let b2 = snap_step(b1, dragged.spec_right(), o.x as int, thr);
    let b3 = snap_step(b2, dragged.x as int, o.x as int, thr);
    snap_step(b3, dragged.spec_right(), o.spec_right(), thr)
}

/// The four vertical edge pairs of one peer, in discovery order.
pub open spec fn peer_step_y(best: Option<(int, int)>, dragged: Rect, o: Rect, thr: int) -> Option<
    (int, int),
> {
    let b1 = snap_step(best, dragged.y as int, o.spec_bottom(), thr);
    let b2 = snap_step(b1, dragged.spec_bottom(), o.y as int, thr);
    let b3 = snap_step(b2, dragged.y as int, o.y as int, thr);
    snap_step(b3, dragged.spec_bottom(), o.spec_bottom(), thr)
}

/// Best horizontal candidate after scanning all peers in order.
pub open spec fn best_x(others: Seq<Rect>, dragged: Rect, thr: int) -> Option<(int, int)>
    decreases others.len(),
{
    if others.len() == 0 {
        None
    } else {
        peer_step_x(best_x(others.drop_last(), dragged, thr), dragged, others.last(), thr)
    }
}

/// Best vertical candidate after scanning all peers in order.
pub open spec fn best_y(others: Seq<Rect>, dragged: Rect, thr: int) -> Option<(int, int)>
    decreases others.len(),
{
    if others.len() == 0 {
        None
    } else {
        peer_step_y(best_y(others.drop_last(), dragged, thr), dragged, others.last(), thr)
    }
}

/// The snapped top-left corner, or `None` when no edge pair qualifies on
/// either axis (or snapping is disabled).
pub open spec fn spec_snap_position(dragged: Rect, others: Seq<Rect>, thr: int) -> Option<
    (int, int),
> {
    if thr == 0 {
        None
    } else {
        let bx = best_x(others, dragged, thr);
        let by = best_y(others, dragged, thr);
        if bx is None && by is None {
            None
        } else {
            let x = match bx {
                Some(c) => dragged.x + c.0,
                None => dragged.x as int,
            };
            let y = match by {
                Some(c) => dragged.y + c.0,
                None => dragged.y as int,
            };
            Some((x, y))
        }
    }
}

/// Fold one edge pair into the best candidate so far.
fn check_snap(best: &mut Option<SnapCandidate>, edge: i32, target: i32, threshold: i32) -> (r: ())
    requires
        -65536 <= edge <= 65536,
        -65536 <= target <= 65536,
        0 <= threshold <= 65536,
        match *old(best) {
            Some(c) => 0 <= c.distance && -131072 <= c.offset <= 131072,
            None => true,
        },
    ensures
        cand_of(*final(best)) == snap_step(cand_of(*old(best)), edge as int, target as int, threshold as int),
        match *final(best) {
            Some(c) => 0 <= c.distance && -131072 <= c.offset <= 131072,
            None => true,
        },
{
    let diff: i32 = edge - target;
    let distance: i32 = if diff < 0 {
        -diff
    } else {
        diff
    };
    if distance <= threshold {
        let replace = match best {
            Some(b) => distance < b.distance,
            None => true,
        };
        if replace {
            *best = Some(SnapCandidate { offset: target - edge, distance });
        }
    }
}

/// Mathematical view of the running best candidate.
spec fn cand_of(c: Option<SnapCandidate>) -> Option<(int, int)> {
    match c {
        Some(b) => Some((b.offset as int, b.distance as int)),
        None => None,
    }
}

/// Find the best snap position for a dragged thumbnail against its peers.
/// Returns the snapped top-left corner if any edge pair qualifies on either
/// axis, `None` otherwise; a zero threshold disables snapping.
pub fn find_snap_position(dragged: Rect, others: &[(u32, Rect)], threshold: u16) -> (r: Option<
    (i16, i16),
>)
    requires
        dragged.wf(),
        forall|i: int| 0 <= i < others@.len() ==> (#[trigger] others@[i].1).wf(),
        dragged.x - threshold >= i16::MIN,
        dragged.x + threshold <= i16::MAX,
        dragged.y - threshold >= i16::MIN,
        dragged.y + threshold <= i16::MAX,
    ensures
        (match r {
            Some(p) => Some((p.0 as int, p.1 as int)),
            None => None,
        }) == spec_snap_position(dragged, others@.map_values(|p: (u32, Rect)| p.1), threshold as int),
{
    let ghost peers = others@.map_values(|p: (u32, Rect)| p.1);
    if threshold == 0 {
        return None;  // snapping disabled
    }
    let mut bx: Option<SnapCandidate> = None;
    let mut by: Option<SnapCandidate> = None;
    let thr: i32 = threshold as i32;
    let dl: i32 = dragged.x as i32;
    let dr: i32 = dragged.x as i32 + dragged.width as i32;
    let dt: i32 = dragged.y as i32;
    let db: i32 = dragged.y as i32 + dragged.height as i32;

    let mut i: usize = 0;
    while i < others.len()
        invariant
            0 <= i <= others@.len(),
            peers == others@.map_values(|p: (u32, Rect)| p.1),
            peers.len() == others@.len(),
            forall|j: int| 0 <= j < others@.len() ==> (#[trigger] others@[j].1).wf(),
            dragged.wf(),
            1 <= thr <= 65535,
            dl == dragged.x as int,
            dr == dragged.spec_right(),
            dt == dragged.y as int,
            db == dragged.spec_bottom(),
            cand_of(bx) == best_x(peers.take(i as int), dragged, thr as int),
            cand_of(by) == best_y(peers.take(i as int), dragged, thr as int),
            match bx {
                Some(c) => 0 <= c.distance && -131072 <= c.offset <= 131072,
                None => true,
            },
            match by {
                Some(c) => 0 <= c.distance && -131072 <= c.offset <= 131072,
                None => true,
            },
        decreases others@.len() - i,
    {
        let o = others[i].1;
        let ol: i32 = o.x as i32;
        let or: i32 = o.x as i32 + o.width as i32;
        let ot: i32 = o.y as i32;
        let ob: i32 = o.y as i32 + o.height as i32;

        // Horizontal pairs.
        check_snap(&mut bx, dl, or, thr);
        check_snap(&mut bx, dr, ol, thr);
        check_snap(&mut bx, dl, ol, thr);
        check_snap(&mut bx, dr, or, thr);
        // Vertical pairs.
        check_snap(&mut by, dt, ob, thr);
        check_snap(&mut by, db, ot, thr);
        check_snap(&mut by, dt, ot, thr);
        check_snap(&mut by, db, ob, thr);

        proof {
            assert(peers.take(i + 1).drop_last() =~= peers.take(i as int));
            assert(peers.take(i + 1).last() == peers[i as int]);
        }
        i = i + 1;
    }
    proof {
        assert(peers.take(peers.len() as int) =~= peers);
    }

    match (bx, by) {
        (None, None) => None,
        (bx, by) => {
            let x: i16 = match &bx {
                Some(c) => {
                    proof {
                        lemma_qualifying_offset_bounded(peers, dragged, thr as int, true);
                    }
                    (dragged.x as i32 + c.offset) as i16
                },
                None => dragged.x,
            };
            let y: i16 = match &by {
                Some(c) => {
                    proof {
                        lemma_qualifying_offset_bounded(peers, dragged, thr as int, false);
                    }
                    (dragged.y as i32 + c.offset) as i16
                },
                None => dragged.y,
            };
            Some((x, y))
        },
    }
}

/// A candidate kept by the scan always has its distance within the threshold
/// and an offset whose magnitude equals that distance.
proof fn lemma_qualifying_offset_bounded(others: Seq<Rect>, dragged: Rect, thr: int, horiz: bool)
    ensures
        horiz ==> match best_x(others, dragged, thr) {
            Some(c) => 0 <= c.1 <= thr && abs_int(c.0) == c.1,
            None => true,
        },
        !horiz ==> match best_y(others, dragged, thr) {
            Some(c) => 0 <= c.1 <= thr && abs_int(c.0) == c.1,
            None => true,
        },
    decreases others.len(),
{
    if others.len() > 0 {
        lemma_qualifying_offset_bounded(others.drop_last(), dragged, thr, horiz);
    }
}

/// No horizontal edge pair of any peer lies within the threshold.
pub open spec fn no_x_candidate(dragged: Rect, others: Seq<Rect>, thr: int) -> bool {
    forall|i: int|
        0 <= i < others.len() ==> {
            let o = #[trigger] others[i];
            abs_int(dragged.x - o.spec_right()) > thr && abs_int(dragged.spec_right() - o.x) > thr
                && abs_int(dragged.x - o.x) > thr && abs_int(
                dragged.spec_right() - o.spec_right(),
            ) > thr
        }
}

/// No vertical edge pair of any peer lies within the threshold.
pub open spec fn no_y_candidate(dragged: Rect, others: Seq<Rect>, thr: int) -> bool {
    forall|i: int|
        0 <= i < others.len() ==> {
            let o = #[trigger] others[i];
            abs_int(dragged.y - o.spec_bottom()) > thr && abs_int(dragged.spec_bottom() - o.y) > thr
                && abs_int(dragged.y - o.y) > thr && abs_int(
                dragged.spec_bottom() - o.spec_bottom(),
            ) > thr
        }
}

/// If no peer edge lies within the threshold on an axis, that axis carries no
/// candidate, so the snapped position leaves that coordinate unchanged; and
/// when neither axis has a candidate, no snap is proposed at all.
pub proof fn lemma_axis_without_candidate_unchanged(dragged: Rect, others: Seq<Rect>, thr: int)
    ensures
        no_x_candidate(dragged, others, thr) ==> best_x(others, dragged, thr) is None,
        no_y_candidate(dragged, others, thr) ==> best_y(others, dragged, thr) is None,
        no_x_candidate(dragged, others, thr) ==> match spec_snap_position(dragged, others, thr) {
            Some(p) => p.0 == dragged.x,
            None => true,
        },
        no_y_candidate(dragged, others, thr) ==> match spec_snap_position(dragged, others, thr) {
            Some(p) => p.1 == dragged.y,
            None => true,
        },
        no_x_candidate(dragged, others, thr) && no_y_candidate(dragged, others, thr)
            ==> spec_snap_position(dragged, others, thr) is None,
    decreases others.len(),
{
    if others.len() > 0 {
        assert(forall|i: int| 0 <= i < others.len() - 1 ==> others.drop_last()[i] == others[i]);
        lemma_axis_without_candidate_unchanged(dragged, others.drop_last(), thr);
        if no_x_candidate(dragged, others, thr) {
            assert(others[others.len() - 1] == others.last());
        }
        if no_y_candidate(dragged, others, thr) {
            assert(others[others.len() - 1] == others.last());
        }
    }
}

/// With a zero threshold snapping is disabled: the result is always `None`,
/// whatever the peers.
pub proof fn lemma_zero_threshold_disables_snapping(dragged: Rect, others: Seq<Rect>)
    ensures
        spec_snap_position(dragged, others, 0) is None,
{
}

} // verus!


