//! Ordered cycling registry for hotkey-driven focus switching.
//!
//! Tracked windows are kept in traversal order: entities whose name appears
//! in the externally supplied preferred order come first, in that order;
//! entities with unlisted or newly seen names follow, in the order they
//! entered that group.  A cursor remembers the window the user is on;
//! forward and backward cycling wrap circularly and return `None` only when
//! no windows are tracked.
//!
//! An entity whose name becomes empty (logged out) stays in the registry and
//! remains cyclable; the cursor is keyed by window handle, so renaming an
//! entity never loses the user's place.

use vstd::prelude::*;
use crate::tables::window_lookup;

verus! {

/// Position of `name` in the preferred order: the first index holding it, or
/// the order's length when it is not listed.
pub open spec fn spec_rank(order: Seq<String>, name: Seq<char>) -> int
    decreases order.len(),
{
    if order.len() == 0 {
        0
    } else if order[0]@ == name {
        0
    } else {
        1 + spec_rank(order.drop_first(), name)
    }
}

/// First index of window `w` among the entries, or -1 when absent.
pub open spec fn entry_index(s: Seq<(u32, String)>, w: u32) -> int
    decreases s.len(),
{
    if s.len() == 0 {
        -1
    } else if s[0].0 == w {
        0
    } else {
        let r = entry_index(s.drop_first(), w);
        if r < 0 {
            -1
        } else {
            1 + r
        }
    }
}

pub open spec fn has_window(s: Seq<(u32, String)>, w: u32) -> bool {
    entry_index(s, w) >= 0
}

/// First index of an entry carrying `name`, or -1 when absent.
pub open spec fn first_with_name(s: Seq<(u32, String)>, name: Seq<char>) -> int
    decreases s.len(),
{
    if s.len() == 0 {
        -1
    } else if s[0].1@ == name {
        0
    } else {
        let r = first_with_name(s.drop_first(), name);
        if r < 0 {
            -1
        } else {
            1 + r
        }
    }
}

/// No window handle occurs twice among the entries.
pub open spec fn unique_windows(s: Seq<(u32, String)>) -> bool {
    forall|i: int, j: int| 0 <= i < j < s.len() ==> (#[trigger] s[i]).0 != (#[trigger] s[j]).0
}

/// The entries are ordered by rank in the preferred order.
pub open spec fn sorted_by_rank(order: Seq<String>, s: Seq<(u32, String)>) -> bool {
    forall|i: int, j: int|
        0 <= i < j < s.len() ==> spec_rank(order, (#[trigger] s[i]).1@) <= spec_rank(
            order,
            (#[trigger] s[j]).1@,
        )
}

proof fn lemma_rank_at(order: Seq<String>, i: int, name: Seq<char>)
    requires
        0 <= i < order.len(),
        order[i]@ == name,
        forall|j: int| 0 <= j < i ==> (#[trigger] order[j])@ != name,
    ensures
        spec_rank(order, name) == i,
    decreases i,
{
    if i > 0 {
        assert(forall|j: int|
            0 <= j < order.drop_first().len() ==> order.drop_first()[j] == order[j + 1]);
        lemma_rank_at(order.drop_first(), i - 1, name);
    }
}

proof fn lemma_rank_absent(order: Seq<String>, name: Seq<char>)
    requires
        forall|j: int| 0 <= j < order.len() ==> (#[trigger] order[j])@ != name,
    ensures
        spec_rank(order, name) == order.len(),
    decreases order.len(),
{
    if order.len() > 0 {
        assert(forall|j: int|
            0 <= j < order.drop_first().len() ==> order.drop_first()[j] == order[j + 1]);
        lemma_rank_absent(order.drop_first(), name);
    }
}

/// The index returned by `entry_index` is either -1 (and then no entry holds
/// the window) or a valid position holding it.
pub proof fn lemma_entry_index_props(s: Seq<(u32, String)>, w: u32)
    ensures
        entry_index(s, w) == -1 || (0 <= entry_index(s, w) < s.len() && s[entry_index(s, w)].0
            == w),
        entry_index(s, w) == -1 ==> forall|j: int| 0 <= j < s.len() ==> (#[trigger] s[j]).0 != w,
    decreases s.len(),
{
    if s.len() > 0 && s[0].0 != w {
        lemma_entry_index_props(s.drop_first(), w);
        if entry_index(s, w) == -1 {
            assert forall|j: int| 0 <= j < s.len() implies (#[trigger] s[j]).0 != w by {
                if j > 0 {
                    assert(s[j] == s.drop_first()[j - 1]);
                }
            }
        }
    }
}

proof fn lemma_entry_index_at(s: Seq<(u32, String)>, i: int, w: u32)
    requires
        0 <= i < s.len(),
        s[i].0 == w,
        forall|j: int| 0 <= j < i ==> (#[trigger] s[j]).0 != w,
    ensures
        entry_index(s, w) == i,
    decreases i,
{
    if i > 0 {
        assert(forall|j: int| 0 <= j < s.drop_first().len() ==> s.drop_first()[j] == s[j + 1]);
        lemma_entry_index_at(s.drop_first(), i - 1, w);
    }
}

/// With unique windows, each entry is found exactly at its own position.
pub proof fn lemma_entry_index_unique(s: Seq<(u32, String)>, i: int)
    requires
        unique_windows(s),
        0 <= i < s.len(),
    ensures
        entry_index(s, s[i].0) == i,
{
    lemma_entry_index_at(s, i, s[i].0);
}

proof fn lemma_first_with_name_at(s: Seq<(u32, String)>, i: int, name: Seq<char>)
    requires
        0 <= i < s.len(),
        s[i].1@ == name,
        forall|j: int| 0 <= j < i ==> (#[trigger] s[j]).1@ != name,
    ensures
        first_with_name(s, name) == i,
    decreases i,
{
    if i > 0 {
        assert(forall|j: int| 0 <= j < s.drop_first().len() ==> s.drop_first()[j] == s[j + 1]);
        lemma_first_with_name_at(s.drop_first(), i - 1, name);
    }
}

proof fn lemma_first_with_name_absent(s: Seq<(u32, String)>, name: Seq<char>)
    requires
        forall|j: int| 0 <= j < s.len() ==> (#[trigger] s[j]).1@ != name,
    ensures
        first_with_name(s, name) == -1,
    decreases s.len(),
{
    if s.len() > 0 {
        assert(forall|j: int| 0 <= j < s.drop_first().len() ==> s.drop_first()[j] == s[j + 1]);
        lemma_first_with_name_absent(s.drop_first(), name);
    }
}

/// Looking a window up after inserting an entry for a window not yet present.
proof fn lemma_window_lookup_insert(s: Seq<(u32, String)>, pos: int, e: (u32, String), k: u32)
    requires
        0 <= pos <= s.len(),
        forall|j: int| 0 <= j < s.len() ==> (#[trigger] s[j]).0 != e.0,
    ensures
        window_lookup(s.insert(pos, e), k) == (if k == e.0 {
            Some(e.1)
        } else {
            window_lookup(s, k)
        }),
    decreases pos,
{
    let t = s.insert(pos, e);
    s.insert_ensures(pos, e);
    if pos == 0 {
        if k != e.0 {
            assert(t.drop_first() =~= s);
        }
    } else {
        assert(t[0] == s[0]);
        if k == s[0].0 {
        } else {
            assert(t.drop_first() =~= s.drop_first().insert(pos - 1, e));
            assert(forall|j: int| 0 <= j < s.drop_first().len() ==> s.drop_first()[j] == s[j + 1]);
            lemma_window_lookup_insert(s.drop_first(), pos - 1, e, k);
        }
    }
}

/// Looking a window up after removing position `i`, when windows are unique.
proof fn lemma_window_lookup_remove(s: Seq<(u32, String)>, i: int, k: u32)
    requires
        0 <= i < s.len(),
        unique_windows(s),
    ensures
        window_lookup(s.remove(i), k) == (if k == s[i].0 {
            None
        } else {
            window_lookup(s, k)
        }),
    decreases i,
{
    let t = s.remove(i);
    s.remove_ensures(i);
    if i == 0 {
        assert(t =~= s.drop_first());
        if k == s[0].0 {
            assert forall|j: int| 0 <= j < t.len() implies (#[trigger] t[j]).0 != k by {
                assert(t[j] == s[j + 1]);
            }
            crate::tables::lemma_window_lookup_none(t, k);
        }
    } else {
        assert(t[0] == s[0]);
        if k != s[0].0 {
            assert(t.drop_first() =~= s.drop_first().remove(i - 1));
            assert(forall|j: int| 0 <= j < s.drop_first().len() ==> s.drop_first()[j] == s[j + 1]);
            assert(unique_windows(s.drop_first()));
            lemma_window_lookup_remove(s.drop_first(), i - 1, k);
        }
    }
}

/// Hotkey cycling registry: preferred order, tracked entries in traversal
/// order, and the cursor (the window of the entity the user is on).
#[derive(Debug)]
pub struct CycleState {
    order: Vec<String>,
    entries: Vec<(u32, String)>,
    current: Option<u32>,
}

impl CycleState {
    pub closed spec fn spec_order(self) -> Seq<String> {
        self.order@
    }

    pub closed spec fn spec_entries(self) -> Seq<(u32, String)> {
        self.entries@
    }

    pub closed spec fn spec_current(self) -> Option<u32> {
        self.current
    }

    /// Registry invariant: no window tracked twice, and entries ordered by
    /// their name's rank in the preferred order.
    pub open spec fn wf(self) -> bool {
        unique_windows(self.spec_entries()) && sorted_by_rank(self.spec_order(), self.spec_entries())
    }

    /// Index of the entry a forward cycle lands on (meaningful only when the
    /// registry is non-empty): the one after the cursor, wrapping, or the
    /// first entry when the cursor is unset or no longer tracked.
    pub open spec fn spec_start_forward(self) -> int {
        let s = self.spec_entries();
        let n = s.len() as int;
        match self.spec_current() {
            None => 0,
            Some(w) => {
                let i = entry_index(s, w);
                if i < 0 {
                    0
                } else if i + 1 == n {
                    0
                } else {
                    i + 1
                }
            },
        }
    }

    /// Index of the entry a backward cycle lands on (meaningful only when
    /// the registry is non-empty): the one before the cursor, wrapping, or
    /// the last entry when the cursor is unset or no longer tracked.
    pub open spec fn spec_start_backward(self) -> int {
        let s = self.spec_entries();
        let n = s.len() as int;
        match self.spec_current() {
            None => n - 1,
            Some(w) => {
                let i = entry_index(s, w);
                if i < 0 {
                    n - 1
                } else if i == 0 {
                    n - 1
                } else {
                    i - 1
                }
            },
        }
    }

    /// Both cycle landing indices are valid positions when any window is
    /// tracked.
    pub proof fn lemma_start_bounds(self)
        requires
            self.spec_entries().len() > 0,
        ensures
            0 <= self.spec_start_forward() < self.spec_entries().len(),
            0 <= self.spec_start_backward() < self.spec_entries().len(),
    {
        match self.spec_current() {
            None => {},
            Some(w) => {
                lemma_entry_index_props(self.spec_entries(), w);
            },
        }
    }

    pub fn new(order: Vec<String>) -> (r: CycleState)
        ensures
            r.spec_order() == order@,
            r.spec_entries().len() == 0,
            r.spec_current() is None,
            r.wf(),
    {
        CycleState { order, entries: Vec::new(), current: None }
    }

    /// The externally supplied preferred cycling order.
    pub fn config_order(&self) -> (r: &Vec<String>)
        ensures
            r@ == self.spec_order(),
    {
        &self.order
    }

    /// How many windows are tracked.
    pub fn len(&self) -> (r: usize)
        ensures
            r == self.spec_entries().len(),
    {
        self.entries.len()
    }

    fn rank_of(order: &Vec<String>, name: &String) -> (r: usize)
        ensures
            r == spec_rank(order@, name@),
    {
        let n = order.len();
        let mut i: usize = 0;
        while i < n
            invariant
                0 <= i <= n,
                n == order@.len(),
                forall|j: int| 0 <= j < i ==> (#[trigger] order@[j])@ != name@,
            decreases n - i,
        {
            if order[i] == *name {
                proof {
                    lemma_rank_at(order@, i as int, name@);
                }
                return i;
            }
            i = i + 1;
        }
        proof {
            lemma_rank_absent(order@, name@);
        }
        n
    }

    fn index_of_window(&self, w: u32) -> (r: Option<usize>)
        ensures
            match r {
                Some(i) => i == entry_index(self.spec_entries(), w) && i < self.spec_entries().len()
                    && self.spec_entries()[i as int].0 == w,
                None => entry_index(self.spec_entries(), w) == -1,
            },
    {
        let n = self.entries.len();
        let mut i: usize = 0;
        while i < n
            invariant
                0 <= i <= n,
                n == self.entries@.len(),
                forall|j: int| 0 <= j < i ==> (#[trigger] self.entries@[j]).0 != w,
            decreases n - i,
        {
            if self.entries[i].0 == w {
                proof {
                    lemma_entry_index_at(self.entries@, i as int, w);
                }
                return Some(i);
            }
            i = i + 1;
        }
        proof {
            lemma_entry_index_props(self.entries@, w);
            if entry_index(self.entries@, w) >= 0 {
            }
        }
        None
    }

    /// Where an entry of rank `r_new` belongs: after every entry of rank at
    /// most `r_new`, before the first of a greater rank.
    fn find_insert_pos(order: &Vec<String>, entries: &Vec<(u32, String)>, r_new: usize) -> (pos:
        usize)
        ensures
            0 <= pos <= entries@.len(),
            forall|j: int|
                0 <= j < pos ==> spec_rank(order@, (#[trigger] entries@[j]).1@) <= r_new,
            pos < entries@.len() ==> spec_rank(order@, entries@[pos as int].1@) > r_new,
    {
        let n = entries.len();
        let mut pos: usize = 0;
        while pos < n
            invariant
                0 <= pos <= n,
                n == entries@.len(),
                forall|j: int|
                    0 <= j < pos ==> spec_rank(order@, (#[trigger] entries@[j]).1@) <= r_new,
            decreases n - pos,
        {
            let r_here = Self::rank_of(order, &entries[pos].1);
            if r_here > r_new {
                return pos;
            }
            pos = pos + 1;
        }
        pos
    }

    /// Insert an entry for a window not currently tracked, at the end of its
    /// name's rank group.
    fn insert_sorted(&mut self, window: u32, name: String)
        requires
            old(self).wf(),
            entry_index(old(self).spec_entries(), window) == -1,
        ensures
            final(self).wf(),
            final(self).spec_order() == old(self).spec_order(),
            final(self).spec_current() == old(self).spec_current(),
            final(self).spec_entries().len() == old(self).spec_entries().len() + 1,
            forall|k: u32|
                window_lookup(final(self).spec_entries(), k) == (if k == window {
                    Some(name)
                } else {
                    window_lookup(old(self).spec_entries(), k)
                }),
            has_window(final(self).spec_entries(), window),
    {
        proof {
            lemma_entry_index_props(self.entries@, window);
        }
        let r_new = Self::rank_of(&self.order, &name);
        let pos = Self::find_insert_pos(&self.order, &self.entries, r_new);
        let ghost s = self.entries@;
        let ghost p = pos as int;
        proof {
            s.insert_ensures(p, (window, name));
            let t = s.insert(p, (window, name));
            // every old entry keeps its window, shifted past the gap
            assert forall|i: int, j: int| 0 <= i < j < t.len() implies (#[trigger] t[i]).0 != (
            #[trigger] t[j]).0 by {
                if i < p && j < p {
                } else if i < p && j == p {
                    assert(t[i] == s[i]);
                    assert(s[i].0 != window) by {
                        lemma_entry_index_props(s, window);
                    }
                } else if i == p && j > p {
                    assert(t[j] == s[j - 1]);
                    assert(s[j - 1].0 != window) by {
                        lemma_entry_index_props(s, window);
                    }
                } else if i < p && j > p {
                    assert(t[i] == s[i] && t[j] == s[j - 1]);
                } else {
                    assert(t[i] == s[i - 1] && t[j] == s[j - 1]);
                }
            }
            // rank order is preserved around the insertion point
            assert forall|i: int, j: int| 0 <= i < j < t.len() implies spec_rank(
                self.order@,
                (#[trigger] t[i]).1@,
            ) <= spec_rank(self.order@, (#[trigger] t[j]).1@) by {
                if i < p && j < p {
                } else if i < p && j == p {
                    assert(t[i] == s[i]);
                } else if i == p && j > p {
                    assert(t[j] == s[j - 1]);
                    if p < s.len() {
                        assert(spec_rank(self.order@, s[p].1@) > r_new);
                        assert(spec_rank(self.order@, s[j - 1].1@) >= spec_rank(
                            self.order@,
                            s[p].1@,
                        ));
                    }
                } else if i < p && j > p {
                    assert(t[i] == s[i] && t[j] == s[j - 1]);
                    if p < s.len() {
                        assert(spec_rank(self.order@, s[j - 1].1@) >= spec_rank(
                            self.order@,
                            s[p].1@,
                        ));
                    }
                } else {
                    assert(t[i] == s[i - 1] && t[j] == s[j - 1]);
                }
            }
            assert forall|k: u32| true implies window_lookup(t, k) == (if k == window {
                Some(name)
            } else {
                window_lookup(s, k)
            }) by {
                lemma_entry_index_props(s, window);
                lemma_window_lookup_insert(s, p, (window, name), k);
            }
            assert(t[p].0 == window);
            lemma_entry_index_props(t, window);
            if entry_index(t, window) == -1 {
                assert(t[p].0 != window);
            }
        }
        self.entries.insert(pos, (window, name));
    }

    /// Track a window under an entity name.  A window already tracked keeps
    /// its place in the registry only through its handle: its entry is
    /// re-filed under the new name.
    pub fn add_window(&mut self, name: String, window: u32)
        requires
            old(self).wf(),
        ensures
            final(self).wf(),
            final(self).spec_order() == old(self).spec_order(),
            final(self).spec_current() == old(self).spec_current(),
            forall|k: u32|
                window_lookup(final(self).spec_entries(), k) == (if k == window {
                    Some(name)
                } else {
                    window_lookup(old(self).spec_entries(), k)
                }),
            has_window(final(self).spec_entries(), window),
    {
        match self.index_of_window(window) {
            Some(i) => {
                proof {
                    lemma_entry_index_props(self.entries@, window);
                    let s = self.entries@;
                    let t = s.remove(i as int);
                    s.remove_ensures(i as int);
                    assert forall|a: int, b: int| 0 <= a < b < t.len() implies (#[trigger] t[a]).0
                        != (#[trigger] t[b]).0 by {
                        if a < i && b < i {
                        } else if a < i {
                            assert(t[a] == s[a] && t[b] == s[b + 1]);
                        } else {
                            assert(t[a] == s[a + 1] && t[b] == s[b + 1]);
                        }
                    }
                    assert forall|a: int, b: int| 0 <= a < b < t.len() implies spec_rank(
                        self.order@,
                        (#[trigger] t[a]).1@,
                    ) <= spec_rank(self.order@, (#[trigger] t[b]).1@) by {
                        if a < i && b < i {
                        } else if a < i {
                            assert(t[a] == s[a] && t[b] == s[b + 1]);
                        } else {
                            assert(t[a] == s[a + 1] && t[b] == s[b + 1]);
                        }
                    }
                    lemma_entry_index_props(t, window);
                    if entry_index(t, window) >= 0 {
                        let x = entry_index(t, window);
                        if x < i {
                            assert(t[x] == s[x]);
                            assert(s[x].0 != window);
                        } else {
                            assert(t[x] == s[x + 1]);
                            assert(s[x + 1].0 != window);
                        }
                    }
                    assert forall|k: u32| k != window implies window_lookup(t, k) == window_lookup(
                        s,
                        k,
                    ) by {
                        lemma_window_lookup_remove(s, i as int, k);
                    }
                }
                let _ = self.entries.remove(i);
                self.insert_sorted(window, name);
            },
            None => {
                self.insert_sorted(window, name);
            },
        }
    }

    /// Stop tracking a window.  The cursor is left as it is; a later cycle
    /// simply starts from the beginning when the cursor's window is gone.
    pub fn remove_window(&mut self, window: u32)
        requires
            old(self).wf(),
        ensures
            final(self).wf(),
            final(self).spec_order() == old(self).spec_order(),
            final(self).spec_current() == old(self).spec_current(),
            forall|k: u32|
                window_lookup(final(self).spec_entries(), k) == (if k == window {
                    None
                } else {
                    window_lookup(old(self).spec_entries(), k)
                }),
            !has_window(final(self).spec_entries(), window),
            old(self).spec_entries().len() > 0 && has_window(old(self).spec_entries(), window)
                ==> final(self).spec_entries().len() == old(self).spec_entries().len() - 1,
    {
        match self.index_of_window(window) {
            Some(i) => {
                proof {
                    lemma_entry_index_props(self.entries@, window);
                    let s = self.entries@;
                    let t = s.remove(i as int);
                    s.remove_ensures(i as int);
                    assert forall|a: int, b: int| 0 <= a < b < t.len() implies (#[trigger] t[a]).0
                        != (#[trigger] t[b]).0 by {
                        if a < i && b < i {
                        } else if a < i {
                            assert(t[a] == s[a] && t[b] == s[b + 1]);
                        } else {
                            assert(t[a] == s[a + 1] && t[b] == s[b + 1]);
                        }
                    }
                    assert forall|a: int, b: int| 0 <= a < b < t.len() implies spec_rank(
                        self.order@,
                        (#[trigger] t[a]).1@,
                    ) <= spec_rank(self.order@, (#[trigger] t[b]).1@) by {
                        if a < i && b < i {
                        } else if a < i {
                            assert(t[a] == s[a] && t[b] == s[b + 1]);
                        } else {
                            assert(t[a] == s[a + 1] && t[b] == s[b + 1]);
                        }
                    }
                    assert forall|k: u32| true implies window_lookup(t, k) == (if k == window {
                        None
                    } else {
                        window_lookup(s, k)
                    }) by {
                        lemma_window_lookup_remove(s, i as int, k);
                    }
                    lemma_entry_index_props(t, window);
                    if entry_index(t, window) >= 0 {
                        let x = entry_index(t, window);
                        if x < i {
                            assert(t[x] == s[x]);
                            assert(s[x].0 != window);
                        } else {
                            assert(t[x] == s[x + 1]);
                            assert(s[x + 1].0 != window);
                        }
                    }
                }
                let _ = self.entries.remove(i);
            },
            None => {
                proof {
                    lemma_entry_index_props(self.entries@, window);
                    assert forall|k: u32| k == window implies window_lookup(
                        self.entries@,
                        k,
                    ) is None by {
                        crate::tables::lemma_window_lookup_none(self.entries@, k);
                    }
                }
            },
        }
    }

    /// Update the entity name a tracked window carries (login, logout, or a
    /// switch of identity).  The window keeps its handle, so the cursor
    /// survives; the entry is re-filed under the new name's rank.  Unknown
    /// windows are ignored.
    pub fn update_character(&mut self, window: u32, new_name: String)
        requires
            old(self).wf(),
        ensures
            final(self).wf(),
            final(self).spec_order() == old(self).spec_order(),
            final(self).spec_current() == old(self).spec_current(),
            has_window(old(self).spec_entries(), window) ==> forall|k: u32|
                window_lookup(final(self).spec_entries(), k) == (if k == window {
                    Some(new_name)
                } else {
                    window_lookup(old(self).spec_entries(), k)
                }),
            !has_window(old(self).spec_entries(), window) ==> final(self).spec_entries() == old(
                self,
            ).spec_entries(),
    {
        match self.index_of_window(window) {
            Some(_) => {
                self.add_window(new_name, window);
            },
            None => {},
        }
    }

    /// Anchor the cursor on the first tracked entity with this name (used
    /// when the user clicks a thumbnail); an unknown name leaves the cursor
    /// alone.
    pub fn set_current(&mut self, name: &String)
        ensures
            final(self).spec_order() == old(self).spec_order(),
            final(self).spec_entries() == old(self).spec_entries(),
            final(self).spec_current() == ({
                let i = first_with_name(old(self).spec_entries(), name@);
                if i >= 0 {
                    Some(old(self).spec_entries()[i].0)
                } else {
                    old(self).spec_current()
                }
            }),
    {
        let n = self.entries.len();
        let mut i: usize = 0;
        while i < n
            invariant
                0 <= i <= n,
                n == self.entries@.len(),
                self.entries@ == old(self).entries@,
                self.order@ == old(self).order@,
                self.current == old(self).current,
                forall|j: int| 0 <= j < i ==> (#[trigger] self.entries@[j]).1@ != name@,
            decreases n - i,
        {
            if self.entries[i].1 == *name {
                proof {
                    lemma_first_with_name_at(self.entries@, i as int, name@);
                }
                self.current = Some(self.entries[i].0);
                return ;
            }
            i = i + 1;
        }
        proof {
            lemma_first_with_name_absent(self.entries@, name@);
        }
    }

    /// Cycle to the next entity in traversal order, wrapping circularly.
    /// Returns the window and name landed on, or `None` when nothing is
    /// tracked.
    pub fn cycle_forward(&mut self) -> (r: Option<(u32, String)>)
        requires
            old(self).wf(),
        ensures
            final(self).wf(),
            final(self).spec_order() == old(self).spec_order(),
            final(self).spec_entries() == old(self).spec_entries(),
            old(self).spec_entries().len() == 0 ==> r is None && final(self).spec_current() == old(
                self,
            ).spec_current(),
            old(self).spec_entries().len() > 0 ==> {
                let e = old(self).spec_entries()[old(self).spec_start_forward()];
                r == Some(e) && final(self).spec_current() == Some(e.0)
            },
    {
        let n = self.entries.len();
        if n == 0 {
            return None;
        }
        proof {
            self.lemma_start_bounds();
        }
        let start: usize = match self.current {
            None => 0,
            Some(w) => match self.index_of_window(w) {
                None => 0,
                Some(i) => if i + 1 == n {
                    0
                } else {
                    i + 1
                },
            },
        };
        let e = &self.entries[start];
        let window = e.0;
        let name = e.1.clone();
        self.current = Some(window);
        Some((window, name))
    }

    /// Cycle to the previous entity in traversal order, wrapping circularly.
    pub fn cycle_backward(&mut self) -> (r: Option<(u32, String)>)
        requires
            old(self).wf(),
        ensures
            final(self).wf(),
            final(self).spec_order() == old(self).spec_order(),
            final(self).spec_entries() == old(self).spec_entries(),
            old(self).spec_entries().len() == 0 ==> r is None && final(self).spec_current() == old(
                self,
            ).spec_current(),
            old(self).spec_entries().len() > 0 ==> {
                let e = old(self).spec_entries()[old(self).spec_start_backward()];
                r == Some(e) && final(self).spec_current() == Some(e.0)
            },
    {
        let n = self.entries.len();
        if n == 0 {
            return None;
        }
        proof {
            self.lemma_start_bounds();
        }
        let start: usize = match self.current {
            None => n - 1,
            Some(w) => match self.index_of_window(w) {
                None => n - 1,
                Some(i) => if i == 0 {
                    n - 1
                } else {
                    i - 1
                },
            },
        };
        let e = &self.entries[start];
        let window = e.0;
        let name = e.1.clone();
        self.current = Some(window);
        Some((window, name))
    }
}

/// Cycling forward and then backward returns to the entity the cursor
/// started on, for any non-empty registry: if the cursor stands on window
/// `w` and a forward cycle moves it, the following backward cycle lands on
/// `w`'s entry again.
pub proof fn lemma_cycle_round_trip(s: CycleState, t: CycleState, w: u32)
    requires
        s.wf(),
        s.spec_entries().len() > 0,
        s.spec_current() == Some(w),
        has_window(s.spec_entries(), w),
        // `t` is the state cycle_forward leaves behind
        t.spec_entries() == s.spec_entries(),
        t.spec_order() == s.spec_order(),
        t.spec_current() == Some(s.spec_entries()[s.spec_start_forward()].0),
    ensures
        t.spec_start_backward() == entry_index(s.spec_entries(), w),
        t.spec_entries()[t.spec_start_backward()] == s.spec_entries()[entry_index(
            s.spec_entries(),
            w,
        )],
        t.spec_entries()[t.spec_start_backward()].0 == w,
{
    let es = s.spec_entries();
    let n = es.len() as int;
    lemma_entry_index_props(es, w);
    let i = entry_index(es, w);
    let j = s.spec_start_forward();
    lemma_entry_index_unique(es, j);
}

/// After the window under the cursor is removed from the registry, cycling
/// forward never returns the removed window: whatever the cursor holds, the
/// entry landed on is one of the remaining windows.
pub proof fn lemma_removed_window_skipped(t: CycleState, w: u32)
    requires
        t.wf(),
        !has_window(t.spec_entries(), w),
        t.spec_entries().len() > 0,
    ensures
        t.spec_entries()[t.spec_start_forward()].0 != w,
{
    t.lemma_start_bounds();
    let es = t.spec_entries();
    let j = t.spec_start_forward();
    if es[j].0 == w {
        lemma_entry_index_props(es, w);
        assert(false);
    }
}

} // verus!
