//! Small association tables with fully specified lookup and insert.
//!
//! The daemon keys its state by entity name (a string) and by window handle
//! (an integer).  Both tables are backed by a vector of pairs and looked up
//! by first match, so every operation has an exact mathematical contract.

use vstd::prelude::*;

verus! {

/// First-match lookup in a sequence of name/value pairs.
pub open spec fn name_lookup<V>(s: Seq<(String, V)>, k: Seq<char>) -> Option<V>
    decreases s.len(),
{
    if s.len() == 0 {
        None
    } else if s[0].0@ == k {
        Some(s[0].1)
    } else {
        name_lookup(s.drop_first(), k)
    }
}

/// First-match lookup in a sequence of window/value pairs.
pub open spec fn window_lookup<V>(s: Seq<(u32, V)>, k: u32) -> Option<V>
    decreases s.len(),
{
    if s.len() == 0 {
        None
    } else if s[0].0 == k {
        Some(s[0].1)
    } else {
        window_lookup(s.drop_first(), k)
    }
}

proof fn lemma_name_lookup_none<V>(s: Seq<(String, V)>, k: Seq<char>)
    requires
        forall|j: int| 0 <= j < s.len() ==> (#[trigger] s[j]).0@ != k,
    ensures
        name_lookup(s, k) is None,
    decreases s.len(),
{
    if s.len() > 0 {
        assert(forall|j: int| 0 <= j < s.drop_first().len() ==> s.drop_first()[j] == s[j + 1]);
        lemma_name_lookup_none(s.drop_first(), k);
    }
}

proof fn lemma_name_lookup_index<V>(s: Seq<(String, V)>, i: int, k: Seq<char>)
    requires
        0 <= i < s.len(),
        s[i].0@ == k,
        forall|j: int| 0 <= j < i ==> (#[trigger] s[j]).0@ != k,
    ensures
        name_lookup(s, k) == Some(s[i].1),
    decreases i,
{
    if i > 0 {
        assert(forall|j: int| 0 <= j < s.drop_first().len() ==> s.drop_first()[j] == s[j + 1]);
        lemma_name_lookup_index(s.drop_first(), i - 1, k);
    }
}

proof fn lemma_name_lookup_update<V>(s: Seq<(String, V)>, i: int, name: String, v: V, k: Seq<char>)
    requires
        0 <= i < s.len(),
        s[i].0@ == name@,
        forall|j: int| 0 <= j < i ==> (#[trigger] s[j]).0@ != name@,
    ensures
        name_lookup(s.update(i, (name, v)), k) == (if k == name@ {
            Some(v)
        } else {
            name_lookup(s, k)
        }),
    decreases i,
{
    let t = s.update(i, (name, v));
    if i == 0 {
        if k != name@ {
            assert(t.drop_first() =~= s.drop_first());
        }
    } else {
        assert(t[0] == s[0]);
        if k == s[0].0@ {
        } else {
            assert(t.drop_first() =~= s.drop_first().update(i - 1, (name, v)));
            assert(forall|j: int| 0 <= j < s.drop_first().len() ==> s.drop_first()[j] == s[j + 1]);
            lemma_name_lookup_update(s.drop_first(), i - 1, name, v, k);
        }
    }
}

proof fn lemma_name_lookup_push<V>(s: Seq<(String, V)>, name: String, v: V, k: Seq<char>)
    ensures
        name_lookup(s.push((name, v)), k) == (match name_lookup(s, k) {
            Some(w) => Some(w),
            None => if name@ == k {
                Some(v)
            } else {
                None
            },
        }),
    decreases s.len(),
{
    let t = s.push((name, v));
    if s.len() == 0 {
        assert(t[0] == (name, v));
        if name@ != k {
            assert(t.drop_first() =~= Seq::<(String, V)>::empty());
        }
    } else {
        assert(t[0] == s[0]);
        if k != s[0].0@ {
            assert(t.drop_first() =~= s.drop_first().push((name, v)));
            lemma_name_lookup_push(s.drop_first(), name, v, k);
        }
    }
}

pub proof fn lemma_window_lookup_none<V>(s: Seq<(u32, V)>, k: u32)
    requires
        forall|j: int| 0 <= j < s.len() ==> (#[trigger] s[j]).0 != k,
    ensures
        window_lookup(s, k) is None,
    decreases s.len(),
{
    if s.len() > 0 {
        assert(forall|j: int| 0 <= j < s.drop_first().len() ==> s.drop_first()[j] == s[j + 1]);
        lemma_window_lookup_none(s.drop_first(), k);
    }
}

pub proof fn lemma_window_lookup_index<V>(s: Seq<(u32, V)>, i: int, k: u32)
    requires
        0 <= i < s.len(),
        s[i].0 == k,
        forall|j: int| 0 <= j < i ==> (#[trigger] s[j]).0 != k,
    ensures
        window_lookup(s, k) == Some(s[i].1),
    decreases i,
{
    if i > 0 {
        assert(forall|j: int| 0 <= j < s.drop_first().len() ==> s.drop_first()[j] == s[j + 1]);
        lemma_window_lookup_index(s.drop_first(), i - 1, k);
    }
}

pub proof fn lemma_window_lookup_update<V>(s: Seq<(u32, V)>, i: int, w: u32, v: V, k: u32)
    requires
        0 <= i < s.len(),
        s[i].0 == w,
        forall|j: int| 0 <= j < i ==> (#[trigger] s[j]).0 != w,
    ensures
        window_lookup(s.update(i, (w, v)), k) == (if k == w {
            Some(v)
        } else {
            window_lookup(s, k)
        }),
    decreases i,
{
    let t = s.update(i, (w, v));
    if i == 0 {
        if k != w {
            assert(t.drop_first() =~= s.drop_first());
        }
    } else {
        assert(t[0] == s[0]);
        if k == s[0].0 {
        } else {
            assert(t.drop_first() =~= s.drop_first().update(i - 1, (w, v)));
            assert(forall|j: int| 0 <= j < s.drop_first().len() ==> s.drop_first()[j] == s[j + 1]);
            lemma_window_lookup_update(s.drop_first(), i - 1, w, v, k);
        }
    }
}

pub proof fn lemma_window_lookup_push<V>(s: Seq<(u32, V)>, w: u32, v: V, k: u32)
    ensures
        window_lookup(s.push((w, v)), k) == (match window_lookup(s, k) {
            Some(x) => Some(x),
            None => if w == k {
                Some(v)
            } else {
                None
            },
        }),
    decreases s.len(),
{
    let t = s.push((w, v));
    if s.len() == 0 {
        assert(t[0] == (w, v));
        if w != k {
            assert(t.drop_first() =~= Seq::<(u32, V)>::empty());
        }
    } else {
        assert(t[0] == s[0]);
        if k != s[0].0 {
            assert(t.drop_first() =~= s.drop_first().push((w, v)));
            lemma_window_lookup_push(s.drop_first(), w, v, k);
        }
    }
}

/// A table keyed by entity name.
#[derive(Debug)]
pub struct NameTable<V> {
    entries: Vec<(String, V)>,
}

impl<V: Copy> NameTable<V> {
    /// The value stored under key `k`, if any.
    pub closed spec fn spec_get(self, k: Seq<char>) -> Option<V> {
        name_lookup(self.entries@, k)
    }

    pub closed spec fn spec_len(self) -> nat {
        self.entries@.len()
    }

    pub fn new() -> (r: NameTable<V>)
        ensures
            r.spec_len() == 0,
            forall|k: Seq<char>| r.spec_get(k) is None,
    {
        NameTable { entries: Vec::new() }
    }

    pub fn len(&self) -> (r: usize)
        ensures
            r == self.spec_len(),
    {
        self.entries.len()
    }

    pub fn is_empty(&self) -> (r: bool)
        ensures
            r == (self.spec_len() == 0),
    {
        self.entries.len() == 0
    }

    /// The stored pairs, for iteration by callers that persist or report them.
    pub fn items(&self) -> (r: &Vec<(String, V)>)
        ensures
            r@.len() == self.spec_len(),
            forall|k: Seq<char>| self.spec_get(k) == name_lookup(r@, k),
    {
        &self.entries
    }

    /// An element-wise copy with the same contents.
    pub fn duplicate(&self) -> (r: NameTable<V>)
        ensures
            r.spec_len() == self.spec_len(),
            forall|k: Seq<char>| r.spec_get(k) == self.spec_get(k),
    {
        let n = self.entries.len();
        let mut out: Vec<(String, V)> = Vec::new();
        let mut i: usize = 0;
        while i < n
            invariant
                0 <= i <= n,
                n == self.entries@.len(),
                out@ =~= self.entries@.take(i as int),
            decreases n - i,
        {
            let e = &self.entries[i];
            out.push((e.0.clone(), e.1));
            proof {
                assert(self.entries@.take(i + 1).drop_last() =~= self.entries@.take(i as int));
                assert(self.entries@.take(i + 1).last() == self.entries@[i as int]);
                assert(out@ =~= self.entries@.take(i + 1));
            }
            i = i + 1;
        }
        proof {
            assert(out@ =~= self.entries@);
        }
        NameTable { entries: out }
    }

    pub fn get(&self, name: &String) -> (r: Option<V>)
        ensures
            r == self.spec_get(name@),
    {
        let n = self.entries.len();
        let mut i: usize = 0;
        while i < n
            invariant
                0 <= i <= n,
                n == self.entries@.len(),
                forall|j: int| 0 <= j < i ==> (#[trigger] self.entries@[j]).0@ != name@,
            decreases n - i,
        {
            let e = &self.entries[i];
            if e.0 == *name {
                proof {
                    lemma_name_lookup_index(self.entries@, i as int, name@);
                }
                return Some(e.1);
            }
            i = i + 1;
        }
        proof {
            lemma_name_lookup_none(self.entries@, name@);
        }
        None
    }

    /// Insert or replace the value stored under `name`.
    pub fn insert(&mut self, name: String, v: V)
        ensures
            forall|k: Seq<char>|
                final(self).spec_get(k) == (if k == name@ {
                    Some(v)
                } else {
                    old(self).spec_get(k)
                }),
            final(self).spec_len() <= old(self).spec_len() + 1,
    {
        let n = self.entries.len();
        let mut i: usize = 0;
        while i < n
            invariant
                0 <= i <= n,
                n == self.entries@.len(),
                self.entries@ == old(self).entries@,
                forall|j: int| 0 <= j < i ==> (#[trigger] self.entries@[j]).0@ != name@,
            decreases n - i,
        {
            if self.entries[i].0 == *&name {
                proof {
                    lemma_name_lookup_update(self.entries@, i as int, name, v, name@);
                    assert forall|k: Seq<char>| k != name@ implies name_lookup(
                        self.entries@.update(i as int, (name, v)),
                        k,
                    ) == name_lookup(self.entries@, k) by {
                        lemma_name_lookup_update(self.entries@, i as int, name, v, k);
                    }
                }
                self.entries.set(i, (name, v));
                return ;
            }
            i = i + 1;
        }
        proof {
            lemma_name_lookup_none(self.entries@, name@);
            assert forall|k: Seq<char>| true implies name_lookup(
                self.entries@.push((name, v)),
                k,
            ) == (if k == name@ {
                Some(v)
            } else {
                name_lookup(self.entries@, k)
            }) by {
                lemma_name_lookup_push(self.entries@, name, v, k);
                if k != name@ && name_lookup(self.entries@, k) is None {
                }
            }
        }
        self.entries.push((name, v));
    }
}

/// A table keyed by window handle.
#[derive(Debug)]
pub struct WindowTable<V> {
    entries: Vec<(u32, V)>,
}

impl<V: Copy> WindowTable<V> {
    /// The value stored under window handle `k`, if any.
    pub closed spec fn spec_get(self, k: u32) -> Option<V> {
        window_lookup(self.entries@, k)
    }

    pub closed spec fn spec_len(self) -> nat {
        self.entries@.len()
    }

    pub fn new() -> (r: WindowTable<V>)
        ensures
            r.spec_len() == 0,
            forall|k: u32| r.spec_get(k) is None,
    {
        WindowTable { entries: Vec::new() }
    }

    pub fn len(&self) -> (r: usize)
        ensures
            r == self.spec_len(),
    {
        self.entries.len()
    }

    pub fn get(&self, w: u32) -> (r: Option<V>)
        ensures
            r == self.spec_get(w),
    {
        let n = self.entries.len();
        let mut i: usize = 0;
        while i < n
            invariant
                0 <= i <= n,
                n == self.entries@.len(),
                forall|j: int| 0 <= j < i ==> (#[trigger] self.entries@[j]).0 != w,
            decreases n - i,
        {
            let e = &self.entries[i];
            if e.0 == w {
                proof {
                    lemma_window_lookup_index(self.entries@, i as int, w);
                }
                return Some(e.1);
            }
            i = i + 1;
        }
        proof {
            lemma_window_lookup_none(self.entries@, w);
        }
        None
    }

    /// Insert or replace the value stored under `w`.
    pub fn insert(&mut self, w: u32, v: V)
        ensures
            forall|k: u32|
                final(self).spec_get(k) == (if k == w {
                    Some(v)
                } else {
                    old(self).spec_get(k)
                }),
            final(self).spec_len() <= old(self).spec_len() + 1,
    {
        let n = self.entries.len();
        let mut i: usize = 0;
        while i < n
            invariant
                0 <= i <= n,
                n == self.entries@.len(),
                self.entries@ == old(self).entries@,
                forall|j: int| 0 <= j < i ==> (#[trigger] self.entries@[j]).0 != w,
            decreases n - i,
        {
            if self.entries[i].0 == w {
                proof {
                    assert forall|k: u32| true implies window_lookup(
                        self.entries@.update(i as int, (w, v)),
                        k,
                    ) == (if k == w {
                        Some(v)
                    } else {
                        window_lookup(self.entries@, k)
                    }) by {
                        lemma_window_lookup_update(self.entries@, i as int, w, v, k);
                    }
                }
                self.entries.set(i, (w, v));
                return ;
            }
            i = i + 1;
        }
        proof {
            lemma_window_lookup_none(self.entries@, w);
            assert forall|k: u32| true implies window_lookup(self.entries@.push((w, v)), k) == (if k
                == w {
                Some(v)
            } else {
                window_lookup(self.entries@, k)
            }) by {
                lemma_window_lookup_push(self.entries@, w, v, k);
            }
        }
        self.entries.push((w, v));
    }
}

} // verus!
