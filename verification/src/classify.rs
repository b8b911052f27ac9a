//! Window classification: which windows are tracked targets, and what
//! identity they carry.
//!
//! A target window is recognised in two steps.  First a process heuristic:
//! the owning process's executable path must look like the wine loader the
//! tracked application runs under — and when that check cannot be carried
//! out, the window is assumed to be a target (failing open loses a stray
//! preview at worst, while failing closed would silently drop a window the
//! user expects).  Second the window title: a known prefix carries the
//! entity name, a known bare title means a target with no identity yet.

use vstd::prelude::*;

verus! {

/// `n` occurs in `h` starting at `i`.
pub open spec fn matches_at(h: Seq<char>, n: Seq<char>, i: int) -> bool {
    0 <= i && i + n.len() <= h.len() && h.subrange(i, i + n.len()) == n
}

/// `n` occurs somewhere in `h`.
pub open spec fn spec_has_substring(h: Seq<char>, n: Seq<char>) -> bool {
    exists|i: int| matches_at(h, n, i)
}

/// Whether `n` occurs in `h` starting at position `i`.
fn match_at(h: &str, n: &str, i: usize) -> (r: bool)
    requires
        i + n@.len() <= h@.len(),
        i + n@.len() <= usize::MAX,
    ensures
        r == (h@.subrange(i as int, i + n@.len()) == n@),
{
    let nn = n.unicode_len();
    let ghost sub = h@.subrange(i as int, i + n@.len());
    let mut j: usize = 0;
    while j < nn
        invariant
            0 <= j <= nn,
            nn == n@.len(),
            i + nn <= h@.len(),
            i + nn <= usize::MAX,
            sub == h@.subrange(i as int, i + n@.len()),
            forall|jj: int| 0 <= jj < j ==> h@[i + jj] == n@[jj],
        decreases nn - j,
    {
        let hc = h.get_char(i + j);
        let nc = n.get_char(j);
        if hc != nc {
            proof {
                assert(sub[j as int] == h@[i + j]);
            }
            return false;
        }
        j = j + 1;
    }
    proof {
        assert(sub =~= n@);
    }
    true
}

/// Whether `n` occurs anywhere in `h`.
pub fn str_contains(h: &str, n: &str) -> (r: bool)
    ensures
        r == spec_has_substring(h@, n@),
{
    let hn = h.unicode_len();
    let nn = n.unicode_len();
    if nn > hn {
        proof {
            assert forall|i: int| !matches_at(h@, n@, i) by {}
        }
        return false;
    }
    if nn == 0 {
        proof {
            assert(h@.subrange(0, 0) =~= n@);
            assert(matches_at(h@, n@, 0));
        }
        return true;
    }
    let mut i: usize = 0;
    while i <= hn - nn
        invariant
            0 <= i <= hn - nn + 1,
            1 <= nn <= hn,
            hn == h@.len(),
            nn == n@.len(),
            forall|ii: int| 0 <= ii < i ==> !matches_at(h@, n@, ii),
        decreases hn - nn + 1 - i,
    {
        if match_at(h, n, i) {
            proof {
                assert(matches_at(h@, n@, i as int));
            }
            return true;
        }
        i = i + 1;
    }
    proof {
        assert forall|ii: int| !matches_at(h@, n@, ii) by {
            if 0 <= ii <= hn - nn {
            }
        }
    }
    false
}

/// The executable paths of the wine loaders the tracked application runs
/// under.
pub open spec fn spec_is_wine_path(p: Seq<char>) -> bool {
    spec_has_substring(p, "wine64-preloader"@) || spec_has_substring(p, "wine-preloader"@)
}

/// Whether an executable path belongs to a wine loader.
pub fn is_wine_executable(path: &str) -> (r: bool)
    ensures
        r == spec_is_wine_path(path@),
{
    str_contains(path, "wine64-preloader") || str_contains(path, "wine-preloader")
}

/// The process heuristic's verdict, given the owning process's executable
/// path where it could be read.  Deliberately fails open: when the path is
/// unavailable (`None`), the window is assumed to run under wine, because
/// silently dropping a real target is worse than a stray false positive.
pub fn wine_verdict(exe_path: Option<&String>) -> (r: bool)
    ensures
        r == (match exe_path {
            Some(p) => spec_is_wine_path(p@),
            None => true,
        }),
{
    match exe_path {
        Some(p) => is_wine_executable(p.as_str()),
        None => true,
    }
}

/// What a window title reveals: a logged-in target with an entity name, a
/// logged-out target, or not a target at all (`None` from `classify_title`).
#[derive(Debug)]
pub enum EveWindowType {
    LoggedIn(String),
    LoggedOut,
}

impl EveWindowType {
    /// The entity name this window carries: empty for a logged-out target.
    pub fn character_name(&self) -> (r: &str)
        ensures
            match self {
                EveWindowType::LoggedIn(n) => r@ == n@,
                EveWindowType::LoggedOut => r@.len() == 0,
            },
    {
        proof {
            reveal_strlit("");
        }
        match self {
            EveWindowType::LoggedIn(n) => n.as_str(),
            EveWindowType::LoggedOut => "",
        }
    }
}

/// Classify a window title.  A title starting with the target prefix names
/// a logged-in entity (the remainder of the title); the bare product title
/// is a logged-out target; anything else is not a target.
pub fn classify_title(title: &str) -> (r: Option<EveWindowType>)
    ensures
        match r {
            Some(EveWindowType::LoggedIn(name)) => title@.len() >= 6 && title@.subrange(0, 6)
                == "EVE - "@ && name@ == title@.subrange(6, title@.len() as int),
            Some(EveWindowType::LoggedOut) => title@ == "EVE"@,
            None => !(title@.len() >= 6 && title@.subrange(0, 6) == "EVE - "@) && title@ != "EVE"@,
        },
{
    proof {
        reveal_strlit("EVE - ");
        reveal_strlit("EVE");
    }
    let n = title.unicode_len();
    if n >= 6 && match_at(title, "EVE - ", 0) {
        let name = title.substring_char(6, n).to_owned();
        Some(EveWindowType::LoggedIn(name))
    } else if n == 3 && match_at(title, "EVE", 0) {
        proof {
            assert(title@.subrange(0, 3) =~= title@);
        }
        Some(EveWindowType::LoggedOut)
    } else {
        proof {
            if title@ == "EVE"@ {
                assert(title@.subrange(0, 3) =~= title@);
            }
        }
        None
    }
}

/// A picture format offered by the compositing extension: its handle, color
/// depth, and alpha mask.
#[derive(Debug, Clone, Copy, PartialEq, Eq, Structural)]
pub struct PictFormatInfo {
    pub id: u32,
    pub depth: u8,
    pub alpha_mask: u32,
}

/// Whether a format suits the requested depth and alpha presence.
pub open spec fn format_matches(f: PictFormatInfo, depth: u8, alpha: bool) -> bool {
    f.depth == depth && (if alpha {
        f.alpha_mask != 0
    } else {
        f.alpha_mask == 0
    })
}

/// First index of a suitable format, or -1 when none fits.
pub open spec fn first_format_index(s: Seq<PictFormatInfo>, depth: u8, alpha: bool) -> int
    decreases s.len(),
{
    if s.len() == 0 {
        -1
    } else if format_matches(s[0], depth, alpha) {
        0
    } else {
        let r = first_format_index(s.drop_first(), depth, alpha);
        if r < 0 {
            -1
        } else {
            1 + r
        }
    }
}

proof fn lemma_format_index_at(s: Seq<PictFormatInfo>, i: int, depth: u8, alpha: bool)
    requires
        0 <= i < s.len(),
        format_matches(s[i], depth, alpha),
        forall|j: int| 0 <= j < i ==> !format_matches(#[trigger] s[j], depth, alpha),
    ensures
        first_format_index(s, depth, alpha) == i,
    decreases i,
{
    if i > 0 {
        assert(forall|j: int| 0 <= j < s.drop_first().len() ==> s.drop_first()[j] == s[j + 1]);
        lemma_format_index_at(s.drop_first(), i - 1, depth, alpha);
    }
}

proof fn lemma_format_index_absent(s: Seq<PictFormatInfo>, depth: u8, alpha: bool)
    requires
        forall|j: int| 0 <= j < s.len() ==> !format_matches(#[trigger] s[j], depth, alpha),
    ensures
        first_format_index(s, depth, alpha) == -1,
    decreases s.len(),
{
    if s.len() > 0 {
        assert(forall|j: int| 0 <= j < s.drop_first().len() ==> s.drop_first()[j] == s[j + 1]);
        lemma_format_index_absent(s.drop_first(), depth, alpha);
    }
}

/// Select the picture format for the requested depth and alpha presence:
/// the first suitable one the extension offers.  When none fits, the error
/// is fatal at startup — the compositing extension cannot serve us.
pub fn get_pictformat(formats: &Vec<PictFormatInfo>, depth: u8, alpha: bool) -> (r: Result<
    u32,
    String,
>)
    ensures
        ({
            let i = first_format_index(formats@, depth, alpha);
            match r {
                Ok(id) => i >= 0 && id == formats@[i].id,
                Err(e) => i == -1 && e@
                    == "no matching picture format: the compositing extension offers no format with the requested depth and alpha"@,
            }
        }),
{
    let n = formats.len();
    let mut i: usize = 0;
    while i < n
        invariant
            0 <= i <= n,
            n == formats@.len(),
            forall|j: int| 0 <= j < i ==> !format_matches(#[trigger] formats@[j], depth, alpha),
        decreases n - i,
    {
        let f = formats[i];
        let fits = if alpha {
            f.alpha_mask != 0
        } else {
            f.alpha_mask == 0
        };
        if f.depth == depth && fits {
            proof {
                lemma_format_index_at(formats@, i as int, depth, alpha);
            }
            return Ok(f.id);
        }
        i = i + 1;
    }
    proof {
        lemma_format_index_absent(formats@, depth, alpha);
    }
    Err("no matching picture format: the compositing extension offers no format with the requested depth and alpha".to_owned())
}

} // verus!
