//! Path arithmetic for locating library artifacts: joining path components,
//! taking a parent, swapping a file extension, and the platform name of a
//! shared library. Paths are plain character strings here; whether they
//! resolve to files or directories is observed outside the library and
//! handed in as plain values.

use vstd::prelude::*;
use vstd::string::{StrSliceExecFns, StringExecFns};

verus! {

/// Whether two strings hold the same characters.
pub fn str_eq(a: &str, b: &str) -> (r: bool)
    ensures
        r == (a@ == b@),
{
    let an = a.unicode_len();
    let bn = b.unicode_len();
    if an != bn {
        return false;
    }
    let mut i: usize = 0;
    while i < an
        invariant
            an == a@.len() && an == b@.len(),
            i <= an,
            forall|j: int| 0 <= j < i ==> a@[j] == b@[j],
        decreases an - i,
    {
        if a.get_char(i) != b.get_char(i) {
            return false;
        }
        i = i + 1;
    }
    proof {
        assert(a@ =~= b@);
    }
    true
}

/// The three pieces glued together.
pub fn concat3(a: &str, b: &str, c: &str) -> (r: String)
    ensures
        r@ == a@ + b@ + c@,
{
    let mut r = String::from_str(a);
    r.append(b);
    r.append(c);
    r
}

/// Joining a child onto a base path: an absolute child replaces the base;
/// otherwise the two are glued with a separator unless the base already
/// ends in one or is empty.
pub open spec fn spec_join(base: Seq<char>, child: Seq<char>) -> Seq<char> {
    if child.len() > 0 && child[0] == '/' {
        child
    } else if base.len() == 0 {
        child
    } else if base[base.len() - 1] == '/' {
        base + child
    } else {
        base + seq!['/'] + child
    }
}

/// Joins a child component onto a base path.
pub fn join(base: &str, child: &str) -> (r: String)
    ensures
        r@ == spec_join(base@, child@),
{
    let cn = child.unicode_len();
    if cn > 0 && child.get_char(0) == '/' {
        return String::from_str(child);
    }
    let bn = base.unicode_len();
    if bn == 0 {
        return String::from_str(child);
    }
    let mut r = String::from_str(base);
    if base.get_char(bn - 1) != '/' {
        r.append("/");
    }
    r.append(child);
    proof {
        reveal_strlit("/");
        assert(r@ =~= spec_join(base@, child@));
    }
    r
}

/// The last position of `c` within the first `n` characters, if any.
pub open spec fn spec_last_index_of(s: Seq<char>, c: char, n: int) -> Option<int>
    decreases n,
{
    if n <= 0 {
        None
    } else if s[n - 1] == c {
        Some(n - 1)
    } else {
        spec_last_index_of(s, c, n - 1)
    }
}

/// Finds the last occurrence of `c` in `s`.
pub fn last_index_of(s: &str, c: char) -> (r: Option<usize>)
    ensures
        match r {
            Some(i) => i < s@.len() && spec_last_index_of(s@, c, s@.len() as int) == Some(i as int),
            None => spec_last_index_of(s@, c, s@.len() as int) is None,
        },
{
    let n = s.unicode_len();
    let mut i: usize = n;
    while i > 0
        invariant
            n == s@.len(),
            i <= n,
            spec_last_index_of(s@, c, n as int) == spec_last_index_of(s@, c, i as int),
        decreases i,
    {
        if s.get_char(i - 1) == c {
            return Some(i - 1);
        }
        i = i - 1;
    }
    None
}

/// The parent of a path without a trailing separator: everything before
/// the last separator — the root when the last separator is the first
/// character, the empty path when there is no separator at all, nothing
/// for the root itself or the empty path.
pub open spec fn spec_parent(s: Seq<char>) -> Option<Seq<char>> {
    if s.len() == 0 || (s.len() == 1 && s[0] == '/') {
        None
    } else {
        match spec_last_index_of(s, '/', s.len() as int) {
            None => Some(Seq::empty()),
            Some(k) => if k == 0 {
                Some(seq!['/'])
            } else {
                Some(s.subrange(0, k))
            },
        }
    }
}

/// Takes the parent of a path.
pub fn parent_of(s: &str) -> (r: Option<String>)
    ensures
        match r {
            Some(p) => spec_parent(s@) == Some(p@),
            None => spec_parent(s@) is None,
        },
{
    let n = s.unicode_len();
    if n == 0 || (n == 1 && s.get_char(0) == '/') {
        return None;
    }
    match last_index_of(s, '/') {
        None => Some(String::new()),
        Some(k) => {
            if k == 0 {
                let r = String::from_str("/");
                proof {
                    reveal_strlit("/");
                    assert(r@ =~= seq!['/']);
                }
                Some(r)
            } else {
                Some(String::from_str(s.substring_char(0, k)))
            }
        }
    }
}

/// A path with its extension swapped for `ext`: the suffix after the last
/// dot of the final component goes, unless that dot begins the component;
/// a component without one keeps everything. A dot and `ext` are appended
/// either way.
pub open spec fn spec_with_extension(s: Seq<char>, ext: Seq<char>) -> Seq<char> {
    let start = match spec_last_index_of(s, '/', s.len() as int) {
        Some(k) => k + 1,
        None => 0,
    };
    let stem = match spec_last_index_of(s, '.', s.len() as int) {
        Some(d) => if d > start {
            s.subrange(0, d)
        } else {
            s
        },
        None => s,
    };
    stem + seq!['.'] + ext
}

/// Swaps the extension of a path; the runtime uses this to place the
/// stable copy of the artifact alongside the built one.
pub fn with_extension(s: &str, ext: &str) -> (r: String)
    ensures
        r@ == spec_with_extension(s@, ext@),
{
    let n = s.unicode_len();
    let start: usize = match last_index_of(s, '/') {
        Some(k) => k + 1,
        None => 0,
    };
    let mut stem: String = match last_index_of(s, '.') {
        Some(d) => {
            if d > start {
                String::from_str(s.substring_char(0, d))
            } else {
                String::from_str(s)
            }
        }
        None => String::from_str(s),
    };
    stem.append(".");
    stem.append(ext);
    proof {
        reveal_strlit(".");
        assert(stem@ =~= spec_with_extension(s@, ext@));
    }
    stem
}

/// The file name a shared library carries on this platform.
pub fn library_format(name: &str) -> (r: String)
    ensures
        r@ == "lib"@ + name@ + ".so"@,
{
    concat3("lib", name, ".so")
}

} // verus!
