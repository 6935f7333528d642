//! Ignore-pattern filtering: glob matching against the filename component
//! of a traversal entry, directory part stripped first.

use vstd::prelude::*;
use vstd::string::StrSliceExecFns;

verus! {

/// What the glob matcher answers for a pattern and a filename: a pure
/// function of the two strings alone.
pub uninterp spec fn glob_matches(pattern: Seq<char>, name: Seq<char>) -> bool;

/// Relies on glob::Pattern::new and glob::Pattern::matches: compiles the
/// glob pattern and matches the name against it with the default options, a
/// deterministic function of the two strings; a pattern that does not
/// compile matches nothing.
#[verifier::external_body]
fn pattern_matches(pattern: &str, name: &str) -> (r: bool)
    ensures
        r == glob_matches(pattern@, name@),
{
    match glob::Pattern::new(pattern) {
        Ok(p) => p.matches(name),
        Err(_) => false,
    }
}

/// The filename component of a path: what follows the last `/`; the whole
/// path when it holds no `/`; empty when the path ends in `/`.
pub open spec fn basename_of(s: Seq<char>) -> Seq<char>
    decreases s.len(),
{
    if s.len() == 0 {
        s
    } else if s.last() == '/' {
        Seq::empty()
    } else {
        basename_of(s.drop_last()).push(s.last())
    }
}

/// A suffix that holds no separator and starts right after one (or at the
/// start of the path) is the path's filename component.
proof fn lemma_basename_suffix(s: Seq<char>, start: int)
    requires
        0 <= start <= s.len(),
        forall|j: int| start <= j < s.len() ==> s[j] != '/',
        start > 0 ==> s[start - 1] == '/',
    ensures
        basename_of(s) == s.subrange(start, s.len() as int),
    decreases s.len(),
{
    if start == s.len() {
        if s.len() == 0 {
            assert(basename_of(s) =~= s.subrange(start, s.len() as int));
        } else {
            assert(s.last() == '/');
            assert(basename_of(s) =~= s.subrange(start, s.len() as int));
        }
    } else {
        assert(s[s.len() - 1] != '/');
        let d = s.drop_last();
        assert(forall|j: int| start <= j < d.len() ==> d[j] == #[trigger] s[j]);
        lemma_basename_suffix(d, start);
        assert(d.subrange(start, d.len() as int).push(s.last()) =~= s.subrange(
            start,
            s.len() as int,
        ));
    }
}

/// Strips the directory component of a path: returns the text after the
/// last `/`, the whole path when there is none.
pub fn file_name_of(path: &str) -> (r: &str)
    ensures
        r@ == basename_of(path@),
{
    let n = path.unicode_len();
    let mut start: usize = 0;
    let mut i: usize = 0;
    while i < n
        invariant
            n == path@.len(),
            0 <= start <= i <= n,
            forall|j: int| start <= j < i ==> path@[j] != '/',
            start > 0 ==> path@[start - 1] == '/',
        decreases n - i,
    {
        if path.get_char(i) == '/' {
            start = i + 1;
        }
        i = i + 1;
    }
    proof {
        lemma_basename_suffix(path@, start as int);
    }
    path.substring_char(start, n)
}

/// Whether a traversal entry is excluded before a task is ever built from
/// it: its filename component — the directory part stripped first — matches
/// one of the ignore rules.  The first match wins; an empty rule set ignores
/// nothing.  A pure function of the path and the rules, no filesystem access.
pub fn is_ignored(path: &str, ignore_list: &Vec<String>) -> (r: bool)
    ensures
        r == exists|k: int|
            0 <= k < ignore_list@.len() && glob_matches(
                (#[trigger] ignore_list@[k])@,
                basename_of(path@),
            ),
{
    let filename = file_name_of(path);
    let mut k: usize = 0;
    while k < ignore_list.len()
        invariant
            0 <= k <= ignore_list@.len(),
            filename@ == basename_of(path@),
            forall|j: int|
                0 <= j < k ==> !glob_matches((#[trigger] ignore_list@[j])@, basename_of(path@)),
        decreases ignore_list@.len() - k,
    {
        let pat: &String = &ignore_list[k];
        if pattern_matches(pat.as_str(), filename) {
            return true;
        }
        k = k + 1;
    }
    false
}

} // verus!
