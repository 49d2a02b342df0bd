use vstd::prelude::*;
use vstd::string::StrSliceExecFns;

verus! {

/// `pat` occurs in `s` starting at position `i`.
pub open spec fn occurs_at(s: Seq<char>, pat: Seq<char>, i: int) -> bool {
    &&& 0 <= i
    &&& i + pat.len() <= s.len()
    &&& s.subrange(i, i + pat.len()) == pat
}

/// `pat` occurs somewhere in `s`.
pub open spec fn contains_seq(s: Seq<char>, pat: Seq<char>) -> bool {
    exists|i: int| occurs_at(s, pat, i)
}

/// Whether `pat` occurs in `s` starting at position `i`.
fn matches_at(s: &str, pat: &str, i: usize, n: usize, m: usize) -> (r: bool)
    requires
        n == s@.len(),
        m == pat@.len(),
        i + m <= n,
    ensures
        r == occurs_at(s@, pat@, i as int),
{
    let mut j: usize = 0;
    while j < m
        invariant
            n == s@.len(),
            m == pat@.len(),
            i + m <= n,
            j <= m,
            forall|k: int| 0 <= k < j ==> s@[i + k] == pat@[k],
        decreases m - j,
    {
        if s.get_char(i + j) != pat.get_char(j) {
            proof {
                assert(s@.subrange(i as int, i + m)[j as int] != pat@[j as int]);
            }
            return false;
        }
        j = j + 1;
    }
    proof {
        assert(s@.subrange(i as int, i + m) =~= pat@);
    }
    true
}

/// Substring test: whether `pat` occurs anywhere in `s`.
pub fn str_contains(s: &str, pat: &str) -> (r: bool)
    ensures
        r == contains_seq(s@, pat@),
{
    let n = s.unicode_len();
    let m = pat.unicode_len();
    if m > n {
        proof {
            assert(forall|i: int| !occurs_at(s@, pat@, i));
        }
        return false;
    }
    if m == 0 {
        proof {
            assert(s@.subrange(0, 0) =~= pat@);
            assert(occurs_at(s@, pat@, 0));
        }
        return true;
    }
    let mut i: usize = 0;
    while i <= n - m
        invariant
            n == s@.len(),
            m == pat@.len(),
            0 < m <= n,
            i <= n - m + 1,
            forall|k: int| 0 <= k < i ==> !occurs_at(s@, pat@, k),
        decreases n - i,
    {
        if matches_at(s, pat, i, n, m) {
            return true;
        }
        i = i + 1;
    }
    proof {
        assert(forall|k: int| occurs_at(s@, pat@, k) ==> 0 <= k <= n - m);
    }
    false
}

/// Where the file-name portion of a path begins: right after the last `/`,
/// or at the start when the path has no separator.
pub open spec fn file_name_start(path: Seq<char>) -> int
    decreases path.len(),
{
    if path.len() == 0 {
        0
    } else if path.last() == '/' {
        path.len() as int
    } else {
        file_name_start(path.drop_last())
    }
}

/// The file-name portion of a path: everything after the last `/`.
pub open spec fn file_name_of_spec(path: Seq<char>) -> Seq<char> {
    path.subrange(file_name_start(path), path.len() as int)
}

proof fn lemma_file_name_start_bounds(path: Seq<char>)
    ensures
        0 <= file_name_start(path) <= path.len(),
    decreases path.len(),
{
    if path.len() > 0 && path.last() != '/' {
        lemma_file_name_start_bounds(path.drop_last());
    }
}

/// The start of the file name is the unique position that is preceded by a
/// separator (or is the very start) and has no separator after it.
proof fn lemma_file_name_start_unique(path: Seq<char>, i: int)
    requires
        0 <= i <= path.len(),
        i > 0 ==> path[i - 1] == '/',
        forall|j: int| i <= j < path.len() ==> path[j] != '/',
    ensures
        file_name_start(path) == i,
    decreases path.len(),
{
    if path.len() == 0 {
    } else if path.last() == '/' {
        assert(i == path.len());
    } else {
        assert(i < path.len());
        lemma_file_name_start_unique(path.drop_last(), i);
    }
}

/// The file-name portion of `path`: the suffix after the last `/` separator
/// (the whole path when it has none).
pub fn file_name_of(path: &str) -> (r: &str)
    ensures
        r@ == file_name_of_spec(path@),
{
    let n = path.unicode_len();
    let mut i: usize = n;
    while i > 0
        invariant
            n == path@.len(),
            i <= n,
            forall|j: int| i <= j < n ==> path@[j] != '/',
        decreases i,
    {
        if path.get_char(i - 1) == '/' {
            proof {
                lemma_file_name_start_unique(path@, i as int);
            }
            return path.substring_char(i, n);
        }
        i = i - 1;
    }
    proof {
        lemma_file_name_start_unique(path@, 0);
    }
    path.substring_char(0, n)
}

} // verus!
