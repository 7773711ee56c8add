use vstd::prelude::*;

verus! {

/// The index of the first `.` in `s` at or after `from`, or the length of
/// `s` where there is none.
pub open spec fn dot_index(s: Seq<char>, from: int) -> int
    decreases s.len() - from,
{
    if from < 0 || from >= s.len() {
        s.len() as int
    } else if s[from] == '.' {
        from
    } else {
        dot_index(s, from + 1)
    }
}

/// Whether `s` begins with `p`.
pub open spec fn starts_with(s: Seq<char>, p: Seq<char>) -> bool {
    p.len() <= s.len() && s.subrange(0, p.len() as int) == p
}

/// The part of a semantic version that names the data directory: the whole
/// version below 0.1, major and minor below 1.0, the major alone from 1.0
/// on. Versions that share it share data.
pub open spec fn spec_version_dir(v: Seq<char>) -> Seq<char> {
    if starts_with(v, seq!['0', '.', '0', '.']) {
        v
    } else if starts_with(v, seq!['0', '.']) {
        v.subrange(0, dot_index(v, 2))
    } else {
        v.subrange(0, dot_index(v, 0))
    }
}

fn find_dot(s: &str, from: usize) -> (r: usize)
    requires
        from <= s@.len(),
    ensures
        r as int == dot_index(s@, from as int),
        from <= r <= s@.len(),
{
    let n = s.unicode_len();
    let mut i = from;
    while i < n
        invariant
            n == s@.len(),
            from <= i <= n,
            dot_index(s@, i as int) == dot_index(s@, from as int),
        decreases n - i,
    {
        if s.get_char(i) == '.' {
            return i;
        }
        i = i + 1;
    }
    i
}

fn has_prefix(s: &str, p: &str) -> (r: bool)
    ensures
        r == starts_with(s@, p@),
{
    let n = s.unicode_len();
    let m = p.unicode_len();
    if m > n {
        return false;
    }
    let mut i: usize = 0;
    while i < m
        invariant
            n == s@.len(),
            m == p@.len(),
            m <= n,
            0 <= i <= m,
            forall|j: int| 0 <= j < i ==> s@[j] == p@[j],
        decreases m - i,
    {
        if s.get_char(i) != p.get_char(i) {
            assert(s@.subrange(0, m as int)[i as int] != p@[i as int]);
            return false;
        }
        i = i + 1;
    }
    assert(s@.subrange(0, m as int) =~= p@);
    true
}

/// The data-directory component for the application version `semver`.
pub fn get_version(semver: &str) -> (r: String)
    ensures
        r@ == spec_version_dir(semver@),
{
    let zero_zero = "0.0.";
    let zero = "0.";
    proof {
        reveal_strlit("0.0.");
        reveal_strlit("0.");
    }
    assert(zero_zero@ =~= seq!['0', '.', '0', '.']);
    assert(zero@ =~= seq!['0', '.']);
    if has_prefix(semver, zero_zero) {
        return String::from_str(semver);
    }
    let end = if has_prefix(semver, zero) {
        find_dot(semver, 2)
    } else {
        find_dot(semver, 0)
    };
    String::from_str(semver.substring_char(0, end))
}

} // verus!
