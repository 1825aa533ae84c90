//! Exact and ASCII-case-insensitive comparison of option names.
use vstd::prelude::*;

verus! {

/// The code point of `c` with an ASCII upper-case letter folded to lower case.
pub open spec fn ascii_fold(c: char) -> u32 {
    let code = c as u32;
    if 65 <= code <= 90 {
        (code + 32) as u32
    } else {
        code
    }
}

/// Whether `a` and `b` have the same length and agree character by character
/// once ASCII letters are folded to lower case.
pub open spec fn eq_ignore_ascii_case_spec(a: Seq<char>, b: Seq<char>) -> bool {
    &&& a.len() == b.len()
    &&& forall|i: int| 0 <= i < a.len() ==> #[trigger] ascii_fold(a[i]) == ascii_fold(b[i])
}

fn fold_char(c: char) -> (r: u32)
    ensures
        r == ascii_fold(c),
{
    let code = c as u32;
    if 65 <= code && code <= 90 {
        code + 32
    } else {
        code
    }
}

/// Whether two strings hold the same characters.
pub fn str_eq(a: &str, b: &str) -> (r: bool)
    ensures
        r == (a@ == b@),
{
    let n = a.unicode_len();
    let m = b.unicode_len();
    if n != m {
        return false;
    }
    let mut i: usize = 0;
    while i < n
        invariant
            n == a@.len(),
            m == b@.len(),
            n == m,
            i <= n,
            forall|j: int| 0 <= j < i ==> a@[j] == b@[j],
        decreases n - i,
    {
        if a.get_char(i) != b.get_char(i) {
            return false;
        }
        i = i + 1;
    }
    assert(a@ =~= b@);
    true
}

/// Whether two strings agree once ASCII letters are folded to lower case,
/// as `str::eq_ignore_ascii_case` decides.
pub fn eq_ignore_ascii_case(a: &str, b: &str) -> (r: bool)
    ensures
        r == eq_ignore_ascii_case_spec(a@, b@),
{
    let n = a.unicode_len();
    let m = b.unicode_len();
    if n != m {
        return false;
    }
    let mut i: usize = 0;
    while i < n
        invariant
            n == a@.len(),
            m == b@.len(),
            n == m,
            i <= n,
            forall|j: int| 0 <= j < i ==> #[trigger] ascii_fold(a@[j]) == ascii_fold(b@[j]),
        decreases n - i,
    {
        if fold_char(a.get_char(i)) != fold_char(b.get_char(i)) {
            return false;
        }
        i = i + 1;
    }
    true
}

/// Folded equality carries over: strings equal up to ASCII case agree on
/// whether a third is equal to them up to ASCII case.
pub proof fn lemma_eq_ignore_ascii_case_congruent(a: Seq<char>, b: Seq<char>, c: Seq<char>)
    requires
        eq_ignore_ascii_case_spec(a, b),
    ensures
        eq_ignore_ascii_case_spec(a, c) == eq_ignore_ascii_case_spec(b, c),
{
    if eq_ignore_ascii_case_spec(a, c) {
        assert forall|i: int| 0 <= i < b.len() implies #[trigger] ascii_fold(b[i]) == ascii_fold(c[i]) by {
            assert(ascii_fold(a[i]) == ascii_fold(b[i]));
        }
    }
    if eq_ignore_ascii_case_spec(b, c) {
        assert forall|i: int| 0 <= i < a.len() implies #[trigger] ascii_fold(a[i]) == ascii_fold(c[i]) by {
            assert(ascii_fold(b[i]) == ascii_fold(c[i]));
        }
    }
}
} // verus!
