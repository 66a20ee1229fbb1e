use vstd::prelude::*;
use vstd::string::StrSliceExecFns;

verus! {

/// The texts of a list of strings.
pub open spec fn views(strings: Seq<String>) -> Seq<Seq<char>> {
    strings.map_values(|s: String| s@)
}

/// Calls `String::push`. Claimed, as std documents it: `c` is appended.
#[verifier::external_body]
pub(crate) fn push_char(s: &mut String, c: char)
    ensures
        final(s)@ == old(s)@.push(c),
{
    s.push(c)
}

/// A copy of a list of strings, string for string.
pub fn copy_strings(strings: &Vec<String>) -> (r: Vec<String>)
    ensures
        r@ == strings@,
{
    let r = strings.clone();
    assert forall|i: int| 0 <= i < r@.len() implies r@[i] == strings@[i] by {
        assert(cloned::<String>(strings@[i], r@[i]));
    }
    assert(r@ =~= strings@);
    r
}

/// Whether `text` begins with `prefix`.
pub open spec fn starts_with(text: Seq<char>, prefix: Seq<char>) -> bool {
    prefix.len() <= text.len() && text.take(prefix.len() as int) == prefix
}

/// Whether `text` ends with `suffix`.
pub open spec fn ends_with(text: Seq<char>, suffix: Seq<char>) -> bool {
    suffix.len() <= text.len() && text.skip(text.len() - suffix.len()) == suffix
}

/// Whether `needle` occurs in `haystack` starting at `at`.
pub open spec fn occurs_at(haystack: Seq<char>, needle: Seq<char>, at: int) -> bool {
    0 <= at && at + needle.len() <= haystack.len() && haystack.subrange(at, at + needle.len())
        == needle
}

/// Whether `needle` occurs anywhere in `haystack`.
pub open spec fn contains_text(haystack: Seq<char>, needle: Seq<char>) -> bool {
    exists|at: int| occurs_at(haystack, needle, at)
}

/// Whether `needle` occurs in `haystack`.
pub fn find_text(haystack: &str, needle: &str) -> (found: bool)
    ensures
        found == contains_text(haystack@, needle@),
{
    let n = haystack.unicode_len();
    let m = needle.unicode_len();
    if m > n {
        assert forall|at: int| !occurs_at(haystack@, needle@, at) by {}
        return false;
    }
    let mut at: usize = 0;
    while at <= n - m
        invariant
            n == haystack@.len(),
            m == needle@.len(),
            m <= n,
            at <= n - m + 1,
            forall|a: int| 0 <= a < at ==> !occurs_at(haystack@, needle@, a),
        decreases n - m + 1 - at,
    {
        let mut k: usize = 0;
        let mut same = true;
        while k < m
            invariant
                n == haystack@.len(),
                m == needle@.len(),
                at + m <= n,
                k <= m,
                same == forall|j: int| 0 <= j < k ==> haystack@[at + j] == needle@[j],
            decreases m - k,
        {
            if haystack.get_char(at + k) != needle.get_char(k) {
                same = false;
            }
            k = k + 1;
        }
        if same {
            assert(haystack@.subrange(at as int, at + m) =~= needle@);
            assert(occurs_at(haystack@, needle@, at as int));
            return true;
        }
        assert(!occurs_at(haystack@, needle@, at as int)) by {
            if haystack@.subrange(at as int, at + m) == needle@ {
                let j = choose|j: int| 0 <= j < m && haystack@[at + j] != needle@[j];
                assert(haystack@.subrange(at as int, at + m)[j] == haystack@[at + j]);
            }
        }
        at = at + 1;
    }
    assert forall|a: int| !occurs_at(haystack@, needle@, a) by {
        if occurs_at(haystack@, needle@, a) {
            assert(0 <= a < at);
        }
    }
    false
}

} // verus!
