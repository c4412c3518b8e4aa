//! Text helpers: substring search over characters and Unicode lowercasing.

use vstd::prelude::*;

verus! {

/// `needle` occurs in `haystack` as a contiguous run of characters.
/// The empty needle occurs in every haystack.
pub open spec fn seq_contains(haystack: Seq<char>, needle: Seq<char>) -> bool {
    exists|i: int|
        0 <= i && i + needle.len() <= haystack.len() && #[trigger] haystack.subrange(
            i,
            i + needle.len(),
        ) == needle
}

/// What `str::to_lowercase` returns for a string with these characters.
pub uninterp spec fn lowercase(s: Seq<char>) -> Seq<char>;

/// Every character is ASCII.
pub open spec fn all_ascii(s: Seq<char>) -> bool {
    forall|i: int| 0 <= i < s.len() ==> (#[trigger] s[i] as u32) < 128
}

/// An ASCII uppercase letter becomes its lowercase letter; every other
/// character stays.
pub open spec fn ascii_lower_char(c: char) -> char {
    if 'A' <= c && c <= 'Z' {
        ((c as u32) + 32) as char
    } else {
        c
    }
}

/// The ASCII lowercasing of each character.
pub open spec fn ascii_lowercase(s: Seq<char>) -> Seq<char> {
    s.map_values(|c: char| ascii_lower_char(c))
}

/// Calls `str::to_lowercase`. The contract names its result `lowercase(s@)`:
/// the Unicode lowercase mapping of the characters, a function of them alone.
/// Of ASCII text it states what the documentation of `str::to_lowercase`
/// and of `char::to_lowercase` gives: each uppercase letter A to Z becomes
/// its lowercase letter and every other ASCII character stays.
#[verifier::external_body]
pub(crate) fn to_lowercase(s: &str) -> (r: String)
    ensures
        r@ == lowercase(s@),
        all_ascii(s@) ==> r@ == ascii_lowercase(s@),
{
    s.to_lowercase()
}

/// The characters of `s`, in order.
pub fn chars_of(s: &str) -> (v: Vec<char>)
    ensures
        v@ == s@,
{
    let n = s.unicode_len();
    let mut v: Vec<char> = Vec::new();
    for i in 0..n
        invariant
            n == s@.len(),
            v@ == s@.subrange(0, i as int),
    {
        v.push(s.get_char(i));
        assert(v@ =~= s@.subrange(0, i + 1));
    }
    assert(v@ =~= s@);
    v
}

/// Whether `needle` matches `haystack` at position `start`.
fn matches_at(haystack: &Vec<char>, needle: &Vec<char>, start: usize) -> (r: bool)
    requires
        start + needle@.len() <= haystack@.len(),
    ensures
        r == (haystack@.subrange(start as int, start + needle@.len()) == needle@),
{
    let m = needle.len();
    let hl = haystack.len();
    let mut j: usize = 0;
    while j < m
        invariant
            m == needle@.len(),
            hl == haystack@.len(),
            start + m <= haystack@.len(),
            j <= m,
            forall|k: int| 0 <= k < j ==> haystack@[start + k] == needle@[k],
        decreases m - j,
    {
        if haystack[start + j] != needle[j] {
            assert(haystack@.subrange(start as int, start + m)[j as int] != needle@[j as int]);
            return false;
        }
        j = j + 1;
    }
    assert(haystack@.subrange(start as int, start + m) =~= needle@);
    true
}

/// Whether `needle` occurs in `haystack`, as `str::contains` answers for a
/// string pattern.
pub fn contains_chars(haystack: &Vec<char>, needle: &Vec<char>) -> (r: bool)
    ensures
        r == seq_contains(haystack@, needle@),
{
    let n = haystack.len();
    let m = needle.len();
    if m > n {
        return false;
    }
    if m == 0 {
        assert(haystack@.subrange(0, 0 + needle@.len() as int) =~= needle@);
        return true;
    }
    let last = n - m;
    let mut i: usize = 0;
    while i <= last
        invariant
            n == haystack@.len(),
            m == needle@.len(),
            last + m == n,
            m > 0,
            i <= last + 1,
            forall|k: int|
                0 <= k < i ==> #[trigger] haystack@.subrange(k, k + m) != needle@,
        decreases last + 1 - i,
    {
        if matches_at(haystack, needle, i) {
            return true;
        }
        i = i + 1;
    }
    false
}

} // verus!
