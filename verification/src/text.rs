//! ASCII case-insensitive comparison of strings.
use vstd::prelude::*;
use vstd::string::*;

verus! {

/// The code point of the ASCII lower-case form of a character: `A`..=`Z`
/// are mapped to `a`..=`z`, every other character is left as it is.
pub open spec fn ascii_lower(c: char) -> u32 {
    if 'A' <= c && c <= 'Z' {
        (c as u32 + 32) as u32
    } else {
        c as u32
    }
}

/// Two character sequences are equal once both are put in ASCII lower case.
pub open spec fn eq_ignore_ascii_case(s: Seq<char>, t: Seq<char>) -> bool {
    &&& s.len() == t.len()
    &&& forall|i: int| 0 <= i < s.len() ==> #[trigger] ascii_lower(s[i]) == ascii_lower(t[i])
}

/// Comparing ignoring ASCII case is an equivalence: two strings equal in
/// that sense compare alike with every third string.
pub proof fn lemma_eq_ignore_ascii_case_equiv(s: Seq<char>, t: Seq<char>, k: Seq<char>)
    requires
        eq_ignore_ascii_case(s, t),
    ensures
        eq_ignore_ascii_case(t, s),
        eq_ignore_ascii_case(s, k) <==> eq_ignore_ascii_case(t, k),
{
    if eq_ignore_ascii_case(s, k) {
        assert forall|i: int| 0 <= i < t.len() implies #[trigger] ascii_lower(t[i]) == ascii_lower(k[i]) by {
            assert(ascii_lower(s[i]) == ascii_lower(t[i]));
            assert(ascii_lower(s[i]) == ascii_lower(k[i]));
        }
    }
    if eq_ignore_ascii_case(t, k) {
        assert forall|i: int| 0 <= i < s.len() implies #[trigger] ascii_lower(s[i]) == ascii_lower(k[i]) by {
            assert(ascii_lower(s[i]) == ascii_lower(t[i]));
            assert(ascii_lower(t[i]) == ascii_lower(k[i]));
        }
    }
    assert forall|i: int| 0 <= i < t.len() implies #[trigger] ascii_lower(t[i]) == ascii_lower(s[i]) by {
        assert(ascii_lower(s[i]) == ascii_lower(t[i]));
    }
}

/// Executable ASCII lower-casing of one character, as a code point.
fn char_ascii_lower(c: char) -> (r: u32)
    ensures
        r == ascii_lower(c),
{
    if 'A' <= c && c <= 'Z' {
        c as u32 + 32
    } else {
        c as u32
    }
}

/// Compares two strings, ignoring the case of ASCII letters.
pub fn str_eq_ignore_ascii_case(s: &str, t: &str) -> (r: bool)
    ensures
        r == eq_ignore_ascii_case(s@, t@),
{
    let n = s.unicode_len();
    let m = t.unicode_len();
    if n != m {
        return false;
    }
    let mut i: usize = 0;
    while i < n
        invariant
            n == s@.len(),
            m == t@.len(),
            n == m,
            i <= n,
            forall|j: int| 0 <= j < i ==> #[trigger] ascii_lower(s@[j]) == ascii_lower(t@[j]),
        decreases n - i,
    {
        let a = char_ascii_lower(s.get_char(i));
        let b = char_ascii_lower(t.get_char(i));
        if a != b {
            return false;
        }
        i = i + 1;
    }
    true
}

/// Compares two strings character by character.
pub fn str_eq(s: &str, t: &str) -> (r: bool)
    ensures
        r == (s@ == t@),
{
    let n = s.unicode_len();
    let m = t.unicode_len();
    if n != m {
        return false;
    }
    let mut i: usize = 0;
    while i < n
        invariant
            n == s@.len(),
            m == t@.len(),
            n == m,
            i <= n,
            forall|j: int| 0 <= j < i ==> s@[j] == t@[j],
        decreases n - i,
    {
        if s.get_char(i) != t.get_char(i) {
            return false;
        }
        i = i + 1;
    }
    proof {
        assert(s@ =~= t@);
    }
    true
}

} // verus!
