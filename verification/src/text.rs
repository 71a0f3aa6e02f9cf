//! Small verified text helpers, plus the two trusted bridges to the
//! standard library's Unicode machinery: lossy UTF-8 decoding and the
//! whitespace classification used by trimming.

use vstd::prelude::*;

verus! {

/// The characters that `bytes` decode to under lossy UTF-8 decoding
/// (invalid sequences become replacement characters).
pub uninterp spec fn utf8_lossy_of(bytes: Seq<u8>) -> Seq<char>;

/// Relies on `String::from_utf8_lossy`: the decoded text is a function of
/// the bytes alone, and valid UTF-8 decodes to itself.
#[verifier::external_body]
pub fn utf8_lossy(bytes: &[u8]) -> (text: String)
    ensures
        text@ == utf8_lossy_of(bytes@),
{
    String::from_utf8_lossy(bytes).into_owned()
}

/// Whether `c` has the Unicode white-space property.
pub uninterp spec fn is_whitespace_char(c: char) -> bool;

/// Relies on `char::is_whitespace`: whether a character has the Unicode
/// white-space property depends on the character alone.
#[verifier::external_body]
pub fn whitespace_char(c: char) -> (r: bool)
    ensures
        r == is_whitespace_char(c),
{
    c.is_whitespace()
}

/// Whether the character sequences `a` and `b` are equal.
pub fn str_eq(a: &str, b: &str) -> (r: bool)
    ensures
        r == (a@ == b@),
{
    let alen = a.unicode_len();
    let blen = b.unicode_len();
    if alen != blen {
        return false;
    }
    let mut i: usize = 0;
    while i < alen
        invariant
            i <= alen,
            alen == a@.len(),
            alen == b@.len(),
            forall|j: int| 0 <= j < i ==> a@[j] == b@[j],
        decreases alen - i,
    {
        if a.get_char(i) != b.get_char(i) {
            return false;
        }
        i = i + 1;
    }
    proof {
        assert(a@ =~= b@);
    }
    true
}

/// Number of leading white-space characters of `s`.
pub open spec fn ws_prefix_len(s: Seq<char>) -> nat
    decreases s.len(),
{
    if s.len() == 0 {
        0
    } else if !is_whitespace_char(s[0]) {
        0
    } else {
        1 + ws_prefix_len(s.skip(1))
    }
}

/// Number of trailing white-space characters of `s`.
pub open spec fn ws_suffix_len(s: Seq<char>) -> nat
    decreases s.len(),
{
    if s.len() == 0 {
        0
    } else if !is_whitespace_char(s[s.len() - 1]) {
        0
    } else {
        1 + ws_suffix_len(s.take(s.len() - 1))
    }
}

/// `s` with leading and trailing white space removed.
pub open spec fn spec_trim(s: Seq<char>) -> Seq<char> {
    if ws_prefix_len(s) == s.len() {
        Seq::empty()
    } else {
        s.subrange(ws_prefix_len(s) as int, s.len() - ws_suffix_len(s))
    }
}

proof fn lemma_ws_prefix_le_len(s: Seq<char>)
    ensures
        ws_prefix_len(s) <= s.len(),
        forall|j: int| 0 <= j < ws_prefix_len(s) ==> is_whitespace_char(s[j]),
        ws_prefix_len(s) < s.len() ==> !is_whitespace_char(s[ws_prefix_len(s) as int]),
    decreases s.len(),
{
    if s.len() == 0 {
    } else if !is_whitespace_char(s[0]) {
    } else {
        lemma_ws_prefix_le_len(s.skip(1));
        assert forall|j: int| 0 <= j < ws_prefix_len(s) implies is_whitespace_char(s[j]) by {
            if j > 0 {
                assert(s.skip(1)[j - 1] == s[j]);
            }
        }
    }
}

proof fn lemma_ws_suffix_le_len(s: Seq<char>)
    ensures
        ws_suffix_len(s) <= s.len(),
        forall|j: int| s.len() - ws_suffix_len(s) <= j < s.len() ==> is_whitespace_char(s[j]),
        ws_suffix_len(s) < s.len() ==> !is_whitespace_char(
            s[s.len() - ws_suffix_len(s) - 1],
        ),
    decreases s.len(),
{
    if s.len() == 0 {
    } else if !is_whitespace_char(s[s.len() - 1]) {
    } else {
        lemma_ws_suffix_le_len(s.take(s.len() - 1));
        assert forall|j: int| s.len() - ws_suffix_len(s) <= j < s.len() implies is_whitespace_char(
            s[j],
        ) by {
            if j < s.len() - 1 {
                assert(s.take(s.len() - 1)[j] == s[j]);
            }
        }
    }
}

/// Index of the first non-white-space character of `s` (or `s@.len()`).
fn ws_prefix_end(s: &str) -> (i: usize)
    ensures
        i == ws_prefix_len(s@),
{
    let n = s.unicode_len();
    let mut i: usize = 0;
    while i < n
        invariant
            i <= n,
            n == s@.len(),
            forall|j: int| 0 <= j < i ==> is_whitespace_char(s@[j]),
        decreases n - i,
    {
        if !whitespace_char(s.get_char(i)) {
            proof {
                lemma_ws_prefix_le_len(s@);
            }
            return i;
        }
        i = i + 1;
    }
    proof {
        lemma_ws_prefix_le_len(s@);
    }
    n
}

/// Index just past the last non-white-space character of `s` (or 0).
fn ws_suffix_start(s: &str) -> (i: usize)
    ensures
        i == s@.len() - ws_suffix_len(s@),
{
    let n = s.unicode_len();
    let mut i: usize = n;
    while i > 0
        invariant
            i <= n,
            n == s@.len(),
            forall|j: int| i <= j < n ==> is_whitespace_char(s@[j]),
        decreases i,
    {
        if !whitespace_char(s.get_char(i - 1)) {
            proof {
                lemma_ws_suffix_le_len(s@);
            }
            return i;
        }
        i = i - 1;
    }
    proof {
        lemma_ws_suffix_le_len(s@);
    }
    0
}

/// `s` with leading and trailing white space removed, as the standard
/// `str::trim` does.
pub fn trim(s: &str) -> (r: &str)
    ensures
        r@ == spec_trim(s@),
{
    let start = ws_prefix_end(s);
    let end = ws_suffix_start(s);
    proof {
        lemma_ws_prefix_le_len(s@);
        lemma_ws_suffix_le_len(s@);
    }
    if start >= end {
        proof {
            if ws_prefix_len(s@) != s@.len() {
                // start < len and everything from `end` on is white space,
                // so start >= end forces s[start] to be white space too -
                // contradicting the definition of the prefix length.
                assert(is_whitespace_char(s@[start as int]));
                assert(false);
            }
        }
        let r = s.substring_char(0, 0);
        proof {
            assert(r@ =~= spec_trim(s@));
        }
        r
    } else {
        let r = s.substring_char(start, end);
        r
    }
}

/// Index of the first occurrence of `c` in `s` at or after `from`, or
/// `s.len()` if there is none.
pub open spec fn spec_find_char(s: Seq<char>, c: char, from: int) -> int
    decreases s.len() - from,
{
    if from < 0 || from >= s.len() {
        s.len() as int
    } else if s[from] == c {
        from
    } else {
        spec_find_char(s, c, from + 1)
    }
}

pub proof fn lemma_find_char(s: Seq<char>, c: char, from: int)
    requires
        0 <= from <= s.len(),
    ensures
        from <= spec_find_char(s, c, from) <= s.len(),
        spec_find_char(s, c, from) < s.len() ==> s[spec_find_char(s, c, from)] == c,
        forall|j: int| from <= j < spec_find_char(s, c, from) ==> s[j] != c,
    decreases s.len() - from,
{
    if from < s.len() && s[from] != c {
        lemma_find_char(s, c, from + 1);
    }
}

/// Finds the first occurrence of `c` in `s` at or after `from`;
/// `s@.len()` means there is none.
pub fn find_char(s: &str, c: char, from: usize) -> (r: usize)
    requires
        from <= s@.len(),
    ensures
        r == spec_find_char(s@, c, from as int),
        from <= r <= s@.len(),
        r < s@.len() ==> s@[r as int] == c,
{
    let n = s.unicode_len();
    let mut i: usize = from;
    while i < n
        invariant
            from <= i <= n,
            n == s@.len(),
            spec_find_char(s@, c, from as int) == spec_find_char(s@, c, i as int),
        decreases n - i,
    {
        if s.get_char(i) == c {
            return i;
        }
        i = i + 1;
    }
    n
}

} // verus!
