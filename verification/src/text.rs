//! Text utilities for transcripts and configuration strings: whitespace
//! trimming (deciding whether speech was detected at all) and ASCII
//! case-insensitive comparison (matching hotkey names).

use vstd::prelude::*;

verus! {

/// Whether a character counts as whitespace: the Unicode `White_Space`
/// property, as `char::is_whitespace` decides it. Named rather than written
/// out, since stating it would reproduce a Unicode table.
pub uninterp spec fn is_ws(c: char) -> bool;

/// Relies on `char::is_whitespace`: whether the character has the Unicode
/// `White_Space` property, a function of the character alone.
#[verifier::external_body]
fn char_is_whitespace(c: char) -> (r: bool)
    ensures
        r == is_ws(c),
{
    c.is_whitespace()
}

/// Whether every character of `s` is whitespace (vacuously true of the
/// empty sequence).
pub open spec fn all_ws(s: Seq<char>) -> bool {
    forall|i: int| 0 <= i < s.len() ==> is_ws(s[i])
}

/// `s` with its leading whitespace removed.
pub open spec fn trim_start_spec(s: Seq<char>) -> Seq<char>
    decreases s.len(),
{
    if s.len() == 0 {
        s
    } else if is_ws(s[0]) {
        trim_start_spec(s.skip(1))
    } else {
        s
    }
}

/// `s` with its trailing whitespace removed.
pub open spec fn trim_end_spec(s: Seq<char>) -> Seq<char>
    decreases s.len(),
{
    if s.len() == 0 {
        s
    } else if is_ws(s[s.len() - 1]) {
        trim_end_spec(s.take(s.len() - 1))
    } else {
        s
    }
}

/// `s` without leading and trailing whitespace, as `str::trim` returns it.
pub open spec fn trim_spec(s: Seq<char>) -> Seq<char> {
    trim_end_spec(trim_start_spec(s))
}

/// If the first `i` characters are whitespace and the character at `i` (when
/// there is one) is not, trimming the start drops exactly those `i`.
proof fn lemma_trim_start_at(s: Seq<char>, i: int)
    requires
        0 <= i <= s.len(),
        forall|k: int| 0 <= k < i ==> is_ws(s[k]),
        i < s.len() ==> !is_ws(s[i]),
    ensures
        trim_start_spec(s) =~= s.skip(i),
    decreases i,
{
    if i == 0 {
        if s.len() > 0 {
            assert(!is_ws(s[0]));
        }
        assert(trim_start_spec(s) =~= s.skip(0));
    } else {
        assert(is_ws(s[0]));
        let t = s.skip(1);
        assert(forall|k: int| 0 <= k < i - 1 ==> is_ws(#[trigger] t[k]));
        lemma_trim_start_at(t, i - 1);
        assert(t.skip(i - 1) =~= s.skip(i));
    }
}

/// If every character from `j` on is whitespace and the character before `j`
/// (when there is one) is not, trimming the end keeps exactly the first `j`.
proof fn lemma_trim_end_at(s: Seq<char>, j: int)
    requires
        0 <= j <= s.len(),
        forall|k: int| j <= k < s.len() ==> is_ws(s[k]),
        j > 0 ==> !is_ws(s[j - 1]),
    ensures
        trim_end_spec(s) =~= s.take(j),
    decreases s.len(),
{
    if j == s.len() {
        if s.len() > 0 {
            assert(!is_ws(s[s.len() - 1]));
        }
        assert(trim_end_spec(s) =~= s.take(s.len() as int));
    } else {
        assert(is_ws(s[s.len() - 1]));
        let t = s.take(s.len() - 1);
        lemma_trim_end_at(t, j);
        assert(t.take(j) =~= s.take(j));
    }
}

/// The trimmed text is empty exactly when the original is empty or
/// whitespace-only.
pub proof fn lemma_trim_empty_iff_all_ws(s: Seq<char>)
    ensures
        trim_spec(s).len() == 0 <==> all_ws(s),
    decreases s.len(),
{
    if s.len() == 0 {
    } else if is_ws(s[0]) {
        let t = s.skip(1);
        lemma_trim_empty_iff_all_ws(t);
        assert(trim_start_spec(s) == trim_start_spec(t));
        assert(all_ws(t) ==> all_ws(s)) by {
            if all_ws(t) {
                assert forall|i: int| 0 <= i < s.len() implies is_ws(s[i]) by {
                    if i > 0 {
                        assert(s[i] == t[i - 1]);
                    }
                }
            }
        }
        assert(all_ws(s) ==> all_ws(t)) by {
            if all_ws(s) {
                assert forall|i: int| 0 <= i < t.len() implies is_ws(t[i]) by {
                    assert(t[i] == s[i + 1]);
                }
            }
        }
    } else {
        assert(trim_start_spec(s) == s);
        lemma_trim_end_keeps_head(s);
        assert(!all_ws(s));
    }
}

/// Trimming the end of a sequence whose first character is not whitespace
/// keeps that character, so the result is non-empty.
proof fn lemma_trim_end_keeps_head(s: Seq<char>)
    requires
        s.len() > 0,
        !is_ws(s[0]),
    ensures
        trim_end_spec(s).len() > 0,
    decreases s.len(),
{
    if is_ws(s[s.len() - 1]) {
        let t = s.take(s.len() - 1);
        assert(t[0] == s[0]);
        lemma_trim_end_keeps_head(t);
    }
}

/// `s` without leading and trailing whitespace.
///
/// Transcripts pass through here first: a result of length zero means the
/// recording held no speech.
pub fn trim(s: &str) -> (r: String)
    ensures
        r@ == trim_spec(s@),
{
    let n = s.unicode_len();
    let mut start: usize = 0;
    while start < n && char_is_whitespace(s.get_char(start))
        invariant
            0 <= start <= n,
            n == s@.len(),
            forall|k: int| 0 <= k < start ==> is_ws(s@[k]),
        decreases n - start,
    {
        start = start + 1;
    }
    let mut end: usize = n;
    while end > start && char_is_whitespace(s.get_char(end - 1))
        invariant
            start <= end <= n,
            n == s@.len(),
            forall|k: int| 0 <= k < start ==> is_ws(s@[k]),
            start < n ==> !is_ws(s@[start as int]),
            forall|k: int| end <= k < n ==> is_ws(s@[k]),
        decreases end,
    {
        end = end - 1;
    }
    let r = s.substring_char(start, end).to_owned();
    proof {
        lemma_trim_start_at(s@, start as int);
        let t = s@.skip(start as int);
        if end == start {
            lemma_trim_end_at(t, 0);
        } else {
            assert(!is_ws(s@[end - 1]));
            assert(t[end - start - 1] == s@[end - 1]);
            assert(forall|k: int| end - start <= k < t.len() ==> is_ws(#[trigger] t[k]));
            lemma_trim_end_at(t, end - start);
        }
        assert(t.take(end - start) =~= s@.subrange(start as int, end as int));
    }
    r
}

/// The ASCII-uppercase code point of a character: lowercase ASCII letters
/// are folded to their uppercase form, every other character is unchanged.
pub open spec fn upper_code(c: char) -> u32 {
    if 97 <= c as u32 <= 122 {
        (c as u32 - 32) as u32
    } else {
        c as u32
    }
}

/// The sequence of ASCII-uppercase code points of a string's characters.
pub open spec fn upper_codes(s: Seq<char>) -> Seq<u32> {
    s.map_values(|c: char| upper_code(c))
}

/// The ASCII-uppercase code point of one character.
fn upper_code_of(c: char) -> (r: u32)
    ensures
        r == upper_code(c),
{
    let u = c as u32;
    if 97 <= u && u <= 122 {
        u - 32
    } else {
        u
    }
}

/// Whether two strings are equal up to ASCII case.
pub fn eq_ignore_ascii_case(s: &str, pat: &str) -> (r: bool)
    ensures
        r == (upper_codes(s@) == upper_codes(pat@)),
{
    let n = s.unicode_len();
    let m = pat.unicode_len();
    if n != m {
        proof {
            assert(upper_codes(s@).len() != upper_codes(pat@).len());
        }
        return false;
    }
    let mut i: usize = 0;
    while i < n
        invariant
            0 <= i <= n,
            n == s@.len(),
            n == pat@.len(),
            forall|k: int| 0 <= k < i ==> upper_codes(s@)[k] == upper_codes(pat@)[k],
        decreases n - i,
    {
        let a = upper_code_of(s.get_char(i));
        let b = upper_code_of(pat.get_char(i));
        if a != b {
            proof {
                assert(upper_codes(s@)[i as int] != upper_codes(pat@)[i as int]);
            }
            return false;
        }
        i = i + 1;
    }
    proof {
        assert(upper_codes(s@) =~= upper_codes(pat@));
    }
    true
}


/// Whether two strings hold the same characters.
pub fn str_eq(a: &str, b: &str) -> (r: bool)
    ensures
        r == (a@ == b@),
{
    let n = a.unicode_len();
    let m = b.unicode_len();
    if n != m {
        proof {
            assert(a@.len() != b@.len());
        }
        return false;
    }
    let mut i: usize = 0;
    while i < n
        invariant
            0 <= i <= n,
            n == a@.len(),
            n == b@.len(),
            forall|k: int| 0 <= k < i ==> a@[k] == b@[k],
        decreases n - i,
    {
        if a.get_char(i) != b.get_char(i) {
            proof {
                assert(a@[i as int] != b@[i as int]);
            }
            return false;
        }
        i = i + 1;
    }
    proof {
        assert(a@ =~= b@);
    }
    true
}

} // verus!
