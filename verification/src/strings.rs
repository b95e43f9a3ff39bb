//! Character and string helpers: ASCII case folding, case-insensitive
//! substring search, and decimal rendering of unsigned integers.

use vstd::prelude::*;
use vstd::string::*;

verus! {

/// ASCII lower-casing of one character: 'A' through 'Z' map to 'a' through
/// 'z'; every other character is unchanged.
pub open spec fn lower_char(c: char) -> char {
    if 'A' <= c && c <= 'Z' {
        (((c as u8) + 32) as u8) as char
    } else {
        c
    }
}

/// The sequence `s`, ASCII lower-cased character by character.
pub open spec fn lower_seq(s: Seq<char>) -> Seq<char> {
    s.map_values(|c: char| lower_char(c))
}

/// The lower-cased `pat` occurs in `s`, lower-cased, starting at offset `k`.
pub open spec fn matches_at(s: Seq<char>, pat: Seq<char>, k: int) -> bool {
    forall|j: int| 0 <= j < pat.len() ==> lower_char(s[k + j]) == lower_char(pat[j])
}

/// `pat` occurs somewhere in `s`, comparing ASCII case-insensitively.
pub open spec fn contains_ci(s: Seq<char>, pat: Seq<char>) -> bool {
    exists|k: int| 0 <= k <= s.len() - pat.len() && matches_at(s, pat, k)
}

/// `needle` occurs in `hay` as a contiguous run, case-sensitively.
pub open spec fn occurs_within(hay: Seq<char>, needle: Seq<char>) -> bool {
    exists|k: int|
        0 <= k <= hay.len() - needle.len() && #[trigger] hay.subrange(k, k + needle.len() as int)
            == needle
}

/// ASCII lower-casing of one character.
pub fn lower_char_exec(c: char) -> (r: char)
    ensures
        r == lower_char(c),
{
    if 'A' <= c && c <= 'Z' {
        ((c as u8) + 32) as char
    } else {
        c
    }
}

/// Case-insensitive substring search: decides whether `pat` occurs in `s`,
/// comparing characters after ASCII lower-casing both sides.
pub fn str_contains_ci(s: &str, pat: &str) -> (r: bool)
    ensures
        r == contains_ci(s@, pat@),
{
    let n = s.unicode_len();
    let m = pat.unicode_len();
    if m > n {
        assert(!contains_ci(s@, pat@));
        return false;
    }
    let mut k: usize = 0;
    while k <= n - m
        invariant
            m <= n,
            n == s@.len(),
            m == pat@.len(),
            k <= n - m + 1,
            forall|k2: int| 0 <= k2 < k ==> !matches_at(s@, pat@, k2),
        decreases n - m + 1 - k,
    {
        let mut j: usize = 0;
        while j < m && lower_char_exec(s.get_char(k + j)) == lower_char_exec(pat.get_char(j))
            invariant
                m <= n,
                n == s@.len(),
                m == pat@.len(),
                k <= n - m,
                j <= m,
                forall|j2: int| 0 <= j2 < j ==> lower_char(s@[k + j2]) == lower_char(pat@[j2]),
            decreases m - j,
        {
            j += 1;
        }
        if j == m {
            assert(matches_at(s@, pat@, k as int));
            return true;
        }
        assert(!matches_at(s@, pat@, k as int));
        k += 1;
    }
    assert(forall|k2: int| 0 <= k2 <= n - m ==> !matches_at(s@, pat@, k2));
    false
}

/// If `part` occurs verbatim inside `whole`, then any pattern that occurs
/// case-insensitively in `part` also occurs case-insensitively in `whole`.
pub proof fn lemma_contains_ci_extends(whole: Seq<char>, part: Seq<char>, pat: Seq<char>)
    requires
        occurs_within(whole, part),
        contains_ci(part, pat),
    ensures
        contains_ci(whole, pat),
{
    let k = choose|k: int|
        0 <= k <= whole.len() - part.len() && #[trigger] whole.subrange(k, k + part.len() as int)
            == part;
    let k0 = choose|k0: int| 0 <= k0 <= part.len() - pat.len() && matches_at(part, pat, k0);
    assert forall|j: int| 0 <= j < pat.len() implies lower_char(whole[k + k0 + j]) == lower_char(
        pat[j],
    ) by {
        assert(whole.subrange(k, k + part.len() as int)[k0 + j] == part[k0 + j]);
        assert(whole[k + k0 + j] == part[k0 + j]);
        assert(lower_char(part[k0 + j]) == lower_char(pat[j]));
    }
    assert(matches_at(whole, pat, k + k0));
    assert(0 <= k + k0 <= whole.len() - pat.len());
}

/// The decimal digit `d` as a character, for `d` below ten.
pub open spec fn digit_char(d: int) -> char {
    if d == 0 {
        '0'
    } else if d == 1 {
        '1'
    } else if d == 2 {
        '2'
    } else if d == 3 {
        '3'
    } else if d == 4 {
        '4'
    } else if d == 5 {
        '5'
    } else if d == 6 {
        '6'
    } else if d == 7 {
        '7'
    } else if d == 8 {
        '8'
    } else {
        '9'
    }
}

/// The usual decimal rendering of `n`, most significant digit first, with
/// no leading zeroes (a single '0' for zero).
pub open spec fn spec_decimal(n: int) -> Seq<char>
    recommends
        n >= 0,
    decreases n,
{
    if n < 10 {
        seq![digit_char(n)]
    } else {
        spec_decimal(n / 10).push(digit_char(n % 10))
    }
}

/// One decimal digit as a string slice.
pub(crate) fn digit_str(d: u64) -> (r: &'static str)
    requires
        d < 10,
    ensures
        r@ == seq![digit_char(d as int)],
{
    proof {
        reveal_strlit("0");
        reveal_strlit("1");
        reveal_strlit("2");
        reveal_strlit("3");
        reveal_strlit("4");
        reveal_strlit("5");
        reveal_strlit("6");
        reveal_strlit("7");
        reveal_strlit("8");
        reveal_strlit("9");
    }
    let r = if d == 0 {
        "0"
    } else if d == 1 {
        "1"
    } else if d == 2 {
        "2"
    } else if d == 3 {
        "3"
    } else if d == 4 {
        "4"
    } else if d == 5 {
        "5"
    } else if d == 6 {
        "6"
    } else if d == 7 {
        "7"
    } else if d == 8 {
        "8"
    } else {
        "9"
    };
    assert(r@ =~= seq![digit_char(d as int)]);
    r
}

/// Renders `n` in decimal.
pub fn u64_to_decimal(n: u64) -> (r: String)
    ensures
        r@ == spec_decimal(n as int),
    decreases n,
{
    if n < 10 {
        String::from_str(digit_str(n))
    } else {
        let mut s = u64_to_decimal(n / 10);
        s.append(digit_str(n % 10));
        assert(s@ =~= spec_decimal((n / 10) as int).push(digit_char((n % 10) as int)));
        s
    }
}

} // verus!
