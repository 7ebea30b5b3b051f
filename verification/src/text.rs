//! Verified text utilities: the whitespace set the adapter trims and splits
//! on, trimming, character-wise string equality, and whitespace splitting of
//! a configured command line.

use vstd::prelude::*;

verus! {

/// The whitespace characters this library trims and splits on (the ASCII
/// whitespace set).
pub open spec fn is_space_char(c: char) -> bool {
    c == ' ' || c == '\t' || c == '\n' || c == '\r' || c == '\u{b}' || c == '\u{c}'
}

fn is_space(c: char) -> (r: bool)
    ensures
        r == is_space_char(c),
{
    c == ' ' || c == '\t' || c == '\n' || c == '\r' || c == '\u{b}' || c == '\u{c}'
}

/// Index of the first character at or after `i` that is not whitespace.
pub open spec fn ltrim_idx(s: Seq<char>, i: int) -> int
    decreases s.len() - i when 0 <= i <= s.len()
{
    if i >= s.len() {
        i
    } else if is_space_char(s[i]) {
        ltrim_idx(s, i + 1)
    } else {
        i
    }
}

/// Index just past the last character before `j` that is not whitespace.
pub open spec fn rtrim_idx(s: Seq<char>, j: int) -> int
    decreases j when 0 <= j <= s.len()
{
    if j <= 0 {
        j
    } else if is_space_char(s[j - 1]) {
        rtrim_idx(s, j - 1)
    } else {
        j
    }
}

/// The string with surrounding whitespace removed.
pub open spec fn trim_spec(s: Seq<char>) -> Seq<char> {
    let lo = ltrim_idx(s, 0);
    let hi = rtrim_idx(s, s.len() as int);
    if lo <= hi {
        s.subrange(lo, hi)
    } else {
        Seq::empty()
    }
}

proof fn lemma_ltrim_idx_bounds(s: Seq<char>, i: int)
    requires
        0 <= i <= s.len(),
    ensures
        i <= ltrim_idx(s, i) <= s.len(),
    decreases s.len() - i,
{
    if i < s.len() && is_space_char(s[i]) {
        lemma_ltrim_idx_bounds(s, i + 1);
    }
}

proof fn lemma_rtrim_idx_bounds(s: Seq<char>, j: int)
    requires
        0 <= j <= s.len(),
    ensures
        0 <= rtrim_idx(s, j) <= j,
    decreases j,
{
    if j > 0 && is_space_char(s[j - 1]) {
        lemma_rtrim_idx_bounds(s, j - 1);
    }
}

proof fn lemma_ltrim_first_nonspace(s: Seq<char>, i: int)
    requires
        0 <= i <= s.len(),
    ensures
        ltrim_idx(s, i) < s.len() ==> !is_space_char(s[ltrim_idx(s, i)]),
    decreases s.len() - i,
{
    if i < s.len() && is_space_char(s[i]) {
        lemma_ltrim_first_nonspace(s, i + 1);
    }
}

proof fn lemma_rtrim_last_nonspace(s: Seq<char>, j: int)
    requires
        0 <= j <= s.len(),
    ensures
        rtrim_idx(s, j) > 0 ==> !is_space_char(s[rtrim_idx(s, j) - 1]),
    decreases j,
{
    if j > 0 && is_space_char(s[j - 1]) {
        lemma_rtrim_last_nonspace(s, j - 1);
    }
}

/// Trimming leaves no whitespace at either edge, so trimming again changes
/// nothing.
pub proof fn lemma_trim_idempotent(s: Seq<char>)
    ensures
        trim_spec(trim_spec(s)) == trim_spec(s),
{
    let lo = ltrim_idx(s, 0);
    let hi = rtrim_idx(s, s.len() as int);
    lemma_ltrim_idx_bounds(s, 0);
    lemma_rtrim_idx_bounds(s, s.len() as int);
    lemma_ltrim_first_nonspace(s, 0);
    lemma_rtrim_last_nonspace(s, s.len() as int);
    let t = trim_spec(s);
    if lo <= hi && t.len() > 0 {
        assert(!is_space_char(t[0]));
        assert(!is_space_char(t[t.len() - 1]));
        assert(ltrim_idx(t, 0) == 0);
        assert(rtrim_idx(t, t.len() as int) == t.len());
        assert(trim_spec(t) =~= t);
    } else {
        assert(t.len() == 0);
        assert(trim_spec(t) =~= t);
    }
}

/// Remove surrounding whitespace.
pub fn trim_str(s: &str) -> (r: String)
    ensures
        r@ == trim_spec(s@),
{
    let n: usize = s.unicode_len();
    let mut lo: usize = 0;
    while lo < n && is_space(s.get_char(lo))
        invariant
            n == s@.len(),
            0 <= lo <= n,
            ltrim_idx(s@, 0) == ltrim_idx(s@, lo as int),
        decreases n - lo,
    {
        lo += 1;
    }
    let mut hi: usize = n;
    while hi > 0 && is_space(s.get_char(hi - 1))
        invariant
            n == s@.len(),
            0 <= hi <= n,
            rtrim_idx(s@, n as int) == rtrim_idx(s@, hi as int),
        decreases hi,
    {
        hi -= 1;
    }
    if lo <= hi {
        String::from_str(s.substring_char(lo, hi))
    } else {
        String::new()
    }
}

/// Character-wise string equality, reflected into the views.
pub fn str_eq(a: &str, b: &str) -> (r: bool)
    ensures
        r == (a@ == b@),
{
    let na: usize = a.unicode_len();
    let nb: usize = b.unicode_len();
    if na != nb {
        return false;
    }
    let mut i: usize = 0;
    while i < na
        invariant
            na == a@.len(),
            nb == b@.len(),
            na == nb,
            0 <= i <= na,
            forall|k: int| 0 <= k < i ==> a@[k] == b@[k],
        decreases na - i,
    {
        if a.get_char(i) != b.get_char(i) {
            return false;
        }
        i += 1;
    }
    proof {
        assert(a@ =~= b@);
    }
    true
}

/// Whether the trimmed-off-nothing string begins with an opening brace.
pub fn starts_with_lbrace(s: &str) -> (r: bool)
    ensures
        r == (s@.len() > 0 && s@[0] == '{'),
{
    if s.unicode_len() == 0 {
        false
    } else {
        s.get_char(0) == '{'
    }
}

/// Index just past the maximal run of non-whitespace characters at `i`.
pub open spec fn token_end(s: Seq<char>, i: int) -> int
    decreases s.len() - i when 0 <= i <= s.len()
{
    if i >= s.len() {
        i
    } else if is_space_char(s[i]) {
        i
    } else {
        token_end(s, i + 1)
    }
}

proof fn lemma_token_end_bounds(s: Seq<char>, i: int)
    requires
        0 <= i <= s.len(),
    ensures
        i <= token_end(s, i) <= s.len(),
        i < s.len() && !is_space_char(s[i]) ==> token_end(s, i) > i,
    decreases s.len() - i,
{
    if i < s.len() && !is_space_char(s[i]) {
        lemma_token_end_bounds(s, i + 1);
    }
}

/// The whitespace-separated tokens of `s` from position `i` on: each token a
/// maximal run of non-whitespace characters.
pub open spec fn split_ws_from(s: Seq<char>, i: int) -> Seq<Seq<char>>
    decreases s.len() - i when 0 <= i <= s.len() via split_ws_from_decreases
{
    if i >= s.len() {
        Seq::empty()
    } else if is_space_char(s[i]) {
        split_ws_from(s, i + 1)
    } else {
        seq![s.subrange(i, token_end(s, i))] + split_ws_from(s, token_end(s, i))
    }
}

#[via_fn]
proof fn split_ws_from_decreases(s: Seq<char>, i: int) {
    if 0 <= i < s.len() && !is_space_char(s[i]) {
        lemma_token_end_bounds(s, i);
    }
}

/// The whitespace-separated tokens of the whole string.
pub open spec fn split_ws(s: Seq<char>) -> Seq<Seq<char>> {
    split_ws_from(s, 0)
}

/// Split on whitespace into the maximal non-whitespace runs.
pub fn split_whitespace_tokens(s: &str) -> (r: Vec<String>)
    ensures
        r@.map_values(|t: String| t@) == split_ws(s@),
{
    let n: usize = s.unicode_len();
    let mut out: Vec<String> = Vec::new();
    let mut i: usize = 0;
    while i < n
        invariant
            n == s@.len(),
            0 <= i <= n,
            out@.map_values(|t: String| t@) + split_ws_from(s@, i as int) == split_ws(s@),
        decreases n - i,
    {
        if is_space(s.get_char(i)) {
            i += 1;
        } else {
            let start: usize = i;
            let mut j: usize = i;
            while j < n && !is_space(s.get_char(j))
                invariant
                    n == s@.len(),
                    start <= j <= n,
                    token_end(s@, start as int) == token_end(s@, j as int),
                decreases n - j,
            {
                j += 1;
            }
            let tok = String::from_str(s.substring_char(start, j));
            proof {
                let ghost prev = out@.map_values(|t: String| t@);
                assert(split_ws_from(s@, start as int) == seq![s@.subrange(
                    start as int,
                    j as int,
                )] + split_ws_from(s@, j as int));
                assert((out@ + seq![tok]).map_values(|t: String| t@) =~= prev + seq![tok@]);
                assert(prev + seq![tok@] + split_ws_from(s@, j as int) =~= prev + split_ws_from(
                    s@,
                    start as int,
                ));
            }
            out.push(tok);
            i = j;
        }
    }
    proof {
        assert(out@.map_values(|t: String| t@) =~= split_ws(s@));
    }
    out
}

} // verus!
