//! Text primitives shared by the detection pipeline and the workers:
//! substring search, string equality, decimal rendering of integers, and
//! the regex and case-folding operations that outside crates provide.

use vstd::prelude::*;
use vstd::string::StrSliceExecFns;
use vstd::string::StringExecFns;

verus! {

/// The pattern `p` occurs in `t` starting at offset `i`.
pub open spec fn contains_at(t: Seq<char>, p: Seq<char>, i: int) -> bool {
    0 <= i && i + p.len() <= t.len() && t.subrange(i, i + p.len() as int) == p
}

/// The pattern `p` occurs somewhere in `t`.
pub open spec fn spec_contains(t: Seq<char>, p: Seq<char>) -> bool {
    exists|i: int| contains_at(t, p, i)
}

/// Substring search: true exactly when `pat` occurs in `text`.
#[verifier::loop_isolation(false)]
pub fn contains_substring(text: &str, pat: &str) -> (r: bool)
    ensures
        r == spec_contains(text@, pat@),
{
    let tlen: usize = text.unicode_len();
    let plen: usize = pat.unicode_len();
    if plen > tlen {
        assert(forall|i: int| !contains_at(text@, pat@, i));
        return false;
    }
    let mut i: usize = 0;
    while i <= tlen - plen
        invariant
            plen <= tlen,
            tlen == text@.len(),
            plen == pat@.len(),
            i <= tlen - plen + 1,
            forall|k: int| 0 <= k < i ==> !contains_at(text@, pat@, k),
        decreases tlen - plen - i + 1,
    {
        let mut j: usize = 0;
        let mut all_match: bool = true;
        while j < plen
            invariant
                plen <= tlen,
                tlen == text@.len(),
                plen == pat@.len(),
                i + plen <= tlen,
                j <= plen,
                all_match == (forall|m: int| 0 <= m < j ==> text@[i + m] == pat@[m]),
            decreases plen - j,
        {
            let tc = text.get_char(i + j);
            let pc = pat.get_char(j);
            if tc != pc {
                all_match = false;
                assert(!(forall|m: int| 0 <= m < j + 1 ==> text@[i + m] == pat@[m]));
                j = plen;
            } else {
                j = j + 1;
            }
        }
        if all_match {
            assert(text@.subrange(i as int, i + plen) =~= pat@);
            assert(contains_at(text@, pat@, i as int));
            return true;
        }
        assert(!contains_at(text@, pat@, i as int));
        i = i + 1;
    }
    assert(forall|k: int| !contains_at(text@, pat@, k));
    false
}

/// Character-wise string equality.
#[verifier::loop_isolation(false)]
pub fn str_eq(a: &str, b: &str) -> (r: bool)
    ensures
        r == (a@ == b@),
{
    let alen: usize = a.unicode_len();
    let blen: usize = b.unicode_len();
    if alen != blen {
        assert(a@ != b@);
        return false;
    }
    let mut i: usize = 0;
    while i < alen
        invariant
            alen == a@.len(),
            alen == b@.len(),
            i <= alen,
            forall|k: int| 0 <= k < i ==> a@[k] == b@[k],
        decreases alen - i,
    {
        if a.get_char(i) != b.get_char(i) {
            assert(a@ != b@);
            return false;
        }
        i = i + 1;
    }
    assert(a@ =~= b@);
    true
}

/// The character for a single decimal digit.
pub open spec fn digit_char(d: int) -> char {
    if d == 0 {
        '0'
    } else if d == 1 {
        '1'
    } else if d == 2 {
        '2'
    } else if d == 3 {
        '3'
    } else if d == 4 {
        '4'
    } else if d == 5 {
        '5'
    } else if d == 6 {
        '6'
    } else if d == 7 {
        '7'
    } else if d == 8 {
        '8'
    } else {
        '9'
    }
}

/// Decimal rendering of a non-negative integer, most significant digit first.
pub open spec fn spec_dec_u64(n: int) -> Seq<char>
    decreases n,
{
    if n < 10 {
        seq![digit_char(n)]
    } else {
        spec_dec_u64(n / 10).push(digit_char(n % 10))
    }
}

/// Decimal rendering of a signed integer, with a leading minus sign when negative.
pub open spec fn spec_dec_i64(n: int) -> Seq<char> {
    if n >= 0 {
        spec_dec_u64(n)
    } else {
        seq!['-'].add(spec_dec_u64(-n))
    }
}

fn digit_str(d: u64) -> (r: &'static str)
    requires
        d < 10,
    ensures
        r@ =~= seq![digit_char(d as int)],
{
    proof {
        reveal_strlit("0");
        reveal_strlit("1");
        reveal_strlit("2");
        reveal_strlit("3");
        reveal_strlit("4");
        reveal_strlit("5");
        reveal_strlit("6");
        reveal_strlit("7");
        reveal_strlit("8");
        reveal_strlit("9");
    }
    match d {
        0 => "0",
        1 => "1",
        2 => "2",
        3 => "3",
        4 => "4",
        5 => "5",
        6 => "6",
        7 => "7",
        8 => "8",
        _ => "9",
    }
}

/// Render an unsigned integer in decimal.
pub fn u64_to_string(n: u64) -> (r: String)
    ensures
        r@ == spec_dec_u64(n as int),
    decreases n,
{
    if n < 10 {
        let r = String::from_str(digit_str(n));
        assert(r@ =~= spec_dec_u64(n as int));
        r
    } else {
        let mut s = u64_to_string(n / 10);
        s.append(digit_str(n % 10));
        assert(s@ =~= spec_dec_u64(n as int));
        s
    }
}

/// Render a signed integer in decimal.
pub fn i64_to_string(n: i64) -> (r: String)
    ensures
        r@ == spec_dec_i64(n as int),
{
    if n >= 0 {
        u64_to_string(n as u64)
    } else {
        let magnitude: u64 = ((-(n + 1)) as u64) + 1;
        let mut s = String::from_str("-");
        proof {
            reveal_strlit("-");
        }
        s.append(u64_to_string(magnitude).as_str());
        assert(s@ =~= spec_dec_i64(n as int));
        s
    }
}

/// Whether the pattern text is a valid regular expression.
pub uninterp spec fn regex_valid(p: Seq<char>) -> bool;

/// Whether the regular expression `p` finds a match anywhere in `t`.
pub uninterp spec fn regex_is_match(p: Seq<char>, t: Seq<char>) -> bool;

/// The Unicode lowercase folding of a string.
pub uninterp spec fn lower_of(s: Seq<char>) -> Seq<char>;

/// Relies on regex::Regex::new: whether a pattern compiles depends on the
/// pattern text alone.
#[verifier::external_body]
pub fn regex_ok(pattern: &str) -> (r: bool)
    ensures
        r == regex_valid(pattern@),
{
    regex::Regex::new(pattern).is_ok()
}

/// Relies on regex::Regex::new and regex::Regex::is_match: compilation and
/// matching depend on the pattern and the text alone; an invalid pattern
/// yields an error whose text is reported back.
#[verifier::external_body]
pub fn regex_find(pattern: &str, text: &str) -> (r: Result<bool, String>)
    ensures
        (match r {
            Ok(b) => regex_valid(pattern@) && b == regex_is_match(pattern@, text@),
            Err(_) => !regex_valid(pattern@),
        }),
{
    match regex::Regex::new(pattern) {
        Ok(re) => Ok(re.is_match(text)),
        Err(e) => Err(format!("Invalid regex: {}", e)),
    }
}

/// Relies on str::to_lowercase: the result depends on the characters alone.
#[verifier::external_body]
pub fn lowercase(s: &str) -> (r: String)
    ensures
        r@ == lower_of(s@),
{
    s.to_lowercase()
}

} // verus!
