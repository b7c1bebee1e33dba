//! Verified helpers over strings: comparison, prefix and suffix tests,
//! ASCII case folding, trimming, splitting, and conversions between
//! unsigned integers and their decimal text.

use vstd::prelude::*;

verus! {

/// ASCII lowercase folding of one character.
pub open spec fn lower_char(c: char) -> char {
    if 'A' <= c && c <= 'Z' {
        ((c as u32) + 32) as char
    } else {
        c
    }
}

/// ASCII lowercase folding of a character sequence.
pub open spec fn lower_seq(s: Seq<char>) -> Seq<char> {
    s.map_values(|c: char| lower_char(c))
}

/// Case-insensitive equality under ASCII folding.
pub open spec fn eq_ignore_ascii_case(a: Seq<char>, b: Seq<char>) -> bool {
    lower_seq(a) == lower_seq(b)
}

/// `p` is a prefix of `s`.
pub open spec fn has_prefix(s: Seq<char>, p: Seq<char>) -> bool {
    p.len() <= s.len() && s.subrange(0, p.len() as int) == p
}

/// `p` is a suffix of `s`.
pub open spec fn has_suffix(s: Seq<char>, p: Seq<char>) -> bool {
    p.len() <= s.len() && s.subrange(s.len() - p.len(), s.len() as int) == p
}

/// Equality of two string slices.
pub fn str_eq(a: &str, b: &str) -> (r: bool)
    ensures
        r == (a@ == b@),
{
    let alen = a.unicode_len();
    let blen = b.unicode_len();
    if alen != blen {
        proof {
            assert(a@.len() != b@.len());
        }
        return false;
    }
    let mut i: usize = 0;
    while i < alen
        invariant
            alen == a@.len() == b@.len(),
            i <= alen,
            forall|k: int| 0 <= k < i ==> a@[k] == b@[k],
        decreases alen - i,
    {
        if a.get_char(i) != b.get_char(i) {
            proof {
                assert(a@[i as int] != b@[i as int]);
            }
            return false;
        }
        i += 1;
    }
    proof {
        assert(a@ =~= b@);
    }
    true
}

/// The lowercase code of a character, as an integer.
fn lower_code(c: char) -> (r: u32)
    ensures
        r == lower_char(c) as u32,
{
    let code = c as u32;
    if 65 <= code && code <= 90 {
        code + 32
    } else {
        code
    }
}

/// Case-insensitive equality of two string slices under ASCII folding.
pub fn str_eq_ignore_case(a: &str, b: &str) -> (r: bool)
    ensures
        r == eq_ignore_ascii_case(a@, b@),
{
    let alen = a.unicode_len();
    let blen = b.unicode_len();
    if alen != blen {
        proof {
            assert(lower_seq(a@).len() != lower_seq(b@).len());
        }
        return false;
    }
    let mut i: usize = 0;
    while i < alen
        invariant
            alen == a@.len() == b@.len(),
            i <= alen,
            forall|k: int| 0 <= k < i ==> lower_char(a@[k]) == lower_char(b@[k]),
        decreases alen - i,
    {
        if lower_code(a.get_char(i)) != lower_code(b.get_char(i)) {
            proof {
                assert(lower_seq(a@)[i as int] != lower_seq(b@)[i as int]);
            }
            return false;
        }
        i += 1;
    }
    proof {
        assert(lower_seq(a@) =~= lower_seq(b@));
    }
    true
}

/// Prefix test.
pub fn starts_with(s: &str, p: &str) -> (r: bool)
    ensures
        r == has_prefix(s@, p@),
{
    let slen = s.unicode_len();
    let plen = p.unicode_len();
    if plen > slen {
        return false;
    }
    let mut i: usize = 0;
    while i < plen
        invariant
            plen == p@.len() <= s@.len(),
            i <= plen,
            forall|k: int| 0 <= k < i ==> s@[k] == p@[k],
        decreases plen - i,
    {
        if s.get_char(i) != p.get_char(i) {
            proof {
                assert(s@.subrange(0, p@.len() as int)[i as int] != p@[i as int]);
            }
            return false;
        }
        i += 1;
    }
    proof {
        assert(s@.subrange(0, p@.len() as int) =~= p@);
    }
    true
}

/// Suffix test.
pub fn ends_with(s: &str, p: &str) -> (r: bool)
    ensures
        r == has_suffix(s@, p@),
{
    let slen = s.unicode_len();
    let plen = p.unicode_len();
    if plen > slen {
        return false;
    }
    let base = slen - plen;
    let mut i: usize = 0;
    while i < plen
        invariant
            plen == p@.len() <= s@.len(),
            slen == s@.len(),
            base == slen - plen,
            i <= plen,
            forall|k: int| 0 <= k < i ==> s@[base + k] == p@[k],
        decreases plen - i,
    {
        if s.get_char(base + i) != p.get_char(i) {
            proof {
                assert(s@.subrange(s@.len() - p@.len(), s@.len() as int)[i as int] != p@[i as int]);
            }
            return false;
        }
        i += 1;
    }
    proof {
        assert(s@.subrange(s@.len() - p@.len(), s@.len() as int) =~= p@);
    }
    true
}

/// Whitespace recognized by trimming: space, tab, line feed, carriage return.
pub open spec fn is_space(c: char) -> bool {
    c == ' ' || c == '\t' || c == '\n' || c == '\r'
}

/// The sequence without leading whitespace.
pub open spec fn trim_front(s: Seq<char>) -> Seq<char>
    decreases s.len(),
{
    if s.len() > 0 && is_space(s[0]) {
        trim_front(s.subrange(1, s.len() as int))
    } else {
        s
    }
}

/// The sequence without trailing whitespace.
pub open spec fn trim_back(s: Seq<char>) -> Seq<char>
    decreases s.len(),
{
    if s.len() > 0 && is_space(s[s.len() - 1]) {
        trim_back(s.subrange(0, s.len() - 1))
    } else {
        s
    }
}

/// The sequence without leading and trailing whitespace.
pub open spec fn spec_trim(s: Seq<char>) -> Seq<char> {
    trim_back(trim_front(s))
}

proof fn lemma_trim_front_subrange(s: Seq<char>, i: int)
    requires
        0 <= i <= s.len(),
        forall|k: int| 0 <= k < i ==> is_space(s[k]),
        i < s.len() ==> !is_space(s[i]),
    ensures
        trim_front(s) == s.subrange(i, s.len() as int),
    decreases i,
{
    if i == 0 {
        if s.len() > 0 {
            assert(!is_space(s[0]));
        }
        assert(s.subrange(0, s.len() as int) =~= s);
    } else {
        let t = s.subrange(1, s.len() as int);
        lemma_trim_front_subrange(t, i - 1);
        assert(t.subrange(i - 1, t.len() as int) =~= s.subrange(i, s.len() as int));
    }
}

proof fn lemma_trim_back_subrange(s: Seq<char>, j: int)
    requires
        0 <= j <= s.len(),
        forall|k: int| j <= k < s.len() ==> is_space(s[k]),
        j > 0 ==> !is_space(s[j - 1]),
    ensures
        trim_back(s) == s.subrange(0, j),
    decreases s.len() - j,
{
    if j == s.len() {
        if s.len() > 0 {
            assert(!is_space(s[s.len() - 1]));
        }
        assert(s.subrange(0, s.len() as int) =~= s);
    } else {
        let t = s.subrange(0, s.len() - 1);
        lemma_trim_back_subrange(t, j);
        assert(t.subrange(0, j) =~= s.subrange(0, j));
    }
}

/// Removes leading and trailing whitespace.
pub fn trim(s: &str) -> (r: String)
    ensures
        r@ == spec_trim(s@),
{
    let len = s.unicode_len();
    let mut start: usize = 0;
    while start < len && is_space_char(s.get_char(start))
        invariant
            len == s@.len(),
            start <= len,
            forall|k: int| 0 <= k < start ==> is_space(s@[k]),
        decreases len - start,
    {
        start += 1;
    }
    proof {
        lemma_trim_front_subrange(s@, start as int);
    }
    let mut stop: usize = len;
    while stop > start && is_space_char(s.get_char(stop - 1))
        invariant
            len == s@.len(),
            start <= stop <= len,
            forall|k: int| 0 <= k < start ==> is_space(s@[k]),
            start < s@.len() ==> !is_space(s@[start as int]),
            forall|k: int| stop <= k < len ==> is_space(s@[k]),
        decreases stop,
    {
        stop -= 1;
    }
    let sub = s.substring_char(start, stop);
    proof {
        let f = trim_front(s@);
        assert(f == s@.subrange(start as int, s@.len() as int));
        lemma_trim_back_subrange(f, stop - start);
        assert(f.subrange(0, stop - start) =~= s@.subrange(start as int, stop as int));
    }
    sub.to_owned()
}

/// Exec test matching `is_space`.
fn is_space_char(c: char) -> (r: bool)
    ensures
        r == is_space(c),
{
    c == ' ' || c == '\t' || c == '\n' || c == '\r'
}

/// `sep` occurs in `s` at position `k`.
pub open spec fn is_match(s: Seq<char>, sep: Seq<char>, k: int) -> bool {
    0 <= k && k + sep.len() <= s.len() && s.subrange(k, k + sep.len()) == sep
}

/// Index of the first occurrence of `sep` in `s`, or -1. An empty
/// separator matches at the start.
pub open spec fn spec_find(s: Seq<char>, sep: Seq<char>) -> int
    decreases s.len(),
{
    if sep.len() == 0 {
        0
    } else if s.len() < sep.len() {
        -1
    } else if s.subrange(0, sep.len() as int) == sep {
        0
    } else {
        let r = spec_find(s.subrange(1, s.len() as int), sep);
        if r < 0 {
            -1
        } else {
            r + 1
        }
    }
}

/// Split on the leftmost occurrences of `sep`, as the standard splitter does.
pub open spec fn spec_split(s: Seq<char>, sep: Seq<char>) -> Seq<Seq<char>>
    recommends
        sep.len() >= 1,
    decreases s.len(),
    via spec_split_decreases
{
    let i = spec_find(s, sep);
    if i < 0 || sep.len() == 0 {
        seq![s]
    } else {
        seq![s.subrange(0, i)] + spec_split(
            s.subrange(i + sep.len(), s.len() as int),
            sep,
        )
    }
}

#[via_fn]
proof fn spec_split_decreases(s: Seq<char>, sep: Seq<char>) {
    lemma_spec_find_bounds(s, sep);
}

proof fn lemma_spec_find_bounds(s: Seq<char>, sep: Seq<char>)
    ensures
        spec_find(s, sep) >= 0 ==> is_match(s, sep, spec_find(s, sep)),
    decreases s.len(),
{
    if sep.len() == 0 {
        assert(s.subrange(0, 0) =~= sep);
    } else if s.len() < sep.len() {
    } else if s.subrange(0, sep.len() as int) == sep {
        assert(s.subrange(0, 0 + sep.len() as int) == sep);
    } else {
        let t = s.subrange(1, s.len() as int);
        lemma_spec_find_bounds(t, sep);
        let r = spec_find(t, sep);
        if r >= 0 {
            assert(t.subrange(r, r + sep.len()) =~= s.subrange(r + 1, r + 1 + sep.len()));
        }
    }
}

proof fn lemma_spec_find_none_before(s: Seq<char>, sep: Seq<char>, i: int)
    requires
        0 <= i,
        i + sep.len() <= s.len(),
        spec_find(s, sep) < 0 || i < spec_find(s, sep),
    ensures
        s.subrange(i, i + sep.len()) != sep || sep.len() == 0,
    decreases i,
{
    if i == 0 {
        if s.subrange(0, sep.len() as int) == sep {
            assert(spec_find(s, sep) == 0);
        }
    } else {
        let t = s.subrange(1, s.len() as int);
        if spec_find(s, sep) < 0 {
            assert(spec_find(t, sep) < 0);
        } else {
            assert(spec_find(t, sep) == spec_find(s, sep) - 1 || spec_find(s, sep) == 0);
        }
        lemma_spec_find_none_before(t, sep, i - 1);
        assert(t.subrange(i - 1, i - 1 + sep.len()) =~= s.subrange(i, i + sep.len()));
    }
}

/// Finds the leftmost occurrence of `sep` in `s`.
fn find_sub(s: &str, sep: &str) -> (r: Option<usize>)
    requires
        sep@.len() >= 1,
    ensures
        match r {
            Some(i) => i == spec_find(s@, sep@) && i + sep@.len() <= s@.len(),
            None => spec_find(s@, sep@) < 0,
        },
{
    let slen = s.unicode_len();
    let seplen = sep.unicode_len();
    if seplen > slen {
        proof {
            assert(spec_find(s@, sep@) < 0);
        }
        return None;
    }
    let mut i: usize = 0;
    while i <= slen - seplen
        invariant
            slen == s@.len(),
            seplen == sep@.len() >= 1,
            seplen <= slen,
            i <= slen - seplen + 1,
            forall|k: int| 0 <= k < i ==> !is_match(s@, sep@, k),
        decreases slen - i,
    {
        let candidate = s.substring_char(i, i + seplen);
        if str_eq(candidate, sep) {
            proof {
                assert(is_match(s@, sep@, i as int));
                lemma_find_at(s@, sep@, i as int);
            }
            return Some(i);
        }
        proof {
            assert(!is_match(s@, sep@, i as int));
        }
        i += 1;
    }
    proof {
        if spec_find(s@, sep@) >= 0 {
            lemma_spec_find_bounds(s@, sep@);
            let f = spec_find(s@, sep@);
            assert(is_match(s@, sep@, f));
            assert(f < i);
        }
    }
    None
}

proof fn lemma_find_at(s: Seq<char>, sep: Seq<char>, i: int)
    requires
        sep.len() >= 1,
        is_match(s, sep, i),
        forall|k: int| 0 <= k < i ==> !is_match(s, sep, k),
    ensures
        spec_find(s, sep) == i,
    decreases i,
{
    if i == 0 {
        assert(s.subrange(0, sep.len() as int) == s.subrange(0, 0 + sep.len() as int));
    } else {
        assert(!is_match(s, sep, 0));
        assert(s.subrange(0, sep.len() as int) != sep) by {
            assert(s.subrange(0, sep.len() as int) == s.subrange(0, 0 + sep.len() as int));
        }
        let t = s.subrange(1, s.len() as int);
        assert(is_match(t, sep, i - 1)) by {
            assert(t.subrange(i - 1, i - 1 + sep.len()) =~= s.subrange(i, i + sep.len()));
        }
        assert forall|k: int| 0 <= k < i - 1 implies !is_match(t, sep, k) by {
            assert(!is_match(s, sep, k + 1));
            if k + sep.len() <= t.len() {
                assert(t.subrange(k, k + sep.len()) =~= s.subrange(k + 1, k + 1 + sep.len()));
            }
        }
        lemma_find_at(t, sep, i - 1);
    }
}

/// Splits `s` on the separator, leftmost matches first, as the standard
/// splitter does.
pub fn split_str(s: &str, sep: &str) -> (r: Vec<String>)
    requires
        sep@.len() >= 1,
    ensures
        r@.map_values(|t: String| t@) == spec_split(s@, sep@),
    decreases s@.len(),
{
    match find_sub(s, sep) {
        None => {
            let mut r: Vec<String> = Vec::new();
            r.push(s.to_owned());
            proof {
                assert(r@.map_values(|t: String| t@) =~= spec_split(s@, sep@));
            }
            r
        },
        Some(i) => {
            let seplen = sep.unicode_len();
            let slen = s.unicode_len();
            let head = s.substring_char(0, i);
            let rest = s.substring_char(i + seplen, slen);
            let tail = split_str(rest, sep);
            let mut r: Vec<String> = Vec::new();
            r.push(head.to_owned());
            let mut k: usize = 0;
            while k < tail.len()
                invariant
                    k <= tail@.len(),
                    r@.len() == 1 + k,
                    r@[0]@ == head@,
                    forall|m: int| 0 <= m < k ==> #[trigger] r@[m + 1]@ == tail@[m]@,
                decreases tail@.len() - k,
            {
                let item = tail[k].clone();
                r.push(item);
                k += 1;
            }
            proof {
                let lhs = r@.map_values(|t: String| t@);
                let tl = tail@.map_values(|t: String| t@);
                let rhs = spec_split(s@, sep@);
                assert(tl == spec_split(rest@, sep@));
                assert(rhs == seq![s@.subrange(0, i as int)] + spec_split(rest@, sep@));
                assert(lhs.len() == rhs.len());
                assert(lhs[0] == rhs[0]);
                assert forall|m: int| 1 <= m < lhs.len() implies lhs[m] == rhs[m] by {
                    assert(r@[(m - 1) + 1]@ == tail@[m - 1]@);
                    assert(tl[m - 1] == tail@[m - 1]@);
                }
                assert(lhs =~= rhs);
            }
            r
        },
    }
}

/// Decimal digit characters.
pub open spec fn is_digit(c: char) -> bool {
    '0' <= c && c <= '9'
}

/// Numeric value of a digit character.
pub open spec fn digit_val(c: char) -> nat {
    (c as nat - '0' as nat) as nat
}

/// Value of a sequence of decimal digits.
pub open spec fn dec_value(s: Seq<char>) -> nat
    decreases s.len(),
{
    if s.len() == 0 {
        0
    } else {
        dec_value(s.drop_last()) * 10 + digit_val(s.last())
    }
}

/// Every character is a decimal digit.
pub open spec fn all_digits(s: Seq<char>) -> bool {
    forall|k: int| 0 <= k < s.len() ==> is_digit(#[trigger] s[k])
}

/// The digits of a decimal number, as the standard parser reads them: an
/// optional leading `+`, then at least one digit, with no overflow.
pub open spec fn spec_parse_u64(s: Seq<char>) -> Option<u64> {
    if s.len() > 0 && s[0] == '+' {
        spec_parse_digits(s.subrange(1, s.len() as int))
    } else {
        spec_parse_digits(s)
    }
}

/// The value of a non-empty, all-digit sequence that fits in a `u64`.
pub open spec fn spec_parse_digits(digits: Seq<char>) -> Option<u64> {
    if digits.len() == 0 || !all_digits(digits) || dec_value(digits) > u64::MAX {
        None
    } else {
        Some(dec_value(digits) as u64)
    }
}

proof fn lemma_dec_value_extend(s: Seq<char>, i: int)
    requires
        0 <= i < s.len(),
    ensures
        dec_value(s.subrange(0, i + 1)) == dec_value(s.subrange(0, i)) * 10 + digit_val(s[i]),
{
    let t = s.subrange(0, i + 1);
    assert(t.drop_last() =~= s.subrange(0, i));
    assert(t.last() == s[i]);
}

proof fn lemma_dec_value_monotone(s: Seq<char>, i: int)
    requires
        0 <= i <= s.len(),
    ensures
        dec_value(s) >= dec_value(s.subrange(0, i)),
    decreases s.len() - i,
{
    if i == s.len() {
        assert(s.subrange(0, i) =~= s);
    } else {
        lemma_dec_value_extend(s, i);
        lemma_dec_value_monotone(s, i + 1);
        assert(dec_value(s.subrange(0, i + 1)) >= dec_value(s.subrange(0, i)));
    }
}

/// The digit characters that `spec_parse_u64` reads: the text after an
/// optional leading `+`.
pub open spec fn spec_digits_part(s: Seq<char>) -> Seq<char> {
    if s.len() > 0 && s[0] == '+' {
        s.subrange(1, s.len() as int)
    } else {
        s
    }
}

proof fn lemma_parse_none(s: Seq<char>)
    requires
        spec_digits_part(s).len() == 0 || !all_digits(spec_digits_part(s)) || dec_value(
            spec_digits_part(s),
        ) > u64::MAX,
    ensures
        spec_parse_u64(s) is None,
{
}

/// Parses an unsigned decimal number as the standard parser does: an
/// optional leading `+`, then one or more digits; anything else, or a value
/// above `u64::MAX`, is rejected.
pub fn parse_u64(s: &str) -> (r: Option<u64>)
    ensures
        r == spec_parse_u64(s@),
{
    let len = s.unicode_len();
    let start: usize = if len > 0 && s.get_char(0) == '+' {
        1
    } else {
        0
    };
    let ghost digits = spec_digits_part(s@);
    proof {
        assert(digits =~= s@.subrange(start as int, s@.len() as int));
    }
    if start >= len {
        proof {
            assert(digits.len() == 0);
            lemma_parse_none(s@);
        }
        return None;
    }
    let mut val: u64 = 0;
    let mut i: usize = start;
    while i < len
        invariant
            len == s@.len(),
            start <= i <= len,
            start < len,
            digits == spec_digits_part(s@),
            digits == s@.subrange(start as int, s@.len() as int),
            forall|k: int| start <= k < i ==> is_digit(#[trigger] s@[k]),
            val == dec_value(digits.subrange(0, i - start)),
        decreases len - i,
    {
        let c = s.get_char(i);
        let code = c as u32;
        if code < 48 || code > 57 {
            proof {
                assert(digits[i - start] == s@[i as int]);
                assert(!is_digit(digits[i - start]));
                assert(!all_digits(digits));
                lemma_parse_none(s@);
            }
            return None;
        }
        let d = (code - 48) as u64;
        proof {
            assert(digit_val(s@[i as int]) == d);
            lemma_dec_value_extend(digits, i - start);
        }
        if val > (u64::MAX - d) / 10 {
            proof {
                assert(dec_value(digits.subrange(0, i - start + 1)) > u64::MAX) by {
                    assert(dec_value(digits.subrange(0, i - start + 1)) == val * 10 + d);
                    assert(val >= (u64::MAX - d) / 10 + 1);
                    assert(((u64::MAX - d) / 10 + 1) * 10 + d > u64::MAX) by (nonlinear_arith)
                        requires
                            d <= 9,
                    ;
                    assert(val * 10 + d >= ((u64::MAX - d) / 10 + 1) * 10 + d) by (nonlinear_arith)
                        requires
                            val >= (u64::MAX - d) / 10 + 1,
                    ;
                }
                assert(digits.subrange(0, i - start + 1) =~= digits.subrange(
                    0,
                    i - start + 1,
                ));
                lemma_dec_value_monotone(digits, i - start + 1);
                assert(dec_value(digits) > u64::MAX);
                lemma_parse_none(s@);
            }
            return None;
        }
        proof {
            assert(val * 10 + d <= u64::MAX) by {
                assert(val <= (u64::MAX - d) / 10);
                assert(((u64::MAX - d) / 10) * 10 + d <= u64::MAX) by (nonlinear_arith)
                    requires
                        d <= 9,
                ;
                assert(val * 10 <= ((u64::MAX - d) / 10) * 10) by (nonlinear_arith)
                    requires
                        val <= (u64::MAX - d) / 10,
                ;
            }
        }
        val = val * 10 + d;
        i += 1;
    }
    proof {
        assert(digits.subrange(0, digits.len() as int) =~= digits);
    }
    Some(val)
}

/// Parses a `u32` as the standard parser does.
pub fn parse_u32(s: &str) -> (r: Option<u32>)
    ensures
        r == match spec_parse_u64(s@) {
            Some(v) => if v <= u32::MAX as u64 {
                Some(v as u32)
            } else {
                None::<u32>
            },
            None => None::<u32>,
        },
{
    match parse_u64(s) {
        Some(v) => if v <= 0xFFFF_FFFF {
            Some(v as u32)
        } else {
            None
        },
        None => None,
    }
}

/// The decimal text of a number.
pub open spec fn spec_dec_str(n: nat) -> Seq<char>
    decreases n,
{
    if n < 10 {
        seq![(('0' as u32) + n as u32) as char]
    } else {
        spec_dec_str(n / 10) + seq![(('0' as u32) + (n % 10) as u32) as char]
    }
}

/// One decimal digit as a string slice.
fn digit_str(d: u64) -> (r: &'static str)
    requires
        d < 10,
    ensures
        r@ == seq![(('0' as u32) + d as u32) as char],
{
    proof {
        reveal_strlit("0");
        reveal_strlit("1");
        reveal_strlit("2");
        reveal_strlit("3");
        reveal_strlit("4");
        reveal_strlit("5");
        reveal_strlit("6");
        reveal_strlit("7");
        reveal_strlit("8");
        reveal_strlit("9");
    }
    if d == 0 {
        "0"
    } else if d == 1 {
        "1"
    } else if d == 2 {
        "2"
    } else if d == 3 {
        "3"
    } else if d == 4 {
        "4"
    } else if d == 5 {
        "5"
    } else if d == 6 {
        "6"
    } else if d == 7 {
        "7"
    } else if d == 8 {
        "8"
    } else {
        "9"
    }
}

/// The decimal text of an unsigned number.
pub fn u64_to_string(n: u64) -> (r: String)
    ensures
        r@ == spec_dec_str(n as nat),
    decreases n,
{
    if n < 10 {
        digit_str(n).to_owned()
    } else {
        let mut s = u64_to_string(n / 10);
        s.append(digit_str(n % 10));
        s
    }
}

/// The decimal text of a number, padded with a leading zero to two digits.
pub open spec fn spec_two_digits(n: nat) -> Seq<char> {
    if n < 10 {
        seq!['0'] + spec_dec_str(n)
    } else {
        spec_dec_str(n)
    }
}

/// The decimal text of a number, at least two digits wide.
pub fn two_digits(n: u64) -> (r: String)
    ensures
        r@ == spec_two_digits(n as nat),
{
    if n < 10 {
        let mut s = String::from_str("0");
        s.append(digit_str(n));
        proof {
            reveal_strlit("0");
            assert(s@ =~= seq!['0'] + spec_dec_str(n as nat));
        }
        s
    } else {
        u64_to_string(n)
    }
}

/// The decimal text of a signed number: a minus sign, then the magnitude.
pub open spec fn spec_i64_str(n: int) -> Seq<char> {
    if n < 0 {
        seq!['-'] + spec_dec_str((-n) as nat)
    } else {
        spec_dec_str(n as nat)
    }
}

/// The decimal text of a signed number.
pub fn i64_to_string(n: i64) -> (r: String)
    ensures
        r@ == spec_i64_str(n as int),
{
    if n >= 0 {
        u64_to_string(n as u64)
    } else {
        let mag: u64 = if n == i64::MIN {
            0x8000_0000_0000_0000
        } else {
            (-n) as u64
        };
        let mut s = String::from_str("-");
        s.append(u64_to_string(mag).as_str());
        proof {
            reveal_strlit("-");
            assert(s@ =~= seq!['-'] + spec_dec_str(mag as nat));
        }
        s
    }
}

} // verus!
