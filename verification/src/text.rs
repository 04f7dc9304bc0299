//! Verified text utilities: substring search, prefix/suffix stripping,
//! whitespace trimming, decimal parsing and formatting.
//!
//! Every executable function here carries an exact contract over the
//! character-sequence view of its inputs.

use vstd::prelude::*;

verus! {

/// Relies on `String::push`: appends exactly the given character.
pub assume_specification[ String::push ](s: &mut String, ch: char)
    ensures
        final(s)@ == old(s)@ + seq![ch],
;

// --- decimal digits -------------------------------------------------------

/// True for the ASCII decimal digits '0' through '9'.
pub open spec fn is_dec_digit(c: char) -> bool {
    '0' <= c && c <= '9'
}

/// Numeric value of a decimal digit; zero for any other character.
pub open spec fn digit_val(c: char) -> nat {
    if is_dec_digit(c) {
        (c as int - '0' as int) as nat
    } else {
        0
    }
}

/// The decimal digit character for a value below ten.
pub open spec fn digit_char(d: nat) -> char {
    ((d + ('0' as int)) as u8) as char
}

/// True when every character of `s` is a decimal digit.
pub open spec fn all_digits(s: Seq<char>) -> bool {
    forall|i: int| 0 <= i < s.len() ==> is_dec_digit(s[i])
}

/// The value of `s` read as a big-endian decimal numeral.
pub open spec fn dec_val(s: Seq<char>) -> nat
    decreases s.len(),
{
    if s.len() == 0 {
        0
    } else {
        dec_val(s.drop_last()) * 10 + digit_val(s.last())
    }
}

/// What parsing `s` as a `u32` yields: defined exactly when `s` is a
/// non-empty, all-digit numeral whose value fits in a `u32`.
pub open spec fn parse_u32_spec(s: Seq<char>) -> Option<u32> {
    if s.len() > 0 && all_digits(s) && dec_val(s) <= u32::MAX {
        Some(dec_val(s) as u32)
    } else {
        None
    }
}

/// The canonical decimal numeral of `n`, without leading zeros
/// (a single zero digit for zero itself).
pub open spec fn dec_str(n: nat) -> Seq<char>
    decreases n,
{
    if n < 10 {
        seq![digit_char(n)]
    } else {
        dec_str(n / 10) + seq![digit_char(n % 10)]
    }
}

proof fn lemma_dec_val_take_step(s: Seq<char>, i: int)
    requires
        0 <= i < s.len(),
    ensures
        dec_val(s.take(i + 1)) == dec_val(s.take(i)) * 10 + digit_val(s[i]),
{
    assert(s.take(i + 1).drop_last() =~= s.take(i));
    assert(s.take(i + 1).last() == s[i]);
}

proof fn lemma_dec_val_mono(s: Seq<char>, i: int)
    requires
        0 <= i <= s.len(),
    ensures
        dec_val(s) >= dec_val(s.take(i)),
    decreases s.len() - i,
{
    if i < s.len() {
        lemma_dec_val_take_step(s, i);
        lemma_dec_val_mono(s, i + 1);
    } else {
        assert(s.take(i) =~= s);
    }
}

/// Parses `s` as an unsigned 32-bit decimal numeral.
///
/// Returns exactly what [`parse_u32_spec`] describes: `None` on the empty
/// string, on any non-digit character, and on overflow.
pub fn parse_u32(s: &str) -> (r: Option<u32>)
    ensures
        r == parse_u32_spec(s@),
{
    let n = s.unicode_len();
    if n == 0 {
        return None;
    }
    let mut acc: u32 = 0;
    let mut i: usize = 0;
    while i < n
        invariant
            0 <= i <= n,
            n == s@.len(),
            all_digits(s@.take(i as int)),
            acc == dec_val(s@.take(i as int)),
        decreases n - i,
    {
        let c = s.get_char(i);
        let v = c as u32;
        if v < 48 || v > 57 {
            assert(!is_dec_digit(s@[i as int]));
            return None;
        }
        let d = v - 48;
        assert(is_dec_digit(s@[i as int]) && digit_val(s@[i as int]) == d);
        if acc > (u32::MAX - d) / 10 {
            proof {
                let m = (u32::MAX - d) as int;
                assert(m == 10 * (m / 10) + m % 10 && 0 <= m % 10 < 10) by (nonlinear_arith);
                assert(acc * 10 >= (m / 10 + 1) * 10) by (nonlinear_arith)
                    requires
                        acc >= m / 10 + 1,
                ;
                lemma_dec_val_take_step(s@, i as int);
                lemma_dec_val_mono(s@, i as int + 1);
                assert(dec_val(s@) > u32::MAX);
            }
            return None;
        }
        proof {
            let m = (u32::MAX - d) as int;
            assert(m == 10 * (m / 10) + m % 10 && 0 <= m % 10 < 10) by (nonlinear_arith);
            assert(acc * 10 <= (m / 10) * 10) by (nonlinear_arith)
                requires
                    acc <= m / 10,
            ;
            lemma_dec_val_take_step(s@, i as int);
        }
        acc = acc * 10 + d;
        i += 1;
    }
    proof {
        assert(s@.take(n as int) =~= s@);
    }
    Some(acc)
}

// --- substring search -----------------------------------------------------

/// True when `pat` occurs in `s` starting at position `i`.
pub open spec fn match_at(s: Seq<char>, pat: Seq<char>, i: int) -> bool {
    0 <= i && i + pat.len() <= s.len() && s.subrange(i, i + pat.len()) == pat
}

/// Position of the first occurrence of `pat` in `s` at or after `i`.
pub open spec fn first_match_from(s: Seq<char>, pat: Seq<char>, i: int) -> Option<int>
    decreases s.len() + 1 - i,
{
    if i < 0 || i + pat.len() > s.len() {
        None
    } else if s.subrange(i, i + pat.len()) == pat {
        Some(i)
    } else {
        first_match_from(s, pat, i + 1)
    }
}

/// Position of the first occurrence of `pat` in `s`, if any.
pub open spec fn first_match(s: Seq<char>, pat: Seq<char>) -> Option<int> {
    first_match_from(s, pat, 0)
}

/// Every position of `s` at or after a failed search start is also
/// reachable from the next start, so the search result is unchanged.
proof fn lemma_first_match_from_skip(s: Seq<char>, pat: Seq<char>, i: int)
    requires
        0 <= i,
        !match_at(s, pat, i),
    ensures
        first_match_from(s, pat, i) == first_match_from(s, pat, i + 1),
{
}

/// Finds the first occurrence of `pat` in `s`, by character position.
pub fn find_sub(s: &str, pat: &str) -> (r: Option<usize>)
    ensures
        match first_match(s@, pat@) {
            Some(j) => r == Some(j as usize) && match_at(s@, pat@, j),
            None => r is None,
        },
{
    let n = s.unicode_len();
    let m = pat.unicode_len();
    if m > n {
        proof {
            assert(first_match_from(s@, pat@, 0) is None);
        }
        return None;
    }
    let mut i: usize = 0;
    while i <= n - m
        invariant
            0 <= i <= n - m + 1,
            m <= n,
            n == s@.len(),
            m == pat@.len(),
            first_match(s@, pat@) == first_match_from(s@, pat@, i as int),
        decreases n - m + 1 - i,
    {
        let mut j: usize = 0;
        let mut hit = true;
        while j < m
            invariant
                0 <= j <= m,
                0 <= i <= n - m,
                n == s@.len(),
                m == pat@.len(),
                hit ==> forall|k: int| 0 <= k < j ==> s@[i + k] == pat@[k],
                !hit ==> !match_at(s@, pat@, i as int) && m > 0,
            decreases m - j,
        {
            if s.get_char(i + j) != pat.get_char(j) {
                proof {
                    assert(s@.subrange(i as int, i + m) != pat@) by {
                        assert(s@.subrange(i as int, i + m)[j as int] == s@[i + j]);
                    }
                }
                hit = false;
                j = m;
            } else {
                j += 1;
            }
        }
        if hit {
            proof {
                assert(s@.subrange(i as int, i + m) =~= pat@);
            }
            return Some(i);
        }
        proof {
            lemma_first_match_from_skip(s@, pat@, i as int);
        }
        i += 1;
    }
    proof {
        assert(first_match_from(s@, pat@, i as int) is None);
    }
    None
}

// --- derived substring operations -----------------------------------------

/// The text following the first occurrence of `marker` in `s`, if any.
pub open spec fn after_marker_spec(s: Seq<char>, marker: Seq<char>) -> Option<Seq<char>> {
    match first_match(s, marker) {
        Some(j) => Some(s.subrange(j + marker.len(), s.len() as int)),
        None => None,
    }
}

/// `s` with its first occurrence of `pat` removed; `s` itself if none.
pub open spec fn remove_first_spec(s: Seq<char>, pat: Seq<char>) -> Seq<char> {
    match first_match(s, pat) {
        Some(j) => s.subrange(0, j) + s.subrange(j + pat.len(), s.len() as int),
        None => s,
    }
}

/// Returns the text of `s` following the first occurrence of `marker`.
pub fn text_after<'a>(s: &'a str, marker: &str) -> (r: Option<&'a str>)
    ensures
        match after_marker_spec(s@, marker@) {
            Some(t) => r matches Some(rs) && rs@ == t,
            None => r is None,
        },
{
    let n = s.unicode_len();
    match find_sub(s, marker) {
        None => None,
        Some(j) => {
            let m = marker.unicode_len();
            Some(s.substring_char(j + m, n))
        },
    }
}

/// Removes the first occurrence of `pat` from `s`, if present.
pub fn remove_first(s: &str, pat: &str) -> (r: String)
    ensures
        r@ == remove_first_spec(s@, pat@),
{
    let n = s.unicode_len();
    match find_sub(s, pat) {
        None => s.to_owned(),
        Some(j) => {
            let m = pat.unicode_len();
            let head = s.substring_char(0, j).to_owned();
            head.concat(s.substring_char(j + m, n))
        },
    }
}

/// What stripping the prefix `p` from `s` yields, if `s` starts with it.
pub open spec fn strip_prefix_spec(s: Seq<char>, p: Seq<char>) -> Option<Seq<char>> {
    if p.is_prefix_of(s) {
        Some(s.skip(p.len() as int))
    } else {
        None
    }
}

/// What stripping the suffix `p` from `s` yields, if `s` ends with it.
pub open spec fn strip_suffix_spec(s: Seq<char>, p: Seq<char>) -> Option<Seq<char>> {
    if p.is_suffix_of(s) {
        Some(s.take(s.len() - p.len()))
    } else {
        None
    }
}

/// Strips the prefix `p` from `s`, if `s` starts with it.
pub fn strip_prefix_str<'a>(s: &'a str, p: &str) -> (r: Option<&'a str>)
    ensures
        match strip_prefix_spec(s@, p@) {
            Some(t) => r matches Some(rs) && rs@ == t,
            None => r is None,
        },
{
    let n = s.unicode_len();
    let m = p.unicode_len();
    if m > n {
        proof {
            assert(!p@.is_prefix_of(s@));
        }
        return None;
    }
    let mut j: usize = 0;
    while j < m
        invariant
            0 <= j <= m <= n,
            n == s@.len(),
            m == p@.len(),
            forall|k: int| 0 <= k < j ==> s@[k] == p@[k],
        decreases m - j,
    {
        if s.get_char(j) != p.get_char(j) {
            proof {
                assert(!p@.is_prefix_of(s@)) by {
                    assert(s@.subrange(0, m as int)[j as int] == s@[j as int]);
                }
            }
            return None;
        }
        j += 1;
    }
    proof {
        assert(s@.subrange(0, m as int) =~= p@);
    }
    Some(s.substring_char(m, n))
}

/// Strips the suffix `p` from `s`, if `s` ends with it.
pub fn strip_suffix_str<'a>(s: &'a str, p: &str) -> (r: Option<&'a str>)
    ensures
        match strip_suffix_spec(s@, p@) {
            Some(t) => r matches Some(rs) && rs@ == t,
            None => r is None,
        },
{
    let n = s.unicode_len();
    let m = p.unicode_len();
    if m > n {
        proof {
            assert(!p@.is_suffix_of(s@));
        }
        return None;
    }
    let off = n - m;
    let mut j: usize = 0;
    while j < m
        invariant
            0 <= j <= m <= n,
            n == s@.len(),
            m == p@.len(),
            off == n - m,
            forall|k: int| 0 <= k < j ==> s@[off + k] == p@[k],
        decreases m - j,
    {
        if s.get_char(off + j) != p.get_char(j) {
            proof {
                assert(!p@.is_suffix_of(s@)) by {
                    assert(s@.subrange(off as int, n as int)[j as int] == s@[off + j]);
                }
            }
            return None;
        }
        j += 1;
    }
    proof {
        assert(s@.subrange(off as int, n as int) =~= p@);
    }
    Some(s.substring_char(0, off))
}

// --- whitespace trimming --------------------------------------------------

/// The whitespace characters recognised by the trimmer.
pub open spec fn is_ws_char(c: char) -> bool {
    c == ' ' || c == '\t' || c == '\n' || c == '\r'
}

/// `s` with its leading whitespace removed.
pub open spec fn trim_start_spec(s: Seq<char>) -> Seq<char>
    decreases s.len(),
{
    if s.len() > 0 && is_ws_char(s[0]) {
        trim_start_spec(s.drop_first())
    } else {
        s
    }
}

/// `s` with its trailing whitespace removed.
pub open spec fn trim_end_spec(s: Seq<char>) -> Seq<char>
    decreases s.len(),
{
    if s.len() > 0 && is_ws_char(s.last()) {
        trim_end_spec(s.drop_last())
    } else {
        s
    }
}

/// `s` with surrounding whitespace removed.
pub open spec fn trim_spec(s: Seq<char>) -> Seq<char> {
    trim_end_spec(trim_start_spec(s))
}

proof fn lemma_trim_start_at(s: Seq<char>, i: int)
    requires
        0 <= i <= s.len(),
        forall|k: int| 0 <= k < i ==> is_ws_char(s[k]),
        i < s.len() ==> !is_ws_char(s[i]),
    ensures
        trim_start_spec(s) == s.skip(i),
    decreases i,
{
    if i == 0 {
        assert(s.skip(0) =~= s);
    } else {
        lemma_trim_start_at(s.drop_first(), i - 1);
        assert(s.drop_first().skip(i - 1) =~= s.skip(i));
    }
}

proof fn lemma_trim_end_at(s: Seq<char>, j: int)
    requires
        0 <= j <= s.len(),
        forall|k: int| j <= k < s.len() ==> is_ws_char(s[k]),
        j > 0 ==> !is_ws_char(s[j - 1]),
    ensures
        trim_end_spec(s) == s.take(j),
    decreases s.len(),
{
    if j == s.len() {
        assert(s.take(j) =~= s);
        if s.len() > 0 && is_ws_char(s.last()) {
            assert(!is_ws_char(s[j - 1]));
        }
    } else {
        lemma_trim_end_at(s.drop_last(), j);
        assert(s.drop_last().take(j) =~= s.take(j));
    }
}

/// Trims surrounding whitespace (space, tab, newline, carriage return).
pub fn trim_ws<'a>(s: &'a str) -> (r: &'a str)
    ensures
        r@ == trim_spec(s@),
{
    let n = s.unicode_len();
    let mut i: usize = 0;
    while i < n && is_ws(s.get_char(i))
        invariant
            0 <= i <= n,
            n == s@.len(),
            forall|k: int| 0 <= k < i ==> is_ws_char(s@[k]),
        decreases n - i,
    {
        i += 1;
    }
    proof {
        lemma_trim_start_at(s@, i as int);
    }
    let mut j: usize = n;
    while j > i && is_ws(s.get_char(j - 1))
        invariant
            i <= j <= n,
            n == s@.len(),
            forall|k: int| j <= k < n ==> is_ws_char(s@[k]),
        decreases j,
    {
        j -= 1;
    }
    proof {
        let t = s@.skip(i as int);
        lemma_trim_end_at(t, j - i);
        assert(t.take(j - i) =~= s@.subrange(i as int, j as int));
    }
    s.substring_char(i, j)
}

/// Tests a character against the trimmer's whitespace set.
fn is_ws(c: char) -> (r: bool)
    ensures
        r == is_ws_char(c),
{
    c == ' ' || c == '\t' || c == '\n' || c == '\r'
}

// --- removing parentheses -------------------------------------------------

/// True for every character other than the two parenthesis characters.
pub open spec fn keeps_char(c: char) -> bool {
    c != '(' && c != ')'
}

/// `s` with every parenthesis character removed.
pub open spec fn sans_parens(s: Seq<char>) -> Seq<char>
    decreases s.len(),
{
    if s.len() == 0 {
        Seq::empty()
    } else {
        sans_parens(s.drop_last()) + if keeps_char(s.last()) {
            seq![s.last()]
        } else {
            Seq::empty()
        }
    }
}

/// Removes every `(` and `)` character from `s`.
pub fn remove_parens(s: &str) -> (r: String)
    ensures
        r@ == sans_parens(s@),
{
    let n = s.unicode_len();
    let mut out = String::new();
    let mut i: usize = 0;
    while i < n
        invariant
            0 <= i <= n,
            n == s@.len(),
            out@ == sans_parens(s@.take(i as int)),
        decreases n - i,
    {
        let c = s.get_char(i);
        if c != '(' && c != ')' {
            out.push(c);
        }
        proof {
            assert(s@.take(i + 1).drop_last() =~= s@.take(i as int));
            assert(s@.take(i + 1).last() == s@[i as int]);
        }
        i += 1;
    }
    proof {
        assert(s@.take(n as int) =~= s@);
    }
    out
}

// --- decimal formatting ---------------------------------------------------

/// Appends one decimal digit character to `out`.
///
/// Relies on `String::push` appending exactly the given character.
fn push_digit(out: &mut String, d: u32)
    requires
        d < 10,
    ensures
        final(out)@ == old(out)@ + seq![digit_char(d as nat)],
{
    let c: char = ((48 + d) as u8) as char;
    assert(c == digit_char(d as nat));
    out.push(c);
}

/// Appends the canonical decimal numeral of `n` to `out`.
pub fn push_dec(out: &mut String, n: u32)
    ensures
        final(out)@ == old(out)@ + dec_str(n as nat),
    decreases n,
{
    if n >= 10 {
        proof {
            assert(n as nat / 10 < n as nat) by (nonlinear_arith)
                requires
                    n >= 10,
            ;
        }
        push_dec(out, n / 10);
        push_digit(out, n % 10);
    } else {
        push_digit(out, n);
    }
}

} // verus!
