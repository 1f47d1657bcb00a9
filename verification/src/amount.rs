//! Amount extraction: finds the monetary total in free receipt text.
//!
//! Four recognition patterns are tried in fixed priority order: a
//! currency-suffixed number, a trailing-line number, a "TOTAL"-labelled
//! number and a "SUM"-labelled number.  Within a pattern the rightmost
//! occurrence wins: the total stands last on a receipt.  A number is
//! digits with an optional decimal part of one or two digits after a
//! comma or period; its value is returned in minor units (hundredths).

use vstd::prelude::*;
use crate::text::{chars_of, matches_at, matches_at_exec};

verus! {

/// Decimal digit.
pub open spec fn is_digit(c: char) -> bool {
    '0' <= c && c <= '9'
}

/// Decimal separator: comma or period.
pub open spec fn is_sep(c: char) -> bool {
    c == ',' || c == '.'
}

/// Whitespace recognised between a number and its marker.
pub open spec fn is_space(c: char) -> bool {
    c == ' ' || c == '\t' || c == '\n' || c == '\r'
}

/// Word character: a label continues through letters and underscores.
pub open spec fn is_word(c: char) -> bool {
    ('A' <= c && c <= 'Z') || ('a' <= c && c <= 'z') || c == '_'
}

/// The numeric value of a digit character.
pub open spec fn digit_val(c: char) -> int {
    c as int - '0' as int
}

/// First index at or after `i` that does not hold a digit.
pub open spec fn digits_end(s: Seq<char>, i: int) -> int
    decreases s.len() - i,
{
    if i < 0 || i >= s.len() || !is_digit(s[i]) {
        i
    } else {
        digits_end(s, i + 1)
    }
}

/// First index at or after `i` that does not hold whitespace.
pub open spec fn ws_end(s: Seq<char>, i: int) -> int
    decreases s.len() - i,
{
    if i < 0 || i >= s.len() || !is_space(s[i]) {
        i
    } else {
        ws_end(s, i + 1)
    }
}

/// First index at or after `i` that does not hold a word character.
pub open spec fn word_end(s: Seq<char>, i: int) -> int
    decreases s.len() - i,
{
    if i < 0 || i >= s.len() || !is_word(s[i]) {
        i
    } else {
        word_end(s, i + 1)
    }
}

/// The value of the digit run `s[i..j)` read as a decimal number.
pub open spec fn digits_val(s: Seq<char>, i: int, j: int) -> int
    decreases j - i,
{
    if i >= j {
        0
    } else {
        digits_val(s, i, j - 1) * 10 + digit_val(s[j - 1])
    }
}

/// A maximal number token starts at `i`: a digit not preceded by a
/// digit, nor by a separator that follows a digit.
pub open spec fn num_start(s: Seq<char>, i: int) -> bool {
    &&& 0 <= i < s.len()
    &&& is_digit(s[i])
    &&& !(i > 0 && (is_digit(s[i - 1]) || (is_sep(s[i - 1]) && i >= 2 && is_digit(s[i - 2]))))
}

/// The number token at `i` has a decimal part: its integer digits are
/// followed by a separator and at least one digit.
pub open spec fn has_frac(s: Seq<char>, i: int) -> bool {
    let e = digits_end(s, i);
    e < s.len() && is_sep(s[e]) && e + 1 < s.len() && is_digit(s[e + 1])
}

/// One past the last character of the number token at `i`.
pub open spec fn token_end(s: Seq<char>, i: int) -> int {
    if has_frac(s, i) {
        digits_end(s, digits_end(s, i) + 1)
    } else {
        digits_end(s, i)
    }
}

/// The value of the number token at `i` in minor units: integer part
/// times 100 plus the decimal part scaled to hundredths.  Undefined
/// (None) when the decimal part has more than two digits.
pub open spec fn token_minor(s: Seq<char>, i: int) -> Option<int> {
    let e1 = digits_end(s, i);
    if has_frac(s, i) {
        let f1 = e1 + 1;
        let e2 = digits_end(s, f1);
        if e2 - f1 == 1 {
            Some(digits_val(s, i, e1) * 100 + digits_val(s, f1, e2) * 10)
        } else if e2 - f1 == 2 {
            Some(digits_val(s, i, e1) * 100 + digits_val(s, f1, e2))
        } else {
            None
        }
    } else {
        Some(digits_val(s, i, e1) * 100)
    }
}

/// The parsed value of the number token at `i`: its minor-unit value
/// when that is defined and fits the machine word.
pub open spec fn token_value(s: Seq<char>, i: int) -> Option<int> {
    match token_minor(s, i) {
        Some(v) => if v <= u64::MAX as int {
            Some(v)
        } else {
            None
        },
        None => None,
    }
}

/// A currency marker stands at `i`: `NOK` or `kr` (which also covers
/// `kroner`).
pub open spec fn currency_at(s: Seq<char>, i: int) -> bool {
    matches_at(s, "NOK"@, i) || matches_at(s, "kr"@, i)
}

/// Pattern 1: a number token followed by optional whitespace and a
/// currency marker.
pub open spec fn p1_match(s: Seq<char>, i: int) -> bool {
    num_start(s, i) && currency_at(s, ws_end(s, token_end(s, i)))
}

/// Pattern 2: a number token, optional whitespace, an optional `,-`
/// or `:-` mark, optional whitespace, then the end of the text.
pub open spec fn p2_match(s: Seq<char>, i: int) -> bool {
    num_start(s, i) && {
        let w = ws_end(s, token_end(s, i));
        let w2 = if matches_at(s, ",-"@, w) || matches_at(s, ":-"@, w) {
            w + 2
        } else {
            w
        };
        ws_end(s, w2) == s.len()
    }
}

/// Where the number of a `TOTAL` label at `i` would start: after the
/// optional final `T`, whitespace, an optional `:` or `|`, and
/// whitespace.
pub open spec fn p3_num_pos(s: Seq<char>, i: int) -> int {
    let a = if i + 5 < s.len() && s[i + 5] == 'T' {
        i + 6
    } else {
        i + 5
    };
    let b = ws_end(s, a);
    let c = if b < s.len() && (s[b] == ':' || s[b] == '|') {
        b + 1
    } else {
        b
    };
    ws_end(s, c)
}

/// Pattern 3: `TOTAL` or `TOTALT`, separators, then a digit.
pub open spec fn p3_match(s: Seq<char>, i: int) -> bool {
    matches_at(s, "TOTAL"@, i) && p3_num_pos(s, i) < s.len() && is_digit(s[p3_num_pos(s, i)])
}

/// Where the number of a `SUM` label at `i` would start: after the
/// rest of the label word, whitespace, an optional `:` or `|`, and
/// whitespace.
pub open spec fn p4_num_pos(s: Seq<char>, i: int) -> int {
    let a = word_end(s, i + 3);
    let b = ws_end(s, a);
    let c = if b < s.len() && (s[b] == ':' || s[b] == '|') {
        b + 1
    } else {
        b
    };
    ws_end(s, c)
}

/// Pattern 4: `SUM` with an optional word tail, separators, then a
/// digit.
pub open spec fn p4_match(s: Seq<char>, i: int) -> bool {
    matches_at(s, "SUM"@, i) && p4_num_pos(s, i) < s.len() && is_digit(s[p4_num_pos(s, i)])
}

/// The rightmost index at or before `i` where pattern 1 matches.
pub open spec fn last_p1_start(s: Seq<char>, i: int) -> Option<int>
    decreases i + 1,
{
    if i < 0 {
        None
    } else if p1_match(s, i) {
        Some(i)
    } else {
        last_p1_start(s, i - 1)
    }
}

/// The rightmost index at or before `i` where pattern 2 matches.
pub open spec fn last_p2_start(s: Seq<char>, i: int) -> Option<int>
    decreases i + 1,
{
    if i < 0 {
        None
    } else if p2_match(s, i) {
        Some(i)
    } else {
        last_p2_start(s, i - 1)
    }
}

/// The rightmost index at or before `i` where pattern 3 matches.
pub open spec fn last_p3_start(s: Seq<char>, i: int) -> Option<int>
    decreases i + 1,
{
    if i < 0 {
        None
    } else if p3_match(s, i) {
        Some(i)
    } else {
        last_p3_start(s, i - 1)
    }
}

/// The rightmost index at or before `i` where pattern 4 matches.
pub open spec fn last_p4_start(s: Seq<char>, i: int) -> Option<int>
    decreases i + 1,
{
    if i < 0 {
        None
    } else if p4_match(s, i) {
        Some(i)
    } else {
        last_p4_start(s, i - 1)
    }
}

/// The amount pattern 1 yields, if it matches and parses.
pub open spec fn p1_amount(s: Seq<char>) -> Option<int> {
    match last_p1_start(s, s.len() - 1) {
        Some(j) => token_value(s, j),
        None => None,
    }
}

/// The amount pattern 2 yields, if it matches and parses.
pub open spec fn p2_amount(s: Seq<char>) -> Option<int> {
    match last_p2_start(s, s.len() - 1) {
        Some(j) => token_value(s, j),
        None => None,
    }
}

/// The amount pattern 3 yields, if it matches and parses.
pub open spec fn p3_amount(s: Seq<char>) -> Option<int> {
    match last_p3_start(s, s.len() - 1) {
        Some(j) => token_value(s, p3_num_pos(s, j)),
        None => None,
    }
}

/// The amount pattern 4 yields, if it matches and parses.
pub open spec fn p4_amount(s: Seq<char>) -> Option<int> {
    match last_p4_start(s, s.len() - 1) {
        Some(j) => token_value(s, p4_num_pos(s, j)),
        None => None,
    }
}

/// The extracted amount: the first pattern, in priority order, that
/// matches and parses successfully.
pub open spec fn extract_amount_spec(s: Seq<char>) -> Option<int> {
    if p1_amount(s) is Some {
        p1_amount(s)
    } else if p2_amount(s) is Some {
        p2_amount(s)
    } else if p3_amount(s) is Some {
        p3_amount(s)
    } else {
        p4_amount(s)
    }
}

/// Decimal digit.
fn is_digit_exec(c: char) -> (r: bool)
    ensures
        r == is_digit(c),
{
    c >= '0' && c <= '9'
}

/// Decimal separator.
fn is_sep_exec(c: char) -> (r: bool)
    ensures
        r == is_sep(c),
{
    c == ',' || c == '.'
}

/// Whitespace.
fn is_space_exec(c: char) -> (r: bool)
    ensures
        r == is_space(c),
{
    c == ' ' || c == '\t' || c == '\n' || c == '\r'
}

/// Word character.
fn is_word_exec(c: char) -> (r: bool)
    ensures
        r == is_word(c),
{
    (c >= 'A' && c <= 'Z') || (c >= 'a' && c <= 'z') || c == '_'
}

/// Scans past the digits starting at `i`.
fn scan_digits(v: &Vec<char>, i: usize) -> (r: usize)
    requires
        i <= v@.len(),
    ensures
        r as int == digits_end(v@, i as int),
        i <= r <= v@.len(),
{
    let n = v.len();
    let mut j = i;
    while j < n && is_digit_exec(v[j])
        invariant
            i <= j <= n,
            n == v@.len(),
            digits_end(v@, i as int) == digits_end(v@, j as int),
        decreases n - j,
    {
        j += 1;
    }
    j
}

/// Scans past the whitespace starting at `i`.
fn scan_ws(v: &Vec<char>, i: usize) -> (r: usize)
    requires
        i <= v@.len(),
    ensures
        r as int == ws_end(v@, i as int),
        i <= r <= v@.len(),
{
    let n = v.len();
    let mut j = i;
    while j < n && is_space_exec(v[j])
        invariant
            i <= j <= n,
            n == v@.len(),
            ws_end(v@, i as int) == ws_end(v@, j as int),
        decreases n - j,
    {
        j += 1;
    }
    j
}

/// Scans past the word characters starting at `i`.
fn scan_word(v: &Vec<char>, i: usize) -> (r: usize)
    requires
        i <= v@.len(),
    ensures
        r as int == word_end(v@, i as int),
        i <= r <= v@.len(),
{
    let n = v.len();
    let mut j = i;
    while j < n && is_word_exec(v[j])
        invariant
            i <= j <= n,
            n == v@.len(),
            word_end(v@, i as int) == word_end(v@, j as int),
        decreases n - j,
    {
        j += 1;
    }
    j
}

/// Every character of the run `[i, digits_end(s, i))` is a digit.
proof fn lemma_digits_end_digits(s: Seq<char>, i: int)
    requires
        0 <= i <= s.len(),
    ensures
        i <= digits_end(s, i) <= s.len(),
        forall|m: int| i <= m < digits_end(s, i) ==> is_digit(s[m]),
    decreases s.len() - i,
{
    if i < s.len() && is_digit(s[i]) {
        lemma_digits_end_digits(s, i + 1);
    }
}

/// A digit run's value is non-negative.
proof fn lemma_digits_val_nonneg(s: Seq<char>, i: int, j: int)
    requires
        forall|m: int| i <= m < j ==> is_digit(s[m]),
    ensures
        digits_val(s, i, j) >= 0,
    decreases j - i,
{
    if i < j {
        lemma_digits_val_nonneg(s, i, j - 1);
    }
}

/// A digit run's value never shrinks as the run extends.
proof fn lemma_digits_val_mono(s: Seq<char>, i: int, k: int, j: int)
    requires
        i <= k <= j,
        forall|m: int| i <= m < j ==> is_digit(s[m]),
    ensures
        digits_val(s, i, j) >= digits_val(s, i, k),
    decreases j - k,
{
    if j > k {
        lemma_digits_val_mono(s, i, k, j - 1);
        lemma_digits_val_nonneg(s, i, j - 1);
    }
}

/// Parses the digit run `v[i..j)`, reporting overflow as None.
fn parse_digits(v: &Vec<char>, i: usize, j: usize) -> (r: Option<u64>)
    requires
        i <= j <= v@.len(),
        forall|m: int| i <= m < j ==> is_digit(v@[m]),
    ensures
        match r {
            Some(x) => digits_val(v@, i as int, j as int) == x as int,
            None => digits_val(v@, i as int, j as int) > u64::MAX,
        },
{
    let mut val: u64 = 0;
    let mut k = i;
    while k < j
        invariant
            i <= k <= j <= v@.len(),
            forall|m: int| i <= m < j ==> is_digit(v@[m]),
            val as int == digits_val(v@, i as int, k as int),
        decreases j - k,
    {
        let c = v[k];
        assert(is_digit(c));
        let d: u64 = (c as u32 as u64) - 48;
        assert(d == digit_val(c) && d <= 9);
        if val > (u64::MAX - d) / 10 {
            proof {
                assert(digits_val(v@, i as int, k as int + 1) == val * 10 + d);
                lemma_digits_val_mono(v@, i as int, k as int + 1, j as int);
            }
            return None;
        }
        val = val * 10 + d;
        k += 1;
    }
    Some(val)
}

/// One past the end of the number token starting at `i`.
fn token_end_exec(v: &Vec<char>, i: usize) -> (e: usize)
    requires
        i <= v@.len(),
    ensures
        e as int == token_end(v@, i as int),
        i <= e <= v@.len(),
{
    let e1 = scan_digits(v, i);
    if e1 < v.len() && is_sep_exec(v[e1]) && e1 + 1 < v.len() && is_digit_exec(v[e1 + 1]) {
        scan_digits(v, e1 + 1)
    } else {
        e1
    }
}

/// Parses the number token starting at `i` into minor units.
fn parse_token(v: &Vec<char>, i: usize) -> (r: Option<u64>)
    requires
        i <= v@.len(),
    ensures
        r is Some <==> token_value(v@, i as int) is Some,
        r matches Some(x) ==> token_value(v@, i as int) == Some(x as int),
{
    let ghost s = v@;
    let e1 = scan_digits(v, i);
    proof {
        lemma_digits_end_digits(s, i as int);
    }
    if e1 < v.len() && is_sep_exec(v[e1]) && e1 + 1 < v.len() && is_digit_exec(v[e1 + 1]) {
        let f1 = e1 + 1;
        let e2 = scan_digits(v, f1);
        proof {
            lemma_digits_end_digits(s, f1 as int);
            assert(is_digit(s[f1 as int]));
            assert(digits_end(s, f1 as int) == digits_end(s, f1 as int + 1));
            lemma_digits_end_digits(s, f1 as int + 1);
            assert(e2 >= f1 + 1);
        }
        let flen = e2 - f1;
        if flen > 2 {
            return None;
        }
        let scaled: u64 = if flen == 1 {
            proof {
                assert(digits_val(s, f1 as int, f1 as int) == 0);
            }
            let d0: u64 = (v[f1] as u32 as u64) - 48;
            assert(digits_val(s, f1 as int, e2 as int) == digit_val(s[f1 as int]));
            assert(d0 == digits_val(s, f1 as int, e2 as int) && d0 <= 9);
            d0 * 10
        } else {
            proof {
                assert(digits_val(s, f1 as int, f1 as int) == 0);
                assert(digits_val(s, f1 as int, f1 as int + 1) == digit_val(s[f1 as int]));
                assert(digits_val(s, f1 as int, f1 as int + 2) == digit_val(s[f1 as int]) * 10
                    + digit_val(s[f1 as int + 1]));
            }
            let d0: u64 = (v[f1] as u32 as u64) - 48;
            let d1: u64 = (v[f1 + 1] as u32 as u64) - 48;
            d0 * 10 + d1
        };
        assert(scaled as int == (if e2 - f1 == 1 {
            digits_val(s, f1 as int, e2 as int) * 10
        } else {
            digits_val(s, f1 as int, e2 as int)
        }) && scaled <= 99);
        match parse_digits(v, i, e1) {
            None => {
                proof {
                    lemma_digits_val_nonneg(s, i as int, e1 as int);
                    assert(digits_val(s, i as int, e1 as int) * 100 >= digits_val(
                        s,
                        i as int,
                        e1 as int,
                    ));
                }
                None
            },
            Some(iv) => {
                if iv > (u64::MAX - scaled) / 100 {
                    proof {
                        assert(iv * 100 + scaled > u64::MAX);
                    }
                    None
                } else {
                    Some(iv * 100 + scaled)
                }
            },
        }
    } else {
        match parse_digits(v, i, e1) {
            None => {
                proof {
                    lemma_digits_val_nonneg(s, i as int, e1 as int);
                    assert(digits_val(s, i as int, e1 as int) * 100 >= digits_val(
                        s,
                        i as int,
                        e1 as int,
                    ));
                }
                None
            },
            Some(iv) => {
                if iv > u64::MAX / 100 {
                    proof {
                        assert(iv * 100 > u64::MAX);
                    }
                    None
                } else {
                    Some(iv * 100)
                }
            },
        }
    }
}

/// Whether a maximal number token starts at `j`.
fn num_start_exec(v: &Vec<char>, j: usize) -> (r: bool)
    requires
        j < v@.len(),
    ensures
        r == num_start(v@, j as int),
{
    if !is_digit_exec(v[j]) {
        return false;
    }
    if j > 0 {
        if is_digit_exec(v[j - 1]) {
            return false;
        }
        if is_sep_exec(v[j - 1]) && j >= 2 && is_digit_exec(v[j - 2]) {
            return false;
        }
    }
    true
}

/// Whether pattern 1 matches at `j`.
fn p1_match_exec(v: &Vec<char>, j: usize) -> (r: bool)
    requires
        j < v@.len(),
    ensures
        r == p1_match(v@, j as int),
{
    if !num_start_exec(v, j) {
        return false;
    }
    let e = token_end_exec(v, j);
    let w = scan_ws(v, e);
    let nok = chars_of("NOK");
    let kr = chars_of("kr");
    let n = v.len();
    (nok.len() <= n - w && matches_at_exec(v, &nok, w)) || (kr.len() <= n - w && matches_at_exec(
        v,
        &kr,
        w,
    ))
}

/// Whether pattern 2 matches at `j`.
fn p2_match_exec(v: &Vec<char>, j: usize) -> (r: bool)
    requires
        j < v@.len(),
    ensures
        r == p2_match(v@, j as int),
{
    if !num_start_exec(v, j) {
        return false;
    }
    let e = token_end_exec(v, j);
    let w = scan_ws(v, e);
    let comma_dash = chars_of(",-");
    let colon_dash = chars_of(":-");
    proof {
        reveal_strlit(",-");
        reveal_strlit(":-");
    }
    let n = v.len();
    let marked = (comma_dash.len() <= n - w && matches_at_exec(v, &comma_dash, w)) || (colon_dash.len()
        <= n - w && matches_at_exec(v, &colon_dash, w));
    let w2 = if marked {
        w + 2
    } else {
        w
    };
    if w2 > n {
        return false;
    }
    scan_ws(v, w2) == n
}

/// The number position of a `TOTAL` label at `j`.
fn p3_num_pos_exec(v: &Vec<char>, j: usize) -> (r: usize)
    requires
        j + 5 <= v@.len(),
    ensures
        r as int == p3_num_pos(v@, j as int),
        r <= v@.len(),
{
    let n = v.len();
    let a = if j + 5 < n && v[j + 5] == 'T' {
        j + 6
    } else {
        j + 5
    };
    let b = scan_ws(v, a);
    let c = if b < n && (v[b] == ':' || v[b] == '|') {
        b + 1
    } else {
        b
    };
    scan_ws(v, c)
}

/// The number position of a `SUM` label at `j`.
fn p4_num_pos_exec(v: &Vec<char>, j: usize) -> (r: usize)
    requires
        j + 3 <= v@.len(),
    ensures
        r as int == p4_num_pos(v@, j as int),
        r <= v@.len(),
{
    let n = v.len();
    let a = scan_word(v, j + 3);
    let b = scan_ws(v, a);
    let c = if b < n && (v[b] == ':' || v[b] == '|') {
        b + 1
    } else {
        b
    };
    scan_ws(v, c)
}

/// Whether pattern 3 matches at `j`.
fn p3_match_exec(v: &Vec<char>, j: usize) -> (r: bool)
    requires
        j < v@.len(),
    ensures
        r == p3_match(v@, j as int),
{
    let label = chars_of("TOTAL");
    let n = v.len();
    if label.len() > n - j || !matches_at_exec(v, &label, j) {
        return false;
    }
    proof {
        reveal_strlit("TOTAL");
    }
    let pos = p3_num_pos_exec(v, j);
    pos < n && is_digit_exec(v[pos])
}

/// Whether pattern 4 matches at `j`.
fn p4_match_exec(v: &Vec<char>, j: usize) -> (r: bool)
    requires
        j < v@.len(),
    ensures
        r == p4_match(v@, j as int),
{
    let label = chars_of("SUM");
    let n = v.len();
    if label.len() > n - j || !matches_at_exec(v, &label, j) {
        return false;
    }
    proof {
        reveal_strlit("SUM");
    }
    let pos = p4_num_pos_exec(v, j);
    pos < n && is_digit_exec(v[pos])
}

/// The amount pattern 1 yields on this text, if any.
fn p1_amount_exec(v: &Vec<char>) -> (r: Option<u64>)
    ensures
        r is Some <==> p1_amount(v@) is Some,
        r matches Some(x) ==> p1_amount(v@) == Some(x as int),
{
    let n = v.len();
    let mut i: usize = n;
    while i > 0
        invariant
            i <= n,
            n == v@.len(),
            last_p1_start(v@, n as int - 1) == last_p1_start(v@, i as int - 1),
        decreases i,
    {
        let j = i - 1;
        if p1_match_exec(v, j) {
            return parse_token(v, j);
        }
        i -= 1;
    }
    None
}

/// The amount pattern 2 yields on this text, if any.
fn p2_amount_exec(v: &Vec<char>) -> (r: Option<u64>)
    ensures
        r is Some <==> p2_amount(v@) is Some,
        r matches Some(x) ==> p2_amount(v@) == Some(x as int),
{
    let n = v.len();
    let mut i: usize = n;
    while i > 0
        invariant
            i <= n,
            n == v@.len(),
            last_p2_start(v@, n as int - 1) == last_p2_start(v@, i as int - 1),
        decreases i,
    {
        let j = i - 1;
        if p2_match_exec(v, j) {
            return parse_token(v, j);
        }
        i -= 1;
    }
    None
}

/// The amount pattern 3 yields on this text, if any.
fn p3_amount_exec(v: &Vec<char>) -> (r: Option<u64>)
    ensures
        r is Some <==> p3_amount(v@) is Some,
        r matches Some(x) ==> p3_amount(v@) == Some(x as int),
{
    let n = v.len();
    let mut i: usize = n;
    while i > 0
        invariant
            i <= n,
            n == v@.len(),
            last_p3_start(v@, n as int - 1) == last_p3_start(v@, i as int - 1),
        decreases i,
    {
        let j = i - 1;
        if p3_match_exec(v, j) {
            proof {
                reveal_strlit("TOTAL");
            }
            let pos = p3_num_pos_exec(v, j);
            return parse_token(v, pos);
        }
        i -= 1;
    }
    None
}

/// The amount pattern 4 yields on this text, if any.
fn p4_amount_exec(v: &Vec<char>) -> (r: Option<u64>)
    ensures
        r is Some <==> p4_amount(v@) is Some,
        r matches Some(x) ==> p4_amount(v@) == Some(x as int),
{
    let n = v.len();
    let mut i: usize = n;
    while i > 0
        invariant
            i <= n,
            n == v@.len(),
            last_p4_start(v@, n as int - 1) == last_p4_start(v@, i as int - 1),
        decreases i,
    {
        let j = i - 1;
        if p4_match_exec(v, j) {
            proof {
                reveal_strlit("SUM");
            }
            let pos = p4_num_pos_exec(v, j);
            return parse_token(v, pos);
        }
        i -= 1;
    }
    None
}

/// Extracts the monetary total of `text` in minor units: the first of
/// the four patterns, in priority order, that matches and parses.
/// None when no pattern applies; the caller supplies its own default.
pub fn extract_amount(text: &str) -> (r: Option<u64>)
    ensures
        r is Some <==> extract_amount_spec(text@) is Some,
        r matches Some(x) ==> extract_amount_spec(text@) == Some(x as int),
{
    let v = chars_of(text);
    if let Some(x) = p1_amount_exec(&v) {
        return Some(x);
    }
    if let Some(x) = p2_amount_exec(&v) {
        return Some(x);
    }
    if let Some(x) = p3_amount_exec(&v) {
        return Some(x);
    }
    p4_amount_exec(&v)
}

} // verus!
