//! Parsing of fetcher progress lines.
//!
//! The fetcher emits line-oriented text; lines that carry a progress update
//! contain the marker token `[download]` and a `%`-terminated numeric token.
//! Percentages are represented as hundredths of a percent (`4200` is `42.00%`)
//! so that the library stays in integer arithmetic.

use vstd::prelude::*;
use vstd::string::StrSliceExecFns;

verus! {

/// Characters the scanner treats as token separators.
pub open spec fn is_space(c: char) -> bool {
    c == ' ' || c == '\t' || c == '\n' || c == '\r'
}

/// The marker stands at position `i` of `s`.
pub open spec fn marker_at(s: Seq<char>, i: int) -> bool {
    0 <= i && i + 10 <= s.len() && s.subrange(i, i + 10) == "[download]"@
}

/// The line contains the progress marker somewhere.
pub open spec fn has_marker(s: Seq<char>) -> bool {
    exists|i: int| marker_at(s, i)
}

/// Position `j` ends a token whose last character is `%`: the character is a
/// percent sign and the character after it, if any, is a separator.
pub open spec fn pct_end_at(s: Seq<char>, j: int) -> bool {
    0 <= j < s.len() && s[j] == '%' && (j + 1 == s.len() || is_space(s[j + 1]))
}

/// The first position at or after `k` that ends a `%`-token.
pub open spec fn first_pct_end_from(s: Seq<char>, k: int) -> Option<int>
    decreases s.len() - k,
        when 0 <= k <= s.len()
{
    if k >= s.len() {
        None
    } else if pct_end_at(s, k) {
        Some(k)
    } else {
        first_pct_end_from(s, k + 1)
    }
}

/// The start of the token that position `j` belongs to: scan left while the
/// previous character is not a separator.
pub open spec fn token_start(s: Seq<char>, j: int) -> int
    decreases j,
        when 0 <= j <= s.len()
{
    if j <= 0 || is_space(s[j - 1]) {
        j
    } else {
        token_start(s, j - 1)
    }
}

/// Drop trailing `%` signs of the token `s[i..m)`, never going below `i`.
pub open spec fn strip_pct(s: Seq<char>, i: int, m: int) -> int
    decreases m - i,
        when i <= m
{
    if m > i && s[m - 1] == '%' {
        strip_pct(s, i, m - 1)
    } else {
        m
    }
}

pub open spec fn is_digit(c: char) -> bool {
    '0' <= c && c <= '9'
}

pub open spec fn digit_val(c: char) -> int {
    c as int - '0' as int
}

pub open spec fn all_digits(t: Seq<char>) -> bool {
    forall|k: int| 0 <= k < t.len() ==> is_digit(#[trigger] t[k])
}

/// Value of a run of decimal digits, most significant first.
pub open spec fn digits_val(t: Seq<char>) -> int
    decreases t.len(),
{
    if t.len() == 0 {
        0
    } else {
        digits_val(t.drop_last()) * 10 + digit_val(t.last())
    }
}

/// The first `.` at or after position `k`.
pub open spec fn first_dot_from(t: Seq<char>, k: int) -> Option<int>
    decreases t.len() - k,
        when 0 <= k <= t.len()
{
    if k >= t.len() {
        None
    } else if t[k] == '.' {
        Some(k)
    } else {
        first_dot_from(t, k + 1)
    }
}

/// The fractional digits, read to a resolution of hundredths: `"5"` stands
/// for fifty hundredths; digits beyond the second are ignored.
pub open spec fn frac_hundredths(fp: Seq<char>) -> int {
    if fp.len() == 0 {
        0
    } else if fp.len() == 1 {
        digit_val(fp[0]) * 10
    } else {
        digit_val(fp[0]) * 10 + digit_val(fp[1])
    }
}

/// Parse a decimal numeral with an optional fractional part into hundredths.
/// The token must be digits with at most one `.` and at least one digit.
pub open spec fn parse_fixed(t: Seq<char>) -> Option<int> {
    match first_dot_from(t, 0) {
        None => {
            if t.len() >= 1 && all_digits(t) {
                Some(digits_val(t) * 100)
            } else {
                None
            }
        },
        Some(d) => {
            let ip = t.take(d);
            let fp = t.skip(d + 1);
            if all_digits(ip) && all_digits(fp) && ip.len() + fp.len() >= 1 {
                Some(digits_val(ip) * 100 + frac_hundredths(fp))
            } else {
                None
            }
        },
    }
}

/// What `parse_pct` returns: the percentage, in hundredths, carried by the
/// first `%`-terminated token of a line that holds the progress marker.
pub open spec fn parse_pct_spec(s: Seq<char>) -> Option<u32> {
    if !has_marker(s) {
        None
    } else {
        match first_pct_end_from(s, 0) {
            None => None,
            Some(j) => {
                let i = token_start(s, j);
                let m = strip_pct(s, i, j + 1);
                match parse_fixed(s.subrange(i, m)) {
                    None => None,
                    Some(v) => if 0 <= v <= u32::MAX { Some(v as u32) } else { None },
                }
            },
        }
    }
}

/// A longer run of digits never has a smaller value.
proof fn lemma_digits_val_take(t: Seq<char>, k: int)
    requires
        0 <= k <= t.len(),
        all_digits(t),
    ensures
        digits_val(t) >= digits_val(t.take(k)),
        digits_val(t) >= 0,
        digits_val(t.take(k)) >= 0,
    decreases t.len(),
{
    if t.len() == 0 {
        assert(t.take(k) =~= t);
    } else if k == t.len() {
        assert(t.take(k) =~= t);
        assert(all_digits(t.drop_last()));
        lemma_digits_val_take(t.drop_last(), t.len() - 1);
    } else {
        assert(all_digits(t.drop_last()));
        assert(t.drop_last().take(k) =~= t.take(k));
        lemma_digits_val_take(t.drop_last(), k);
    }
}

fn is_space_at(line: &str, i: usize) -> (r: bool)
    requires
        i < line@.len(),
    ensures
        r == is_space(line@[i as int]),
{
    let c = line.get_char(i);
    c == ' ' || c == '\t' || c == '\n' || c == '\r'
}

/// Whether the line contains the `[download]` marker.
#[verifier::loop_isolation(false)]
pub fn contains_marker(line: &str) -> (r: bool)
    ensures
        r == has_marker(line@),
{
    let marker = "[download]";
    proof {
        reveal_strlit("[download]");
    }
    let n = line.unicode_len();
    if n < 10 {
        assert(forall|i: int| !marker_at(line@, i));
        return false;
    }
    let mut i: usize = 0;
    while i <= n - 10
        invariant
            10 <= n == line@.len(),
            i <= n - 10 + 1,
            marker@ == "[download]"@,
            marker@.len() == 10,
            forall|p: int| 0 <= p < i ==> !marker_at(line@, p),
        decreases n - i,
    {
        let mut k: usize = 0;
        let mut all_match = true;
        while k < 10
            invariant
                10 <= n == line@.len(),
                i <= n - 10,
                k <= 10,
                marker@ == "[download]"@,
                marker@.len() == 10,
                all_match ==> forall|q: int| 0 <= q < k ==> line@[i + q] == marker@[q],
                !all_match ==> !marker_at(line@, i as int),
            decreases 10 - k,
        {
            if line.get_char(i + k) != marker.get_char(k) {
                assert(!marker_at(line@, i as int)) by {
                    if marker_at(line@, i as int) {
                        assert(line@.subrange(i as int, i as int + 10)[k as int]
                            == line@[i + k]);
                    }
                }
                all_match = false;
                break;
            }
            k = k + 1;
        }
        if all_match {
            assert(line@.subrange(i as int, i as int + 10) =~= marker@);
            assert(marker_at(line@, i as int));
            return true;
        }
        i = i + 1;
    }
    assert(forall|p: int| !marker_at(line@, p)) by {
        assert(forall|p: int| p > n - 10 ==> !marker_at(line@, p));
    }
    false
}

/// Extract the progress percentage, in hundredths of a percent, from one
/// line of fetcher output. A line without the marker yields nothing.
#[verifier::loop_isolation(false)]
pub fn parse_pct(line: &str) -> (r: Option<u32>)
    ensures
        r == parse_pct_spec(line@),
{
    if !contains_marker(line) {
        return None;
    }
    let n = line.unicode_len();

    // Find the first token position that ends with `%`.
    let j = match find_pct_end(line) {
        Some(j) => j,
        None => {
            return None;
        },
    };

    // Scan left to the start of the token.
    let mut i: usize = j;
    while i > 0 && !is_space_at(line, i - 1)
        invariant
            i <= j < n,
            token_start(line@, j as int) == token_start(line@, i as int),
        decreases i,
    {
        i = i - 1;
    }
    assert(token_start(line@, j as int) == i as int);

    // Drop the trailing `%` signs.
    let mut m: usize = j + 1;
    while m > i && line.get_char(m - 1) == '%'
        invariant
            i <= m <= j + 1 <= n,
            strip_pct(line@, i as int, j as int + 1) == strip_pct(line@, i as int, m as int),
        decreases m - i,
    {
        m = m - 1;
    }
    assert(strip_pct(line@, i as int, j as int + 1) == m as int);

    parse_fixed_str(line, i, m)
}

/// Find the first position that ends a `%`-token.
#[verifier::loop_isolation(false)]
fn find_pct_end(line: &str) -> (r: Option<usize>)
    ensures
        match r {
            Some(j) => j < line@.len() && first_pct_end_from(line@, 0) == Some(j as int),
            None => first_pct_end_from(line@, 0) is None,
        },
{
    let n = line.unicode_len();
    let mut j: usize = 0;
    while j < n
        invariant
            j <= n,
            first_pct_end_from(line@, 0) == first_pct_end_from(line@, j as int),
        decreases n - j,
    {
        if line.get_char(j) == '%' && (j + 1 == n || is_space_at(line, j + 1)) {
            assert(pct_end_at(line@, j as int));
            assert(first_pct_end_from(line@, j as int) == Some(j as int));
            return Some(j);
        }
        assert(!pct_end_at(line@, j as int));
        j = j + 1;
    }
    None
}

/// Find the first `.` of `line[i..m)`, as an absolute position.
#[verifier::loop_isolation(false)]
fn find_dot(line: &str, i: usize, m: usize) -> (r: Option<usize>)
    requires
        i <= m <= line@.len(),
    ensures
        ({
            let t = line@.subrange(i as int, m as int);
            match r {
                Some(d) => i <= d < m && first_dot_from(t, 0) == Some(d - i),
                None => first_dot_from(t, 0) is None,
            }
        }),
{
    let ghost t = line@.subrange(i as int, m as int);
    let mut k: usize = i;
    while k < m
        invariant
            i <= k <= m,
            first_dot_from(t, 0) == first_dot_from(t, (k - i) as int),
        decreases m - k,
    {
        assert(t[k - i] == line@[k as int]);
        if line.get_char(k) == '.' {
            assert(first_dot_from(t, (k - i) as int) == Some((k - i) as int));
            return Some(k);
        }
        assert(first_dot_from(t, (k - i) as int) == first_dot_from(t, k - i + 1));
        k = k + 1;
    }
    None
}

/// Parse the numeral `line[i..m)` into hundredths of a percent, when it fits
/// in 32 bits.
#[verifier::loop_isolation(false)]
fn parse_fixed_str(line: &str, i: usize, m: usize) -> (r: Option<u32>)
    requires
        i <= m <= line@.len(),
    ensures
        ({
            let t = line@.subrange(i as int, m as int);
            match parse_fixed(t) {
                None => r is None,
                Some(v) => r == (if 0 <= v <= u32::MAX { Some(v as u32) } else { None::<u32> }),
            }
        }),
{
    let ghost t = line@.subrange(i as int, m as int);
    assert(t.len() == m - i);

    // Find the decimal point of the numeral, if there is one.
    let found_dot = find_dot(line, i, m);
    let has_dot = found_dot.is_some();
    let dot: usize = match found_dot {
        Some(d) => d,
        None => m,
    };

    // The bounds of the integer and fractional digit runs.
    let ip_end: usize = if has_dot { dot } else { m };
    let fp_start: usize = if has_dot { dot + 1 } else { m };
    let ghost ip = if has_dot { t.take(dot - i) } else { t };
    let ghost fp = if has_dot { t.skip(dot + 1 - i) } else { Seq::<char>::empty() };
    proof {
        assert(ip =~= line@.subrange(i as int, ip_end as int));
        assert(fp =~= line@.subrange(fp_start as int, m as int));
    }

    // Every character of both runs must be a digit.
    let mut k2: usize = i;
    while k2 < ip_end
        invariant
            i <= k2 <= ip_end,
            forall|q: int| 0 <= q < k2 - i ==> is_digit(#[trigger] ip[q]),
        decreases ip_end - k2,
    {
        let c = line.get_char(k2);
        assert(ip[k2 - i] == line@[k2 as int]);
        if !('0' <= c && c <= '9') {
            assert(!is_digit(ip[k2 - i]));
            assert(!all_digits(ip));
            assert(parse_fixed(t) is None);
            return None;
        }
        k2 = k2 + 1;
    }
    assert(all_digits(ip));

    let mut k3: usize = fp_start;
    while k3 < m
        invariant
            fp_start <= k3 <= m,
            forall|q: int| 0 <= q < k3 - fp_start ==> is_digit(#[trigger] fp[q]),
        decreases m - k3,
    {
        let c = line.get_char(k3);
        assert(fp[k3 - fp_start] == line@[k3 as int]);
        if !('0' <= c && c <= '9') {
            assert(!is_digit(fp[k3 - fp_start]));
            assert(!all_digits(fp));
            assert(parse_fixed(t) is None);
            return None;
        }
        k3 = k3 + 1;
    }
    assert(all_digits(fp));

    // At least one digit in the numeral.
    if ip_end == i && fp_start == m {
        assert(ip.len() + fp.len() == 0);
        assert(parse_fixed(t) is None);
        return None;
    }

    // Accumulate the integer part, stopping once it can no longer fit.
    let mut acc: u64 = 0;
    let mut k4: usize = i;
    while k4 < ip_end
        invariant
            i <= k4 <= ip_end,
            acc == digits_val(ip.take(k4 - i)),
            acc <= u32::MAX,
        decreases ip_end - k4,
    {
        let c = line.get_char(k4);
        assert(ip[k4 - i] == line@[k4 as int]);
        assert(is_digit(ip[k4 - i]));
        let d: u64 = (c as u32 - '0' as u32) as u64;
        let next = acc * 10 + d;
        proof {
            assert(ip.take(k4 - i + 1).drop_last() =~= ip.take(k4 - i));
            assert(ip.take(k4 - i + 1).last() == ip[k4 - i]);
        }
        if next > u32::MAX as u64 {
            proof {
                lemma_digits_val_take(ip, k4 - i + 1);
                assert(digits_val(ip) >= digits_val(ip.take(k4 - i + 1)));
                assert(frac_hundredths(fp) >= 0);
                assert(digits_val(ip) * 100 >= digits_val(ip)) by (nonlinear_arith)
                    requires digits_val(ip) >= 0;
                assert(parse_fixed(t) == Some(digits_val(ip) * 100 + frac_hundredths(fp)));
            }
            return None;
        }
        acc = next;
        k4 = k4 + 1;
    }
    proof {
        assert(ip.take(ip_end - i) =~= ip);
    }
    assert(acc == digits_val(ip));

    // The fractional part, to two digits.
    let mut frac: u64 = 0;
    if fp_start < m {
        let c0 = line.get_char(fp_start);
        assert(fp[0] == line@[fp_start as int]);
        frac = ((c0 as u32 - '0' as u32) as u64) * 10;
        if fp_start + 1 < m {
            let c1 = line.get_char(fp_start + 1);
            assert(fp[1] == line@[fp_start as int + 1]);
            frac = frac + (c1 as u32 - '0' as u32) as u64;
        }
    }
    assert(frac == frac_hundredths(fp));

    let total: u64 = acc * 100 + frac;
    assert(parse_fixed(t) == Some(digits_val(ip) * 100 + frac_hundredths(fp)));
    if total > u32::MAX as u64 {
        return None;
    }
    Some(total as u32)
}

/// The first position at or after `k` that holds a non-separator.
pub open spec fn skip_spaces_from(s: Seq<char>, k: int) -> int
    decreases s.len() - k,
        when 0 <= k <= s.len()
{
    if k >= s.len() {
        k
    } else if !is_space(s[k]) {
        k
    } else {
        skip_spaces_from(s, k + 1)
    }
}

/// The position after the last non-separator below `k`.
pub open spec fn rskip_spaces(s: Seq<char>, k: int) -> int
    decreases k,
        when 0 <= k <= s.len()
{
    if k <= 0 {
        0
    } else if !is_space(s[k - 1]) {
        k
    } else {
        rskip_spaces(s, k - 1)
    }
}

/// The line with leading and trailing separators removed.
pub open spec fn trim_of(s: Seq<char>) -> Seq<char> {
    let b = skip_spaces_from(s, 0);
    let e = rskip_spaces(s, s.len() as int);
    if b < e {
        s.subrange(b, e)
    } else {
        Seq::<char>::empty()
    }
}

/// Remove leading and trailing separators.
#[verifier::loop_isolation(false)]
pub fn trim_str(line: &str) -> (r: String)
    ensures
        r@ == trim_of(line@),
{
    let n = line.unicode_len();
    let mut b: usize = 0;
    while b < n && is_space_at(line, b)
        invariant
            b <= n,
            skip_spaces_from(line@, 0) == skip_spaces_from(line@, b as int),
        decreases n - b,
    {
        b = b + 1;
    }
    assert(skip_spaces_from(line@, 0) == b as int);
    let mut e: usize = n;
    while e > 0 && is_space_at(line, e - 1)
        invariant
            e <= n,
            rskip_spaces(line@, n as int) == rskip_spaces(line@, e as int),
        decreases e,
    {
        e = e - 1;
    }
    assert(rskip_spaces(line@, n as int) == e as int);
    if b < e {
        let piece = line.substring_char(b, e);
        piece.to_owned()
    } else {
        String::new()
    }
}

} // verus!
