//! Decimal rendering: digit strings, thousands grouping with `.`, and the
//! two duration forms (minute-based and millisecond-based).

use vstd::prelude::*;

use crate::text::chars_to_string;

verus! {

/// The decimal digit character for `d` (0 through 9).
pub open spec fn digit_char(d: int) -> char {
    (48 + d) as char
}

/// Decimal digits of `n`, most significant first, no sign and no leading zero
/// (except for `n == 0`, which is the single digit `0`).
pub open spec fn dec_digits(n: nat) -> Seq<char>
    decreases n,
{
    if n < 10 {
        seq![digit_char(n as int)]
    } else {
        dec_digits(n / 10) + seq![digit_char((n % 10) as int)]
    }
}

/// `s` with a `.` inserted every three characters, counted from the right.
pub open spec fn grouped(s: Seq<char>) -> Seq<char>
    decreases s.len(),
{
    if s.len() <= 3 {
        s
    } else {
        grouped(s.take(s.len() - 3)) + seq!['.'] + s.skip(s.len() - 3)
    }
}

/// The rendering of `n`: its digits grouped in triples by `.`, with a leading
/// `-` for negative values (only the magnitude is grouped).
pub open spec fn spec_format_number(n: int) -> Seq<char> {
    if n >= 0 {
        grouped(dec_digits(n as nat))
    } else {
        seq!['-'] + grouped(dec_digits((-n) as nat))
    }
}

/// The plain decimal rendering of `n`: digits with a leading `-` when
/// negative, no grouping.
pub open spec fn int_text(n: int) -> Seq<char> {
    if n >= 0 {
        dec_digits(n as nat)
    } else {
        seq!['-'] + dec_digits((-n) as nat)
    }
}

fn digit_char_exec(d: u64) -> (c: char)
    requires
        d < 10,
    ensures
        c == digit_char(d as int),
{
    let b: u8 = 48 + (d as u8);
    b as char
}

/// Digits of `n`, most significant first.
pub fn u64_to_chars(n: u64) -> (r: Vec<char>)
    ensures
        r@ == dec_digits(n as nat),
    decreases n,
{
    if n < 10 {
        let mut v: Vec<char> = Vec::new();
        v.push(digit_char_exec(n));
        assert(v@ =~= dec_digits(n as nat));
        v
    } else {
        let mut v = u64_to_chars(n / 10);
        v.push(digit_char_exec(n % 10));
        assert(v@ =~= dec_digits(n as nat));
        v
    }
}

fn take_chars(v: &Vec<char>, k: usize) -> (r: Vec<char>)
    requires
        k <= v@.len(),
    ensures
        r@ == v@.take(k as int),
{
    let mut r: Vec<char> = Vec::new();
    let mut i: usize = 0;
    while i < k
        invariant
            i <= k <= v@.len(),
            r@ == v@.take(i as int),
        decreases k - i,
    {
        r.push(v[i]);
        i = i + 1;
        assert(r@ =~= v@.take(i as int));
    }
    r
}

fn group_chars(v: &Vec<char>) -> (r: Vec<char>)
    ensures
        r@ == grouped(v@),
    decreases v@.len(),
{
    if v.len() <= 3 {
        let r = v.clone();
        assert(r@ =~= grouped(v@));
        r
    } else {
        let head = take_chars(v, v.len() - 3);
        let mut r = group_chars(&head);
        r.push('.');
        let mut i: usize = v.len() - 3;
        while i < v.len()
            invariant
                v@.len() > 3,
                v@.len() - 3 <= i <= v@.len(),
                r@ == grouped(v@.take(v@.len() - 3)) + seq!['.'] + v@.subrange(
                    v@.len() - 3,
                    i as int,
                ),
            decreases v@.len() - i,
        {
            r.push(v[i]);
            i = i + 1;
            assert(r@ =~= grouped(v@.take(v@.len() - 3)) + seq!['.'] + v@.subrange(
                v@.len() - 3,
                i as int,
            ));
        }
        assert(v@.subrange(v@.len() - 3, v@.len() as int) =~= v@.skip(v@.len() - 3));
        r
    }
}

/// The magnitude of `n` as an unsigned value.
fn abs_u64(n: i64) -> (r: u64)
    ensures
        n >= 0 ==> r == n,
        n < 0 ==> r == -(n as int),
{
    if n >= 0 {
        n as u64
    } else {
        let wide: i128 = n as i128;
        (-wide) as u64
    }
}

/// The digits of `n` in decimal with its sign, no grouping.
pub fn i64_to_chars(n: i64) -> (r: Vec<char>)
    ensures
        r@ == int_text(n as int),
{
    let mag = abs_u64(n);
    let digits = u64_to_chars(mag);
    if n >= 0 {
        digits
    } else {
        let mut v: Vec<char> = Vec::new();
        v.push('-');
        let mut i: usize = 0;
        while i < digits.len()
            invariant
                i <= digits@.len(),
                v@ == seq!['-'] + digits@.take(i as int),
            decreases digits@.len() - i,
        {
            v.push(digits[i]);
            i = i + 1;
            assert(v@ =~= seq!['-'] + digits@.take(i as int));
        }
        assert(digits@.take(digits@.len() as int) =~= digits@);
        v
    }
}

/// The digits of `n` in decimal, grouped in triples from the right by a
/// literal `.`; a negative value keeps its sign and only the magnitude is
/// grouped.
pub fn format_number(number: i64) -> (r: String)
    ensures
        r@ == spec_format_number(number as int),
{
    let chars = format_number_chars(number);
    chars_to_string(&chars)
}

/// The grouped digits of `n`, as chars.
pub fn format_number_chars(number: i64) -> (r: Vec<char>)
    ensures
        r@ == spec_format_number(number as int),
{
    let mag = abs_u64(number);
    let digits = u64_to_chars(mag);
    let grouped_digits = group_chars(&digits);
    if number >= 0 {
        grouped_digits
    } else {
        let mut v: Vec<char> = Vec::new();
        v.push('-');
        let mut i: usize = 0;
        while i < grouped_digits.len()
            invariant
                i <= grouped_digits@.len(),
                v@ == seq!['-'] + grouped_digits@.take(i as int),
            decreases grouped_digits@.len() - i,
        {
            v.push(grouped_digits[i]);
            i = i + 1;
            assert(v@ =~= seq!['-'] + grouped_digits@.take(i as int));
        }
        assert(grouped_digits@.take(grouped_digits@.len() as int) =~= grouped_digits@);
        v
    }
}

/// Ten to the `k`-th power.
pub open spec fn pow10(k: nat) -> nat
    decreases k,
{
    if k == 0 {
        1
    } else {
        10 * pow10((k - 1) as nat)
    }
}

/// A number below ten to the `k` has at most `k` digits.
pub proof fn lemma_dec_digits_len(n: nat, k: nat)
    requires
        k >= 1,
        n < pow10(k),
    ensures
        dec_digits(n).len() <= k,
    decreases n,
{
    if n < 10 {
    } else {
        assert(pow10(k) == 10 * pow10((k - 1) as nat));
        assert(n / 10 < pow10((k - 1) as nat));
        lemma_dec_digits_len(n / 10, (k - 1) as nat);
    }
}

/// The shape of a grouped digit string: it holds one separator after every
/// third char counted from the right and nowhere else (so never in front),
/// and its other chars are the original chars in order.
#[verifier::rlimit(50)]
pub proof fn lemma_grouped_shape(s: Seq<char>)
    requires
        s.len() > 0,
        forall|i: int| 0 <= i < s.len() ==> s[i] != '.',
    ensures
        grouped(s).len() == s.len() + (s.len() - 1) / 3,
        forall|i: int|
            0 <= i < grouped(s).len() ==> ((grouped(s)[i] == '.') <==> (grouped(s).len() - i) % 4
                == 0),
        forall|j: int|
            0 <= j < s.len() ==> grouped(s)[grouped(s).len() - 1 - j - j / 3] == #[trigger] s[s.len()
                - 1 - j],
    decreases s.len(),
{
    let g = grouped(s);
    let n = s.len() as int;
    if n <= 3 {
        assert(g == s);
        assert((n - 1) / 3 == 0);
        assert forall|i: int| 0 <= i < g.len() implies ((g[i] == '.') <==> (g.len() - i) % 4
            == 0) by {
            assert(g[i] != '.');
            assert(0 < g.len() - i <= 3);
        }
        assert forall|j: int| 0 <= j < n implies g[g.len() - 1 - j - j / 3] == #[trigger] s[n - 1
            - j] by {
            assert(j / 3 == 0);
        }
    } else {
        let head = s.take(n - 3);
        let tail = s.skip(n - 3);
        assert(forall|i: int| 0 <= i < head.len() ==> head[i] != '.');
        lemma_grouped_shape(head);
        let gh = grouped(head);
        assert(g == gh + seq!['.'] + tail);
        assert((n - 1) / 3 == (n - 4) / 3 + 1);
        assert(g.len() == n + (n - 1) / 3);
        assert forall|i: int| 0 <= i < g.len() implies ((g[i] == '.') <==> (g.len() - i) % 4
            == 0) by {
            if i < gh.len() {
                assert(g[i] == gh[i]);
                assert((g.len() - i) % 4 == (gh.len() - i) % 4);
            } else if i == gh.len() {
                assert(g[i] == '.');
                assert(g.len() - i == 4);
            } else {
                assert(g[i] == tail[i - gh.len() - 1]);
                assert(tail[i - gh.len() - 1] == s[i - gh.len() - 1 + n - 3]);
                assert(g[i] != '.');
                assert(0 < g.len() - i <= 3);
            }
        }
        assert forall|j: int| 0 <= j < n implies g[g.len() - 1 - j - j / 3] == #[trigger] s[n - 1
            - j] by {
            if j < 3 {
                assert(j / 3 == 0);
                assert(g[g.len() - 1 - j] == tail[3 - 1 - j]);
                assert(tail[3 - 1 - j] == s[n - 1 - j]);
            } else {
                let jh = j - 3;
                assert(j / 3 == jh / 3 + 1);
                assert(0 <= jh < head.len());
                assert(g.len() - 1 - j - j / 3 == gh.len() - 1 - jh - jh / 3);
                assert(g[gh.len() - 1 - jh - jh / 3] == gh[gh.len() - 1 - jh - jh / 3]);
                assert(gh[gh.len() - 1 - jh - jh / 3] == head[head.len() - 1 - jh]);
                assert(head[head.len() - 1 - jh] == s[n - 4 - jh]);
            }
        }
    }
}

/// The digits of a number hold no separator char.
pub proof fn lemma_dec_digits_no_dot(n: nat)
    ensures
        forall|i: int| 0 <= i < dec_digits(n).len() ==> #[trigger] dec_digits(n)[i] != '.',
        dec_digits(n).len() > 0,
    decreases n,
{
    if n < 10 {
        assert(dec_digits(n)[0] == digit_char(n as int));
    } else {
        lemma_dec_digits_no_dot(n / 10);
        assert forall|i: int| 0 <= i < dec_digits(n).len() implies #[trigger] dec_digits(n)[i]
            != '.' by {
            if i < dec_digits(n / 10).len() {
                assert(dec_digits(n)[i] == dec_digits(n / 10)[i]);
            } else {
                assert(dec_digits(n)[i] == digit_char((n % 10) as int));
            }
        }
    }
}

/// For every non-negative number, the rendering is its digit string with a
/// `.` after every third digit counted from the right and no `.` in front:
/// the digits reappear unchanged in order, and a position holds the
/// separator exactly when a multiple of four chars of the rendering,
/// counted from its right end, starts there.
pub proof fn lemma_format_number_law(n: int)
    requires
        n >= 0,
    ensures
        spec_format_number(n) == grouped(dec_digits(n as nat)),
        spec_format_number(n).len() == dec_digits(n as nat).len() + (dec_digits(n as nat).len()
            - 1) / 3,
        spec_format_number(n)[0] != '.',
        forall|i: int|
            0 <= i < spec_format_number(n).len() ==> ((spec_format_number(n)[i] == '.') <==> (
            spec_format_number(n).len() - i) % 4 == 0),
        forall|j: int|
            0 <= j < dec_digits(n as nat).len() ==> spec_format_number(n)[spec_format_number(
                n,
            ).len() - 1 - j - j / 3] == #[trigger] dec_digits(n as nat)[dec_digits(n as nat).len()
                - 1 - j],
{
    let d = dec_digits(n as nat);
    lemma_dec_digits_no_dot(n as nat);
    lemma_grouped_shape(d);
    let g = grouped(d);
    assert(g[0] != '.') by {
        assert(g.len() == d.len() + (d.len() - 1) / 3);
        assert((g.len() - 0) % 4 != 0);
    }
}

/// A minute-count reduced to its two coarsest non-zero units: `{d}d {h}h`,
/// else `{h}h {m}m`, else `{m}m`. A negative count is shown as minutes.
pub open spec fn spec_duration_minutes(minutes: int) -> Seq<char> {
    if minutes < 0 {
        int_text(minutes) + "m"@
    } else {
        let hours = minutes / 60;
        let days = hours / 24;
        if days > 0 {
            int_text(days) + "d "@ + int_text(hours % 24) + "h"@
        } else if hours > 0 {
            int_text(hours) + "h "@ + int_text(minutes % 60) + "m"@
        } else {
            int_text(minutes) + "m"@
        }
    }
}

/// A millisecond count reduced to its two coarsest non-zero units, down to
/// seconds when the whole duration is under a minute. A negative count is
/// shown as (truncated) seconds.
pub open spec fn spec_duration_ms(ms: int) -> Seq<char> {
    if ms < 0 {
        int_text(-((-ms) / 1000)) + "s"@
    } else {
        let seconds = ms / 1000;
        let minutes = seconds / 60;
        let hours = minutes / 60;
        let days = hours / 24;
        if days > 0 {
            int_text(days) + "d "@ + int_text(hours % 24) + "h"@
        } else if hours > 0 {
            int_text(hours) + "h "@ + int_text(minutes % 60) + "m"@
        } else if minutes > 0 {
            int_text(minutes) + "m"@
        } else {
            int_text(seconds) + "s"@
        }
    }
}

/// Renders a duration given in whole minutes.
pub fn format_duration_minutes(minutes: i64) -> (r: Vec<char>)
    ensures
        r@ == spec_duration_minutes(minutes as int),
{
    if minutes < 0 {
        let mut v = i64_to_chars(minutes);
        v.push('m');
        assert(v@ =~= int_text(minutes as int) + "m"@) by {
            reveal_strlit("m");
        }
        v
    } else {
        let hours = minutes / 60;
        let days = hours / 24;
        if days > 0 {
            let mut v = i64_to_chars(days);
            crate::text::append_str(&mut v, "d ");
            let mut h = i64_to_chars(hours % 24);
            v.append(&mut h);
            v.push('h');
            assert(v@ =~= int_text(days as int) + "d "@ + int_text((hours % 24) as int) + "h"@)
                by {
                reveal_strlit("h");
            }
            v
        } else if hours > 0 {
            let mut v = i64_to_chars(hours);
            crate::text::append_str(&mut v, "h ");
            let mut m = i64_to_chars(minutes % 60);
            v.append(&mut m);
            v.push('m');
            assert(v@ =~= int_text(hours as int) + "h "@ + int_text((minutes % 60) as int) + "m"@)
                by {
                reveal_strlit("m");
            }
            v
        } else {
            let mut v = i64_to_chars(minutes);
            v.push('m');
            assert(v@ =~= int_text(minutes as int) + "m"@) by {
                reveal_strlit("m");
            }
            v
        }
    }
}

/// Renders a duration given in milliseconds.
pub fn format_duration_ms(ms: i64) -> (r: Vec<char>)
    ensures
        r@ == spec_duration_ms(ms as int),
{
    if ms < 0 {
        let mag = abs_u64(ms);
        let s = mag / 1000;
        let mut v: Vec<char> = Vec::new();
        if s > 0 {
            v.push('-');
        }
        let mut d = u64_to_chars(s);
        v.append(&mut d);
        v.push('s');
        assert(v@ =~= int_text(-((-(ms as int)) / 1000)) + "s"@) by {
            reveal_strlit("s");
        }
        v
    } else {
        let seconds = ms / 1000;
        let minutes = seconds / 60;
        let hours = minutes / 60;
        let days = hours / 24;
        if days > 0 {
            let mut v = i64_to_chars(days);
            crate::text::append_str(&mut v, "d ");
            let mut h = i64_to_chars(hours % 24);
            v.append(&mut h);
            v.push('h');
            assert(v@ =~= int_text(days as int) + "d "@ + int_text((hours % 24) as int) + "h"@)
                by {
                reveal_strlit("h");
            }
            v
        } else if hours > 0 {
            let mut v = i64_to_chars(hours);
            crate::text::append_str(&mut v, "h ");
            let mut m = i64_to_chars(minutes % 60);
            v.append(&mut m);
            v.push('m');
            assert(v@ =~= int_text(hours as int) + "h "@ + int_text((minutes % 60) as int) + "m"@)
                by {
                reveal_strlit("m");
            }
            v
        } else if minutes > 0 {
            let mut v = i64_to_chars(minutes);
            v.push('m');
            assert(v@ =~= int_text(minutes as int) + "m"@) by {
                reveal_strlit("m");
            }
            v
        } else {
            let mut v = i64_to_chars(seconds);
            v.push('s');
            assert(v@ =~= int_text(seconds as int) + "s"@) by {
                reveal_strlit("s");
            }
            v
        }
    }
}

/// Whether `c` is a decimal digit.
pub open spec fn is_digit(c: char) -> bool {
    48 <= c as int <= 57
}

pub open spec fn digit_val(c: char) -> int {
    c as int - 48
}

pub open spec fn all_digits(s: Seq<char>) -> bool {
    forall|i: int| 0 <= i < s.len() ==> is_digit(s[i])
}

/// The value of a digit string read in base ten.
pub open spec fn dec_value(s: Seq<char>) -> int
    decreases s.len(),
{
    if s.len() == 0 {
        0
    } else {
        dec_value(s.take(s.len() - 1)) * 10 + digit_val(s[s.len() - 1])
    }
}

pub proof fn lemma_dec_value_nonneg(s: Seq<char>)
    requires
        all_digits(s),
    ensures
        dec_value(s) >= 0,
    decreases s.len(),
{
    if s.len() > 0 {
        assert(all_digits(s.take(s.len() - 1)));
        lemma_dec_value_nonneg(s.take(s.len() - 1));
    }
}

/// A digit string is worth at least any of its prefixes.
pub proof fn lemma_dec_value_prefix(s: Seq<char>, j: int)
    requires
        all_digits(s),
        0 <= j <= s.len(),
    ensures
        dec_value(s) >= dec_value(s.take(j)),
    decreases s.len() - j,
{
    if j < s.len() {
        lemma_dec_value_prefix(s, j + 1);
        assert(s.take(j + 1).take(j) =~= s.take(j));
        assert(all_digits(s.take(j)));
        lemma_dec_value_nonneg(s.take(j));
        assert(dec_value(s.take(j + 1)) == dec_value(s.take(j)) * 10 + digit_val(s[j]));
    } else {
        assert(s.take(j) =~= s);
    }
}

/// Reads a base-ten digit string; `Some` exactly when the text is one or
/// more digits whose value fits `u32`.
pub fn parse_u32(s: &str) -> (r: Option<u32>)
    ensures
        match r {
            Some(v) => s@.len() > 0 && all_digits(s@) && dec_value(s@) == v as int,
            None => s@.len() == 0 || !all_digits(s@) || dec_value(s@) > u32::MAX,
        },
{
    let n = s.unicode_len();
    if n == 0 {
        return None;
    }
    let mut acc: u64 = 0;
    let mut i: usize = 0;
    while i < n
        invariant
            i <= n,
            n == s@.len(),
            all_digits(s@.take(i as int)),
            acc == dec_value(s@.take(i as int)),
            acc <= u32::MAX,
        decreases n - i,
    {
        let c = s.get_char(i);
        let u = c as u32;
        if u < 48 || u > 57 {
            assert(!is_digit(s@[i as int]));
            return None;
        }
        proof {
            assert(s@.take(i + 1).take(i as int) =~= s@.take(i as int));
            assert(all_digits(s@.take(i + 1)));
        }
        acc = acc * 10 + ((u - 48) as u64);
        if acc > 0xFFFF_FFFF {
            proof {
                assert(all_digits(s@) ==> dec_value(s@) > u32::MAX) by {
                    if all_digits(s@) {
                        lemma_dec_value_prefix(s@, i + 1);
                    }
                }
            }
            return None;
        }
        i = i + 1;
    }
    assert(s@.take(n as int) =~= s@);
    Some(acc as u32)
}

/// What reading a signed base-ten text yields: an optional `+` or `-`, then
/// one or more digits, value within `i64`.
pub open spec fn spec_parse_i64(s: Seq<char>) -> Option<i64> {
    let neg = s.len() > 0 && s[0] == '-';
    let digits = if s.len() > 0 && (s[0] == '-' || s[0] == '+') {
        s.drop_first()
    } else {
        s
    };
    if digits.len() == 0 || !all_digits(digits) {
        None
    } else {
        let v = if neg {
            -dec_value(digits)
        } else {
            dec_value(digits)
        };
        if i64::MIN <= v <= i64::MAX {
            Some(v as i64)
        } else {
            None
        }
    }
}

/// Reads a signed base-ten text, as the upstream number fields are sent.
pub fn parse_i64(s: &str) -> (r: Option<i64>)
    ensures
        r == spec_parse_i64(s@),
{
    let n = s.unicode_len();
    if n == 0 {
        return None;
    }
    let first = s.get_char(0);
    let neg = first == '-';
    let skip: usize = if first == '-' || first == '+' {
        1
    } else {
        0
    };
    let ghost digits: Seq<char> = if skip == 1 {
        s@.drop_first()
    } else {
        s@
    };
    if n == skip {
        return None;
    }
    let mut acc: u64 = 0;
    let mut i: usize = skip;
    while i < n
        invariant
            skip <= 1,
            skip <= i <= n,
            n == s@.len(),
            n > skip,
            (skip == 1) == (s@[0] == '-' || s@[0] == '+'),
            skip == 1 ==> digits == s@.drop_first(),
            skip == 0 ==> digits == s@,
            digits.len() == n - skip,
            forall|j: int| 0 <= j < digits.len() ==> digits[j] == s@[j + skip],
            all_digits(digits.take(i - skip)),
            acc == dec_value(digits.take(i - skip)),
            acc <= 0x8000_0000_0000_0000u64,
        decreases n - i,
    {
        let c = s.get_char(i);
        let u = c as u32;
        if u < 48 || u > 57 {
            assert(!is_digit(digits[i - skip]));
            return None;
        }
        proof {
            assert(digits.take(i - skip + 1).take(i - skip) =~= digits.take(i - skip));
            assert(all_digits(digits.take(i - skip + 1)));
            assert(digits.take(i - skip + 1)[i - skip] == digits[i - skip]);
            assert(dec_value(digits.take(i - skip + 1)) == acc * 10 + digit_val(
                digits[i - skip],
            ));
        }
        if acc > 0x0CCC_CCCC_CCCC_CCCCu64 {
            proof {
                assert(dec_value(digits.take(i - skip + 1)) > i64::MAX + 1);
                if all_digits(digits) {
                    lemma_dec_value_prefix(digits, i - skip + 1);
                    assert(dec_value(digits) > i64::MAX + 1);
                }
            }
            return None;
        }
        acc = acc * 10 + ((u - 48) as u64);
        if acc > 0x8000_0000_0000_0000u64 {
            proof {
                assert(dec_value(digits.take(i - skip + 1)) > i64::MAX + 1);
                if all_digits(digits) {
                    lemma_dec_value_prefix(digits, i - skip + 1);
                    assert(dec_value(digits) > i64::MAX + 1);
                }
            }
            return None;
        }
        i = i + 1;
    }
    assert(digits.take(n - skip) =~= digits);
    if neg {
        if acc == 0x8000_0000_0000_0000u64 {
            Some(i64::MIN)
        } else {
            Some(-((acc as i64)))
        }
    } else {
        if acc > 0x7FFF_FFFF_FFFF_FFFFu64 {
            None
        } else {
            Some(acc as i64)
        }
    }
}

} // verus!

