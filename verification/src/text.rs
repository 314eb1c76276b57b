//! Character-level text helpers shared by the formatters and the token
//! codec: conversions between `String` and `Vec<char>`, appends, searching,
//! ASCII case folding and trimming.

use vstd::prelude::*;
use vstd::string::*;

verus! {

/// Relies on `core::iter::Iterator::collect` for `String`: collecting chars
/// yields the string of exactly those chars in order.
#[verifier::external_body]
pub fn chars_to_string(v: &Vec<char>) -> (r: String)
    ensures
        r@ == v@,
{
    v.iter().collect()
}

/// The chars of `s`, in order.
pub fn str_to_chars(s: &str) -> (r: Vec<char>)
    ensures
        r@ == s@,
{
    let n = s.unicode_len();
    let mut r: Vec<char> = Vec::new();
    let mut i: usize = 0;
    while i < n
        invariant
            i <= n,
            n == s@.len(),
            r@ == s@.take(i as int),
        decreases n - i,
    {
        r.push(s.get_char(i));
        i = i + 1;
        assert(r@ =~= s@.take(i as int));
    }
    assert(s@.take(n as int) =~= s@);
    r
}

/// Appends every char of `s` to `buf`.
pub fn append_str(buf: &mut Vec<char>, s: &str)
    ensures
        final(buf)@ == old(buf)@ + s@,
{
    let ghost buf0: Seq<char> = buf@;
    let n = s.unicode_len();
    let mut i: usize = 0;
    while i < n
        invariant
            i <= n,
            n == s@.len(),
            buf@ == buf0 + s@.take(i as int),
        decreases n - i,
    {
        buf.push(s.get_char(i));
        i = i + 1;
        assert(buf@ =~= buf0 + s@.take(i as int));
    }
    assert(buf0 + s@.take(n as int) =~= buf0 + s@);
}

/// The whitespace chars that trimming removes.
pub open spec fn is_ws(c: char) -> bool {
    c == ' ' || c == '\n' || c == '\t' || c == '\r'
}

/// `s` without its trailing whitespace.
pub open spec fn trim_end_ws(s: Seq<char>) -> Seq<char>
    decreases s.len(),
{
    if s.len() == 0 {
        s
    } else if is_ws(s.last()) {
        trim_end_ws(s.drop_last())
    } else {
        s
    }
}

/// `s` without its leading whitespace.
pub open spec fn trim_start_ws(s: Seq<char>) -> Seq<char>
    decreases s.len(),
{
    if s.len() == 0 {
        s
    } else if is_ws(s[0]) {
        trim_start_ws(s.drop_first())
    } else {
        s
    }
}

/// `s` without leading and trailing whitespace.
pub open spec fn trim_ws(s: Seq<char>) -> Seq<char> {
    trim_start_ws(trim_end_ws(s))
}

fn is_ws_exec(c: char) -> (r: bool)
    ensures
        r == is_ws(c),
{
    c == ' ' || c == '\n' || c == '\t' || c == '\r'
}

/// Removes trailing whitespace.
pub fn trim_end_chars(v: Vec<char>) -> (r: Vec<char>)
    ensures
        r@ == trim_end_ws(v@),
{
    let mut v = v;
    let mut i: usize = v.len();
    assert(v@.take(i as int) =~= v@);
    while i > 0 && is_ws_exec(v[i - 1])
        invariant
            i <= v@.len(),
            trim_end_ws(v@) == trim_end_ws(v@.take(i as int)),
        decreases i,
    {
        assert(v@.take(i as int).drop_last() =~= v@.take(i - 1));
        i = i - 1;
    }
    let ghost whole: Seq<char> = v@;
    v.truncate(i);
    assert(v@ =~= whole.take(i as int));
    if i > 0 {
        assert(!is_ws(v@[i - 1]));
        assert(trim_end_ws(v@) == v@);
    } else {
        assert(v@.len() == 0);
    }
    v
}

/// Removes leading and trailing whitespace.
pub fn trim_chars(v: Vec<char>) -> (r: Vec<char>)
    ensures
        r@ == trim_ws(v@),
{
    let ghost orig: Seq<char> = v@;
    let v = trim_end_chars(v);
    let mut j: usize = 0;
    assert(v@.skip(0) =~= v@);
    while j < v.len() && is_ws_exec(v[j])
        invariant
            j <= v@.len(),
            v@ == trim_end_ws(orig),
            trim_start_ws(v@) == trim_start_ws(v@.skip(j as int)),
        decreases v@.len() - j,
    {
        assert(v@.skip(j as int).drop_first() =~= v@.skip(j + 1));
        assert(v@.skip(j as int)[0] == v@[j as int]);
        j = j + 1;
    }
    let mut r: Vec<char> = Vec::new();
    let mut k: usize = j;
    while k < v.len()
        invariant
            j <= k <= v@.len(),
            r@ == v@.subrange(j as int, k as int),
        decreases v@.len() - k,
    {
        r.push(v[k]);
        k = k + 1;
        assert(r@ =~= v@.subrange(j as int, k as int));
    }
    assert(r@ =~= v@.skip(j as int));
    if j < v.len() {
        assert(v@.skip(j as int)[0] == v@[j as int]);
        assert(!is_ws(v@.skip(j as int)[0]));
        assert(trim_start_ws(v@.skip(j as int)) == v@.skip(j as int));
    } else {
        assert(v@.skip(j as int).len() == 0);
    }
    r
}

/// Whether `s` begins with the chars of `prefix`.
pub fn chars_start_with(s: &Vec<char>, prefix: &str) -> (r: bool)
    ensures
        r == (s@.len() >= prefix@.len() && s@.take(prefix@.len() as int) == prefix@),
{
    let n = prefix.unicode_len();
    if s.len() < n {
        return false;
    }
    let mut i: usize = 0;
    while i < n
        invariant
            i <= n,
            n == prefix@.len(),
            n <= s@.len(),
            s@.take(i as int) == prefix@.take(i as int),
        decreases n - i,
    {
        if s[i] != prefix.get_char(i) {
            assert(s@.take(n as int) != prefix@) by {
                assert(s@.take(n as int)[i as int] != prefix@[i as int]);
            }
            return false;
        }
        assert(s@.take(i + 1) =~= s@.take(i as int).push(s@[i as int]));
        assert(prefix@.take(i + 1) =~= prefix@.take(i as int).push(prefix@[i as int]));
        i = i + 1;
    }
    assert(s@.take(n as int) =~= prefix@) by {
        assert(prefix@.take(n as int) =~= prefix@);
    }
    true
}

/// Whether `pat` occurs as a contiguous run inside `s`.
pub open spec fn spec_contains(s: Seq<char>, pat: Seq<char>) -> bool {
    exists|i: int|
        0 <= i <= s.len() - pat.len() && #[trigger] s.subrange(i, i + pat.len() as int) == pat
}

fn matches_at(s: &Vec<char>, pat: &Vec<char>, at: usize) -> (r: bool)
    requires
        at + pat@.len() <= s@.len(),
    ensures
        r == (s@.subrange(at as int, at + pat@.len() as int) == pat@),
{
    let slen = s.len();
    let mut i: usize = 0;
    while i < pat.len()
        invariant
            i <= pat@.len(),
            at + pat@.len() <= s@.len(),
            slen == s@.len(),
            s@.subrange(at as int, at + i as int) == pat@.take(i as int),
        decreases pat@.len() - i,
    {
        if s[at + i] != pat[i] {
            assert(s@.subrange(at as int, at + pat@.len() as int) != pat@) by {
                assert(s@.subrange(at as int, at + pat@.len() as int)[i as int] != pat@[i as int]);
            }
            return false;
        }
        assert(s@.subrange(at as int, at + (i + 1) as int) =~= s@.subrange(
            at as int,
            at + i as int,
        ).push(s@[at + i]));
        assert(pat@.take(i + 1) =~= pat@.take(i as int).push(pat@[i as int]));
        i = i + 1;
    }
    assert(s@.subrange(at as int, at + pat@.len() as int) =~= pat@) by {
        assert(pat@.take(pat@.len() as int) =~= pat@);
    }
    true
}

/// Whether the chars of `pat` occur inside `s`.
pub fn str_contains(s: &str, pat: &str) -> (r: bool)
    ensures
        r == spec_contains(s@, pat@),
{
    let sv = str_to_chars(s);
    let pv = str_to_chars(pat);
    if pv.len() > sv.len() {
        assert(!spec_contains(s@, pat@));
        return false;
    }
    if pv.len() == 0 {
        assert(s@.subrange(0, 0 + pat@.len() as int) =~= pat@);
        assert(spec_contains(s@, pat@));
        return true;
    }
    let last = sv.len() - pv.len();
    let mut i: usize = 0;
    while i <= last
        invariant
            i <= last + 1,
            last == sv@.len() - pv@.len(),
            sv@.len() <= usize::MAX,
            pv@.len() > 0,
            sv@ == s@,
            pv@ == pat@,
            forall|j: int|
                0 <= j < i ==> #[trigger] s@.subrange(j, j + pat@.len() as int) != pat@,
        decreases last + 1 - i,
    {
        if matches_at(&sv, &pv, i) {
            assert(spec_contains(s@, pat@));
            return true;
        }
        i = i + 1;
    }
    assert(!spec_contains(s@, pat@));
    false
}

/// The chars of `v` from position `k` on.
pub fn chars_skip(v: &Vec<char>, k: usize) -> (r: Vec<char>)
    requires
        k <= v@.len(),
    ensures
        r@ == v@.skip(k as int),
{
    let mut r: Vec<char> = Vec::new();
    let mut i: usize = k;
    while i < v.len()
        invariant
            k <= i <= v@.len(),
            r@ == v@.subrange(k as int, i as int),
        decreases v@.len() - i,
    {
        r.push(v[i]);
        i = i + 1;
        assert(r@ =~= v@.subrange(k as int, i as int));
    }
    assert(r@ =~= v@.skip(k as int));
    r
}

/// Relies on `char::from_u32`: `Some` of the char with that code exactly
/// when the code is a Unicode scalar value (not a surrogate, at most
/// `0x10FFFF`), else `None`.
#[verifier::external_body]
pub fn char_from_u32(u: u32) -> (r: Option<char>)
    ensures
        (u < 0xD800 || (0xE000 <= u <= 0x10FFFF)) ==> r == Some(u as char),
        !(u < 0xD800 || (0xE000 <= u <= 0x10FFFF)) ==> r is None,
{
    char::from_u32(u)
}

/// An ASCII capital letter folded to its small form; all else unchanged.
pub open spec fn lower_char(c: char) -> char {
    if 'A' <= c <= 'Z' {
        ((c as int) + 32) as char
    } else {
        c
    }
}

/// An ASCII small letter raised to its capital form; all else unchanged.
pub open spec fn upper_char(c: char) -> char {
    if 'a' <= c <= 'z' {
        ((c as int) - 32) as char
    } else {
        c
    }
}

/// ASCII case folding of a whole text.
pub open spec fn lower(s: Seq<char>) -> Seq<char> {
    s.map_values(|c: char| lower_char(c))
}

fn lower_char_exec(c: char) -> (r: char)
    ensures
        r == lower_char(c),
{
    let u = c as u32;
    if 65 <= u && u <= 90 {
        match char_from_u32(u + 32) {
            Some(l) => l,
            None => {
                proof {
                    assert(false);
                }
                c
            },
        }
    } else {
        c
    }
}

/// The ASCII-lowercased chars of `s`.
pub fn lower_chars(s: &Vec<char>) -> (r: Vec<char>)
    ensures
        r@ == lower(s@),
{
    let mut r: Vec<char> = Vec::new();
    let mut i: usize = 0;
    while i < s.len()
        invariant
            i <= s@.len(),
            r@ == lower(s@.take(i as int)),
        decreases s@.len() - i,
    {
        r.push(lower_char_exec(s[i]));
        i = i + 1;
        assert(r@ =~= lower(s@.take(i as int)));
    }
    assert(s@.take(s@.len() as int) =~= s@);
    r
}

/// The ASCII-lowercased chars of a string.
pub fn lower_str_chars(s: &str) -> (r: Vec<char>)
    ensures
        r@ == lower(s@),
{
    let cs = str_to_chars(s);
    lower_chars(&cs)
}

/// Whether the chars of `v` are exactly those of `lit`.
pub fn chars_eq_str(v: &Vec<char>, lit: &str) -> (r: bool)
    ensures
        r == (v@ == lit@),
{
    let n = lit.unicode_len();
    if v.len() != n {
        return false;
    }
    let mut i: usize = 0;
    while i < n
        invariant
            i <= n,
            n == lit@.len() == v@.len(),
            v@.take(i as int) == lit@.take(i as int),
        decreases n - i,
    {
        if v[i] != lit.get_char(i) {
            assert(v@ != lit@) by {
                assert(v@[i as int] != lit@[i as int]);
            }
            return false;
        }
        assert(v@.take(i + 1) =~= v@.take(i as int).push(v@[i as int]));
        assert(lit@.take(i + 1) =~= lit@.take(i as int).push(lit@[i as int]));
        i = i + 1;
    }
    assert(v@ =~= lit@) by {
        assert(v@.take(n as int) =~= v@);
        assert(lit@.take(n as int) =~= lit@);
    }
    true
}

/// Whether two char vectors hold the same chars.
pub fn chars_eq_chars(a: &Vec<char>, b: &Vec<char>) -> (r: bool)
    ensures
        r == (a@ == b@),
{
    if a.len() != b.len() {
        return false;
    }
    let n = a.len();
    let mut i: usize = 0;
    while i < n
        invariant
            i <= n,
            n == a@.len() == b@.len(),
            a@.take(i as int) == b@.take(i as int),
        decreases n - i,
    {
        if a[i] != b[i] {
            assert(a@ != b@) by {
                assert(a@[i as int] != b@[i as int]);
            }
            return false;
        }
        assert(a@.take(i + 1) =~= a@.take(i as int).push(a@[i as int]));
        assert(b@.take(i + 1) =~= b@.take(i as int).push(b@[i as int]));
        i = i + 1;
    }
    assert(a@ =~= b@) by {
        assert(a@.take(n as int) =~= a@);
        assert(b@.take(n as int) =~= b@);
    }
    true
}

/// Every `_` turned into a space.
pub open spec fn underscores_to_spaces(s: Seq<char>) -> Seq<char> {
    s.map_values(|c: char| if c == '_' { ' ' } else { c })
}

/// Turns every `_` into a space.
pub fn map_underscores(s: &Vec<char>) -> (r: Vec<char>)
    ensures
        r@ == underscores_to_spaces(s@),
{
    let mut r: Vec<char> = Vec::new();
    let mut i: usize = 0;
    while i < s.len()
        invariant
            i <= s@.len(),
            r@ == underscores_to_spaces(s@.take(i as int)),
        decreases s@.len() - i,
    {
        let c = s[i];
        if c == '_' {
            r.push(' ');
        } else {
            r.push(c);
        }
        i = i + 1;
        assert(r@ =~= underscores_to_spaces(s@.take(i as int)));
    }
    assert(s@.take(s@.len() as int) =~= s@);
    r
}

} // verus!
