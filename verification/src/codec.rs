//! The stateless pagination codec: `(action, page, filters)` packed into a
//! control identifier and recovered from it. Filter text is percent-escaped
//! so that no search term can corrupt the token structure; decoding is total,
//! with unreadable filters degrading to no filter while a bad action or page
//! is a hard error.

use vstd::prelude::*;

use crate::numfmt::{all_digits, dec_digits, dec_value, digit_char, parse_u32, u64_to_chars};
use crate::text::chars_to_string;

verus! {

/// Which way a pagination control moves.
#[derive(PartialEq, Eq, Structural, Clone, Copy, Debug)]
pub enum PageAction {
    Prev,
    Next,
}

/// Why a control identifier cannot be read.
#[derive(PartialEq, Eq, Structural, Clone, Copy, Debug)]
pub enum TokenError {
    /// Too few segments to hold an action and a page.
    Malformed,
    /// An action other than the two known ones.
    UnknownAction,
    /// A page segment that is not a `u32` digit string.
    BadPage,
}

impl TokenError {
    /// The user-visible text of this error.
    pub fn message(&self) -> (r: &'static str)
        ensures
            *self is Malformed ==> r@ == "Invalid component ID"@,
            *self is UnknownAction ==> r@ == "Unknown action"@,
            *self is BadPage ==> r@ == "Invalid page number"@,
    {
        match self {
            TokenError::Malformed => "Invalid component ID",
            TokenError::UnknownAction => "Unknown action",
            TokenError::BadPage => "Invalid page number",
        }
    }
}

/// The state a pagination control carries.
#[derive(Debug)]
pub struct TokenData {
    pub action: PageAction,
    pub page: u32,
    pub search: Option<String>,
    pub sort: Option<String>,
}

/// The mathematical image of a [`TokenData`].
pub ghost struct SpecToken {
    pub action: PageAction,
    pub page: u32,
    pub search: Option<Seq<char>>,
    pub sort: Option<Seq<char>>,
}

impl View for TokenData {
    type V = SpecToken;

    open spec fn view(&self) -> SpecToken {
        SpecToken {
            action: self.action,
            page: self.page,
            search: self.search.deep_view(),
            sort: self.sort.deep_view(),
        }
    }
}

/// The text of an action inside a token.
pub open spec fn spec_action_text(a: PageAction) -> Seq<char> {
    match a {
        PageAction::Prev => "prev"@,
        PageAction::Next => "next"@,
    }
}

/// The escape of one filter char: `%`, space and `_` become `%25`, `%20`
/// and `%5F`; everything else stands for itself.
pub open spec fn esc_fchar(c: char) -> Seq<char> {
    if c == '%' {
        seq!['%', '2', '5']
    } else if c == ' ' {
        seq!['%', '2', '0']
    } else if c == '_' {
        seq!['%', '5', 'F']
    } else {
        seq![c]
    }
}

/// A filter text escaped for embedding in a token segment.
pub open spec fn esc_filter(s: Seq<char>) -> Seq<char>
    decreases s.len(),
{
    if s.len() == 0 {
        Seq::empty()
    } else {
        esc_fchar(s[0]) + esc_filter(s.drop_first())
    }
}

pub open spec fn opt_cons(c: char, o: Option<Seq<char>>) -> Option<Seq<char>> {
    match o {
        Some(t) => Some(seq![c] + t),
        None => None,
    }
}

/// The inverse of [`esc_filter`]: `None` on a malformed escape.
pub open spec fn unesc_filter(s: Seq<char>) -> Option<Seq<char>>
    decreases s.len(),
{
    if s.len() == 0 {
        Some(Seq::empty())
    } else if s[0] == '%' {
        if s.len() >= 3 && s[1] == '2' && s[2] == '5' {
            opt_cons('%', unesc_filter(s.skip(3)))
        } else if s.len() >= 3 && s[1] == '2' && s[2] == '0' {
            opt_cons(' ', unesc_filter(s.skip(3)))
        } else if s.len() >= 3 && s[1] == '5' && s[2] == 'F' {
            opt_cons('_', unesc_filter(s.skip(3)))
        } else {
            None
        }
    } else {
        opt_cons(s[0], unesc_filter(s.skip(1)))
    }
}

/// Escaping is reversible, whatever the filter text holds.
pub proof fn lemma_esc_unesc(s: Seq<char>)
    ensures
        unesc_filter(esc_filter(s)) == Some(s),
    decreases s.len(),
{
    if s.len() == 0 {
    } else {
        lemma_esc_unesc(s.drop_first());
        let e = esc_filter(s);
        let c = s[0];
        if c == '%' || c == ' ' || c == '_' {
            assert(e.skip(3) =~= esc_filter(s.drop_first()));
            assert(seq![c] + s.drop_first() =~= s);
        } else {
            assert(e[0] == c);
            assert(e.skip(1) =~= esc_filter(s.drop_first()));
            if c != '%' {
                assert(unesc_filter(e) == opt_cons(c, unesc_filter(e.skip(1))));
            }
            assert(seq![c] + s.drop_first() =~= s);
        }
    }
}

/// An escaped filter holds no separator.
pub proof fn lemma_esc_no_sep(s: Seq<char>)
    ensures
        forall|i: int| 0 <= i < esc_filter(s).len() ==> #[trigger] esc_filter(s)[i] != '_',
    decreases s.len(),
{
    if s.len() > 0 {
        lemma_esc_no_sep(s.drop_first());
        assert forall|i: int| 0 <= i < esc_filter(s).len() implies #[trigger] esc_filter(s)[i]
            != '_' by {
            let head = esc_fchar(s[0]);
            if i < head.len() {
                assert(esc_filter(s)[i] == head[i]);
            } else {
                assert(esc_filter(s)[i] == esc_filter(s.drop_first())[i - head.len()]);
            }
        }
    }
}

/// Escaping never shortens.
pub proof fn lemma_esc_len(s: Seq<char>)
    ensures
        esc_filter(s).len() >= s.len(),
    decreases s.len(),
{
    if s.len() > 0 {
        lemma_esc_len(s.drop_first());
    }
}

fn esc_fchar_exec(c: char) -> (r: Vec<char>)
    ensures
        r@ == esc_fchar(c),
{
    let mut r: Vec<char> = Vec::new();
    if c == '%' {
        r.push('%');
        r.push('2');
        r.push('5');
    } else if c == ' ' {
        r.push('%');
        r.push('2');
        r.push('0');
    } else if c == '_' {
        r.push('%');
        r.push('5');
        r.push('F');
    } else {
        r.push(c);
    }
    assert(r@ =~= esc_fchar(c));
    r
}

proof fn lemma_esc_filter_push(s: Seq<char>, c: char)
    ensures
        esc_filter(s.push(c)) == esc_filter(s) + esc_fchar(c),
    decreases s.len(),
{
    reveal_with_fuel(esc_filter, 3);
    if s.len() == 0 {
        assert(s.push(c)[0] == c);
        assert(s.push(c).drop_first() =~= Seq::<char>::empty());
        assert(esc_filter(s.push(c)) =~= esc_filter(s) + esc_fchar(c));
    } else {
        assert(s.push(c)[0] == s[0]);
        assert(s.push(c).drop_first() =~= s.drop_first().push(c));
        lemma_esc_filter_push(s.drop_first(), c);
        assert(esc_filter(s.push(c)) =~= esc_filter(s) + esc_fchar(c));
    }
}

/// Escapes a filter text.
pub fn escape_filter(s: &str) -> (r: Vec<char>)
    ensures
        r@ == esc_filter(s@),
{
    let n = vstd::string::StrSliceExecFns::unicode_len(s);
    let mut r: Vec<char> = Vec::new();
    let mut i: usize = 0;
    while i < n
        invariant
            i <= n,
            n == s@.len(),
            r@ == esc_filter(s@.take(i as int)),
        decreases n - i,
    {
        let mut e = esc_fchar_exec(vstd::string::StrSliceExecFns::get_char(s, i));
        r.append(&mut e);
        proof {
            lemma_esc_filter_push(s@.take(i as int), s@[i as int]);
            assert(s@.take(i + 1) =~= s@.take(i as int).push(s@[i as int]));
        }
        i = i + 1;
    }
    assert(s@.take(n as int) =~= s@);
    r
}

/// Unescapes a token segment.
pub fn unescape_filter(s: &Vec<char>) -> (r: Option<Vec<char>>)
    ensures
        match r {
            Some(u) => unesc_filter(s@) == Some(u@),
            None => unesc_filter(s@) is None,
        },
{
    let mut acc: Vec<char> = Vec::new();
    let mut i: usize = 0;
    assert(s@.skip(0) =~= s@);
    while i < s.len()
        invariant
            i <= s@.len(),
            unesc_filter(s@) == (match unesc_filter(s@.skip(i as int)) {
                Some(t) => Some(acc@ + t),
                None => None::<Seq<char>>,
            }),
        decreases s@.len() - i,
    {
        let c = s[i];
        assert(s@.skip(i as int)[0] == s@[i as int]);
        if c == '%' {
            if s.len() - i > 2 && s[i + 1] == '2' && s[i + 2] == '5' {
                acc.push('%');
                assert(s@.skip(i as int).skip(3) =~= s@.skip(i + 3));
                i = i + 3;
            } else if s.len() - i > 2 && s[i + 1] == '2' && s[i + 2] == '0' {
                acc.push(' ');
                assert(s@.skip(i as int).skip(3) =~= s@.skip(i + 3));
                i = i + 3;
            } else if s.len() - i > 2 && s[i + 1] == '5' && s[i + 2] == 'F' {
                acc.push('_');
                assert(s@.skip(i as int).skip(3) =~= s@.skip(i + 3));
                i = i + 3;
            } else {
                assert(unesc_filter(s@.skip(i as int)) is None) by {
                    assert(s@.skip(i as int).len() == s@.len() - i);
                    if s@.skip(i as int).len() >= 3 {
                        assert(s@.skip(i as int)[1] == s@[i + 1]);
                        assert(s@.skip(i as int)[2] == s@[i + 2]);
                    }
                }
                return None;
            }
            assert(acc@ + (match unesc_filter(s@.skip(i as int)) {
                Some(t) => t,
                None => Seq::<char>::empty(),
            }) == acc@.drop_last() + (seq![acc@.last()] + (match unesc_filter(
                s@.skip(i as int),
            ) {
                Some(t) => t,
                None => Seq::<char>::empty(),
            }))) by {
                assert(acc@.drop_last() + (seq![acc@.last()] + (match unesc_filter(
                    s@.skip(i as int),
                ) {
                    Some(t) => t,
                    None => Seq::<char>::empty(),
                })) =~= acc@ + (match unesc_filter(s@.skip(i as int)) {
                    Some(t) => t,
                    None => Seq::<char>::empty(),
                }));
            }
        } else {
            acc.push(c);
            assert(s@.skip(i as int).skip(1) =~= s@.skip(i + 1));
            i = i + 1;
            assert(forall|t: Seq<char>|
                acc@.drop_last() + (seq![acc@.last()] + t) =~= acc@ + t);
        }
    }
    assert(s@.skip(i as int).len() == 0);
    assert(unesc_filter(s@) == Some(acc@)) by {
        assert(acc@ + Seq::<char>::empty() =~= acc@);
    }
    Some(acc)
}

/// The segments of `s` between occurrences of `sep`: always one more
/// segment than separators, so never empty.
pub open spec fn spec_split(s: Seq<char>, sep: char) -> Seq<Seq<char>>
    decreases s.len(),
{
    if s.len() == 0 {
        seq![Seq::<char>::empty()]
    } else if s[0] == sep {
        seq![Seq::<char>::empty()] + spec_split(s.drop_first(), sep)
    } else {
        let rest = spec_split(s.drop_first(), sep);
        seq![seq![s[0]] + rest[0]] + rest.drop_first()
    }
}

pub proof fn lemma_split_len(s: Seq<char>, sep: char)
    ensures
        spec_split(s, sep).len() >= 1,
    decreases s.len(),
{
    if s.len() > 0 {
        lemma_split_len(s.drop_first(), sep);
    }
}

/// Splitting a separator-free text yields that text alone.
pub proof fn lemma_split_single(a: Seq<char>, sep: char)
    requires
        forall|i: int| 0 <= i < a.len() ==> a[i] != sep,
    ensures
        spec_split(a, sep) == seq![a],
    decreases a.len(),
{
    if a.len() == 0 {
        assert(spec_split(a, sep) =~~= seq![a]);
    } else {
        assert(forall|i: int| 0 <= i < a.drop_first().len() ==> a.drop_first()[i] != sep);
        lemma_split_single(a.drop_first(), sep);
        let rest = spec_split(a.drop_first(), sep);
        assert(rest == seq![a.drop_first()]);
        assert(rest[0] == a.drop_first());
        assert(seq![a[0]] + a.drop_first() =~= a);
        assert(rest.drop_first() =~= Seq::<Seq<char>>::empty());
        assert(spec_split(a, sep) =~~= seq![a]);
    }
}

/// Splitting `a ++ sep ++ t` with a separator-free `a` peels `a` off.
pub proof fn lemma_split_concat(a: Seq<char>, t: Seq<char>, sep: char)
    requires
        forall|i: int| 0 <= i < a.len() ==> a[i] != sep,
    ensures
        spec_split(a + seq![sep] + t, sep) == seq![a] + spec_split(t, sep),
    decreases a.len(),
{
    lemma_split_len(t, sep);
    if a.len() == 0 {
        assert((a + seq![sep] + t)[0] == sep);
        assert((a + seq![sep] + t).drop_first() =~= t);
        assert(a =~= Seq::<char>::empty());
        assert(spec_split(a + seq![sep] + t, sep) =~~= seq![a] + spec_split(t, sep));
    } else {
        let s = a + seq![sep] + t;
        assert(s[0] == a[0]);
        assert(s[0] != sep);
        assert(s.drop_first() =~= a.drop_first() + seq![sep] + t);
        assert(forall|i: int| 0 <= i < a.drop_first().len() ==> a.drop_first()[i] != sep);
        lemma_split_concat(a.drop_first(), t, sep);
        let rest = spec_split(s.drop_first(), sep);
        assert(rest == seq![a.drop_first()] + spec_split(t, sep));
        assert(rest[0] == a.drop_first());
        assert(seq![s[0]] + rest[0] =~= a);
        assert(rest.drop_first() =~= spec_split(t, sep));
        assert(spec_split(s, sep) =~~= seq![a] + spec_split(t, sep));
    }
}

proof fn lemma_split_push(s: Seq<char>, sep: char, c: char)
    ensures
        c == sep ==> spec_split(s.push(c), sep) == spec_split(s, sep).push(Seq::<char>::empty()),
        c != sep ==> spec_split(s.push(c), sep) == spec_split(s, sep).update(
            spec_split(s, sep).len() - 1,
            spec_split(s, sep).last().push(c),
        ),
    decreases s.len(),
{
    reveal_with_fuel(spec_split, 3);
    lemma_split_len(s, sep);
    if s.len() == 0 {
        if c == sep {
            assert(s.push(c)[0] == sep);
            assert(s.push(c).drop_first() =~= Seq::<char>::empty());
            assert(spec_split(s.push(c), sep) =~= spec_split(s, sep).push(Seq::<char>::empty()));
        } else {
            assert(s.push(c)[0] == c);
            assert(s.push(c).drop_first() =~= Seq::<char>::empty());
            assert(spec_split(s.push(c), sep) =~= spec_split(s, sep).update(
                spec_split(s, sep).len() - 1,
                spec_split(s, sep).last().push(c),
            ));
        }
    } else {
        assert(s.push(c)[0] == s[0]);
        assert(s.push(c).drop_first() =~= s.drop_first().push(c));
        lemma_split_push(s.drop_first(), sep, c);
        lemma_split_len(s.drop_first(), sep);
        if c == sep {
            assert(spec_split(s.push(c), sep) =~= spec_split(s, sep).push(Seq::<char>::empty()));
        } else {
            assert(spec_split(s.push(c), sep) =~= spec_split(s, sep).update(
                spec_split(s, sep).len() - 1,
                spec_split(s, sep).last().push(c),
            ));
        }
    }
}

/// Splits `s` at every occurrence of `sep`.
pub fn split_chars(s: &Vec<char>, sep: char) -> (r: Vec<Vec<char>>)
    ensures
        r.deep_view() == spec_split(s@, sep),
{
    let mut done: Vec<Vec<char>> = Vec::new();
    let mut cur: Vec<char> = Vec::new();
    let mut i: usize = 0;
    assert(s@.take(0) =~= Seq::<char>::empty());
    assert(done.deep_view().push(cur@) =~= spec_split(s@.take(0), sep));
    while i < s.len()
        invariant
            i <= s@.len(),
            done.deep_view().push(cur@) == spec_split(s@.take(i as int), sep),
        decreases s@.len() - i,
    {
        let c = s[i];
        proof {
            lemma_split_push(s@.take(i as int), sep, c);
            assert(s@.take(i + 1) =~= s@.take(i as int).push(s@[i as int]));
            lemma_split_len(s@.take(i as int), sep);
        }
        let ghost done0 = done.deep_view();
        let ghost cur0 = cur@;
        if c == sep {
            done.push(cur);
            cur = Vec::new();
            assert(done.deep_view() =~~= done0.push(cur0));
            assert(done.deep_view().push(cur@) =~~= spec_split(s@.take(i + 1), sep));
        } else {
            cur.push(c);
            assert(done.deep_view().push(cur@) =~~= spec_split(s@.take(i + 1), sep)) by {
                let prev = spec_split(s@.take(i as int), sep);
                assert(prev == done0.push(cur0));
                assert(prev.last() == cur0);
                assert(cur@ == cur0.push(c));
                assert(prev.update(prev.len() - 1, prev.last().push(c)) =~~= done0.push(cur@));
            }
        }
        i = i + 1;
    }
    assert(s@.take(s@.len() as int) =~= s@);
    let ghost done1 = done.deep_view();
    let ghost cur1 = cur@;
    done.push(cur);
    assert(done.deep_view() =~~= done1.push(cur1));
    assert(done.deep_view() =~~= spec_split(s@, sep));
    done
}

/// What a control identifier's tail (after the family prefix) decodes to.
pub open spec fn spec_decode_rest(s: Seq<char>) -> Result<SpecToken, TokenError> {
    let parts = spec_split(s, '_');
    if parts.len() < 2 {
        Err(TokenError::Malformed)
    } else if parts[0] != "prev"@ && parts[0] != "next"@ {
        Err(TokenError::UnknownAction)
    } else if parts[1].len() == 0 || !all_digits(parts[1]) || dec_value(parts[1]) > u32::MAX {
        Err(TokenError::BadPage)
    } else {
        let action = if parts[0] == "prev"@ {
            PageAction::Prev
        } else {
            PageAction::Next
        };
        Ok(
            SpecToken {
                action,
                page: dec_value(parts[1]) as u32,
                search: spec_filter_of(parts, 2),
                sort: spec_filter_of(parts, 3),
            },
        )
    }
}

/// The filter in segment `k`, when it is there, non-empty and well escaped.
pub open spec fn spec_filter_of(parts: Seq<Seq<char>>, k: int) -> Option<Seq<char>> {
    if parts.len() > k && parts[k].len() > 0 {
        match unesc_filter(parts[k]) {
            Some(u) => if u.len() > 0 {
                Some(u)
            } else {
                None
            },
            None => None,
        }
    } else {
        None
    }
}

fn filter_of(parts: &Vec<Vec<char>>, k: usize) -> (r: Option<String>)
    ensures
        r.deep_view() == spec_filter_of(parts.deep_view(), k as int),
{
    if parts.len() > k && parts[k].len() > 0 {
        assert(parts.deep_view()[k as int] == parts@[k as int]@);
        match unescape_filter(&parts[k]) {
            Some(u) => {
                if u.len() > 0 {
                    Some(chars_to_string(&u))
                } else {
                    None
                }
            },
            None => None,
        }
    } else {
        assert(parts.deep_view().len() == parts@.len());
        if parts.len() > k {
            assert(parts.deep_view()[k as int] == parts@[k as int]@);
        }
        None
    }
}

/// Decodes the tail of a control identifier, after its family prefix.
/// The action and page are load-bearing: a bad segment is an error.
/// Filters degrade to no filter instead.
pub fn decode_token_rest(rest: &Vec<char>) -> (r: Result<TokenData, TokenError>)
    ensures
        match r {
            Ok(t) => spec_decode_rest(rest@) == Ok::<SpecToken, TokenError>(t@),
            Err(e) => spec_decode_rest(rest@) == Err::<SpecToken, TokenError>(e),
        },
{
    let parts = split_chars(rest, '_');
    proof {
        lemma_split_len(rest@, '_');
    }
    if parts.len() < 2 {
        return Err(TokenError::Malformed);
    }
    let p0 = chars_to_string(&parts[0]);
    assert(parts.deep_view()[0] == parts@[0]@);
    assert(parts.deep_view()[1] == parts@[1]@);
    let action: PageAction = if crate::json::str_eq(p0.as_str(), "prev") {
        PageAction::Prev
    } else if crate::json::str_eq(p0.as_str(), "next") {
        PageAction::Next
    } else {
        return Err(TokenError::UnknownAction);
    };
    let p1 = chars_to_string(&parts[1]);
    let page: u32 = match parse_u32(p1.as_str()) {
        Some(p) => p,
        None => {
            return Err(TokenError::BadPage);
        },
    };
    let search = filter_of(&parts, 2);
    let sort = filter_of(&parts, 3);
    Ok(TokenData { action, page, search, sort })
}

/// The encoded tail of a control identifier: action, page and the two
/// escaped filter segments, joined by `_`.
pub open spec fn spec_encode_rest(
    a: PageAction,
    page: u32,
    search: Option<Seq<char>>,
    sort: Option<Seq<char>>,
) -> Seq<char> {
    spec_action_text(a) + "_"@ + dec_digits(page as nat) + "_"@ + esc_filter(opt_text(search))
        + "_"@ + esc_filter(opt_text(sort))
}

pub open spec fn opt_text(o: Option<Seq<char>>) -> Seq<char> {
    match o {
        Some(s) => s,
        None => Seq::empty(),
    }
}

/// Encodes the tail of a control identifier.
pub fn encode_token_rest(
    a: PageAction,
    page: u32,
    search: Option<&str>,
    sort: Option<&str>,
) -> (r: Vec<char>)
    ensures
        r@ == spec_encode_rest(a, page, search.deep_view(), sort.deep_view()),
{
    let mut r: Vec<char> = Vec::new();
    match a {
        PageAction::Prev => crate::text::append_str(&mut r, "prev"),
        PageAction::Next => crate::text::append_str(&mut r, "next"),
    }
    r.push('_');
    let mut digits = u64_to_chars(page as u64);
    r.append(&mut digits);
    r.push('_');
    match search {
        Some(s) => {
            let mut e = escape_filter(s);
            r.append(&mut e);
        },
        None => {},
    }
    r.push('_');
    match sort {
        Some(s) => {
            let mut e = escape_filter(s);
            r.append(&mut e);
        },
        None => {},
    }
    assert(esc_filter(Seq::<char>::empty()) =~= Seq::<char>::empty());
    assert(r@ =~= spec_encode_rest(a, page, search.deep_view(), sort.deep_view())) by {
        reveal_strlit("_");
    }
    r
}

/// The decimal digits of a number are digit chars, never the separator.
pub proof fn lemma_dec_digits_wf(n: nat)
    ensures
        all_digits(dec_digits(n)),
        forall|i: int| 0 <= i < dec_digits(n).len() ==> #[trigger] dec_digits(n)[i] != '_',
    decreases n,
{
    if n < 10 {
        assert(dec_digits(n)[0] == digit_char(n as int));
    } else {
        lemma_dec_digits_wf(n / 10);
        assert forall|i: int| 0 <= i < dec_digits(n).len() implies crate::numfmt::is_digit(
            #[trigger] dec_digits(n)[i],
        ) && dec_digits(n)[i] != '_' by {
            if i < dec_digits(n / 10).len() {
                assert(dec_digits(n)[i] == dec_digits(n / 10)[i]);
                assert(crate::numfmt::is_digit(dec_digits(n / 10)[i]));
                assert(dec_digits(n / 10)[i] != '_');
            } else {
                assert(dec_digits(n)[i] == digit_char((n % 10) as int));
            }
        }
    }
}

/// Reading back the digits of `n` yields `n`.
pub proof fn lemma_dec_value_of_digits(n: nat)
    ensures
        dec_value(dec_digits(n)) == n,
    decreases n,
{
    if n < 10 {
        reveal_with_fuel(dec_value, 3);
        let d = dec_digits(n);
        assert(d.len() == 1);
        assert(d.take(0) =~= Seq::<char>::empty());
        assert(dec_value(d.take(0)) == 0);
        assert(d[0] == digit_char(n as int));
        assert(digit_char(n as int) as int == 48 + n);
        assert(dec_value(d) == digit_char(n as int) as int - 48);
    } else {
        lemma_dec_value_of_digits(n / 10);
        let d = dec_digits(n);
        let h = dec_digits(n / 10);
        assert(d =~= h + seq![digit_char((n % 10) as int)]);
        assert(d.take(d.len() - 1) =~= h);
        assert(d[d.len() - 1] == digit_char((n % 10) as int));
        assert(dec_value(d) == dec_value(h) * 10 + (n % 10));
    }
}

/// Decoding undoes encoding: whatever action, page and filters a control
/// was built with come back unchanged, for any filter text at all, so long
/// as a present filter is non-empty.
pub proof fn lemma_token_round_trip(
    a: PageAction,
    page: u32,
    search: Option<Seq<char>>,
    sort: Option<Seq<char>>,
)
    requires
        search != Some(Seq::<char>::empty()),
        sort != Some(Seq::<char>::empty()),
    ensures
        (spec_decode_rest(spec_encode_rest(a, page, search, sort)) == Ok::<
            SpecToken,
            TokenError,
        >(SpecToken { action: a, page, search, sort })),
{
    let at = spec_action_text(a);
    let dg = dec_digits(page as nat);
    let se = esc_filter(opt_text(search));
    let so = esc_filter(opt_text(sort));
    let enc = spec_encode_rest(a, page, search, sort);
    reveal_strlit("_");
    reveal_strlit("prev");
    reveal_strlit("next");
    assert(enc =~= at + seq!['_'] + (dg + seq!['_'] + (se + seq!['_'] + so)));
    lemma_dec_digits_wf(page as nat);
    lemma_esc_no_sep(opt_text(search));
    lemma_esc_no_sep(opt_text(sort));
    assert(forall|i: int| 0 <= i < at.len() ==> at[i] != '_');
    assert(forall|i: int| 0 <= i < dg.len() ==> dg[i] != '_');
    lemma_split_concat(at, dg + seq!['_'] + (se + seq!['_'] + so), '_');
    lemma_split_concat(dg, se + seq!['_'] + so, '_');
    lemma_split_concat(se, so, '_');
    lemma_split_single(so, '_');
    assert(at + seq!['_'] + (dg + seq!['_'] + (se + seq!['_'] + so)) =~= enc);
    assert(dg + seq!['_'] + (se + seq!['_'] + so) =~= (dg + seq!['_'] + (se + seq!['_'] + so)));
    let parts = spec_split(enc, '_');
    assert(parts =~= seq![at, dg, se, so]);
    assert(parts.len() == 4);
    assert(parts[0] == at);
    assert(at == "prev"@ || at == "next"@);
    assert(at == "prev"@ ==> a is Prev) by {
        if a is Next {
            assert("next"@[0] == 'n');
            assert("prev"@[0] == 'p');
        }
    }
    lemma_dec_value_of_digits(page as nat);
    assert(dg.len() > 0);
    assert(all_digits(dg));
    assert(dec_value(dg) == page);
    lemma_esc_unesc(opt_text(search));
    lemma_esc_unesc(opt_text(sort));
    match search {
        Some(s) => {
            assert(s.len() > 0);
            lemma_esc_len(s);
            assert(se.len() > 0);
            assert(spec_filter_of(parts, 2) == Some(s));
        },
        None => {
            assert(se =~= Seq::<char>::empty());
            assert(spec_filter_of(parts, 2) is None);
        },
    }
    match sort {
        Some(s) => {
            assert(s.len() > 0);
            lemma_esc_len(s);
            assert(so.len() > 0);
            assert(spec_filter_of(parts, 3) == Some(s));
        },
        None => {
            assert(so =~= Seq::<char>::empty());
            assert(spec_filter_of(parts, 3) is None);
        },
    }
}

/// The page a pressed control leads to: one back, floored at the first
/// page; or one forward, unbounded but for the machine limit.
pub open spec fn spec_target_page(action: PageAction, page: u32) -> u32 {
    match action {
        PageAction::Prev => if page > 1 {
            (page - 1) as u32
        } else {
            1u32
        },
        PageAction::Next => if page < u32::MAX {
            (page + 1) as u32
        } else {
            u32::MAX
        },
    }
}

/// Computes the page a pressed control leads to.
pub fn target_page(action: PageAction, page: u32) -> (r: u32)
    ensures
        r == spec_target_page(action, page),
        r >= 1,
        action is Prev ==> r == (if page > 1 {
            page - 1
        } else {
            1
        }),
        action is Next ==> r == (if page < u32::MAX {
            page + 1
        } else {
            u32::MAX as int
        }),
{
    match action {
        PageAction::Prev => {
            if page > 1 {
                page - 1
            } else {
                1
            }
        },
        PageAction::Next => {
            if page < u32::MAX {
                page + 1
            } else {
                u32::MAX
            }
        },
    }
}

/// Moving back from page `P` lands on `max(1, P - 1)`, never below the
/// first page; moving forward from any page below the machine limit lands
/// on `P + 1`, unbounded above.
pub proof fn lemma_target_page_law(page: u32)
    requires
        page >= 1,
    ensures
        spec_target_page(PageAction::Prev, page) == vstd::math::max(1, page - 1),
        spec_target_page(PageAction::Prev, page) >= 1,
        page < u32::MAX ==> spec_target_page(PageAction::Next, page) == page + 1,
{
}

} // verus!
