//! Rendering a [`JsonVal`] back to JSON text: a compact form for single
//! values shown inline, and a two-space-indented pretty form for the raw
//! fallback reply.

use vstd::prelude::*;

use crate::json::JsonVal;
use crate::numfmt::{digit_char, int_text};
use crate::text::chars_to_string;

verus! {

/// The lowercase hex digit character for `d` (0 through 15).
pub open spec fn hex_char(d: int) -> char {
    if d < 10 {
        digit_char(d)
    } else {
        (87 + d) as char
    }
}

/// JSON string escaping of one char: the named short escapes, `\u00XX` for
/// the remaining control chars, and every other char unchanged.
pub open spec fn esc_char(c: char) -> Seq<char> {
    if c == '"' {
        seq!['\\', '"']
    } else if c == '\\' {
        seq!['\\', '\\']
    } else if c == '\n' {
        seq!['\\', 'n']
    } else if c == '\r' {
        seq!['\\', 'r']
    } else if c == '\t' {
        seq!['\\', 't']
    } else if c == 8 as char {
        seq!['\\', 'b']
    } else if c == 12 as char {
        seq!['\\', 'f']
    } else if (c as int) < 32 {
        seq!['\\', 'u', '0', '0', hex_char(c as int / 16), hex_char(c as int % 16)]
    } else {
        seq![c]
    }
}

pub open spec fn esc_str(s: Seq<char>) -> Seq<char>
    decreases s.len(),
{
    if s.len() == 0 {
        Seq::empty()
    } else {
        esc_char(s[0]) + esc_str(s.drop_first())
    }
}

/// A JSON string literal: the escaped chars between double quotes.
pub open spec fn quoted(s: Seq<char>) -> Seq<char> {
    seq!['"'] + esc_str(s) + seq!['"']
}

/// The compact JSON text of a value: no whitespace, `,` and `:` separators.
pub open spec fn compact(v: JsonVal) -> Seq<char>
    decreases v,
{
    match v {
        JsonVal::Null => "null"@,
        JsonVal::Bool(b) => if b {
            "true"@
        } else {
            "false"@
        },
        JsonVal::Int(i) => int_text(i as int),
        JsonVal::Num(s) => s@,
        JsonVal::Str(s) => quoted(s@),
        JsonVal::Arr(items) => seq!['['] + compact_items(items@) + seq![']'],
        JsonVal::Obj(pairs) => seq!['{'] + compact_pairs(pairs@) + seq!['}'],
    }
}

pub open spec fn compact_items(items: Seq<JsonVal>) -> Seq<char>
    decreases items,
{
    if items.len() == 0 {
        Seq::empty()
    } else if items.len() == 1 {
        compact(items[0])
    } else {
        compact(items[0]) + seq![','] + compact_items(items.drop_first())
    }
}

pub open spec fn compact_pairs(pairs: Seq<(String, JsonVal)>) -> Seq<char>
    decreases pairs,
{
    if pairs.len() == 0 {
        Seq::empty()
    } else if pairs.len() == 1 {
        quoted(pairs[0].0@) + seq![':'] + compact(pairs[0].1)
    } else {
        quoted(pairs[0].0@) + seq![':'] + compact(pairs[0].1) + seq![','] + compact_pairs(
            pairs.drop_first(),
        )
    }
}

proof fn lemma_esc_str_push(s: Seq<char>, c: char)
    ensures
        esc_str(s.push(c)) == esc_str(s) + esc_char(c),
    decreases s.len(),
{
    reveal_with_fuel(esc_str, 3);
    if s.len() == 0 {
        assert(s.push(c)[0] == c);
        assert(s.push(c).drop_first() =~= Seq::<char>::empty());
        assert(esc_str(s.push(c)) =~= esc_str(s) + esc_char(c));
    } else {
        assert(s.push(c)[0] == s[0]);
        assert(s.push(c).drop_first() =~= s.drop_first().push(c));
        lemma_esc_str_push(s.drop_first(), c);
        assert(esc_str(s.push(c)) =~= esc_str(s) + esc_char(c));
    }
}

proof fn lemma_compact_items_push(s: Seq<JsonVal>, x: JsonVal)
    ensures
        compact_items(s.push(x)) == if s.len() == 0 {
            compact(x)
        } else {
            compact_items(s) + seq![','] + compact(x)
        },
    decreases s.len(),
{
    reveal_with_fuel(compact_items, 3);
    if s.len() == 0 {
        assert(s.push(x)[0] == x);
        assert(compact_items(s.push(x)) =~= compact(x));
    } else {
        assert(s.push(x)[0] == s[0]);
        assert(s.push(x).drop_first() =~= s.drop_first().push(x));
        lemma_compact_items_push(s.drop_first(), x);
        if s.len() == 1 {
            assert(compact_items(s.push(x)) =~= compact_items(s) + seq![','] + compact(x));
        } else {
            assert(compact_items(s.push(x)) =~= compact_items(s) + seq![','] + compact(x));
        }
    }
}

proof fn lemma_compact_pairs_push(s: Seq<(String, JsonVal)>, x: (String, JsonVal))
    ensures
        compact_pairs(s.push(x)) == if s.len() == 0 {
            quoted(x.0@) + seq![':'] + compact(x.1)
        } else {
            compact_pairs(s) + seq![','] + quoted(x.0@) + seq![':'] + compact(x.1)
        },
    decreases s.len(),
{
    reveal_with_fuel(compact_pairs, 3);
    if s.len() == 0 {
        assert(s.push(x)[0] == x);
        assert(compact_pairs(s.push(x)) =~= quoted(x.0@) + seq![':'] + compact(x.1));
    } else {
        assert(s.push(x)[0] == s[0]);
        assert(s.push(x).drop_first() =~= s.drop_first().push(x));
        lemma_compact_pairs_push(s.drop_first(), x);
        assert(compact_pairs(s.push(x)) =~= compact_pairs(s) + seq![','] + quoted(x.0@)
            + seq![':'] + compact(x.1));
    }
}

fn hex_char_exec(d: u32) -> (c: char)
    requires
        d < 16,
    ensures
        c == hex_char(d as int),
{
    if d < 10 {
        (48 + (d as u8)) as char
    } else {
        (87 + (d as u8)) as char
    }
}

fn esc_char_exec(c: char) -> (r: Vec<char>)
    ensures
        r@ == esc_char(c),
{
    let mut r: Vec<char> = Vec::new();
    if c == '"' {
        r.push('\\');
        r.push('"');
    } else if c == '\\' {
        r.push('\\');
        r.push('\\');
    } else if c == '\n' {
        r.push('\\');
        r.push('n');
    } else if c == '\r' {
        r.push('\\');
        r.push('r');
    } else if c == '\t' {
        r.push('\\');
        r.push('t');
    } else if (c as u32) == 8 {
        r.push('\\');
        r.push('b');
    } else if (c as u32) == 12 {
        r.push('\\');
        r.push('f');
    } else if (c as u32) < 32 {
        r.push('\\');
        r.push('u');
        r.push('0');
        r.push('0');
        r.push(hex_char_exec((c as u32) / 16));
        r.push(hex_char_exec((c as u32) % 16));
    } else {
        r.push(c);
    }
    assert(r@ =~= esc_char(c));
    r
}

fn append_quoted(buf: &mut Vec<char>, s: &String)
    ensures
        final(buf)@ == old(buf)@ + quoted(s@),
{
    let ghost buf0: Seq<char> = buf@;
    buf.push('"');
    let n = s.as_str().unicode_len();
    let mut i: usize = 0;
    while i < n
        invariant
            i <= n,
            n == s@.len(),
            buf@ == buf0 + seq!['"'] + esc_str(s@.take(i as int)),
        decreases n - i,
    {
        let mut e = esc_char_exec(s.as_str().get_char(i));
        buf.append(&mut e);
        proof {
            lemma_esc_str_push(s@.take(i as int), s@[i as int]);
            assert(s@.take(i + 1) =~= s@.take(i as int).push(s@[i as int]));
        }
        i = i + 1;
        assert(buf@ =~= buf0 + seq!['"'] + esc_str(s@.take(i as int)));
    }
    assert(s@.take(n as int) =~= s@);
    buf.push('"');
    assert(buf@ =~= buf0 + quoted(s@));
}

/// The compact JSON text of `v`, as chars.
pub fn compact_chars(v: &JsonVal) -> (r: Vec<char>)
    ensures
        r@ == compact(*v),
    decreases *v,
{
    let mut r: Vec<char> = Vec::new();
    match v {
        JsonVal::Null => {
            crate::text::append_str(&mut r, "null");
        },
        JsonVal::Bool(b) => {
            if *b {
                crate::text::append_str(&mut r, "true");
            } else {
                crate::text::append_str(&mut r, "false");
            }
        },
        JsonVal::Int(i) => {
            let mut d = crate::numfmt::i64_to_chars(*i);
            r.append(&mut d);
        },
        JsonVal::Num(s) => {
            crate::text::append_str(&mut r, s.as_str());
        },
        JsonVal::Str(s) => {
            append_quoted(&mut r, s);
        },
        JsonVal::Arr(items) => {
            r.push('[');
            let mut i: usize = 0;
            while i < items.len()
                invariant
                    i <= items@.len(),
                    v is Arr && v->Arr_0@ == items@,
                    r@ == seq!['['] + compact_items(items@.take(i as int)),
                decreases items@.len() - i,
            {
                if i > 0 {
                    r.push(',');
                }
                let mut e = compact_chars(&items[i]);
                r.append(&mut e);
                proof {
                    lemma_compact_items_push(items@.take(i as int), items@[i as int]);
                    assert(items@.take(i + 1) =~= items@.take(i as int).push(items@[i as int]));
                }
                i = i + 1;
                assert(r@ =~= seq!['['] + compact_items(items@.take(i as int)));
            }
            assert(items@.take(items@.len() as int) =~= items@);
            r.push(']');
            assert(r@ =~= seq!['['] + compact_items(items@) + seq![']']);
        },
        JsonVal::Obj(pairs) => {
            r.push('{');
            let mut i: usize = 0;
            while i < pairs.len()
                invariant
                    i <= pairs@.len(),
                    v is Obj && v->Obj_0@ == pairs@,
                    r@ == seq!['{'] + compact_pairs(pairs@.take(i as int)),
                decreases pairs@.len() - i,
            {
                if i > 0 {
                    r.push(',');
                }
                append_quoted(&mut r, &pairs[i].0);
                r.push(':');
                let mut e = compact_chars(&pairs[i].1);
                r.append(&mut e);
                proof {
                    lemma_compact_pairs_push(pairs@.take(i as int), pairs@[i as int]);
                    assert(pairs@.take(i + 1) =~= pairs@.take(i as int).push(pairs@[i as int]));
                }
                i = i + 1;
                assert(r@ =~= seq!['{'] + compact_pairs(pairs@.take(i as int)));
            }
            assert(pairs@.take(pairs@.len() as int) =~= pairs@);
            r.push('}');
            assert(r@ =~= seq!['{'] + compact_pairs(pairs@) + seq!['}']);
        },
    }
    r
}

/// The compact JSON text of `v`; what upstream values echoed verbatim
/// (status codes, counts) are shown as.
pub fn to_compact_string(v: &JsonVal) -> (r: String)
    ensures
        r@ == compact(*v),
{
    let chars = compact_chars(v);
    chars_to_string(&chars)
}

/// Two spaces per nesting level.
pub open spec fn indent(d: nat) -> Seq<char>
    decreases d,
{
    if d == 0 {
        Seq::empty()
    } else {
        indent((d - 1) as nat) + seq![' ', ' ']
    }
}

/// The pretty JSON text of a value nested `d` levels deep: each array item
/// and object member on its own line, indented two spaces per level.
pub open spec fn pretty(v: JsonVal, d: nat) -> Seq<char>
    decreases v,
{
    match v {
        JsonVal::Null => "null"@,
        JsonVal::Bool(b) => if b {
            "true"@
        } else {
            "false"@
        },
        JsonVal::Int(i) => int_text(i as int),
        JsonVal::Num(s) => s@,
        JsonVal::Str(s) => quoted(s@),
        JsonVal::Arr(items) => if items@.len() == 0 {
            "[]"@
        } else {
            seq!['['] + pretty_items(items@, d) + seq!['\n'] + indent(d) + seq![']']
        },
        JsonVal::Obj(pairs) => if pairs@.len() == 0 {
            "{}"@
        } else {
            seq!['{'] + pretty_pairs(pairs@, d) + seq!['\n'] + indent(d) + seq!['}']
        },
    }
}

pub open spec fn pretty_items(items: Seq<JsonVal>, d: nat) -> Seq<char>
    decreases items,
{
    if items.len() == 0 {
        Seq::empty()
    } else if items.len() == 1 {
        seq!['\n'] + indent(d + 1) + pretty(items[0], d + 1)
    } else {
        seq!['\n'] + indent(d + 1) + pretty(items[0], d + 1) + seq![','] + pretty_items(
            items.drop_first(),
            d,
        )
    }
}

pub open spec fn pretty_pairs(pairs: Seq<(String, JsonVal)>, d: nat) -> Seq<char>
    decreases pairs,
{
    if pairs.len() == 0 {
        Seq::empty()
    } else if pairs.len() == 1 {
        seq!['\n'] + indent(d + 1) + quoted(pairs[0].0@) + seq![':', ' '] + pretty(
            pairs[0].1,
            d + 1,
        )
    } else {
        seq!['\n'] + indent(d + 1) + quoted(pairs[0].0@) + seq![':', ' '] + pretty(
            pairs[0].1,
            d + 1,
        ) + seq![','] + pretty_pairs(pairs.drop_first(), d)
    }
}

proof fn lemma_pretty_items_push(s: Seq<JsonVal>, x: JsonVal, d: nat)
    ensures
        pretty_items(s.push(x), d) == if s.len() == 0 {
            seq!['\n'] + indent(d + 1) + pretty(x, d + 1)
        } else {
            pretty_items(s, d) + seq![','] + seq!['\n'] + indent(d + 1) + pretty(x, d + 1)
        },
    decreases s.len(),
{
    reveal_with_fuel(pretty_items, 3);
    if s.len() == 0 {
        assert(s.push(x)[0] == x);
        assert(pretty_items(s.push(x), d) =~= seq!['\n'] + indent(d + 1) + pretty(x, d + 1));
    } else {
        assert(s.push(x)[0] == s[0]);
        assert(s.push(x).drop_first() =~= s.drop_first().push(x));
        lemma_pretty_items_push(s.drop_first(), x, d);
        assert(pretty_items(s.push(x), d) =~= pretty_items(s, d) + seq![','] + seq!['\n'] + indent(
            d + 1,
        ) + pretty(x, d + 1));
    }
}

proof fn lemma_pretty_pairs_push(s: Seq<(String, JsonVal)>, x: (String, JsonVal), d: nat)
    ensures
        pretty_pairs(s.push(x), d) == if s.len() == 0 {
            seq!['\n'] + indent(d + 1) + quoted(x.0@) + seq![':', ' '] + pretty(x.1, d + 1)
        } else {
            pretty_pairs(s, d) + seq![','] + seq!['\n'] + indent(d + 1) + quoted(x.0@) + seq![
                ':',
                ' ',
            ] + pretty(x.1, d + 1)
        },
    decreases s.len(),
{
    reveal_with_fuel(pretty_pairs, 3);
    if s.len() == 0 {
        assert(s.push(x)[0] == x);
        assert(pretty_pairs(s.push(x), d) =~= seq!['\n'] + indent(d + 1) + quoted(x.0@) + seq![
            ':',
            ' ',
        ] + pretty(x.1, d + 1));
    } else {
        assert(s.push(x)[0] == s[0]);
        assert(s.push(x).drop_first() =~= s.drop_first().push(x));
        lemma_pretty_pairs_push(s.drop_first(), x, d);
        assert(pretty_pairs(s.push(x), d) =~= pretty_pairs(s, d) + seq![','] + seq!['\n'] + indent(
            d + 1,
        ) + quoted(x.0@) + seq![':', ' '] + pretty(x.1, d + 1));
    }
}

fn pretty_chars_at(v: &JsonVal, ind: &Vec<char>, Ghost(d): Ghost<nat>) -> (r: Vec<char>)
    requires
        ind@ == indent(d),
    ensures
        r@ == pretty(*v, d),
    decreases *v,
{
    let mut r: Vec<char> = Vec::new();
    match v {
        JsonVal::Null => {
            crate::text::append_str(&mut r, "null");
        },
        JsonVal::Bool(b) => {
            if *b {
                crate::text::append_str(&mut r, "true");
            } else {
                crate::text::append_str(&mut r, "false");
            }
        },
        JsonVal::Int(i) => {
            let mut dg = crate::numfmt::i64_to_chars(*i);
            r.append(&mut dg);
        },
        JsonVal::Num(s) => {
            crate::text::append_str(&mut r, s.as_str());
        },
        JsonVal::Str(s) => {
            append_quoted(&mut r, s);
        },
        JsonVal::Arr(items) => {
            if items.len() == 0 {
                crate::text::append_str(&mut r, "[]");
            } else {
                let mut deeper = ind.clone();
                deeper.push(' ');
                deeper.push(' ');
                assert(deeper@ =~= indent(d + 1));
                r.push('[');
                let mut i: usize = 0;
                while i < items.len()
                    invariant
                        i <= items@.len(),
                        v is Arr && v->Arr_0@ == items@,
                        deeper@ == indent(d + 1),
                        r@ == seq!['['] + pretty_items(items@.take(i as int), d),
                    decreases items@.len() - i,
                {
                    if i > 0 {
                        r.push(',');
                    }
                    r.push('\n');
                    let mut pad = deeper.clone();
                    r.append(&mut pad);
                    let mut e = pretty_chars_at(&items[i], &deeper, Ghost(d + 1));
                    r.append(&mut e);
                    proof {
                        lemma_pretty_items_push(items@.take(i as int), items@[i as int], d);
                        assert(items@.take(i + 1) =~= items@.take(i as int).push(
                            items@[i as int],
                        ));
                    }
                    i = i + 1;
                    assert(r@ =~= seq!['['] + pretty_items(items@.take(i as int), d));
                }
                assert(items@.take(items@.len() as int) =~= items@);
                r.push('\n');
                let mut pad = ind.clone();
                r.append(&mut pad);
                r.push(']');
                assert(r@ =~= seq!['['] + pretty_items(items@, d) + seq!['\n'] + indent(d) + seq![
                    ']',
                ]);
            }
        },
        JsonVal::Obj(pairs) => {
            if pairs.len() == 0 {
                crate::text::append_str(&mut r, "{}");
            } else {
                let mut deeper = ind.clone();
                deeper.push(' ');
                deeper.push(' ');
                assert(deeper@ =~= indent(d + 1));
                r.push('{');
                let mut i: usize = 0;
                while i < pairs.len()
                    invariant
                        i <= pairs@.len(),
                        v is Obj && v->Obj_0@ == pairs@,
                        deeper@ == indent(d + 1),
                        r@ == seq!['{'] + pretty_pairs(pairs@.take(i as int), d),
                    decreases pairs@.len() - i,
                {
                    if i > 0 {
                        r.push(',');
                    }
                    r.push('\n');
                    let mut pad = deeper.clone();
                    r.append(&mut pad);
                    append_quoted(&mut r, &pairs[i].0);
                    r.push(':');
                    r.push(' ');
                    let mut e = pretty_chars_at(&pairs[i].1, &deeper, Ghost(d + 1));
                    r.append(&mut e);
                    proof {
                        lemma_pretty_pairs_push(pairs@.take(i as int), pairs@[i as int], d);
                        assert(pairs@.take(i + 1) =~= pairs@.take(i as int).push(
                            pairs@[i as int],
                        ));
                    }
                    i = i + 1;
                    assert(r@ =~= seq!['{'] + pretty_pairs(pairs@.take(i as int), d));
                }
                assert(pairs@.take(pairs@.len() as int) =~= pairs@);
                r.push('\n');
                let mut pad = ind.clone();
                r.append(&mut pad);
                r.push('}');
                assert(r@ =~= seq!['{'] + pretty_pairs(pairs@, d) + seq!['\n'] + indent(d) + seq![
                    '}',
                ]);
            }
        },
    }
    r
}

/// The pretty JSON text of `v`, as chars.
pub fn pretty_chars(v: &JsonVal) -> (r: Vec<char>)
    ensures
        r@ == pretty(*v, 0),
{
    let ind: Vec<char> = Vec::new();
    assert(ind@ =~= indent(0));
    pretty_chars_at(v, &ind, Ghost(0))
}

/// The pretty JSON text of `v`; the raw fallback body for a reply that no
/// normalizer claims.
pub fn to_pretty_string(v: &JsonVal) -> (r: String)
    ensures
        r@ == pretty(*v, 0),
{
    let chars = pretty_chars(v);
    chars_to_string(&chars)
}

} // verus!
