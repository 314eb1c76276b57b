//! One normalizer per endpoint family, and the dispatch that picks one by
//! the request path. Each normalizer is total: whatever shape the reply
//! has, it yields some fields, falling back to the echoed `status` and
//! `message` members.

use vstd::prelude::*;
use vstd::string::*;

use crate::formatters::{
    jget2, jstr_opt, spec_auction_body, spec_format_playtime, format_auction_response_with_page,
    format_playtime,
};
use crate::json::{jget, jint, jstr, JsonVal};
use crate::numfmt::{int_text, spec_format_number, format_number_chars, i64_to_chars, u64_to_chars};
use crate::render::{spec_capped, Rendered, SpecField, SpecRendered};
use crate::serialize::{compact, to_compact_string};
use crate::text::{
    append_str, chars_to_string, spec_contains, str_contains, str_to_chars, trim_end_chars,
    trim_end_ws,
};

verus! {

pub open spec fn sfield(name: Seq<char>, value: Seq<char>, inline: bool) -> SpecField {
    SpecField { name, value, inline }
}

/// `fields` with `o` appended when it is there.
pub open spec fn push_opt(fields: Seq<SpecField>, o: Option<SpecField>) -> Seq<SpecField> {
    match o {
        Some(f) => fields.push(f),
        None => fields,
    }
}

/// The field for a string member, when present.
pub open spec fn str_field_of(
    v: JsonVal,
    key: Seq<char>,
    label: Seq<char>,
    inline: bool,
) -> Option<SpecField> {
    match jstr_opt(jget(v, key)) {
        Some(s) => Some(sfield(label, s, inline)),
        None => None,
    }
}

/// The field echoing a member as JSON text, when present.
pub open spec fn val_field_of(
    v: JsonVal,
    key: Seq<char>,
    label: Seq<char>,
    inline: bool,
) -> Option<SpecField> {
    match jget(v, key) {
        Some(x) => Some(sfield(label, compact(x), inline)),
        None => None,
    }
}

/// The echoed `message` member of a reply.
pub open spec fn message_field_of(json: JsonVal) -> Option<SpecField> {
    str_field_of(json, "message"@, "💬 Message"@, false)
}

/// The echoed `status` member of a reply.
pub open spec fn status_field_of(json: JsonVal) -> Option<SpecField> {
    val_field_of(json, "status"@, "📊 Status"@, true)
}

fn push_str_field(embed: &mut Rendered, data: &JsonVal, key: &str, label: &str, inline: bool)
    ensures
        (final(embed)@ == SpecRendered {
            fields: push_opt(old(embed)@.fields, str_field_of(*data, key@, label@, inline)),
            ..old(embed)@
        }),
{
    match data.get(key) {
        Some(v) => match v.as_str() {
            Some(s) => {
                let value = chars_to_string(&str_to_chars(s));
                embed.push_field(String::from_str(label), value, inline);
            },
            None => {},
        },
        None => {},
    }
}

fn push_val_field(embed: &mut Rendered, data: &JsonVal, key: &str, label: &str, inline: bool)
    ensures
        (final(embed)@ == SpecRendered {
            fields: push_opt(old(embed)@.fields, val_field_of(*data, key@, label@, inline)),
            ..old(embed)@
        }),
{
    match data.get(key) {
        Some(v) => {
            let value = to_compact_string(v);
            embed.push_field(String::from_str(label), value, inline);
        },
        None => {},
    }
}

fn push_message_field(embed: &mut Rendered, json: &JsonVal)
    ensures
        (final(embed)@ == SpecRendered {
            fields: push_opt(old(embed)@.fields, message_field_of(*json)),
            ..old(embed)@
        }),
{
    push_str_field(embed, json, "message", "💬 Message", false);
}

fn push_status_field(embed: &mut Rendered, json: &JsonVal)
    ensures
        (final(embed)@ == SpecRendered {
            fields: push_opt(old(embed)@.fields, status_field_of(*json)),
            ..old(embed)@
        }),
{
    push_val_field(embed, json, "status", "📊 Status", true);
}

/// The lookup reply: the player's username, location and rank when the
/// `result` member has them; the echoed status and message otherwise.
pub open spec fn spec_lookup_rendered(before: SpecRendered, json: JsonVal) -> SpecRendered {
    match jget(json, "result"@) {
        Some(res) => {
            let f = push_opt(
                push_opt(
                    push_opt(before.fields, str_field_of(res, "username"@, "Username"@, true)),
                    str_field_of(res, "location"@, "Location"@, true),
                ),
                str_field_of(res, "rank"@, "Rank"@, true),
            );
            if res is Obj && res->Obj_0@.len() > 0 {
                SpecRendered { fields: f, ..before }
            } else {
                SpecRendered {
                    fields: push_opt(push_opt(f, status_field_of(json)), message_field_of(json)),
                    ..before
                }
            }
        },
        None => SpecRendered {
            fields: push_opt(
                push_opt(before.fields, status_field_of(json)),
                message_field_of(json),
            ),
            ..before
        },
    }
}

/// Renders the player-lookup reply into `embed`; always claims the reply.
pub fn format_lookup_response(json: &JsonVal, embed: &mut Rendered) -> (r: bool)
    ensures
        r,
        final(embed)@ == spec_lookup_rendered(old(embed)@, *json),
{
    match json.get("result") {
        Some(res) => {
            push_str_field(embed, res, "username", "Username", true);
            push_str_field(embed, res, "location", "Location", true);
            push_str_field(embed, res, "rank", "Rank", true);
            if res.is_nonempty_object() {
                return true;
            }
            push_status_field(embed, json);
            push_message_field(embed, json);
            true
        },
        None => {
            push_status_field(embed, json);
            push_message_field(embed, json);
            true
        },
    }
}

/// The `money` member shown as grouped currency, zero when not an integer.
pub open spec fn money_field_of(data: JsonVal) -> Option<SpecField> {
    match jget(data, "money"@) {
        Some(m) => Some(
            sfield(
                "💰 Money"@,
                "$"@ + spec_format_number(
                    match jint(m) {
                        Some(x) => x as int,
                        None => 0,
                    },
                ),
                true,
            ),
        ),
        None => None,
    }
}

/// The `playtime` member reduced to duration units.
pub open spec fn playtime_field_of(data: JsonVal) -> Option<SpecField> {
    match jget(data, "playtime"@) {
        Some(p) => Some(sfield("⏰ Playtime"@, spec_format_playtime(p), true)),
        None => None,
    }
}

/// The echoed `status` member, left out when it is the number zero.
pub open spec fn status_nonzero_field_of(json: JsonVal) -> Option<SpecField> {
    match jget(json, "status"@) {
        Some(v) => if v == JsonVal::Int(0 as i64) {
            None
        } else {
            Some(sfield("📊 Status"@, compact(v), true))
        },
        None => None,
    }
}

/// The short stats reply: one field per known member of the payload (the
/// `result` member, or the whole reply without one), then the echoed
/// status (when non-zero) and message.
pub open spec fn spec_stats_fields_rendered(before: SpecRendered, json: JsonVal) -> SpecRendered {
    let data = match jget(json, "result"@) {
        Some(d) => d,
        None => json,
    };
    let f = push_opt(before.fields, str_field_of(data, "username"@, "👤 Player"@, true));
    let f = push_opt(f, money_field_of(data));
    let f = push_opt(f, val_field_of(data, "kills"@, "⚔️ Kills"@, true));
    let f = push_opt(f, val_field_of(data, "deaths"@, "💀 Deaths"@, true));
    let f = push_opt(f, playtime_field_of(data));
    let f = push_opt(f, str_field_of(data, "rank"@, "🎭 Rank"@, true));
    let f = push_opt(f, str_field_of(data, "location"@, "📍 Location"@, true));
    let f = push_opt(f, status_nonzero_field_of(json));
    let f = push_opt(f, message_field_of(json));
    SpecRendered { fields: f, ..before }
}

/// Renders the short stats reply into `embed`; always claims the reply.
pub fn format_stats_response(json: &JsonVal, embed: &mut Rendered) -> (r: bool)
    ensures
        r,
        final(embed)@ == spec_stats_fields_rendered(old(embed)@, *json),
{
    let data: &JsonVal = match json.get("result") {
        Some(d) => d,
        None => json,
    };
    push_str_field(embed, data, "username", "👤 Player", true);
    match data.get("money") {
        Some(m) => {
            let v: i64 = match m.as_i64() {
                Some(x) => x,
                None => 0,
            };
            let mut value = str_to_chars("$");
            let mut num = format_number_chars(v);
            value.append(&mut num);
            assert(value@ =~= "$"@ + spec_format_number(v as int));
            embed.push_field(String::from_str("💰 Money"), chars_to_string(&value), true);
        },
        None => {},
    }
    push_val_field(embed, data, "kills", "⚔️ Kills", true);
    push_val_field(embed, data, "deaths", "💀 Deaths", true);
    match data.get("playtime") {
        Some(p) => {
            let value = format_playtime(p);
            embed.push_field(String::from_str("⏰ Playtime"), value, true);
        },
        None => {},
    }
    push_str_field(embed, data, "rank", "🎭 Rank", true);
    push_str_field(embed, data, "location", "📍 Location", true);
    match json.get("status") {
        Some(v) => {
            let zero: bool = match v.as_i64() {
                Some(x) => x == 0,
                None => false,
            };
            if !zero {
                let value = to_compact_string(v);
                embed.push_field(String::from_str("📊 Status"), value, true);
            }
        },
        None => {},
    }
    push_message_field(embed, json);
    true
}

/// The `message` then `status` fallback fields, in that order.
pub open spec fn spec_fallback_rendered(before: SpecRendered, json: JsonVal) -> SpecRendered {
    SpecRendered {
        fields: push_opt(push_opt(before.fields, message_field_of(json)), status_field_of(json)),
        ..before
    }
}

fn push_fallback_fields(embed: &mut Rendered, json: &JsonVal)
    ensures
        final(embed)@ == spec_fallback_rendered(old(embed)@, *json),
{
    push_message_field(embed, json);
    push_status_field(embed, json);
}

/// The marker of an in-page rank: medals for the first three lines.
pub open spec fn spec_rank_emoji(n: int) -> Seq<char> {
    if n == 1 {
        "🥇"@
    } else if n == 2 {
        "🥈"@
    } else if n == 3 {
        "🥉"@
    } else {
        "▫️"@
    }
}

/// One short leaderboard line; empty when the entry lacks a string
/// username or any value.
pub open spec fn spec_rf_lb_line(e: JsonVal, n: int) -> Seq<char> {
    match jstr_opt(jget(e, "username"@)) {
        Some(name) => match jget(e, "value"@) {
            Some(value) => spec_rank_emoji(n) + " **"@ + int_text(n) + "**. "@ + name + " - "@
                + compact(value) + "\n"@,
            None => Seq::empty(),
        },
        None => Seq::empty(),
    }
}

/// The first `k` short leaderboard lines, numbered by their position.
pub open spec fn spec_rf_lb_lines(entries: Seq<JsonVal>, k: int) -> Seq<char>
    decreases k,
{
    if k <= 0 {
        Seq::empty()
    } else {
        spec_rf_lb_lines(entries, k - 1) + spec_rf_lb_line(entries[k - 1], k)
    }
}

pub open spec fn min10(n: int) -> int {
    if n < 10 {
        n
    } else {
        10
    }
}

/// The short leaderboard reply: up to ten numbered lines from the
/// `leaderboard` member; the echoed message and status when it yields
/// nothing.
pub open spec fn spec_rf_leaderboard_rendered(before: SpecRendered, json: JsonVal) -> SpecRendered {
    let data = match jget(json, "result"@) {
        Some(d) => d,
        None => json,
    };
    match jget(data, "leaderboard"@) {
        Some(lv) => match lv {
            JsonVal::Arr(entries) => {
                let desc = spec_rf_lb_lines(entries@, min10(entries@.len() as int));
                if desc.len() > 0 {
                    SpecRendered { description: Some(desc), ..before }
                } else {
                    spec_fallback_rendered(before, json)
                }
            },
            _ => spec_fallback_rendered(before, json),
        },
        None => spec_fallback_rendered(before, json),
    }
}

fn rf_lb_line_chars(e: &JsonVal, n: u64) -> (r: Vec<char>)
    ensures
        r@ == spec_rf_lb_line(*e, n as int),
{
    match e.get("username") {
        Some(u) => match u.as_str() {
            Some(name) => match e.get("value") {
                Some(value) => {
                    let mut r: Vec<char> = Vec::new();
                    if n == 1 {
                        append_str(&mut r, "🥇");
                    } else if n == 2 {
                        append_str(&mut r, "🥈");
                    } else if n == 3 {
                        append_str(&mut r, "🥉");
                    } else {
                        append_str(&mut r, "▫️");
                    }
                    append_str(&mut r, " **");
                    let mut num = u64_to_chars(n);
                    r.append(&mut num);
                    append_str(&mut r, "**. ");
                    append_str(&mut r, name);
                    append_str(&mut r, " - ");
                    let mut val = crate::serialize::compact_chars(value);
                    r.append(&mut val);
                    r.push('\n');
                    assert(r@ =~= spec_rf_lb_line(*e, n as int)) by {
                        reveal_strlit("\n");
                    }
                    r
                },
                None => Vec::new(),
            },
            None => Vec::new(),
        },
        None => Vec::new(),
    }
}

/// Renders the short leaderboard reply into `embed`; always claims the
/// reply.
pub fn format_leaderboard_response(json: &JsonVal, embed: &mut Rendered) -> (r: bool)
    ensures
        r,
        final(embed)@ == spec_rf_leaderboard_rendered(old(embed)@, *json),
{
    let data: &JsonVal = match json.get("result") {
        Some(d) => d,
        None => json,
    };
    match data.get("leaderboard") {
        Some(lv) => match lv.as_array() {
            Some(entries) => {
                let shown: usize = if entries.len() < 10 {
                    entries.len()
                } else {
                    10
                };
                let mut desc: Vec<char> = Vec::new();
                let mut i: usize = 0;
                while i < shown
                    invariant
                        i <= shown,
                        shown == min10(entries@.len() as int),
                        shown <= entries@.len(),
                        desc@ == spec_rf_lb_lines(entries@, i as int),
                    decreases shown - i,
                {
                    let mut line = rf_lb_line_chars(&entries[i], (i as u64) + 1);
                    desc.append(&mut line);
                    i = i + 1;
                }
                if desc.len() > 0 {
                    embed.description = Some(chars_to_string(&desc));
                    true
                } else {
                    push_fallback_fields(embed, json);
                    true
                }
            },
            None => {
                push_fallback_fields(embed, json);
                true
            },
        },
        None => {
            push_fallback_fields(embed, json);
            true
        },
    }
}

/// The auction-list reply: the first page body when `result` is an array,
/// else the echoed message and status.
pub open spec fn spec_rf_auction_rendered(before: SpecRendered, json: JsonVal) -> SpecRendered {
    match jget(json, "result"@) {
        Some(rv) => match rv {
            JsonVal::Arr(items) => SpecRendered {
                description: Some(spec_auction_body(items@, 1)),
                ..before
            },
            _ => spec_fallback_rendered(before, json),
        },
        None => spec_fallback_rendered(before, json),
    }
}

/// Renders the auction-list reply into `embed`; always claims the reply.
pub fn format_auction_response(json: &JsonVal, embed: &mut Rendered) -> (r: bool)
    ensures
        r,
        final(embed)@ == spec_rf_auction_rendered(old(embed)@, *json),
{
    match json.get("result") {
        Some(rv) => match rv.as_array() {
            Some(items) => {
                format_auction_response_with_page(items, embed, 1);
                true
            },
            None => {
                push_fallback_fields(embed, json);
                true
            },
        },
        None => {
            push_fallback_fields(embed, json);
            true
        },
    }
}

/// How long ago `ts` lies before `now` (both unix seconds): whole days,
/// else whole hours, else a fixed recent marker.
pub open spec fn spec_time_ago(now: int, ts: int) -> Seq<char> {
    if now < ts {
        "Recently"@
    } else {
        let h = (now - ts) / 3600;
        if h > 24 {
            int_text(h / 24) + "d ago"@
        } else if h > 0 {
            int_text(h) + "h ago"@
        } else {
            "Recently"@
        }
    }
}

fn time_ago_chars(now: i64, ts: i64) -> (r: Vec<char>)
    ensures
        r@ == spec_time_ago(now as int, ts as int),
{
    if now < ts {
        str_to_chars("Recently")
    } else {
        let diff: i128 = (now as i128) - (ts as i128);
        let h: i128 = diff / 3600;
        assert(h == (now - ts) / 3600);
        if h > 24 {
            let mut r = i64_to_chars((h / 24) as i64);
            append_str(&mut r, "d ago");
            assert(r@ =~= int_text((now - ts) / 3600 / 24) + "d ago"@);
            r
        } else if h > 0 {
            let mut r = i64_to_chars(h as i64);
            append_str(&mut r, "h ago");
            assert(r@ =~= int_text((now - ts) / 3600) + "h ago"@);
            r
        } else {
            str_to_chars("Recently")
        }
    }
}

/// The item name of a transaction: its `display_name`, else its `id`, else
/// the flat `item_name` member, else a fixed placeholder.
pub open spec fn spec_txn_item_name(t: JsonVal) -> Seq<char> {
    match jstr_opt(jget2(t, "item"@, "display_name"@)) {
        Some(s) => s,
        None => match jstr_opt(jget2(t, "item"@, "id"@)) {
            Some(s) => s,
            None => match jstr_opt(jget(t, "item_name"@)) {
                Some(s) => s,
                None => "Unknown Item"@,
            },
        },
    }
}

/// A party to a transaction: the nested `name`, else the flat member.
pub open spec fn spec_txn_party(t: JsonVal, nested: Seq<char>, flat: Seq<char>) -> Seq<char> {
    match jstr_opt(jget2(t, nested, "name"@)) {
        Some(s) => s,
        None => match jstr_opt(jget(t, flat)) {
            Some(s) => s,
            None => "Unknown"@,
        },
    }
}

/// The moment of a transaction: its `timestamp`, else its `time`.
pub open spec fn spec_txn_ts(t: JsonVal) -> Option<i64> {
    match jget(t, "timestamp"@) {
        Some(v) => match jint(v) {
            Some(x) => Some(x),
            None => spec_txn_time_alt(t),
        },
        None => spec_txn_time_alt(t),
    }
}

pub open spec fn spec_txn_time_alt(t: JsonVal) -> Option<i64> {
    match jget(t, "time"@) {
        Some(v) => jint(v),
        None => None,
    }
}

/// One transaction line: number, item, price, the two parties and the age.
pub open spec fn spec_txn_entry(t: JsonVal, n: int, now: int) -> Seq<char> {
    let price: int = match jint_opt2(jget(t, "price"@)) {
        Some(p) => p as int,
        None => 0,
    };
    let time_str = match spec_txn_ts(t) {
        Some(ts) => spec_time_ago(now, ts as int),
        None => "Unknown time"@,
    };
    "**"@ + int_text(n) + "**. **"@ + spec_txn_item_name(t) + "** - **$"@ + spec_format_number(
        price,
    ) + "**\n└ *"@ + spec_txn_party(t, "seller"@, "seller_name"@) + " → "@ + spec_txn_party(
        t,
        "buyer"@,
        "buyer_name"@,
    ) + " | "@ + time_str + "*\n\n"@
}

pub open spec fn jint_opt2(o: Option<JsonVal>) -> Option<i64> {
    match o {
        Some(x) => jint(x),
        None => None,
    }
}

/// The first `k` transaction lines.
pub open spec fn spec_txn_entries(items: Seq<JsonVal>, now: int, k: int) -> Seq<char>
    decreases k,
{
    if k <= 0 {
        Seq::empty()
    } else {
        spec_txn_entries(items, now, k - 1) + spec_txn_entry(items[k - 1], k, now)
    }
}

/// The transactions body: up to ten numbered lines, trailing whitespace
/// trimmed, capped at the platform limit; or the empty-page notice.
pub open spec fn spec_txn_body(items: Seq<JsonVal>, now: int) -> Seq<char> {
    if items.len() == 0 {
        "📜 No auction transactions found on this page."@
    } else {
        spec_capped(
            trim_end_ws(spec_txn_entries(items, now, min10(items.len() as int))),
            "\n\n*... and more transactions*"@,
        )
    }
}

/// The transactions reply: the body when `result` is an array, else the
/// echoed message and status.
pub open spec fn spec_rf_txn_rendered(
    before: SpecRendered,
    json: JsonVal,
    now: int,
) -> SpecRendered {
    match jget(json, "result"@) {
        Some(rv) => match rv {
            JsonVal::Arr(items) => SpecRendered {
                description: Some(spec_txn_body(items@, now)),
                ..before
            },
            _ => spec_fallback_rendered(before, json),
        },
        None => spec_fallback_rendered(before, json),
    }
}

fn opt_str_of<'a>(v: Option<&'a JsonVal>) -> (r: Option<&'a str>)
    ensures
        match r {
            Some(s) => jstr_opt(
                match v {
                    Some(x) => Some(*x),
                    None => None,
                },
            ) == Some(s@),
            None => jstr_opt(
                match v {
                    Some(x) => Some(*x),
                    None => None,
                },
            ) is None,
        },
{
    match v {
        Some(x) => x.as_str(),
        None => None,
    }
}

fn txn_entry_chars(t: &JsonVal, n: u64, now: i64) -> (r: Vec<char>)
    ensures
        r@ == spec_txn_entry(*t, n as int, now as int),
{
    let item_name: &str = {
        let from_item = match t.get("item") {
            Some(item) => match opt_str_of(item.get("display_name")) {
                Some(s) => Some(s),
                None => opt_str_of(item.get("id")),
            },
            None => None,
        };
        match from_item {
            Some(s) => s,
            None => match opt_str_of(t.get("item_name")) {
                Some(s) => s,
                None => "Unknown Item",
            },
        }
    };
    let price: i64 = match t.get("price") {
        Some(p) => match p.as_i64() {
            Some(x) => x,
            None => 0,
        },
        None => 0,
    };
    let seller: &str = match t.get("seller") {
        Some(sv) => match opt_str_of(sv.get("name")) {
            Some(s) => s,
            None => match opt_str_of(t.get("seller_name")) {
                Some(s) => s,
                None => "Unknown",
            },
        },
        None => match opt_str_of(t.get("seller_name")) {
            Some(s) => s,
            None => "Unknown",
        },
    };
    let buyer: &str = match t.get("buyer") {
        Some(bv) => match opt_str_of(bv.get("name")) {
            Some(s) => s,
            None => match opt_str_of(t.get("buyer_name")) {
                Some(s) => s,
                None => "Unknown",
            },
        },
        None => match opt_str_of(t.get("buyer_name")) {
            Some(s) => s,
            None => "Unknown",
        },
    };
    let ts: Option<i64> = match t.get("timestamp") {
        Some(v) => match v.as_i64() {
            Some(x) => Some(x),
            None => match t.get("time") {
                Some(w) => w.as_i64(),
                None => None,
            },
        },
        None => match t.get("time") {
            Some(w) => w.as_i64(),
            None => None,
        },
    };
    let mut r: Vec<char> = Vec::new();
    append_str(&mut r, "**");
    let mut num = u64_to_chars(n);
    r.append(&mut num);
    append_str(&mut r, "**. **");
    append_str(&mut r, item_name);
    append_str(&mut r, "** - **$");
    let mut pc = format_number_chars(price);
    r.append(&mut pc);
    append_str(&mut r, "**\n└ *");
    append_str(&mut r, seller);
    append_str(&mut r, " → ");
    append_str(&mut r, buyer);
    append_str(&mut r, " | ");
    match ts {
        Some(tsv) => {
            let mut ta = time_ago_chars(now, tsv);
            r.append(&mut ta);
        },
        None => {
            append_str(&mut r, "Unknown time");
        },
    }
    append_str(&mut r, "*\n\n");
    assert(r@ =~= spec_txn_entry(*t, n as int, now as int));
    r
}

/// Renders the transaction-history reply into `embed`, aging each entry
/// against `now_secs`; always claims the reply.
pub fn format_auction_transactions_response(
    json: &JsonVal,
    embed: &mut Rendered,
    now_secs: i64,
) -> (r: bool)
    ensures
        r,
        final(embed)@ == spec_rf_txn_rendered(old(embed)@, *json, now_secs as int),
{
    match json.get("result") {
        Some(rv) => match rv.as_array() {
            Some(items) => {
                if items.len() == 0 {
                    embed.description = Some(
                        chars_to_string(
                            &str_to_chars("📜 No auction transactions found on this page."),
                        ),
                    );
                    return true;
                }
                let shown: usize = if items.len() < 10 {
                    items.len()
                } else {
                    10
                };
                let mut body: Vec<char> = Vec::new();
                let mut i: usize = 0;
                while i < shown
                    invariant
                        i <= shown,
                        shown == min10(items@.len() as int),
                        shown <= items@.len(),
                        body@ == spec_txn_entries(items@, now_secs as int, i as int),
                    decreases shown - i,
                {
                    let mut e = txn_entry_chars(&items[i], (i as u64) + 1, now_secs);
                    body.append(&mut e);
                    i = i + 1;
                }
                let trimmed = trim_end_chars(body);
                let capped = crate::render::cap_to_string(
                    trimmed,
                    "\n\n*... and more transactions*",
                );
                embed.description = Some(capped);
                true
            },
            None => {
                push_fallback_fields(embed, json);
                true
            },
        },
        None => {
            push_fallback_fields(embed, json);
            true
        },
    }
}

/// How many of the first `k` items are strings.
pub open spec fn spec_kept_strs(items: Seq<JsonVal>, k: int) -> int
    decreases k,
{
    if k <= 0 {
        0
    } else {
        spec_kept_strs(items, k - 1) + (if jstr(items[k - 1]) is Some {
            1int
        } else {
            0int
        })
    }
}

/// The string items among the first `k`, joined by `, `.
pub open spec fn spec_join_strs(items: Seq<JsonVal>, k: int) -> Seq<char>
    decreases k,
{
    if k <= 0 {
        Seq::empty()
    } else {
        let prev = spec_join_strs(items, k - 1);
        match jstr(items[k - 1]) {
            Some(s) => if spec_kept_strs(items, k - 1) == 0 {
                prev + s
            } else {
                prev + ", "@ + s
            },
            None => prev,
        }
    }
}

/// The online-players reply: counts, the joined player list when any
/// names are strings, then the echoed message and status.
pub open spec fn spec_online_rendered(before: SpecRendered, json: JsonVal) -> SpecRendered {
    let data = match jget(json, "result"@) {
        Some(d) => d,
        None => json,
    };
    let f = push_opt(before.fields, val_field_of(data, "online"@, "👥 Players Online"@, true));
    let f = push_opt(f, val_field_of(data, "max"@, "🏠 Max Players"@, true));
    let f = match jget(data, "players"@) {
        Some(pv) => match pv {
            JsonVal::Arr(ps) => {
                let joined = spec_join_strs(ps@, ps@.len() as int);
                if joined.len() > 0 {
                    f.push(sfield("📋 Player List"@, joined, false))
                } else {
                    f
                }
            },
            _ => f,
        },
        None => f,
    };
    let f = push_opt(f, message_field_of(json));
    let f = push_opt(f, status_field_of(json));
    SpecRendered { fields: f, ..before }
}

/// Renders the online-players reply into `embed`; always claims the reply.
pub fn format_online_response(json: &JsonVal, embed: &mut Rendered) -> (r: bool)
    ensures
        r,
        final(embed)@ == spec_online_rendered(old(embed)@, *json),
{
    let data: &JsonVal = match json.get("result") {
        Some(d) => d,
        None => json,
    };
    push_val_field(embed, data, "online", "👥 Players Online", true);
    push_val_field(embed, data, "max", "🏠 Max Players", true);
    match data.get("players") {
        Some(pv) => match pv.as_array() {
            Some(ps) => {
                let mut joined: Vec<char> = Vec::new();
                let mut any: bool = false;
                let mut i: usize = 0;
                while i < ps.len()
                    invariant
                        i <= ps@.len(),
                        joined@ == spec_join_strs(ps@, i as int),
                        any == (spec_kept_strs(ps@, i as int) > 0),
                        spec_kept_strs(ps@, i as int) >= 0,
                    decreases ps@.len() - i,
                {
                    proof {
                        lemma_kept_strs_nonneg(ps@, i + 1);
                    }
                    match ps[i].as_str() {
                        Some(s) => {
                            if any {
                                append_str(&mut joined, ", ");
                            }
                            append_str(&mut joined, s);
                            any = true;
                        },
                        None => {},
                    }
                    i = i + 1;
                }
                if joined.len() > 0 {
                    embed.push_field(
                        String::from_str("📋 Player List"),
                        chars_to_string(&joined),
                        false,
                    );
                }
            },
            None => {},
        },
        None => {},
    }
    push_message_field(embed, json);
    push_status_field(embed, json);
    true
}

proof fn lemma_kept_strs_nonneg(items: Seq<JsonVal>, k: int)
    ensures
        spec_kept_strs(items, k) >= 0,
    decreases k,
{
    if k > 0 {
        lemma_kept_strs_nonneg(items, k - 1);
    }
}

/// The server-info reply: name, version, message of the day and player
/// counts, then the echoed message and status.
pub open spec fn spec_server_rendered(before: SpecRendered, json: JsonVal) -> SpecRendered {
    let data = match jget(json, "result"@) {
        Some(d) => d,
        None => json,
    };
    let f = push_opt(before.fields, str_field_of(data, "name"@, "🌐 Server"@, true));
    let f = push_opt(f, str_field_of(data, "version"@, "📦 Version"@, true));
    let f = push_opt(f, str_field_of(data, "motd"@, "📜 MOTD"@, false));
    let f = push_opt(f, val_field_of(data, "online"@, "👥 Online"@, true));
    let f = push_opt(f, val_field_of(data, "max"@, "🏠 Max Players"@, true));
    let f = push_opt(f, message_field_of(json));
    let f = push_opt(f, status_field_of(json));
    SpecRendered { fields: f, ..before }
}

/// Renders the server-info reply into `embed`; always claims the reply.
pub fn format_server_response(json: &JsonVal, embed: &mut Rendered) -> (r: bool)
    ensures
        r,
        final(embed)@ == spec_server_rendered(old(embed)@, *json),
{
    let data: &JsonVal = match json.get("result") {
        Some(d) => d,
        None => json,
    };
    push_str_field(embed, data, "name", "🌐 Server", true);
    push_str_field(embed, data, "version", "📦 Version", true);
    push_str_field(embed, data, "motd", "📜 MOTD", false);
    push_val_field(embed, data, "online", "👥 Online", true);
    push_val_field(embed, data, "max", "🏠 Max Players", true);
    push_message_field(embed, json);
    push_status_field(embed, json);
    true
}

/// The endpoint families the bot knows how to render.
#[derive(PartialEq, Eq, Structural, Clone, Copy, Debug)]
pub enum Endpoint {
    Lookup,
    Stats,
    Leaderboard,
    AuctionList,
    AuctionTransactions,
    Online,
    Server,
}

/// The family a request path belongs to: the first matching rule wins, the
/// list-specific rules standing before the general ones.
pub open spec fn spec_classify_path(p: Seq<char>) -> Option<Endpoint> {
    if spec_contains(p, "/lookup/"@) {
        Some(Endpoint::Lookup)
    } else if spec_contains(p, "/stats/"@) {
        Some(Endpoint::Stats)
    } else if spec_contains(p, "/leaderboards/"@) {
        Some(Endpoint::Leaderboard)
    } else if spec_contains(p, "/auction/list/"@) {
        Some(Endpoint::AuctionList)
    } else if spec_contains(p, "/auction/transactions/"@) {
        Some(Endpoint::AuctionTransactions)
    } else if spec_contains(p, "/online"@) {
        Some(Endpoint::Online)
    } else if spec_contains(p, "/server"@) {
        Some(Endpoint::Server)
    } else {
        None
    }
}

/// Resolves a request path to its endpoint family.
pub fn classify_path(path: &str) -> (r: Option<Endpoint>)
    ensures
        r == spec_classify_path(path@),
{
    if str_contains(path, "/lookup/") {
        Some(Endpoint::Lookup)
    } else if str_contains(path, "/stats/") {
        Some(Endpoint::Stats)
    } else if str_contains(path, "/leaderboards/") {
        Some(Endpoint::Leaderboard)
    } else if str_contains(path, "/auction/list/") {
        Some(Endpoint::AuctionList)
    } else if str_contains(path, "/auction/transactions/") {
        Some(Endpoint::AuctionTransactions)
    } else if str_contains(path, "/online") {
        Some(Endpoint::Online)
    } else if str_contains(path, "/server") {
        Some(Endpoint::Server)
    } else {
        None
    }
}

/// What the dispatch renders for a reply on a path.
pub open spec fn spec_api_rendered(
    before: SpecRendered,
    json: JsonVal,
    p: Seq<char>,
    now: int,
) -> SpecRendered {
    match spec_classify_path(p) {
        Some(Endpoint::Lookup) => spec_lookup_rendered(before, json),
        Some(Endpoint::Stats) => spec_stats_fields_rendered(before, json),
        Some(Endpoint::Leaderboard) => spec_rf_leaderboard_rendered(before, json),
        Some(Endpoint::AuctionList) => spec_rf_auction_rendered(before, json),
        Some(Endpoint::AuctionTransactions) => spec_rf_txn_rendered(before, json, now),
        Some(Endpoint::Online) => spec_online_rendered(before, json),
        Some(Endpoint::Server) => spec_server_rendered(before, json),
        None => before,
    }
}

/// Renders a reply by the family of its request path; `false` when no
/// normalizer claims the path, leaving `embed` untouched. Transaction ages
/// are computed against `now_secs`.
pub fn format_api_response(
    json: &JsonVal,
    path: &str,
    embed: &mut Rendered,
    now_secs: i64,
) -> (r: bool)
    ensures
        r == (spec_classify_path(path@) is Some),
        final(embed)@ == spec_api_rendered(old(embed)@, *json, path@, now_secs as int),
{
    match classify_path(path) {
        Some(Endpoint::Lookup) => format_lookup_response(json, embed),
        Some(Endpoint::Stats) => format_stats_response(json, embed),
        Some(Endpoint::Leaderboard) => format_leaderboard_response(json, embed),
        Some(Endpoint::AuctionList) => format_auction_response(json, embed),
        Some(Endpoint::AuctionTransactions) => format_auction_transactions_response(
            json,
            embed,
            now_secs,
        ),
        Some(Endpoint::Online) => format_online_response(json, embed),
        Some(Endpoint::Server) => format_server_response(json, embed),
        None => false,
    }
}

} // verus!
