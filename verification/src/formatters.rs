//! The page-aware normalizers: auction listings, player stats and
//! leaderboards, each turning one reply shape into bounded display text.

use vstd::prelude::*;

use crate::json::{jget, jint, jstr, JsonVal};
use crate::numfmt::{
    int_text, spec_duration_minutes, spec_duration_ms, spec_format_number, spec_parse_i64,
    format_duration_minutes, format_duration_ms, format_number_chars, i64_to_chars, parse_i64,
    u64_to_chars,
};
use crate::render::{
    spec_capped, Rendered, SpecRendered, COLOR_ACCENT, COLOR_ERROR, COLOR_ERROR_ALT,
};
use crate::serialize::compact;
use crate::text::{
    append_str, chars_skip, chars_start_with, chars_to_string, map_underscores, str_to_chars,
    trim_chars, trim_end_chars, trim_end_ws, trim_ws, underscores_to_spaces,
};

verus! {

/// The member two levels down, when both lookups land.
pub open spec fn jget2(v: JsonVal, k1: Seq<char>, k2: Seq<char>) -> Option<JsonVal> {
    match jget(v, k1) {
        Some(x) => jget(x, k2),
        None => None,
    }
}

pub open spec fn jstr_opt(o: Option<JsonVal>) -> Option<Seq<char>> {
    match o {
        Some(x) => jstr(x),
        None => None,
    }
}

pub open spec fn jint_opt(o: Option<JsonVal>) -> Option<i64> {
    match o {
        Some(x) => jint(x),
        None => None,
    }
}

/// What a playtime value is shown as: a minute count reduced to duration
/// units, anything else echoed as JSON text.
pub open spec fn spec_format_playtime(v: JsonVal) -> Seq<char> {
    match jint(v) {
        Some(m) => spec_duration_minutes(m as int),
        None => compact(v),
    }
}

/// Renders a playtime field given in minutes.
pub fn format_playtime(value: &JsonVal) -> (r: String)
    ensures
        r@ == spec_format_playtime(*value),
{
    match value.as_i64() {
        Some(minutes) => {
            let chars = format_duration_minutes(minutes);
            chars_to_string(&chars)
        },
        None => crate::serialize::to_compact_string(value),
    }
}

/// A namespaced identifier without its `minecraft:` prefix.
pub open spec fn spec_strip_namespace(s: Seq<char>) -> Seq<char> {
    if s.len() >= 10 && s.take(10) == "minecraft:"@ {
        s.skip(10)
    } else {
        s
    }
}

/// An item name for display: a `minecraft:`-prefixed identifier loses the
/// prefix and its underscores become spaces; any other name is kept whole.
pub open spec fn spec_pretty_item_name(s: Seq<char>) -> Seq<char> {
    if s.len() >= 10 && s.take(10) == "minecraft:"@ {
        underscores_to_spaces(s.skip(10))
    } else {
        s
    }
}

/// An enchantment name for display: namespace stripped, underscores spaced.
pub open spec fn spec_pretty_enchant_name(s: Seq<char>) -> Seq<char> {
    underscores_to_spaces(spec_strip_namespace(s))
}

fn pretty_item_name_chars(s: &str) -> (r: Vec<char>)
    ensures
        r@ == spec_pretty_item_name(s@),
{
    let cs = str_to_chars(s);
    proof {
        reveal_strlit("minecraft:");
    }
    if chars_start_with(&cs, "minecraft:") {
        let rest = chars_skip(&cs, 10);
        map_underscores(&rest)
    } else {
        cs
    }
}

fn pretty_enchant_name_chars(s: &str) -> (r: Vec<char>)
    ensures
        r@ == spec_pretty_enchant_name(s@),
{
    let cs = str_to_chars(s);
    proof {
        reveal_strlit("minecraft:");
    }
    if chars_start_with(&cs, "minecraft:") {
        let rest = chars_skip(&cs, 10);
        map_underscores(&rest)
    } else {
        map_underscores(&cs)
    }
}

/// The name an auction item is listed under: a non-empty `display_name`,
/// else the item `id`, both prettified; else a fixed placeholder.
pub open spec fn spec_item_name(a: JsonVal) -> Seq<char> {
    match jstr_opt(jget2(a, "item"@, "display_name"@)) {
        Some(s) => if s.len() > 0 {
            spec_pretty_item_name(s)
        } else {
            spec_item_name_fallback(a)
        },
        None => spec_item_name_fallback(a),
    }
}

pub open spec fn spec_item_name_fallback(a: JsonVal) -> Seq<char> {
    match jstr_opt(jget2(a, "item"@, "id"@)) {
        Some(s) => spec_pretty_item_name(s),
        None => "Unknown Item"@,
    }
}

fn item_name_chars(a: &JsonVal) -> (r: Vec<char>)
    ensures
        r@ == spec_item_name(*a),
{
    match a.get("item") {
        Some(item) => {
            match item.get("display_name") {
                Some(d) => {
                    match d.as_str() {
                        Some(s) => {
                            if s.unicode_len() > 0 {
                                return pretty_item_name_chars(s);
                            }
                        },
                        None => {},
                    }
                },
                None => {},
            }
            match item.get("id") {
                Some(d) => match d.as_str() {
                    Some(s) => pretty_item_name_chars(s),
                    None => str_to_chars("Unknown Item"),
                },
                None => str_to_chars("Unknown Item"),
            }
        },
        None => str_to_chars("Unknown Item"),
    }
}

/// The `levels` object of an item's enchantments, when the reply has one.
pub open spec fn spec_levels(a: JsonVal) -> Option<Seq<(String, JsonVal)>> {
    match jget(a, "item"@) {
        Some(item) => match jget(item, "enchants"@) {
            Some(e) => match jget(e, "enchantments"@) {
                Some(en) => match jget(en, "levels"@) {
                    Some(l) => match l {
                        JsonVal::Obj(pairs) => Some(pairs@),
                        _ => None,
                    },
                    None => None,
                },
                None => None,
            },
            None => None,
        },
        None => None,
    }
}

/// One enchantment shown as its display name, with the level when above one.
pub open spec fn spec_enchant_entry(name: Seq<char>, level: JsonVal) -> Seq<char> {
    let l: int = match jint(level) {
        Some(x) => x as int,
        None => 1,
    };
    if l > 1 {
        spec_pretty_enchant_name(name) + " "@ + int_text(l)
    } else {
        spec_pretty_enchant_name(name)
    }
}

/// The first `k` enchantments joined by `, `.
pub open spec fn spec_enchant_list(pairs: Seq<(String, JsonVal)>, k: int) -> Seq<char>
    decreases k,
{
    if k <= 0 {
        Seq::empty()
    } else if k == 1 {
        spec_enchant_entry(pairs[0].0@, pairs[0].1)
    } else {
        spec_enchant_list(pairs, k - 1) + ", "@ + spec_enchant_entry(pairs[k - 1].0@, pairs[k - 1].1)
    }
}

/// The parenthesised enchantment list of an item, empty when it has none.
pub open spec fn spec_enchant_info(a: JsonVal) -> Seq<char> {
    match spec_levels(a) {
        Some(pairs) => if pairs.len() > 0 {
            " ("@ + spec_enchant_list(pairs, pairs.len() as int) + ")"@
        } else {
            Seq::empty()
        },
        None => Seq::empty(),
    }
}

fn enchant_entry_chars(name: &String, level: &JsonVal) -> (r: Vec<char>)
    ensures
        r@ == spec_enchant_entry(name@, *level),
{
    let l: i64 = match level.as_i64() {
        Some(x) => x,
        None => 1,
    };
    let mut r = pretty_enchant_name_chars(name.as_str());
    if l > 1 {
        r.push(' ');
        let mut d = i64_to_chars(l);
        r.append(&mut d);
        assert(r@ =~= spec_pretty_enchant_name(name@) + " "@ + int_text(l as int)) by {
            reveal_strlit(" ");
        }
    }
    r
}

fn enchant_info_chars(a: &JsonVal) -> (r: Vec<char>)
    ensures
        r@ == spec_enchant_info(*a),
{
    let levels: Option<&JsonVal> = match a.get("item") {
        Some(item) => match item.get("enchants") {
            Some(e) => match e.get("enchantments") {
                Some(en) => en.get("levels"),
                None => None,
            },
            None => None,
        },
        None => None,
    };
    match levels {
        Some(l) => match l.as_object() {
            Some(pairs) => {
                if pairs.len() == 0 {
                    Vec::new()
                } else {
                    let mut r: Vec<char> = Vec::new();
                    r.push(' ');
                    r.push('(');
                    let mut k: usize = 0;
                    while k < pairs.len()
                        invariant
                            k <= pairs@.len(),
                            r@ == seq![' ', '('] + spec_enchant_list(pairs@, k as int),
                        decreases pairs@.len() - k,
                    {
                        if k > 0 {
                            r.push(',');
                            r.push(' ');
                        }
                        let mut e = enchant_entry_chars(&pairs[k].0, &pairs[k].1);
                        r.append(&mut e);
                        k = k + 1;
                        assert(r@ =~= seq![' ', '('] + spec_enchant_list(pairs@, k as int)) by {
                            reveal_strlit(", ");
                        }
                    }
                    r.push(')');
                    assert(r@ =~= " ("@ + spec_enchant_list(pairs@, pairs@.len() as int) + ")"@)
                        by {
                        reveal_strlit(" (");
                        reveal_strlit(")");
                    }
                    r
                }
            },
            None => Vec::new(),
        },
        None => Vec::new(),
    }
}

/// The `Nx ` count prefix of an auction entry, empty for a single item.
pub open spec fn spec_count_prefix(a: JsonVal) -> Seq<char> {
    let c: int = match jint_opt(jget2(a, "item"@, "count"@)) {
        Some(x) => x as int,
        None => 1,
    };
    if c > 1 {
        int_text(c) + "x "@
    } else {
        Seq::empty()
    }
}

/// The price of an auction entry, zero when missing.
pub open spec fn spec_price(a: JsonVal) -> int {
    match jint_opt(jget(a, "price"@)) {
        Some(p) => p as int,
        None => 0,
    }
}

/// The seller name of an auction entry.
pub open spec fn spec_seller(a: JsonVal) -> Seq<char> {
    match jstr_opt(jget2(a, "seller"@, "name"@)) {
        Some(s) => s,
        None => "Unknown"@,
    }
}

/// One auction line: its running number, count, name, enchantments, price
/// and seller.
pub open spec fn spec_auction_entry(a: JsonVal, number: int) -> Seq<char> {
    "**"@ + int_text(number) + "**. "@ + spec_count_prefix(a) + spec_item_name(a)
        + spec_enchant_info(a) + " - **$"@ + spec_format_number(spec_price(a)) + "**\n└ *Seller: "@
        + spec_seller(a) + "*\n\n"@
}

/// The first `k` auction lines, numbered `start + 1` on.
pub open spec fn spec_auction_entries(items: Seq<JsonVal>, start: int, k: int) -> Seq<char>
    decreases k,
{
    if k <= 0 {
        Seq::empty()
    } else {
        spec_auction_entries(items, start, k - 1) + spec_auction_entry(items[k - 1], start + k)
    }
}

/// At most ten entries are shown per page.
pub open spec fn spec_shown10(n: int) -> int {
    if n < 10 {
        n
    } else {
        10
    }
}

/// The auction page body: up to ten numbered entries, trailing whitespace
/// trimmed, capped at the platform limit; or the empty-page notice.
pub open spec fn spec_auction_body(items: Seq<JsonVal>, page: int) -> Seq<char> {
    if items.len() == 0 {
        "🏪 No auction entries found on this page."@
    } else {
        spec_capped(
            trim_end_ws(
                spec_auction_entries(items, (page - 1) * 10, spec_shown10(items.len() as int)),
            ),
            "\n\n*... and more entries*"@,
        )
    }
}

fn auction_entry_chars(a: &JsonVal, number: u64) -> (r: Vec<char>)
    ensures
        r@ == spec_auction_entry(*a, number as int),
{
    let mut r: Vec<char> = Vec::new();
    append_str(&mut r, "**");
    let mut num = u64_to_chars(number);
    r.append(&mut num);
    append_str(&mut r, "**. ");
    let count: i64 = match a.get("item") {
        Some(item) => match item.get("count") {
            Some(c) => match c.as_i64() {
                Some(x) => x,
                None => 1,
            },
            None => 1,
        },
        None => 1,
    };
    if count > 1 {
        let mut c = i64_to_chars(count);
        r.append(&mut c);
        append_str(&mut r, "x ");
    }
    assert(r@ == "**"@ + int_text(number as int) + "**. "@ + spec_count_prefix(*a)) by {
        reveal_strlit("x ");
    }
    let mut name = item_name_chars(a);
    r.append(&mut name);
    let mut ench = enchant_info_chars(a);
    r.append(&mut ench);
    append_str(&mut r, " - **$");
    let price: i64 = match a.get("price") {
        Some(p) => match p.as_i64() {
            Some(x) => x,
            None => 0,
        },
        None => 0,
    };
    let mut pc = format_number_chars(price);
    r.append(&mut pc);
    append_str(&mut r, "**\n└ *Seller: ");
    let seller: &str = match a.get("seller") {
        Some(sv) => match sv.get("name") {
            Some(n) => match n.as_str() {
                Some(s) => s,
                None => "Unknown",
            },
            None => "Unknown",
        },
        None => "Unknown",
    };
    append_str(&mut r, seller);
    append_str(&mut r, "*\n\n");
    assert(r@ =~= spec_auction_entry(*a, number as int));
    r
}

/// Fills the body of an auction page: up to ten entries of `result`,
/// numbered from `(current_page - 1) * 10 + 1`, or the empty-page notice.
/// Only the description changes.
pub fn format_auction_response_with_page(
    result: &Vec<JsonVal>,
    embed: &mut Rendered,
    current_page: u32,
)
    requires
        current_page >= 1,
    ensures
        (final(embed)@ == SpecRendered {
            description: Some(spec_auction_body(result@, current_page as int)),
            ..old(embed)@
        }),
{
    if result.len() == 0 {
        let desc = chars_to_string(&str_to_chars("🏪 No auction entries found on this page."));
        embed.description = Some(desc);
        return ;
    }
    let start: u64 = ((current_page - 1) as u64) * 10;
    let shown: usize = if result.len() < 10 {
        result.len()
    } else {
        10
    };
    let mut body: Vec<char> = Vec::new();
    let mut i: usize = 0;
    while i < shown
        invariant
            i <= shown,
            shown == spec_shown10(result@.len() as int),
            shown <= result@.len(),
            start == (current_page - 1) * 10,
            current_page >= 1,
            body@ == spec_auction_entries(result@, start as int, i as int),
        decreases shown - i,
    {
        let mut e = auction_entry_chars(&result[i], start + (i as u64) + 1);
        body.append(&mut e);
        i = i + 1;
    }
    let trimmed = trim_end_chars(body);
    let capped = crate::render::cap_to_string(trimmed, "\n\n*... and more entries*");
    embed.description = Some(capped);
}

/// One numeric stats line: shown only when the field is present as a string
/// holding a well-formed number.
pub open spec fn spec_num_line(stats: JsonVal, key: Seq<char>, prefix: Seq<char>) -> Seq<char> {
    match jstr_opt(jget(stats, key)) {
        Some(s) => match spec_parse_i64(s) {
            Some(n) => prefix + spec_format_number(n as int) + "\n"@,
            None => Seq::empty(),
        },
        None => Seq::empty(),
    }
}

/// The playtime stats line, reduced from milliseconds.
pub open spec fn spec_playtime_line(stats: JsonVal) -> Seq<char> {
    match jstr_opt(jget(stats, "playtime"@)) {
        Some(s) => match spec_parse_i64(s) {
            Some(n) => "🕒 **Playtime:** "@ + spec_duration_ms(n as int) + "\n"@,
            None => Seq::empty(),
        },
        None => Seq::empty(),
    }
}

/// The stats body: economy, trade, playtime, combat and block sections,
/// separated by blank lines.
pub open spec fn spec_stats_desc(stats: JsonVal) -> Seq<char> {
    spec_num_line(stats, "money"@, "💰 **Money:** $"@) + spec_num_line(
        stats,
        "shards"@,
        "💎 **Shards:** "@,
    ) + "\n"@ + spec_num_line(stats, "money_made_from_sell"@, "📈 **Money made:** $"@)
        + spec_num_line(stats, "money_spent_on_shop"@, "🛒 **Money spent:** $"@) + "\n"@
        + spec_playtime_line(stats) + "\n"@ + spec_num_line(stats, "kills"@, "⚔️ **Kills:** "@)
        + spec_num_line(stats, "deaths"@, "💀 **Deaths:** "@) + spec_num_line(
        stats,
        "mobs_killed"@,
        "🐗 **Mobs killed:** "@,
    ) + "\n"@ + spec_num_line(stats, "placed_blocks"@, "🧱 **Blocks placed:** "@) + spec_num_line(
        stats,
        "broken_blocks"@,
        "⛏️ **Blocks broken:** "@,
    )
}

/// The whole stats reply: a titled body when the reply carries a `result`,
/// else the not-found notice.
pub open spec fn spec_stats_rendered(
    before: SpecRendered,
    json: JsonVal,
    player: Seq<char>,
) -> SpecRendered {
    match jget(json, "result"@) {
        Some(stats) => SpecRendered {
            title: Some("📊 Player Stats: "@ + player),
            description: Some(trim_ws(spec_stats_desc(stats))),
            color: COLOR_ACCENT,
            ..before
        },
        None => SpecRendered {
            title: Some("❌ Stats not found for "@ + player),
            description: Some("Could not find stats for this player."@),
            color: COLOR_ERROR_ALT,
            ..before
        },
    }
}

fn push_num_line(buf: &mut Vec<char>, stats: &JsonVal, key: &str, prefix: &str)
    ensures
        final(buf)@ == old(buf)@ + spec_num_line(*stats, key@, prefix@),
{
    let ghost buf0: Seq<char> = buf@;
    match stats.get(key) {
        Some(v) => match v.as_str() {
            Some(s) => match parse_i64(s) {
                Some(n) => {
                    append_str(buf, prefix);
                    let mut d = format_number_chars(n);
                    buf.append(&mut d);
                    buf.push('\n');
                    assert(buf@ =~= buf0 + (prefix@ + spec_format_number(n as int) + "\n"@)) by {
                        reveal_strlit("\n");
                    }
                },
                None => {},
            },
            None => {},
        },
        None => {},
    }
}

fn push_playtime_line(buf: &mut Vec<char>, stats: &JsonVal)
    ensures
        final(buf)@ == old(buf)@ + spec_playtime_line(*stats),
{
    let ghost buf0: Seq<char> = buf@;
    match stats.get("playtime") {
        Some(v) => match v.as_str() {
            Some(s) => match parse_i64(s) {
                Some(n) => {
                    append_str(buf, "🕒 **Playtime:** ");
                    let mut d = format_duration_ms(n);
                    buf.append(&mut d);
                    buf.push('\n');
                    assert(buf@ =~= buf0 + ("🕒 **Playtime:** "@ + spec_duration_ms(n as int)
                        + "\n"@)) by {
                        reveal_strlit("\n");
                    }
                },
                None => {},
            },
            None => {},
        },
        None => {},
    }
}

/// Renders the detailed stats reply for `player_name` into `embed`.
pub fn format_stats_response(result: &JsonVal, embed: &mut Rendered, player_name: &str)
    ensures
        final(embed)@ == spec_stats_rendered(old(embed)@, *result, player_name@),
{
    match result.get("result") {
        Some(stats) => {
            let mut title = str_to_chars("📊 Player Stats: ");
            append_str(&mut title, player_name);
            embed.title = Some(chars_to_string(&title));
            embed.color = COLOR_ACCENT;
            let mut body: Vec<char> = Vec::new();
            push_num_line(&mut body, stats, "money", "💰 **Money:** $");
            push_num_line(&mut body, stats, "shards", "💎 **Shards:** ");
            body.push('\n');
            push_num_line(&mut body, stats, "money_made_from_sell", "📈 **Money made:** $");
            push_num_line(&mut body, stats, "money_spent_on_shop", "🛒 **Money spent:** $");
            body.push('\n');
            push_playtime_line(&mut body, stats);
            body.push('\n');
            push_num_line(&mut body, stats, "kills", "⚔️ **Kills:** ");
            push_num_line(&mut body, stats, "deaths", "💀 **Deaths:** ");
            push_num_line(&mut body, stats, "mobs_killed", "🐗 **Mobs killed:** ");
            body.push('\n');
            push_num_line(&mut body, stats, "placed_blocks", "🧱 **Blocks placed:** ");
            push_num_line(&mut body, stats, "broken_blocks", "⛏️ **Blocks broken:** ");
            assert(body@ =~= spec_stats_desc(*stats)) by {
                reveal_strlit("\n");
            }
            let trimmed = trim_chars(body);
            embed.description = Some(chars_to_string(&trimmed));
        },
        None => {
            let mut title = str_to_chars("❌ Stats not found for ");
            append_str(&mut title, player_name);
            embed.title = Some(chars_to_string(&title));
            embed.description = Some(
                chars_to_string(&str_to_chars("Could not find stats for this player.")),
            );
            embed.color = COLOR_ERROR_ALT;
        },
    }
}

/// The emoji shown beside each leaderboard kind.
pub open spec fn spec_lb_emoji(t: Seq<char>) -> Seq<char> {
    if t == "money"@ {
        "💰"@
    } else if t == "kills"@ {
        "⚔️"@
    } else if t == "deaths"@ {
        "💀"@
    } else if t == "brokenblocks"@ {
        "⛏️"@
    } else if t == "placedblocks"@ {
        "🧱"@
    } else if t == "mobskilled"@ {
        "👹"@
    } else if t == "playtime"@ {
        "⏰"@
    } else if t == "sell"@ {
        "💰"@
    } else if t == "shards"@ {
        "💎"@
    } else if t == "shop"@ {
        "🛒"@
    } else {
        "🏆"@
    }
}

/// The display name of each leaderboard kind.
pub open spec fn spec_lb_name(t: Seq<char>) -> Seq<char> {
    if t == "money"@ {
        "Money"@
    } else if t == "kills"@ {
        "Kills"@
    } else if t == "deaths"@ {
        "Deaths"@
    } else if t == "brokenblocks"@ {
        "Blocks Broken"@
    } else if t == "placedblocks"@ {
        "Blocks Placed"@
    } else if t == "mobskilled"@ {
        "Mobs Killed"@
    } else if t == "playtime"@ {
        "Playtime"@
    } else if t == "sell"@ {
        "Money from Selling"@
    } else if t == "shards"@ {
        "Shards"@
    } else if t == "shop"@ {
        "Money Spent"@
    } else {
        "Unknown"@
    }
}

/// A leaderboard value: grouped, with a currency sign for the money kinds,
/// reduced to duration units for playtime, and echoed raw when unreadable.
pub open spec fn spec_lb_value(t: Seq<char>, vs: Seq<char>) -> Seq<char> {
    match spec_parse_i64(vs) {
        Some(v) => if t == "money"@ || t == "sell"@ || t == "shop"@ {
            "$"@ + spec_format_number(v as int)
        } else if t == "playtime"@ {
            spec_duration_ms(v as int)
        } else {
            spec_format_number(v as int)
        },
        None => vs,
    }
}

/// The medal marker of an absolute rank: the first three ranks only.
pub open spec fn spec_medal(pos: int) -> Seq<char> {
    if pos == 1 {
        "🥇"@
    } else if pos == 2 {
        "🥈"@
    } else if pos == 3 {
        "🥉"@
    } else {
        "  "@
    }
}

/// One leaderboard line at absolute rank `pos`.
pub open spec fn spec_lb_entry(e: JsonVal, t: Seq<char>, pos: int) -> Seq<char> {
    let username = match jstr_opt(jget(e, "username"@)) {
        Some(s) => s,
        None => "Unknown"@,
    };
    let vs = match jstr_opt(jget(e, "value"@)) {
        Some(s) => s,
        None => "0"@,
    };
    spec_medal(pos) + " **#"@ + int_text(pos) + "** "@ + username + " - "@ + spec_lb_value(t, vs)
        + "\n"@
}

/// The first `k` leaderboard lines, ranked `start + 1` on.
pub open spec fn spec_lb_entries(entries: Seq<JsonVal>, t: Seq<char>, start: int, k: int) -> Seq<
    char,
>
    decreases k,
{
    if k <= 0 {
        Seq::empty()
    } else {
        spec_lb_entries(entries, t, start, k - 1) + spec_lb_entry(entries[k - 1], t, start + k)
    }
}

/// At most twenty entries are shown per page.
pub open spec fn spec_shown20(n: int) -> int {
    if n < 20 {
        n
    } else {
        20
    }
}

/// The leaderboard title line.
pub open spec fn spec_lb_title(t: Seq<char>, page: int) -> Seq<char> {
    spec_lb_emoji(t) + " "@ + spec_lb_name(t) + " Leaderboard (Page "@ + int_text(page) + ")"@
}

/// The leaderboard footer line.
pub open spec fn spec_lb_footer(page: int, shown: int) -> Seq<char> {
    "Page "@ + int_text(page) + " • Showing "@ + int_text(shown) + " entries"@
}

/// The whole leaderboard reply: titled entries with medals for the top
/// three absolute ranks, the empty-page notice, or the not-found notice.
pub open spec fn spec_leaderboard_rendered(
    before: SpecRendered,
    json: JsonVal,
    t: Seq<char>,
    page: int,
) -> SpecRendered {
    match jget(json, "result"@) {
        Some(r) => match r {
            JsonVal::Arr(entries) => if entries@.len() == 0 {
                SpecRendered {
                    title: Some(spec_lb_title(t, page)),
                    color: COLOR_ACCENT,
                    description: Some("No entries found on this page."@),
                    ..before
                }
            } else {
                SpecRendered {
                    title: Some(spec_lb_title(t, page)),
                    color: COLOR_ACCENT,
                    description: Some(
                        trim_ws(
                            spec_lb_entries(
                                entries@,
                                t,
                                (page - 1) * 20,
                                spec_shown20(entries@.len() as int),
                            ),
                        ),
                    ),
                    footer: Some(spec_lb_footer(page, spec_shown20(entries@.len() as int))),
                    ..before
                }
            },
            _ => spec_lb_not_found(before, t),
        },
        None => spec_lb_not_found(before, t),
    }
}

pub open spec fn spec_lb_not_found(before: SpecRendered, t: Seq<char>) -> SpecRendered {
    SpecRendered {
        title: Some("❌ "@ + t + " Leaderboard not found"@),
        description: Some("Could not load leaderboard data."@),
        color: COLOR_ERROR,
        ..before
    }
}

fn lb_emoji_str(t: &str) -> (r: &'static str)
    ensures
        r@ == spec_lb_emoji(t@),
{
    if crate::json::str_eq(t, "money") {
        "💰"
    } else if crate::json::str_eq(t, "kills") {
        "⚔️"
    } else if crate::json::str_eq(t, "deaths") {
        "💀"
    } else if crate::json::str_eq(t, "brokenblocks") {
        "⛏️"
    } else if crate::json::str_eq(t, "placedblocks") {
        "🧱"
    } else if crate::json::str_eq(t, "mobskilled") {
        "👹"
    } else if crate::json::str_eq(t, "playtime") {
        "⏰"
    } else if crate::json::str_eq(t, "sell") {
        "💰"
    } else if crate::json::str_eq(t, "shards") {
        "💎"
    } else if crate::json::str_eq(t, "shop") {
        "🛒"
    } else {
        "🏆"
    }
}

fn lb_name_str(t: &str) -> (r: &'static str)
    ensures
        r@ == spec_lb_name(t@),
{
    if crate::json::str_eq(t, "money") {
        "Money"
    } else if crate::json::str_eq(t, "kills") {
        "Kills"
    } else if crate::json::str_eq(t, "deaths") {
        "Deaths"
    } else if crate::json::str_eq(t, "brokenblocks") {
        "Blocks Broken"
    } else if crate::json::str_eq(t, "placedblocks") {
        "Blocks Placed"
    } else if crate::json::str_eq(t, "mobskilled") {
        "Mobs Killed"
    } else if crate::json::str_eq(t, "playtime") {
        "Playtime"
    } else if crate::json::str_eq(t, "sell") {
        "Money from Selling"
    } else if crate::json::str_eq(t, "shards") {
        "Shards"
    } else if crate::json::str_eq(t, "shop") {
        "Money Spent"
    } else {
        "Unknown"
    }
}

fn lb_value_chars(t: &str, vs: &str) -> (r: Vec<char>)
    ensures
        r@ == spec_lb_value(t@, vs@),
{
    match parse_i64(vs) {
        Some(v) => {
            if crate::json::str_eq(t, "money") || crate::json::str_eq(t, "sell")
                || crate::json::str_eq(t, "shop") {
                let mut r: Vec<char> = Vec::new();
                r.push('$');
                let mut d = format_number_chars(v);
                r.append(&mut d);
                assert(r@ =~= "$"@ + spec_format_number(v as int)) by {
                    reveal_strlit("$");
                }
                r
            } else if crate::json::str_eq(t, "playtime") {
                format_duration_ms(v)
            } else {
                format_number_chars(v)
            }
        },
        None => str_to_chars(vs),
    }
}

fn lb_entry_chars(e: &JsonVal, t: &str, pos: u64) -> (r: Vec<char>)
    ensures
        r@ == spec_lb_entry(*e, t@, pos as int),
{
    let username: &str = match e.get("username") {
        Some(u) => match u.as_str() {
            Some(s) => s,
            None => "Unknown",
        },
        None => "Unknown",
    };
    let vs: &str = match e.get("value") {
        Some(v) => match v.as_str() {
            Some(s) => s,
            None => "0",
        },
        None => "0",
    };
    let mut r: Vec<char> = Vec::new();
    if pos == 1 {
        append_str(&mut r, "🥇");
    } else if pos == 2 {
        append_str(&mut r, "🥈");
    } else if pos == 3 {
        append_str(&mut r, "🥉");
    } else {
        append_str(&mut r, "  ");
    }
    append_str(&mut r, " **#");
    let mut p = u64_to_chars(pos);
    r.append(&mut p);
    append_str(&mut r, "** ");
    append_str(&mut r, username);
    append_str(&mut r, " - ");
    let mut v = lb_value_chars(t, vs);
    r.append(&mut v);
    r.push('\n');
    assert(r@ =~= spec_lb_entry(*e, t@, pos as int)) by {
        reveal_strlit("\n");
    }
    r
}

/// Renders a leaderboard reply into `embed`: a titled page of up to twenty
/// ranked entries, medals on absolute ranks one to three.
pub fn format_leaderboard_response(
    result: &JsonVal,
    embed: &mut Rendered,
    lb_type: &str,
    page: u32,
)
    requires
        page >= 1,
    ensures
        final(embed)@ == spec_leaderboard_rendered(
            old(embed)@,
            *result,
            lb_type@,
            page as int,
        ),
{
    let entries_opt: Option<&Vec<JsonVal>> = match result.get("result") {
        Some(r) => r.as_array(),
        None => None,
    };
    match entries_opt {
        Some(entries) => {
            let mut title = str_to_chars(lb_emoji_str(lb_type));
            title.push(' ');
            append_str(&mut title, lb_name_str(lb_type));
            append_str(&mut title, " Leaderboard (Page ");
            let mut pg = u64_to_chars(page as u64);
            title.append(&mut pg);
            title.push(')');
            assert(title@ =~= spec_lb_title(lb_type@, page as int)) by {
                reveal_strlit(" ");
                reveal_strlit(")");
            }
            embed.title = Some(chars_to_string(&title));
            embed.color = COLOR_ACCENT;
            if entries.len() == 0 {
                embed.description = Some(
                    chars_to_string(&str_to_chars("No entries found on this page.")),
                );
                return ;
            }
            let start: u64 = ((page - 1) as u64) * 20;
            let shown: usize = if entries.len() < 20 {
                entries.len()
            } else {
                20
            };
            let mut body: Vec<char> = Vec::new();
            let mut i: usize = 0;
            while i < shown
                invariant
                    i <= shown,
                    shown == spec_shown20(entries@.len() as int),
                    shown <= entries@.len(),
                    start == (page - 1) * 20,
                    page >= 1,
                    body@ == spec_lb_entries(entries@, lb_type@, start as int, i as int),
                decreases shown - i,
            {
                let mut e = lb_entry_chars(&entries[i], lb_type, start + (i as u64) + 1);
                body.append(&mut e);
                i = i + 1;
            }
            let trimmed = trim_chars(body);
            embed.description = Some(chars_to_string(&trimmed));
            let mut footer = str_to_chars("Page ");
            let mut pg2 = u64_to_chars(page as u64);
            footer.append(&mut pg2);
            append_str(&mut footer, " • Showing ");
            let mut sh = u64_to_chars(shown as u64);
            footer.append(&mut sh);
            append_str(&mut footer, " entries");
            assert(footer@ =~= spec_lb_footer(page as int, shown as int));
            embed.footer = Some(chars_to_string(&footer));
        },
        None => {
            let mut title = str_to_chars("❌ ");
            append_str(&mut title, lb_type);
            append_str(&mut title, " Leaderboard not found");
            embed.title = Some(chars_to_string(&title));
            embed.description = Some(
                chars_to_string(&str_to_chars("Could not load leaderboard data.")),
            );
            embed.color = COLOR_ERROR;
        },
    }
}

} // verus!
