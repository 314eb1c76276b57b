//! The interaction router: command invocations and control activations
//! resolved to request paths, titles and reply embeds, one round trip per
//! event. All failures become values; nothing here panics on input.

use vstd::prelude::*;
use vstd::string::*;

use crate::codec::{
    decode_token_rest, spec_decode_rest, spec_target_page, target_page, SpecToken, TokenError,
};
use crate::formatters::format_leaderboard_response;
use crate::json::{jget, jstr, parse_json, parsed_json, JsonVal};
use crate::numfmt::{dec_digits, u64_to_chars};
use crate::render::{
    spec_empty_rendered, Rendered, SpecRendered, COLOR_ACCENT, COLOR_ERROR,
};
use crate::text::{
    append_str, chars_skip, chars_start_with, chars_to_string, str_to_chars, underscores_to_spaces,
};

verus! {

/// A space escaped for a path segment; every other char stands for itself.
pub open spec fn esc_space_char(c: char) -> Seq<char> {
    if c == ' ' {
        seq!['%', '2', '0']
    } else {
        seq![c]
    }
}

/// A user-supplied name escaped for embedding in a request path.
pub open spec fn esc_spaces(s: Seq<char>) -> Seq<char>
    decreases s.len(),
{
    if s.len() == 0 {
        Seq::empty()
    } else {
        esc_space_char(s[0]) + esc_spaces(s.drop_first())
    }
}

proof fn lemma_esc_spaces_push(s: Seq<char>, c: char)
    ensures
        esc_spaces(s.push(c)) == esc_spaces(s) + esc_space_char(c),
    decreases s.len(),
{
    reveal_with_fuel(esc_spaces, 3);
    if s.len() == 0 {
        assert(s.push(c)[0] == c);
        assert(s.push(c).drop_first() =~= Seq::<char>::empty());
        assert(esc_spaces(s.push(c)) =~= esc_spaces(s) + esc_space_char(c));
    } else {
        assert(s.push(c)[0] == s[0]);
        assert(s.push(c).drop_first() =~= s.drop_first().push(c));
        lemma_esc_spaces_push(s.drop_first(), c);
        assert(esc_spaces(s.push(c)) =~= esc_spaces(s) + esc_space_char(c));
    }
}

/// Escapes the spaces of a user-supplied name for a request path.
pub fn escape_spaces(s: &str) -> (r: Vec<char>)
    ensures
        r@ == esc_spaces(s@),
{
    let n = s.unicode_len();
    let mut r: Vec<char> = Vec::new();
    let mut i: usize = 0;
    while i < n
        invariant
            i <= n,
            n == s@.len(),
            r@ == esc_spaces(s@.take(i as int)),
        decreases n - i,
    {
        let c = s.get_char(i);
        if c == ' ' {
            r.push('%');
            r.push('2');
            r.push('0');
        } else {
            r.push(c);
        }
        proof {
            lemma_esc_spaces_push(s@.take(i as int), s@[i as int]);
            assert(s@.take(i + 1) =~= s@.take(i as int).push(s@[i as int]));
            assert(r@ =~= esc_spaces(s@.take(i + 1)));
        }
        i = i + 1;
    }
    assert(s@.take(n as int) =~= s@);
    r
}

pub open spec fn spec_lookup_path(user: Seq<char>) -> Seq<char> {
    "/v1/lookup/"@ + esc_spaces(user)
}

pub open spec fn spec_stats_path(user: Seq<char>) -> Seq<char> {
    "/v1/stats/"@ + esc_spaces(user)
}

pub open spec fn spec_leaderboard_path(t: Seq<char>, page: u32) -> Seq<char> {
    "/v1/leaderboards/"@ + t + "/"@ + dec_digits(page as nat)
}

pub open spec fn spec_auction_path(page: u32) -> Seq<char> {
    "/v1/auction/list/"@ + dec_digits(page as nat)
}

pub open spec fn spec_txn_path(page: u32) -> Seq<char> {
    "/v1/auction/transactions/"@ + dec_digits(page as nat)
}

/// The marker shown for a sort choice in a title.
pub open spec fn spec_sort_emoji(s: Seq<char>) -> Seq<char> {
    if s == "lowest_price"@ {
        "💰"@
    } else if s == "highest_price"@ {
        "💸"@
    } else if s == "recently_listed"@ {
        "🕒"@
    } else if s == "last_listed"@ {
        "📅"@
    } else {
        "📊"@
    }
}

/// The wording of a sort choice in a footer.
pub open spec fn spec_sort_display(s: Seq<char>) -> Seq<char> {
    if s == "lowest_price"@ {
        "💰 Lowest Price"@
    } else if s == "highest_price"@ {
        "💸 Highest Price"@
    } else if s == "recently_listed"@ {
        "🕒 Recently Listed"@
    } else if s == "last_listed"@ {
        "📅 Last Listed"@
    } else {
        s
    }
}

/// The title parts a paged listing carries: the heading with its page,
/// then the search term, then the sort choice, joined by pipes.
pub open spec fn spec_listing_title(
    heading: Seq<char>,
    page: u32,
    search: Option<Seq<char>>,
    sort: Option<Seq<char>>,
) -> Seq<char> {
    let base = heading + " (Page "@ + dec_digits(page as nat) + ")"@;
    let with_search = match search {
        Some(s) => base + " | 🔍 '"@ + s + "'"@,
        None => base,
    };
    match sort {
        Some(s) => with_search + " | "@ + spec_sort_emoji(s) + " "@ + underscores_to_spaces(s),
        None => with_search,
    }
}

fn sort_emoji_str(s: &str) -> (r: &'static str)
    ensures
        r@ == spec_sort_emoji(s@),
{
    if crate::json::str_eq(s, "lowest_price") {
        "💰"
    } else if crate::json::str_eq(s, "highest_price") {
        "💸"
    } else if crate::json::str_eq(s, "recently_listed") {
        "🕒"
    } else if crate::json::str_eq(s, "last_listed") {
        "📅"
    } else {
        "📊"
    }
}

fn sort_display_chars(s: &str) -> (r: Vec<char>)
    ensures
        r@ == spec_sort_display(s@),
{
    if crate::json::str_eq(s, "lowest_price") {
        str_to_chars("💰 Lowest Price")
    } else if crate::json::str_eq(s, "highest_price") {
        str_to_chars("💸 Highest Price")
    } else if crate::json::str_eq(s, "recently_listed") {
        str_to_chars("🕒 Recently Listed")
    } else if crate::json::str_eq(s, "last_listed") {
        str_to_chars("📅 Last Listed")
    } else {
        str_to_chars(s)
    }
}

/// Builds a paged-listing title from its heading and filters.
pub fn listing_title(heading: &str, page: u32, search: Option<&str>, sort: Option<&str>) -> (r:
    Vec<char>)
    ensures
        r@ == spec_listing_title(heading@, page, search.deep_view(), sort.deep_view()),
{
    let mut t = str_to_chars(heading);
    append_str(&mut t, " (Page ");
    let mut d = u64_to_chars(page as u64);
    t.append(&mut d);
    t.push(')');
    assert(t@ =~= heading@ + " (Page "@ + dec_digits(page as nat) + ")"@) by {
        reveal_strlit(")");
    }
    match search {
        Some(s) => {
            append_str(&mut t, " | 🔍 '");
            append_str(&mut t, s);
            t.push('\'');
            assert(t@ =~= (heading@ + " (Page "@ + dec_digits(page as nat) + ")"@) + " | 🔍 '"@
                + s@ + "'"@) by {
                reveal_strlit("'");
            }
        },
        None => {},
    }
    match sort {
        Some(s) => {
            append_str(&mut t, " | ");
            append_str(&mut t, sort_emoji_str(s));
            t.push(' ');
            let mapped = crate::text::map_underscores(&str_to_chars(s));
            let mut m = mapped;
            t.append(&mut m);
            assert(t@ =~= spec_listing_title(
                heading@,
                page,
                search.deep_view(),
                sort.deep_view(),
            )) by {
                reveal_strlit(" ");
            }
        },
        None => {},
    }
    t
}

/// The path for a player lookup.
pub fn lookup_path(user: &str) -> (r: String)
    ensures
        r@ == spec_lookup_path(user@),
{
    let mut p = str_to_chars("/v1/lookup/");
    let mut u = escape_spaces(user);
    p.append(&mut u);
    chars_to_string(&p)
}

/// The path for a player's detailed stats.
pub fn stats_path(user: &str) -> (r: String)
    ensures
        r@ == spec_stats_path(user@),
{
    let mut p = str_to_chars("/v1/stats/");
    let mut u = escape_spaces(user);
    p.append(&mut u);
    chars_to_string(&p)
}

/// The path for one leaderboard page.
pub fn leaderboard_path(lb_type: &str, page: u32) -> (r: String)
    ensures
        r@ == spec_leaderboard_path(lb_type@, page),
{
    let mut p = str_to_chars("/v1/leaderboards/");
    append_str(&mut p, lb_type);
    p.push('/');
    let mut d = u64_to_chars(page as u64);
    p.append(&mut d);
    assert(p@ =~= spec_leaderboard_path(lb_type@, page)) by {
        reveal_strlit("/");
    }
    chars_to_string(&p)
}

/// The path for one auction-list page.
pub fn auction_path(page: u32) -> (r: String)
    ensures
        r@ == spec_auction_path(page),
{
    let mut p = str_to_chars("/v1/auction/list/");
    let mut d = u64_to_chars(page as u64);
    p.append(&mut d);
    chars_to_string(&p)
}

/// The path for one transaction-history page.
pub fn txn_path(page: u32) -> (r: String)
    ensures
        r@ == spec_txn_path(page),
{
    let mut p = str_to_chars("/v1/auction/transactions/");
    let mut d = u64_to_chars(page as u64);
    p.append(&mut d);
    chars_to_string(&p)
}

/// The footer a filtered listing carries: the search term and the sort
/// wording, joined by a pipe; nothing when no filter is set.
pub open spec fn spec_listing_footer(
    search: Option<Seq<char>>,
    sort: Option<Seq<char>>,
) -> Option<Seq<char>> {
    match (search, sort) {
        (None, None) => None,
        (Some(s), None) => Some("🔍 Search: '"@ + s + "'"@),
        (None, Some(t)) => Some("📊 Sort: "@ + spec_sort_display(t)),
        (Some(s), Some(t)) => Some(
            "🔍 Search: '"@ + s + "'"@ + " | "@ + "📊 Sort: "@ + spec_sort_display(t),
        ),
    }
}

/// The embed of one auction or transaction page built from a parsed reply:
/// the given title, the page body (or the reply's own error wording), and
/// the filter footer.
pub open spec fn spec_auction_embed(
    json: JsonVal,
    title: Seq<char>,
    search: Option<Seq<char>>,
    sort: Option<Seq<char>>,
    page: u32,
) -> SpecRendered {
    let desc = match jget(json, "result"@) {
        Some(rv) => match rv {
            JsonVal::Arr(items) => crate::formatters::spec_auction_body(items@, page as int),
            _ => "❌ No items found or invalid response format"@,
        },
        None => match jget(json, "status"@) {
            Some(sv) => "❌ API Error: "@ + (match jstr(sv) {
                Some(s) => s,
                None => "Unknown error"@,
            }),
            None => "❌ Unexpected response format"@,
        },
    };
    SpecRendered {
        title: Some(title),
        description: Some(desc),
        color: COLOR_ACCENT,
        footer: spec_listing_footer(search, sort),
        ..spec_empty_rendered()
    }
}

/// Builds the embed of one auction or transaction page from the reply
/// body; the error text of an unreadable body is passed through.
pub fn auction_embed(
    body: &str,
    title: &str,
    search: Option<&str>,
    sort: Option<&str>,
    current_page: u32,
) -> (r: Result<Rendered, String>)
    requires
        current_page >= 1,
    ensures
        match r {
            Ok(e) => (match parsed_json(body@) {
                Some(j) => e@ == spec_auction_embed(
                    j,
                    title@,
                    search.deep_view(),
                    sort.deep_view(),
                    current_page,
                ),
                None => false,
            }),
            Err(_) => parsed_json(body@) is None,
        },
{
    let json = match parse_json(body) {
        Ok(j) => j,
        Err(e) => {
            return Err(e);
        },
    };
    let mut e = Rendered::new();
    e.title = Some(chars_to_string(&str_to_chars(title)));
    e.color = COLOR_ACCENT;
    match json.get("result") {
        Some(rv) => match rv.as_array() {
            Some(items) => {
                crate::formatters::format_auction_response_with_page(items, &mut e, current_page);
            },
            None => {
                e.description = Some(
                    chars_to_string(&str_to_chars("❌ No items found or invalid response format")),
                );
            },
        },
        None => match json.get("status") {
            Some(sv) => {
                let mut d = str_to_chars("❌ API Error: ");
                match sv.as_str() {
                    Some(s) => append_str(&mut d, s),
                    None => append_str(&mut d, "Unknown error"),
                }
                e.description = Some(chars_to_string(&d));
            },
            None => {
                e.description = Some(chars_to_string(&str_to_chars("❌ Unexpected response format")));
            },
        },
    }
    match (search, sort) {
        (None, None) => {},
        (Some(s), None) => {
            let mut f = str_to_chars("🔍 Search: '");
            append_str(&mut f, s);
            f.push('\'');
            assert(f@ =~= "🔍 Search: '"@ + s@ + "'"@) by {
                reveal_strlit("'");
            }
            e.footer = Some(chars_to_string(&f));
        },
        (None, Some(t)) => {
            let mut f = str_to_chars("📊 Sort: ");
            let mut sd = sort_display_chars(t);
            f.append(&mut sd);
            e.footer = Some(chars_to_string(&f));
        },
        (Some(s), Some(t)) => {
            let mut f = str_to_chars("🔍 Search: '");
            append_str(&mut f, s);
            f.push('\'');
            append_str(&mut f, " | ");
            append_str(&mut f, "📊 Sort: ");
            let mut sd = sort_display_chars(t);
            f.append(&mut sd);
            assert(f@ =~= "🔍 Search: '"@ + s@ + "'"@ + " | "@ + "📊 Sort: "@
                + spec_sort_display(t@)) by {
                reveal_strlit("'");
            }
            e.footer = Some(chars_to_string(&f));
        },
    }
    Ok(e)
}

/// The plain error embed other replies fall back to: a fixed title and a
/// message.
pub open spec fn spec_error_reply(msg: Seq<char>) -> SpecRendered {
    SpecRendered {
        title: Some("Error"@),
        description: Some(msg),
        color: COLOR_ERROR,
        ..spec_empty_rendered()
    }
}

fn error_reply(msg: Vec<char>) -> (r: Rendered)
    ensures
        r@ == spec_error_reply(msg@),
{
    let mut e = Rendered::new();
    e.title = Some(chars_to_string(&str_to_chars("Error")));
    e.description = Some(chars_to_string(&msg));
    e.color = COLOR_ERROR;
    e
}

/// Decides the stats reply from the upstream status and body: the error
/// embed on a failing status or unreadable body, else the full stats
/// rendering for `player_name`.
pub fn stats_reply(status: u16, body: &str, player_name: &str) -> (r: Rendered)
    ensures
        !(200 <= status < 300) ==> r@ == spec_error_reply(
            "❌ API Error: "@ + dec_digits(status as nat),
        ),
        (200 <= status < 300) ==> (match parsed_json(body@) {
            Some(j) => r@ == crate::formatters::spec_stats_rendered(
                spec_empty_rendered(),
                j,
                player_name@,
            ),
            None => r@.title == Some("Error"@) && r@.color == COLOR_ERROR && (match r@.description {
                Some(d) => d.take("❌ Failed to parse response: "@.len() as int)
                    == "❌ Failed to parse response: "@,
                None => false,
            }),
        }),
{
    if !(200 <= status && status < 300) {
        let mut m = str_to_chars("❌ API Error: ");
        let mut d = u64_to_chars(status as u64);
        m.append(&mut d);
        return error_reply(m);
    }
    match parse_json(body) {
        Ok(json) => {
            let mut e = Rendered::new();
            crate::formatters::format_stats_response(&json, &mut e, player_name);
            e
        },
        Err(msg) => {
            let mut m = str_to_chars("❌ Failed to parse response: ");
            append_str(&mut m, msg.as_str());
            assert(m@.take("❌ Failed to parse response: "@.len() as int)
                =~= "❌ Failed to parse response: "@);
            error_reply(m)
        },
    }
}

/// Decides the leaderboard reply from the upstream status and body: the
/// error embed on a failing status or unreadable body, else the full
/// leaderboard rendering.
pub fn leaderboard_reply(status: u16, body: &str, lb_type: &str, page: u32) -> (r: Rendered)
    requires
        page >= 1,
    ensures
        !(200 <= status < 300) ==> r@ == spec_error_reply(
            "❌ API Error: "@ + dec_digits(status as nat),
        ),
        (200 <= status < 300) ==> (match parsed_json(body@) {
            Some(j) => r@ == crate::formatters::spec_leaderboard_rendered(
                spec_empty_rendered(),
                j,
                lb_type@,
                page as int,
            ),
            None => r@.title == Some("Error"@) && r@.color == COLOR_ERROR && (match r@.description {
                Some(d) => d.take("❌ Failed to parse response: "@.len() as int)
                    == "❌ Failed to parse response: "@,
                None => false,
            }),
        }),
{
    if !(200 <= status && status < 300) {
        let mut m = str_to_chars("❌ API Error: ");
        let mut d = u64_to_chars(status as u64);
        m.append(&mut d);
        return error_reply(m);
    }
    match parse_json(body) {
        Ok(json) => {
            let mut e = Rendered::new();
            format_leaderboard_response(&json, &mut e, lb_type, page);
            e
        },
        Err(msg) => {
            let mut m = str_to_chars("❌ Failed to parse response: ");
            append_str(&mut m, msg.as_str());
            assert(m@.take("❌ Failed to parse response: "@.len() as int)
                =~= "❌ Failed to parse response: "@);
            error_reply(m)
        },
    }
}

/// What a pressed control asks for, resolved to the request to reissue.
#[derive(Debug)]
pub enum ComponentPlan {
    Auction { new_page: u32, search: Option<String>, sort: Option<String>, path: String, title: String },
    Transactions { new_page: u32, search: Option<String>, sort: Option<String>, path: String, title: String },
    Leaderboard { new_page: u32, lb_type: String, path: String },
    /// A control of no known family; the event is dropped without effect.
    Ignore,
}

/// The mathematical image of a [`ComponentPlan`].
pub ghost enum SpecComponentPlan {
    Auction {
        new_page: u32,
        search: Option<Seq<char>>,
        sort: Option<Seq<char>>,
        path: Seq<char>,
        title: Seq<char>,
    },
    Transactions {
        new_page: u32,
        search: Option<Seq<char>>,
        sort: Option<Seq<char>>,
        path: Seq<char>,
        title: Seq<char>,
    },
    Leaderboard { new_page: u32, lb_type: Seq<char>, path: Seq<char> },
    Ignore,
}

impl View for ComponentPlan {
    type V = SpecComponentPlan;

    open spec fn view(&self) -> SpecComponentPlan {
        match self {
            ComponentPlan::Auction { new_page, search, sort, path, title } => (
            SpecComponentPlan::Auction {
                new_page: *new_page,
                search: search.deep_view(),
                sort: sort.deep_view(),
                path: path@,
                title: title@,
            }),
            ComponentPlan::Transactions { new_page, search, sort, path, title } => (
            SpecComponentPlan::Transactions {
                new_page: *new_page,
                search: search.deep_view(),
                sort: sort.deep_view(),
                path: path@,
                title: title@,
            }),
            ComponentPlan::Leaderboard { new_page, lb_type, path } => (
            SpecComponentPlan::Leaderboard {
                new_page: *new_page,
                lb_type: lb_type@,
                path: path@,
            }),
            ComponentPlan::Ignore => SpecComponentPlan::Ignore,
        }
    }
}

/// The auction plan a decoded token leads to.
pub open spec fn spec_auction_plan(t: SpecToken) -> SpecComponentPlan {
    let np = spec_target_page(t.action, t.page);
    SpecComponentPlan::Auction {
        new_page: np,
        search: t.search,
        sort: t.sort,
        path: spec_auction_path(np),
        title: spec_listing_title("🏪 Auction House"@, np, t.search, t.sort),
    }
}

/// The transactions plan a decoded token leads to.
pub open spec fn spec_txn_plan(t: SpecToken) -> SpecComponentPlan {
    let np = spec_target_page(t.action, t.page);
    SpecComponentPlan::Transactions {
        new_page: np,
        search: t.search,
        sort: t.sort,
        path: spec_txn_path(np),
        title: spec_listing_title("📜 Auction Transactions"@, np, t.search, t.sort),
    }
}

/// The leaderboard plan a decoded token leads to; the board kind rides in
/// the first filter segment and an absent one reads as an empty kind.
pub open spec fn spec_lb_plan(t: SpecToken) -> SpecComponentPlan {
    let np = spec_target_page(t.action, t.page);
    let lb = match t.search {
        Some(s) => s,
        None => Seq::<char>::empty(),
    };
    SpecComponentPlan::Leaderboard { new_page: np, lb_type: lb, path: spec_leaderboard_path(lb, np) }
}

/// What a control identifier resolves to: a plan for its family, the
/// decode error of a bad token, or a silent pass on an unknown family.
pub open spec fn spec_plan_component(id: Seq<char>) -> Result<SpecComponentPlan, TokenError> {
    if id.len() >= 8 && id.take(8) == "auction_"@ {
        match spec_decode_rest(id.skip(8)) {
            Ok(t) => Ok(spec_auction_plan(t)),
            Err(e) => Err(e),
        }
    } else if id.len() >= 12 && id.take(12) == "transaction_"@ {
        match spec_decode_rest(id.skip(12)) {
            Ok(t) => Ok(spec_txn_plan(t)),
            Err(e) => Err(e),
        }
    } else if id.len() >= 12 && id.take(12) == "leaderboard_"@ {
        match spec_decode_rest(id.skip(12)) {
            Ok(t) => Ok(spec_lb_plan(t)),
            Err(e) => Err(e),
        }
    } else {
        Ok(SpecComponentPlan::Ignore)
    }
}

/// Resolves a pressed control to the request it stands for.
pub fn plan_component(custom_id: &str) -> (r: Result<ComponentPlan, TokenError>)
    ensures
        match r {
            Ok(p) => spec_plan_component(custom_id@) == Ok::<SpecComponentPlan, TokenError>(p@),
            Err(e) => spec_plan_component(custom_id@) == Err::<SpecComponentPlan, TokenError>(e),
        },
{
    let chars = str_to_chars(custom_id);
    proof {
        reveal_strlit("auction_");
        reveal_strlit("transaction_");
        reveal_strlit("leaderboard_");
    }
    if chars_start_with(&chars, "auction_") {
        let rest = chars_skip(&chars, 8);
        match decode_token_rest(&rest) {
            Ok(t) => {
                let np = target_page(t.action, t.page);
                let path = auction_path(np);
                let title = chars_to_string(
                    &listing_title(
                        "🏪 Auction House",
                        np,
                        match &t.search {
                            Some(s) => Some(s.as_str()),
                            None => None,
                        },
                        match &t.sort {
                            Some(s) => Some(s.as_str()),
                            None => None,
                        },
                    ),
                );
                Ok(
                    ComponentPlan::Auction {
                        new_page: np,
                        search: t.search,
                        sort: t.sort,
                        path,
                        title,
                    },
                )
            },
            Err(e) => Err(e),
        }
    } else if chars_start_with(&chars, "transaction_") {
        let rest = chars_skip(&chars, 12);
        match decode_token_rest(&rest) {
            Ok(t) => {
                let np = target_page(t.action, t.page);
                let path = txn_path(np);
                let title = chars_to_string(
                    &listing_title(
                        "📜 Auction Transactions",
                        np,
                        match &t.search {
                            Some(s) => Some(s.as_str()),
                            None => None,
                        },
                        match &t.sort {
                            Some(s) => Some(s.as_str()),
                            None => None,
                        },
                    ),
                );
                Ok(
                    ComponentPlan::Transactions {
                        new_page: np,
                        search: t.search,
                        sort: t.sort,
                        path,
                        title,
                    },
                )
            },
            Err(e) => Err(e),
        }
    } else if chars_start_with(&chars, "leaderboard_") {
        let rest = chars_skip(&chars, 12);
        match decode_token_rest(&rest) {
            Ok(t) => {
                let np = target_page(t.action, t.page);
                let lb: String = match t.search {
                    Some(s) => s,
                    None => chars_to_string(&Vec::new()),
                };
                let path = leaderboard_path(lb.as_str(), np);
                Ok(ComponentPlan::Leaderboard { new_page: np, lb_type: lb, path })
            },
            Err(e) => Err(e),
        }
    } else {
        Ok(ComponentPlan::Ignore)
    }
}

/// A command argument's value as the platform delivers it.
pub enum OptVal {
    Text(String),
    Int(i64),
}

/// The first text argument named `name`, if the first entry under that
/// name is text.
pub open spec fn spec_opt_str(opts: Seq<(String, OptVal)>, name: Seq<char>) -> Option<Seq<char>>
    decreases opts.len(),
{
    if opts.len() == 0 {
        None
    } else if opts[0].0@ == name {
        match opts[0].1 {
            OptVal::Text(s) => Some(s@),
            OptVal::Int(_) => None,
        }
    } else {
        spec_opt_str(opts.drop_first(), name)
    }
}

/// The first integer argument named `name`, if the first entry under that
/// name is an integer.
pub open spec fn spec_opt_int(opts: Seq<(String, OptVal)>, name: Seq<char>) -> Option<i64>
    decreases opts.len(),
{
    if opts.len() == 0 {
        None
    } else if opts[0].0@ == name {
        match opts[0].1 {
            OptVal::Text(_) => None,
            OptVal::Int(i) => Some(i),
        }
    } else {
        spec_opt_int(opts.drop_first(), name)
    }
}

fn opt_str<'a>(opts: &'a Vec<(String, OptVal)>, name: &str) -> (r: Option<&'a str>)
    ensures
        match r {
            Some(s) => spec_opt_str(opts@, name@) == Some(s@),
            None => spec_opt_str(opts@, name@) is None,
        },
{
    let mut i: usize = 0;
    assert(opts@.skip(0) =~= opts@);
    while i < opts.len()
        invariant
            i <= opts@.len(),
            spec_opt_str(opts@, name@) == spec_opt_str(opts@.skip(i as int), name@),
        decreases opts@.len() - i,
    {
        proof {
            assert(opts@.skip(i as int)[0] == opts@[i as int]);
            assert(opts@.skip(i as int).drop_first() =~= opts@.skip(i + 1));
        }
        if crate::json::str_eq(opts[i].0.as_str(), name) {
            match &opts[i].1 {
                OptVal::Text(s) => {
                    return Some(s.as_str());
                },
                OptVal::Int(_) => {
                    return None;
                },
            }
        }
        i = i + 1;
    }
    assert(opts@.skip(i as int).len() == 0);
    None
}

fn opt_int(opts: &Vec<(String, OptVal)>, name: &str) -> (r: Option<i64>)
    ensures
        r == spec_opt_int(opts@, name@),
{
    let mut i: usize = 0;
    assert(opts@.skip(0) =~= opts@);
    while i < opts.len()
        invariant
            i <= opts@.len(),
            spec_opt_int(opts@, name@) == spec_opt_int(opts@.skip(i as int), name@),
        decreases opts@.len() - i,
    {
        proof {
            assert(opts@.skip(i as int)[0] == opts@[i as int]);
            assert(opts@.skip(i as int).drop_first() =~= opts@.skip(i + 1));
        }
        if crate::json::str_eq(opts[i].0.as_str(), name) {
            match &opts[i].1 {
                OptVal::Text(_) => {
                    return None;
                },
                OptVal::Int(v) => {
                    return Some(*v);
                },
            }
        }
        i = i + 1;
    }
    assert(opts@.skip(i as int).len() == 0);
    None
}

/// The page a command argument asks for: the given value clamped to the
/// pages that exist (at least the first, at most the machine limit), or
/// the first page when none was given.
pub open spec fn spec_arg_page(opts: Seq<(String, OptVal)>) -> u32 {
    match spec_opt_int(opts, "page"@) {
        Some(p) => if p < 1 {
            1u32
        } else if p > u32::MAX {
            u32::MAX
        } else {
            p as u32
        },
        None => 1u32,
    }
}

fn arg_page(opts: &Vec<(String, OptVal)>) -> (r: u32)
    ensures
        r == spec_arg_page(opts@),
        r >= 1,
{
    match opt_int(opts, "page") {
        Some(p) => {
            if p < 1 {
                1
            } else if p > 0xFFFF_FFFFi64 {
                u32::MAX
            } else {
                p as u32
            }
        },
        None => 1,
    }
}

/// What a command invocation asks the bot to do.
pub enum CommandPlan {
    /// A generic API call: request the path, reply under the title.
    Api { path: String, title: String },
    /// The detailed stats call for one player.
    Stats { path: String, player: String },
    /// One leaderboard page.
    Leaderboard { path: String, lb_type: String, page: u32 },
    /// One auction-list page, with its filters.
    Auction { path: String, title: String, page: u32, search: Option<String>, sort: Option<String> },
    /// One transaction-history page, with its filters.
    Transactions {
        path: String,
        title: String,
        page: u32,
        search: Option<String>,
        sort: Option<String>,
    },
    Help,
    TeamHelp,
    /// Look up each roster member and report who is on.
    Online,
    /// Show the team name, or set it when one is given.
    TeamName { new_name: Option<String> },
    /// Add or replace one roster member.
    TeamAdd { member: crate::team::TeamMember },
    /// Drop a roster member by in-game name.
    TeamRemove { ign: String },
    /// Show the roster grouped by rank.
    TeamList,
    Unknown,
}

/// The required arguments each command's schema promises.
pub open spec fn spec_has_required(name: Seq<char>, opts: Seq<(String, OptVal)>) -> bool {
    &&& (name == "lookup"@ ==> spec_opt_str(opts, "user"@) is Some)
    &&& (name == "stats"@ ==> spec_opt_str(opts, "user"@) is Some)
    &&& (name == "leaderboard"@ ==> spec_opt_str(opts, "type"@) is Some)
    &&& (name == "team-add"@ ==> spec_opt_str(opts, "ign"@) is Some && spec_opt_str(opts, "country"@)
        is Some && spec_opt_str(opts, "skill"@) is Some)
    &&& (name == "team-remove"@ ==> spec_opt_str(opts, "ign"@) is Some)
}

/// Resolves a command invocation to its plan. The platform guarantees the
/// declared required arguments, stated here as the precondition.
pub fn plan_command(name: &str, opts: &Vec<(String, OptVal)>) -> (r: CommandPlan)
    requires
        spec_has_required(name@, opts@),
    ensures
        name@ == "lookup"@ ==> (r matches CommandPlan::Api { path, title } && (match spec_opt_str(
            opts@,
            "user"@,
        ) {
            Some(u) => path@ == spec_lookup_path(u) && title@ == "🔍 Player Lookup: "@ + u,
            None => false,
        })),
        name@ == "stats"@ ==> (r matches CommandPlan::Stats { path, player } && (match spec_opt_str(
            opts@,
            "user"@,
        ) {
            Some(u) => path@ == spec_stats_path(u) && player@ == u,
            None => false,
        })),
        name@ == "leaderboard"@ ==> (r matches CommandPlan::Leaderboard { path, lb_type, page } && (
        match spec_opt_str(opts@, "type"@) {
            Some(t) => lb_type@ == t && page == spec_arg_page(opts@) && path@
                == spec_leaderboard_path(t, spec_arg_page(opts@)),
            None => false,
        })),
        name@ == "auction"@ ==> (r matches CommandPlan::Auction { path, title, page, search, sort }
            && page == spec_arg_page(opts@) && path@ == spec_auction_path(spec_arg_page(opts@))
            && search.deep_view() == spec_opt_str(opts@, "search"@) && sort.deep_view()
            == spec_opt_str(opts@, "sort"@) && title@ == spec_listing_title(
            "🏪 Auction House"@,
            spec_arg_page(opts@),
            spec_opt_str(opts@, "search"@),
            spec_opt_str(opts@, "sort"@),
        )),
        name@ == "auction-transactions"@ ==> (r matches CommandPlan::Transactions {
            path,
            title,
            page,
            search,
            sort,
        } && page == spec_arg_page(opts@) && path@ == spec_txn_path(spec_arg_page(opts@))
            && search.deep_view() == spec_opt_str(opts@, "search"@) && sort.deep_view()
            == spec_opt_str(opts@, "sort"@) && title@ == "📜 Auction Transactions"@),
        name@ == "help"@ ==> r is Help,
        name@ == "team-help"@ ==> r is TeamHelp,
        name@ == "online"@ ==> r is Online,
        name@ == "team-name"@ ==> (r matches CommandPlan::TeamName { new_name } && (
        new_name.deep_view() == spec_opt_str(opts@, "name"@))),
        name@ == "team-add"@ ==> (r matches CommandPlan::TeamAdd { member } && (match (
        spec_opt_str(opts@, "ign"@),
        spec_opt_str(opts@, "country"@),
        spec_opt_str(opts@, "skill"@),
        ) {
            (Some(ign), Some(country), Some(skill)) => member@.ign == ign && member@.country
                == country && member@.skill == skill && member@.about == (match spec_opt_str(
                opts@,
                "about"@,
            ) {
                Some(a) => a,
                None => Seq::<char>::empty(),
            }) && member@.discord_tag == (match spec_opt_str(opts@, "discord"@) {
                Some(d) => d,
                None => Seq::<char>::empty(),
            }) && member@.rank == (match spec_opt_str(opts@, "rank"@) {
                Some(ra) => crate::team::spec_rank_from(ra),
                None => crate::team::Rank::Member,
            }),
            _ => false,
        })),
        name@ == "team-remove"@ ==> (r matches CommandPlan::TeamRemove { ign } && (match
            spec_opt_str(opts@, "ign"@) {
            Some(g) => ign@ == g,
            None => false,
        })),
        name@ == "team-list"@ ==> r is TeamList,
        (name@ != "lookup"@ && name@ != "stats"@ && name@ != "leaderboard"@ && name@ != "auction"@
            && name@ != "auction-transactions"@ && name@ != "help"@ && name@ != "team-help"@
            && name@ != "online"@ && name@ != "team-name"@ && name@ != "team-add"@ && name@
            != "team-remove"@ && name@ != "team-list"@) ==> r is Unknown,
{
    proof {
        reveal_strlit("lookup");
        reveal_strlit("stats");
        reveal_strlit("leaderboard");
        reveal_strlit("auction");
        reveal_strlit("auction-transactions");
        reveal_strlit("help");
        reveal_strlit("team-help");
        reveal_strlit("online");
        reveal_strlit("team-name");
        reveal_strlit("team-add");
        reveal_strlit("team-remove");
        reveal_strlit("team-list");
        assert("lookup"@.len() == 6);
        assert("stats"@.len() == 5);
        assert("leaderboard"@.len() == 11);
        assert("auction"@.len() == 7);
        assert("auction-transactions"@.len() == 20);
        assert("help"@.len() == 4);
        assert("team-help"@.len() == 9);
        assert("online"@.len() == 6);
        assert("team-name"@.len() == 9);
        assert("team-add"@.len() == 8);
        assert("team-remove"@.len() == 11);
        assert("team-list"@.len() == 9);
        assert("lookup"@[0] == 'l' && "online"@[0] == 'o');
        assert("leaderboard"@[0] == 'l' && "team-remove"@[0] == 't');
        assert("team-help"@[5] == 'h' && "team-name"@[5] == 'n' && "team-list"@[5] == 'l');
    }
    if crate::json::str_eq(name, "lookup") {
        let user = match opt_str(opts, "user") {
            Some(u) => u,
            None => {
                proof {
                    assert(false);
                }
                ""
            },
        };
        let path = lookup_path(user);
        let mut t = str_to_chars("🔍 Player Lookup: ");
        append_str(&mut t, user);
        CommandPlan::Api { path, title: chars_to_string(&t) }
    } else if crate::json::str_eq(name, "stats") {
        let user = match opt_str(opts, "user") {
            Some(u) => u,
            None => {
                proof {
                    assert(false);
                }
                ""
            },
        };
        let path = stats_path(user);
        CommandPlan::Stats { path, player: chars_to_string(&str_to_chars(user)) }
    } else if crate::json::str_eq(name, "leaderboard") {
        let lb = match opt_str(opts, "type") {
            Some(t) => t,
            None => {
                proof {
                    assert(false);
                }
                ""
            },
        };
        let page = arg_page(opts);
        let path = leaderboard_path(lb, page);
        CommandPlan::Leaderboard { path, lb_type: chars_to_string(&str_to_chars(lb)), page }
    } else if crate::json::str_eq(name, "auction") {
        let page = arg_page(opts);
        let search = opt_str(opts, "search");
        let sort = opt_str(opts, "sort");
        let path = auction_path(page);
        let title = chars_to_string(&listing_title("🏪 Auction House", page, search, sort));
        CommandPlan::Auction {
            path,
            title,
            page,
            search: match search {
                Some(s) => Some(chars_to_string(&str_to_chars(s))),
                None => None,
            },
            sort: match sort {
                Some(s) => Some(chars_to_string(&str_to_chars(s))),
                None => None,
            },
        }
    } else if crate::json::str_eq(name, "auction-transactions") {
        let page = arg_page(opts);
        let search = opt_str(opts, "search");
        let sort = opt_str(opts, "sort");
        let path = txn_path(page);
        CommandPlan::Transactions {
            path,
            title: chars_to_string(&str_to_chars("📜 Auction Transactions")),
            page,
            search: match search {
                Some(s) => Some(chars_to_string(&str_to_chars(s))),
                None => None,
            },
            sort: match sort {
                Some(s) => Some(chars_to_string(&str_to_chars(s))),
                None => None,
            },
        }
    } else if crate::json::str_eq(name, "help") {
        CommandPlan::Help
    } else if crate::json::str_eq(name, "team-help") {
        CommandPlan::TeamHelp
    } else if crate::json::str_eq(name, "online") {
        CommandPlan::Online
    } else if crate::json::str_eq(name, "team-name") {
        CommandPlan::TeamName {
            new_name: match opt_str(opts, "name") {
                Some(s) => Some(chars_to_string(&str_to_chars(s))),
                None => None,
            },
        }
    } else if crate::json::str_eq(name, "team-add") {
        let ign = match opt_str(opts, "ign") {
            Some(u) => u,
            None => {
                proof {
                    assert(false);
                }
                ""
            },
        };
        let country = match opt_str(opts, "country") {
            Some(u) => u,
            None => {
                proof {
                    assert(false);
                }
                ""
            },
        };
        let skill = match opt_str(opts, "skill") {
            Some(u) => u,
            None => {
                proof {
                    assert(false);
                }
                ""
            },
        };
        let about = match opt_str(opts, "about") {
            Some(a) => a,
            None => "",
        };
        let discord = match opt_str(opts, "discord") {
            Some(d) => d,
            None => "",
        };
        let rank = match opt_str(opts, "rank") {
            Some(ra) => crate::team::Rank::from_str(ra),
            None => crate::team::Rank::Member,
        };
        proof {
            reveal_strlit("");
        }
        CommandPlan::TeamAdd {
            member: crate::team::TeamMember {
                ign: chars_to_string(&str_to_chars(ign)),
                country: chars_to_string(&str_to_chars(country)),
                skill: chars_to_string(&str_to_chars(skill)),
                about: chars_to_string(&str_to_chars(about)),
                discord_tag: chars_to_string(&str_to_chars(discord)),
                rank,
            },
        }
    } else if crate::json::str_eq(name, "team-remove") {
        let ign = match opt_str(opts, "ign") {
            Some(u) => u,
            None => {
                proof {
                    assert(false);
                }
                ""
            },
        };
        CommandPlan::TeamRemove { ign: chars_to_string(&str_to_chars(ign)) }
    } else if crate::json::str_eq(name, "team-list") {
        CommandPlan::TeamList
    } else {
        CommandPlan::Unknown
    }
}

fn push_lit_field(embed: &mut Rendered, name: &str, value: &str)
    ensures
        final(embed)@ == (SpecRendered {
            fields: old(embed)@.fields.push(
                (crate::render::SpecField { name: name@, value: value@, inline: false }),
            ),
            ..old(embed)@
        }),
{
    embed.push_field(
        chars_to_string(&str_to_chars(name)),
        chars_to_string(&str_to_chars(value)),
        false,
    );
}

/// The general help reply: the command families and how to read the
/// bracket conventions.
pub fn help_embed() -> (r: Rendered)
    ensures
        r@.title == Some("🤖 DonutSMP Bot Commands"@),
        r@.description == Some("Here are all available commands:"@),
        r@.color == COLOR_ACCENT,
        r@.fields.len() == 5,
        r@.fields[0].name == "**👤 Player Commands**"@,
        r@.fields[0].value == "`/lookup <user>` - Get player info\n`/stats <user>` - Show player statistics"@,
        r@.fields[1].name == "**🏆 Leaderboard Commands**"@,
        r@.fields[1].value == "`/leaderboard <type> [page]` - Show various leaderboards"@,
        r@.fields[2].name == "**🏪 Auction Commands**"@,
        r@.fields[2].value == "`/auction [page] [search] [sort]` - Browse auction house\n`/auction-transactions [page] [search] [sort]` - View transaction history"@,
        r@.fields[3].name == "**👥 Team Commands**"@,
        r@.fields[3].value == "`/team-help` - Show team commands and usage"@,
        r@.fields[4].name == "**ℹ️ Other Commands**"@,
        r@.fields[4].value == "`/help` - Show this help message"@,
        forall|i: int| 0 <= i < 5 ==> !r@.fields[i].inline,
        r@.footer == Some(
            "💡 [brackets] for optional parameters, <brackets> for required parameters"@,
        ),
{
    let mut e = Rendered::new();
    e.title = Some(chars_to_string(&str_to_chars("🤖 DonutSMP Bot Commands")));
    e.description = Some(chars_to_string(&str_to_chars("Here are all available commands:")));
    e.color = COLOR_ACCENT;
    push_lit_field(
        &mut e,
        "**👤 Player Commands**",
        "`/lookup <user>` - Get player info\n`/stats <user>` - Show player statistics",
    );
    push_lit_field(
        &mut e,
        "**🏆 Leaderboard Commands**",
        "`/leaderboard <type> [page]` - Show various leaderboards",
    );
    push_lit_field(
        &mut e,
        "**🏪 Auction Commands**",
        "`/auction [page] [search] [sort]` - Browse auction house\n`/auction-transactions [page] [search] [sort]` - View transaction history",
    );
    push_lit_field(&mut e, "**👥 Team Commands**", "`/team-help` - Show team commands and usage");
    push_lit_field(&mut e, "**ℹ️ Other Commands**", "`/help` - Show this help message");
    e.footer = Some(
        chars_to_string(
            &str_to_chars(
                "💡 [brackets] for optional parameters, <brackets> for required parameters",
            ),
        ),
    );
    e
}

/// The team help reply: the team commands and their arguments.
pub fn team_help_embed() -> (r: Rendered)
    ensures
        r@.title == Some("👥 Team Commands"@),
        r@.description == Some("Manage your team stored by the bot:"@),
        r@.color == COLOR_ACCENT,
        r@.fields.len() == 1,
        r@.fields[0].name == "Commands"@,
        r@.fields[0].value == "`/team-name [name]` - View or set the team name\n`/team-add <ign> <country> <skill> [rank] [about] [discord]` - Add or update a member\n`/team-remove <ign>` - Remove a member by IGN\n`/team-list` - Show members grouped by rank\n`/online` - Check who is online in your team\n`/team-help` - Show this team help"@,
        !r@.fields[0].inline,
        r@.footer == Some(
            "💡 [brackets] for optional parameters, <brackets> for required parameters"@,
        ),
{
    let mut e = Rendered::new();
    e.title = Some(chars_to_string(&str_to_chars("👥 Team Commands")));
    e.description = Some(chars_to_string(&str_to_chars("Manage your team stored by the bot:")));
    e.color = COLOR_ACCENT;
    push_lit_field(
        &mut e,
        "Commands",
        "`/team-name [name]` - View or set the team name\n`/team-add <ign> <country> <skill> [rank] [about] [discord]` - Add or update a member\n`/team-remove <ign>` - Remove a member by IGN\n`/team-list` - Show members grouped by rank\n`/online` - Check who is online in your team\n`/team-help` - Show this team help",
    );
    e.footer = Some(
        chars_to_string(
            &str_to_chars(
                "💡 [brackets] for optional parameters, <brackets> for required parameters",
            ),
        ),
    );
    e
}

} // verus!
