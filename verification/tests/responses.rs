//! Normalizer checks: parsing real reply text, the page formatters with
//! their numbering and medals, and the dispatch by path.

use donutbot::json::JsonVal;
use donutbot::render::Rendered;
use donutbot::response_formatters::{classify_path, format_api_response, Endpoint};
use donutbot::{
    format_auction_response_with_page, format_leaderboard_response, format_stats_response,
    parse_json,
};

fn obj(pairs: Vec<(&str, JsonVal)>) -> JsonVal {
    JsonVal::Obj(pairs.into_iter().map(|(k, v)| (String::from(k), v)).collect())
}

fn s(text: &str) -> JsonVal {
    JsonVal::Str(String::from(text))
}

fn auction_item(name: &str, price: i64, seller: &str) -> JsonVal {
    obj(vec![
        ("item", obj(vec![("display_name", s(name))])),
        ("price", JsonVal::Int(price)),
        ("seller", obj(vec![("name", s(seller))])),
    ])
}

#[test]
fn parse_json_reads_text() {
    let v = parse_json("{\"a\": 1, \"b\": [true, null]}").unwrap();
    assert_eq!(v.get("a").and_then(|x| x.as_i64()), Some(1));
    assert!(parse_json("{nope").is_err());
}

#[test]
fn parse_json_then_reserialize() {
    let v = parse_json("{\"a\":1,\"b\":[null,true,\"x\"]}").unwrap();
    assert_eq!(
        donutbot::serialize::to_compact_string(&v),
        "{\"a\":1,\"b\":[null,true,\"x\"]}"
    );
}

#[test]
fn auction_single_entry_text() {
    let items = vec![auction_item("Stone", 5, "Bob")];
    let mut e = Rendered::new();
    format_auction_response_with_page(&items, &mut e, 1);
    assert_eq!(
        e.description.as_deref(),
        Some("**1**. Stone - **$5**\n└ *Seller: Bob*")
    );
}

#[test]
fn auction_page_three_numbering() {
    let items: Vec<JsonVal> = (0..10).map(|i| auction_item("Stone", i, "Bob")).collect();
    let mut e = Rendered::new();
    format_auction_response_with_page(&items, &mut e, 3);
    let desc = e.description.unwrap();
    assert!(desc.starts_with("**21**. "));
    assert!(desc.contains("**30**. "));
    assert!(!desc.contains("**31**. "));
    assert!(!desc.contains("**20**. "));
}

#[test]
fn auction_caps_at_ten_entries() {
    let items: Vec<JsonVal> = (0..12).map(|i| auction_item("Stone", i, "Bob")).collect();
    let mut e = Rendered::new();
    format_auction_response_with_page(&items, &mut e, 1);
    let desc = e.description.unwrap();
    assert!(desc.contains("**10**. "));
    assert!(!desc.contains("**11**. "));
}

#[test]
fn auction_empty_page_notice() {
    let items: Vec<JsonVal> = vec![];
    let mut e = Rendered::new();
    format_auction_response_with_page(&items, &mut e, 2);
    assert_eq!(
        e.description.as_deref(),
        Some("🏪 No auction entries found on this page.")
    );
}

#[test]
fn auction_prettifies_namespaced_names() {
    let items = vec![auction_item("minecraft:oak_log", 7, "Ann")];
    let mut e = Rendered::new();
    format_auction_response_with_page(&items, &mut e, 1);
    let desc = e.description.unwrap();
    assert!(desc.contains("oak log"));
    assert!(!desc.contains("minecraft:"));
}

#[test]
fn auction_enchants_and_count() {
    let item = obj(vec![
        (
            "item",
            obj(vec![
                ("display_name", s("Sword")),
                ("count", JsonVal::Int(3)),
                (
                    "enchants",
                    obj(vec![(
                        "enchantments",
                        obj(vec![(
                            "levels",
                            obj(vec![
                                ("minecraft:sharpness", JsonVal::Int(5)),
                                ("minecraft:unbreaking", JsonVal::Int(1)),
                            ]),
                        )]),
                    )]),
                ),
            ]),
        ),
        ("price", JsonVal::Int(1000)),
        ("seller", obj(vec![("name", s("Ann"))])),
    ]);
    let mut e = Rendered::new();
    format_auction_response_with_page(&vec![item], &mut e, 1);
    assert_eq!(
        e.description.as_deref(),
        Some("**1**. 3x Sword (sharpness 5, unbreaking) - **$1.000**\n└ *Seller: Ann*")
    );
}

#[test]
fn leaderboard_five_entries_medals() {
    let entries: Vec<JsonVal> = (1..=5)
        .map(|i| {
            obj(vec![
                ("username", s(&format!("player{}", i))),
                ("value", s(&format!("{}", 1000 * i))),
            ])
        })
        .collect();
    let json = obj(vec![("result", JsonVal::Arr(entries))]);
    let mut e = Rendered::new();
    format_leaderboard_response(&json, &mut e, "kills", 1);
    let desc = e.description.unwrap();
    let lines: Vec<&str> = desc.lines().collect();
    assert_eq!(lines.len(), 5);
    assert!(lines[0].starts_with("🥇 **#1** player1"));
    assert!(lines[1].starts_with("🥈 **#2** player2"));
    assert!(lines[2].starts_with("🥉 **#3** player3"));
    assert!(lines[3].starts_with("   **#4** player4") || lines[3].starts_with("  **#4** player4"));
    assert!(!lines[3].contains("🥉"));
    assert!(!lines[4].contains("🥇"));
    assert_eq!(e.footer.as_deref(), Some("Page 1 • Showing 5 entries"));
    assert_eq!(e.title.as_deref(), Some("⚔️ Kills Leaderboard (Page 1)"));
}

#[test]
fn leaderboard_page_two_has_no_medals() {
    let entries: Vec<JsonVal> = (1..=3)
        .map(|i| {
            obj(vec![
                ("username", s(&format!("p{}", i))),
                ("value", s("10")),
            ])
        })
        .collect();
    let json = obj(vec![("result", JsonVal::Arr(entries))]);
    let mut e = Rendered::new();
    format_leaderboard_response(&json, &mut e, "kills", 2);
    let desc = e.description.unwrap();
    assert!(desc.contains("**#21**"));
    assert!(!desc.contains("🥇"));
}

#[test]
fn leaderboard_money_and_playtime_values() {
    let entries = vec![
        obj(vec![("username", s("a")), ("value", s("1234567"))]),
    ];
    let json = obj(vec![("result", JsonVal::Arr(entries))]);
    let mut e = Rendered::new();
    format_leaderboard_response(&json, &mut e, "money", 1);
    assert!(e.description.unwrap().contains("$1.234.567"));

    let entries = vec![
        obj(vec![("username", s("a")), ("value", s("90000"))]),
    ];
    let json = obj(vec![("result", JsonVal::Arr(entries))]);
    let mut e = Rendered::new();
    format_leaderboard_response(&json, &mut e, "playtime", 1);
    assert!(e.description.unwrap().contains(" - 1m"));
}

#[test]
fn leaderboard_not_found() {
    let json = obj(vec![("message", s("nope"))]);
    let mut e = Rendered::new();
    format_leaderboard_response(&json, &mut e, "money", 1);
    assert_eq!(e.title.as_deref(), Some("❌ money Leaderboard not found"));
    assert_eq!(e.description.as_deref(), Some("Could not load leaderboard data."));
}

#[test]
fn stats_full_body() {
    let stats = obj(vec![
        ("money", s("1234567")),
        ("kills", s("12")),
        ("playtime", s("90000")),
    ]);
    let json = obj(vec![("result", stats)]);
    let mut e = Rendered::new();
    format_stats_response(&json, &mut e, "Steve");
    assert_eq!(e.title.as_deref(), Some("📊 Player Stats: Steve"));
    let desc = e.description.unwrap();
    assert!(desc.contains("💰 **Money:** $1.234.567"));
    assert!(desc.contains("⚔️ **Kills:** 12"));
    assert!(desc.contains("🕒 **Playtime:** 1m"));
}

#[test]
fn stats_not_found() {
    let json = obj(vec![("status", JsonVal::Int(404))]);
    let mut e = Rendered::new();
    format_stats_response(&json, &mut e, "Steve");
    assert_eq!(e.title.as_deref(), Some("❌ Stats not found for Steve"));
    assert_eq!(e.description.as_deref(), Some("Could not find stats for this player."));
}

#[test]
fn classify_path_families() {
    assert_eq!(classify_path("/v1/lookup/Steve"), Some(Endpoint::Lookup));
    assert_eq!(classify_path("/v1/stats/Steve"), Some(Endpoint::Stats));
    assert_eq!(classify_path("/v1/leaderboards/money/1"), Some(Endpoint::Leaderboard));
    assert_eq!(classify_path("/v1/auction/list/1"), Some(Endpoint::AuctionList));
    assert_eq!(
        classify_path("/v1/auction/transactions/1"),
        Some(Endpoint::AuctionTransactions)
    );
    assert_eq!(classify_path("/v1/online"), Some(Endpoint::Online));
    assert_eq!(classify_path("/v1/server"), Some(Endpoint::Server));
    assert_eq!(classify_path("/v1/other"), None);
}

#[test]
fn dispatch_renders_lookup_fields() {
    let json = obj(vec![(
        "result",
        obj(vec![("username", s("Steve")), ("location", s("spawn"))]),
    )]);
    let mut e = Rendered::new();
    let claimed = format_api_response(&json, "/v1/lookup/Steve", &mut e, 0);
    assert!(claimed);
    assert_eq!(e.fields.len(), 2);
    assert_eq!(e.fields[0].name, "Username");
    assert_eq!(e.fields[0].value, "Steve");
    assert_eq!(e.fields[1].name, "Location");
    assert_eq!(e.fields[1].value, "spawn");
}

#[test]
fn dispatch_lookup_falls_back_to_status_message() {
    let json = obj(vec![
        ("status", JsonVal::Int(404)),
        ("message", s("no such player")),
    ]);
    let mut e = Rendered::new();
    let claimed = format_api_response(&json, "/v1/lookup/x", &mut e, 0);
    assert!(claimed);
    assert_eq!(e.fields.len(), 2);
    assert_eq!(e.fields[0].name, "📊 Status");
    assert_eq!(e.fields[0].value, "404");
    assert_eq!(e.fields[1].name, "💬 Message");
    assert_eq!(e.fields[1].value, "no such player");
}

#[test]
fn dispatch_unknown_path_claims_nothing() {
    let json = obj(vec![("a", JsonVal::Int(1))]);
    let mut e = Rendered::new();
    let claimed = format_api_response(&json, "/v1/other", &mut e, 0);
    assert!(!claimed);
    assert!(e.fields.is_empty());
    assert!(e.description.is_none());
}

#[test]
fn transactions_entry_with_age() {
    let txn = obj(vec![
        ("item", obj(vec![("display_name", s("Stone"))])),
        ("price", JsonVal::Int(250)),
        ("seller", obj(vec![("name", s("Ann"))])),
        ("buyer", obj(vec![("name", s("Bob"))])),
        ("timestamp", JsonVal::Int(1000)),
    ]);
    let json = obj(vec![("result", JsonVal::Arr(vec![txn]))]);
    let mut e = Rendered::new();
    // two days later
    let claimed = donutbot::response_formatters::format_auction_transactions_response(
        &json,
        &mut e,
        1000 + 2 * 86400,
    );
    assert!(claimed);
    assert_eq!(
        e.description.as_deref(),
        Some("**1**. **Stone** - **$250**\n└ *Ann → Bob | 2d ago*")
    );
}

#[test]
fn online_reply_fields() {
    let json = obj(vec![(
        "result",
        obj(vec![
            ("online", JsonVal::Int(3)),
            ("max", JsonVal::Int(100)),
            (
                "players",
                JsonVal::Arr(vec![s("a"), s("b"), JsonVal::Int(9), s("c")]),
            ),
        ]),
    )]);
    let mut e = Rendered::new();
    let claimed = donutbot::response_formatters::format_online_response(&json, &mut e);
    assert!(claimed);
    assert_eq!(e.fields[0].name, "👥 Players Online");
    assert_eq!(e.fields[0].value, "3");
    assert_eq!(e.fields[1].name, "🏠 Max Players");
    assert_eq!(e.fields[1].value, "100");
    assert_eq!(e.fields[2].name, "📋 Player List");
    assert_eq!(e.fields[2].value, "a, b, c");
}

#[test]
fn server_reply_fields() {
    let json = obj(vec![(
        "result",
        obj(vec![("name", s("Main")), ("version", s("1.20"))]),
    )]);
    let mut e = Rendered::new();
    let claimed = donutbot::response_formatters::format_server_response(&json, &mut e);
    assert!(claimed);
    assert_eq!(e.fields[0].name, "🌐 Server");
    assert_eq!(e.fields[0].value, "Main");
    assert_eq!(e.fields[1].name, "📦 Version");
    assert_eq!(e.fields[1].value, "1.20");
}
