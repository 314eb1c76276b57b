//! Token codec, gateway classification and router planning checks.

use donutbot::codec::{
    decode_token_rest, encode_token_rest, target_page, PageAction, TokenError,
};
use donutbot::components::{auction_buttons, lb_buttons, txn_buttons, ButtonStyle};
use donutbot::gateway::{api_reply, classify_status, error_message, ApiOutcome, ApiReply};
use donutbot::router::{plan_command, plan_component, CommandPlan, ComponentPlan, OptVal};
use donutbot::text::{chars_to_string, str_to_chars};

fn decode(rest: &str) -> Result<donutbot::codec::TokenData, TokenError> {
    decode_token_rest(&str_to_chars(rest))
}

#[test]
fn token_round_trip_with_filters() {
    let enc = chars_to_string(&encode_token_rest(
        PageAction::Prev,
        5,
        Some("diamond sword"),
        Some("lowest_price"),
    ));
    assert_eq!(enc, "prev_5_diamond%20sword_lowest%5Fprice");
    let t = decode(&enc).unwrap();
    assert_eq!(t.action, PageAction::Prev);
    assert_eq!(t.page, 5);
    assert_eq!(t.search.as_deref(), Some("diamond sword"));
    assert_eq!(t.sort.as_deref(), Some("lowest_price"));
}

#[test]
fn token_round_trip_without_filters() {
    let enc = chars_to_string(&encode_token_rest(PageAction::Next, 1, None, None));
    assert_eq!(enc, "next_1__");
    let t = decode(&enc).unwrap();
    assert_eq!(t.action, PageAction::Next);
    assert_eq!(t.page, 1);
    assert_eq!(t.search, None);
    assert_eq!(t.sort, None);
}

#[test]
fn token_round_trip_hostile_search() {
    // a search term full of structural characters cannot corrupt the token
    let enc = chars_to_string(&encode_token_rest(
        PageAction::Next,
        7,
        Some("a_b %20 next_3"),
        None,
    ));
    let t = decode(&enc).unwrap();
    assert_eq!(t.page, 7);
    assert_eq!(t.search.as_deref(), Some("a_b %20 next_3"));
    assert_eq!(t.sort, None);
}

#[test]
fn token_decode_errors() {
    assert_eq!(decode("x").unwrap_err(), TokenError::Malformed);
    assert_eq!(decode("sideways_3").unwrap_err(), TokenError::UnknownAction);
    assert_eq!(decode("next_abc").unwrap_err(), TokenError::BadPage);
    assert_eq!(decode("next_").unwrap_err(), TokenError::BadPage);
    assert_eq!(decode("next_4294967296").unwrap_err(), TokenError::BadPage);
}

#[test]
fn token_bad_filter_degrades() {
    let t = decode("next_2_%GG_").unwrap();
    assert_eq!(t.page, 2);
    assert_eq!(t.search, None);
    assert_eq!(t.sort, None);
}

#[test]
fn target_page_floors_and_advances() {
    assert_eq!(target_page(PageAction::Prev, 1), 1);
    assert_eq!(target_page(PageAction::Prev, 2), 1);
    assert_eq!(target_page(PageAction::Prev, 10), 9);
    assert_eq!(target_page(PageAction::Next, 1), 2);
    assert_eq!(target_page(PageAction::Next, 41), 42);
}

#[test]
fn status_table() {
    assert_eq!(classify_status(200, "/v1/stats/x"), ApiOutcome::Success);
    assert_eq!(classify_status(500, "/v1/lookup/x"), ApiOutcome::LookupOffline);
    assert_eq!(classify_status(500, "/v1/stats/x"), ApiOutcome::ServerError);
    assert_eq!(classify_status(401, "/v1/stats/x"), ApiOutcome::AuthError);
    assert_eq!(classify_status(403, "/v1/stats/x"), ApiOutcome::Forbidden);
    assert_eq!(classify_status(404, "/v1/stats/x"), ApiOutcome::NotFound);
    assert_eq!(classify_status(429, "/v1/stats/x"), ApiOutcome::RateLimited);
    assert_eq!(classify_status(503, "/v1/lookup/x"), ApiOutcome::ServerError);
    assert_eq!(classify_status(418, "/v1/stats/x"), ApiOutcome::OtherHttp(418));
}

#[test]
fn error_messages() {
    assert_eq!(
        error_message(&ApiOutcome::AuthError),
        "❌ **Authentication Error**: Invalid API key"
    );
    assert_eq!(
        error_message(&ApiOutcome::ServerError),
        "❌ **Server Error**: The server encountered an error"
    );
    assert_eq!(
        error_message(&ApiOutcome::OtherHttp(418)),
        "❌ **Error**: API returned HTTP 418"
    );
}

#[test]
fn lookup_offline_reply() {
    let r = api_reply("/v1/lookup/Steve", "🔍 Player Lookup: Steve", 500, "", 0);
    match r {
        ApiReply::Embed(e) => {
            assert_eq!(e.description.as_deref(), Some("🔴 Player is offline"));
            assert_eq!(e.title.as_deref(), Some("🔍 Player Lookup: Steve"));
        },
        _ => panic!("expected an embed"),
    }
}

#[test]
fn other_500_is_an_error_reply() {
    let r = api_reply("/v1/stats/Steve", "t", 500, "", 0);
    match r {
        ApiReply::Embed(e) => {
            assert_eq!(e.title.as_deref(), Some("DonutSMP API Error"));
            assert_eq!(
                e.description.as_deref(),
                Some("❌ **Server Error**: The server encountered an error")
            );
            assert_eq!(e.footer.as_deref(), Some("Status: 500 | Path: /v1/stats/Steve"));
        },
        _ => panic!("expected an embed"),
    }
}

#[test]
fn success_unreadable_body_reports_parse_failure() {
    let r = api_reply("/v1/lookup/Steve", "t", 200, "{broken", 0);
    assert!(matches!(r, ApiReply::ParseFailed(_)));
}

#[test]
fn unknown_path_falls_back_to_raw_json() {
    let r = api_reply("/v1/other", "t", 200, "{\"a\":1}", 0);
    match r {
        ApiReply::Embed(e) => {
            assert_eq!(e.description.as_deref(), Some("```json\n{\n  \"a\": 1\n}\n```"));
        },
        _ => panic!("expected an embed"),
    }
}

#[test]
fn oversized_fallback_becomes_a_file() {
    let big: String = "x".repeat(5000);
    let body = format!("{{\"a\":\"{}\"}}", big);
    let r = api_reply("/v1/other/path", "Title", 200, &body, 0);
    match r {
        ApiReply::File { filename, content, note } => {
            assert_eq!(filename, "v1_other_path.json");
            assert!(content.len() > 4000);
            assert!(note.starts_with("Title — Response attached ("));
            assert!(note.ends_with(" bytes)"));
        },
        _ => panic!("expected a file"),
    }
}

fn topt(name: &str, v: &str) -> (String, OptVal) {
    (String::from(name), OptVal::Text(String::from(v)))
}

#[test]
fn plan_lookup() {
    let opts = vec![topt("user", "Steve Smith")];
    match plan_command("lookup", &opts) {
        CommandPlan::Api { path, title } => {
            assert_eq!(path, "/v1/lookup/Steve%20Smith");
            assert_eq!(title, "🔍 Player Lookup: Steve Smith");
        },
        _ => panic!("expected an api plan"),
    }
}

#[test]
fn plan_leaderboard_defaults_page() {
    let opts = vec![topt("type", "money")];
    match plan_command("leaderboard", &opts) {
        CommandPlan::Leaderboard { path, lb_type, page } => {
            assert_eq!(path, "/v1/leaderboards/money/1");
            assert_eq!(lb_type, "money");
            assert_eq!(page, 1);
        },
        _ => panic!("expected a leaderboard plan"),
    }
}

#[test]
fn plan_auction_with_filters() {
    let opts = vec![
        (String::from("page"), OptVal::Int(3)),
        topt("search", "sword"),
        topt("sort", "lowest_price"),
    ];
    match plan_command("auction", &opts) {
        CommandPlan::Auction { path, title, page, search, sort } => {
            assert_eq!(path, "/v1/auction/list/3");
            assert_eq!(page, 3);
            assert_eq!(search.as_deref(), Some("sword"));
            assert_eq!(sort.as_deref(), Some("lowest_price"));
            assert_eq!(title, "🏪 Auction House (Page 3) | 🔍 'sword' | 💰 lowest price");
        },
        _ => panic!("expected an auction plan"),
    }
}

#[test]
fn plan_unknown_command() {
    let opts = vec![];
    assert!(matches!(plan_command("dance", &opts), CommandPlan::Unknown));
}

#[test]
fn plan_component_auction_next() {
    match plan_component("auction_next_3_sword_").unwrap() {
        ComponentPlan::Auction { new_page, search, sort, path, title } => {
            assert_eq!(new_page, 4);
            assert_eq!(search.as_deref(), Some("sword"));
            assert_eq!(sort, None);
            assert_eq!(path, "/v1/auction/list/4");
            assert_eq!(title, "🏪 Auction House (Page 4) | 🔍 'sword'");
        },
        _ => panic!("expected an auction plan"),
    }
}

#[test]
fn plan_component_prev_floors_at_one() {
    match plan_component("transaction_prev_1__").unwrap() {
        ComponentPlan::Transactions { new_page, path, .. } => {
            assert_eq!(new_page, 1);
            assert_eq!(path, "/v1/auction/transactions/1");
        },
        _ => panic!("expected a transactions plan"),
    }
}

#[test]
fn plan_component_leaderboard() {
    match plan_component("leaderboard_next_2_money_").unwrap() {
        ComponentPlan::Leaderboard { new_page, lb_type, path } => {
            assert_eq!(new_page, 3);
            assert_eq!(lb_type, "money");
            assert_eq!(path, "/v1/leaderboards/money/3");
        },
        _ => panic!("expected a leaderboard plan"),
    }
}

#[test]
fn plan_component_static_and_foreign_ids() {
    assert_eq!(
        plan_component("auction_current").unwrap_err(),
        TokenError::Malformed
    );
    assert!(matches!(
        plan_component("something_else").unwrap(),
        ComponentPlan::Ignore
    ));
}

#[test]
fn buttons_carry_tokens() {
    let b = auction_buttons(3, Some("iron ore"), None);
    assert_eq!(b.len(), 3);
    assert_eq!(b[0].label, "⬅");
    assert_eq!(b[0].custom_id, "auction_prev_3_iron%20ore_");
    assert!(!b[0].disabled);
    assert_eq!(b[0].style, ButtonStyle::Secondary);
    assert_eq!(b[1].label, "Page 3");
    assert_eq!(b[1].custom_id, "auction_current");
    assert!(b[1].disabled);
    assert_eq!(b[1].style, ButtonStyle::Primary);
    assert_eq!(b[2].custom_id, "auction_next_3_iron%20ore_");
}

#[test]
fn buttons_disable_prev_on_first_page() {
    let b = txn_buttons(1, None, None);
    assert!(b[0].disabled);
    assert_eq!(b[0].custom_id, "transaction_prev_1__");
}

#[test]
fn leaderboard_buttons_round_trip() {
    let b = lb_buttons(2, "kills");
    assert_eq!(b[2].custom_id, "leaderboard_next_2_kills_");
    match plan_component(&b[2].custom_id).unwrap() {
        ComponentPlan::Leaderboard { new_page, lb_type, .. } => {
            assert_eq!(new_page, 3);
            assert_eq!(lb_type, "kills");
        },
        _ => panic!("expected a leaderboard plan"),
    }
}

#[test]
fn stats_reply_paths() {
    let bad = donutbot::router::stats_reply(500, "", "Steve");
    assert_eq!(bad.title.as_deref(), Some("Error"));
    assert_eq!(bad.description.as_deref(), Some("❌ API Error: 500"));
    let unparsed = donutbot::router::stats_reply(200, "{nope", "Steve");
    assert!(unparsed
        .description
        .unwrap()
        .starts_with("❌ Failed to parse response: "));
    let good = donutbot::router::stats_reply(200, "{\"result\":{\"kills\":\"3\"}}", "Steve");
    assert_eq!(good.title.as_deref(), Some("📊 Player Stats: Steve"));
    assert_eq!(good.description.as_deref(), Some("⚔️ **Kills:** 3"));
}

#[test]
fn auction_embed_reply() {
    let body = "{\"result\":[{\"item\":{\"display_name\":\"Stone\"},\"price\":5,\"seller\":{\"name\":\"Bob\"}}]}";
    let e = donutbot::router::auction_embed(body, "Title", Some("stone"), None, 1).unwrap();
    assert_eq!(e.title.as_deref(), Some("Title"));
    assert_eq!(e.footer.as_deref(), Some("🔍 Search: 'stone'"));
    assert_eq!(
        e.description.as_deref(),
        Some("**1**. Stone - **$5**\n└ *Seller: Bob*")
    );
    let bad = donutbot::router::auction_embed("{\"status\":\"down\"}", "T", None, None, 1).unwrap();
    assert_eq!(bad.description.as_deref(), Some("❌ API Error: down"));
    assert_eq!(bad.footer, None);
}

#[test]
fn leaderboard_reply_paths() {
    let bad = donutbot::router::leaderboard_reply(502, "", "money", 1);
    assert_eq!(bad.description.as_deref(), Some("❌ API Error: 502"));
    let body = "{\"result\":[{\"username\":\"a\",\"value\":\"5\"}]}";
    let good = donutbot::router::leaderboard_reply(200, body, "kills", 1);
    assert_eq!(good.title.as_deref(), Some("⚔️ Kills Leaderboard (Page 1)"));
    assert!(good.description.unwrap().contains("🥇 **#1** a - 5"));
}

#[test]
fn auction_embed_unreadable_body() {
    assert!(donutbot::router::auction_embed("{oops", "T", None, None, 1).is_err());
}

#[test]
fn plan_command_page_clamped() {
    let opts = vec![(String::from("page"), OptVal::Int(-4))];
    match plan_command("auction", &opts) {
        CommandPlan::Auction { page, path, .. } => {
            assert_eq!(page, 1);
            assert_eq!(path, "/v1/auction/list/1");
        },
        _ => panic!("expected an auction plan"),
    }
}

#[test]
fn token_page_zero_still_advances_to_one() {
    match plan_component("auction_prev_0__").unwrap() {
        ComponentPlan::Auction { new_page, .. } => assert_eq!(new_page, 1),
        _ => panic!("expected an auction plan"),
    }
}

#[test]
fn oversized_search_is_shed_from_control_ids() {
    let huge = "x".repeat(200);
    let b = auction_buttons(2, Some(&huge), Some("lowest_price"));
    assert!(b[0].custom_id.chars().count() <= 100);
    assert!(b[2].custom_id.chars().count() <= 100);
    // the sort filter survives; the search is dropped
    assert_eq!(b[2].custom_id, "auction_next_2__lowest%5Fprice");
    match plan_component(&b[2].custom_id).unwrap() {
        ComponentPlan::Auction { new_page, search, sort, .. } => {
            assert_eq!(new_page, 3);
            assert_eq!(search, None);
            assert_eq!(sort.as_deref(), Some("lowest_price"));
        },
        _ => panic!("expected an auction plan"),
    }
}
