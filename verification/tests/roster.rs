//! Team roster checks: ranks, edits keyed by case-folded name, ordering,
//! flags and the roster embeds.

use donutbot::team::{flag_from_code, lex_le_chars};
use donutbot::teamview::{
    online_status_embed, team_name_embed, team_overview_embed, PresenceEntry,
};
use donutbot::text::str_to_chars;
use donutbot::{country_flag, remove_member, set_name, sort_members, upsert_member, Rank, Team,
    TeamMember};

fn member(ign: &str, rank: Rank) -> TeamMember {
    TeamMember {
        ign: String::from(ign),
        country: String::from(""),
        skill: String::from("building"),
        about: String::from(""),
        discord_tag: String::from(""),
        rank,
    }
}

#[test]
fn rank_from_str_folds_case() {
    assert_eq!(Rank::from_str("OWNER"), Rank::Owner);
    assert_eq!(Rank::from_str("Admin"), Rank::Admin);
    assert_eq!(Rank::from_str("member"), Rank::Member);
    assert_eq!(Rank::from_str("whatever"), Rank::Member);
}

#[test]
fn rank_texts() {
    assert_eq!(Rank::Owner.as_str(), "Owner");
    assert_eq!(Rank::Admin.emoji(), "🛡️");
    assert_eq!(Rank::Member.sort_key(), 2);
    assert_eq!(Rank::Owner.sort_key(), 0);
}

#[test]
fn default_team_is_empty() {
    let t = Team::default();
    assert_eq!(t.name, "My Team");
    assert!(t.members.is_empty());
}

#[test]
fn set_name_trims() {
    let mut t = Team::default();
    set_name(&mut t, "  The A Team  ");
    assert_eq!(t.name, "The A Team");
}

#[test]
fn upsert_adds_then_replaces_case_insensitively() {
    let mut t = Team::default();
    let added = upsert_member(&mut t, member("Steve", Rank::Member));
    assert!(!added);
    assert_eq!(t.members.len(), 1);
    let updated = upsert_member(&mut t, member("STEVE", Rank::Admin));
    assert!(updated);
    assert_eq!(t.members.len(), 1);
    assert_eq!(t.members[0].ign, "STEVE");
    assert_eq!(t.members[0].rank, Rank::Admin);
}

#[test]
fn remove_is_case_insensitive() {
    let mut t = Team::default();
    upsert_member(&mut t, member("Steve", Rank::Member));
    upsert_member(&mut t, member("Ann", Rank::Member));
    let removed = remove_member(&mut t, "steve");
    assert!(removed);
    assert_eq!(t.members.len(), 1);
    assert_eq!(t.members[0].ign, "Ann");
    let removed_again = remove_member(&mut t, "steve");
    assert!(!removed_again);
}

#[test]
fn sort_orders_by_rank_then_name() {
    let members = vec![
        member("zoe", Rank::Member),
        member("Bob", Rank::Owner),
        member("alice", Rank::Member),
        member("Carl", Rank::Admin),
    ];
    let sorted = sort_members(members);
    let names: Vec<&str> = sorted.iter().map(|m| m.ign.as_str()).collect();
    assert_eq!(names, vec!["Bob", "Carl", "alice", "zoe"]);
}

#[test]
fn lex_compare_folds_nothing_by_itself() {
    assert!(lex_le_chars(&str_to_chars("abc"), &str_to_chars("abd")));
    assert!(lex_le_chars(&str_to_chars("ab"), &str_to_chars("abc")));
    assert!(!lex_le_chars(&str_to_chars("b"), &str_to_chars("ab")));
}

#[test]
fn flags_from_codes_and_names() {
    assert_eq!(country_flag("DE"), "\u{1F1E9}\u{1F1EA}");
    assert_eq!(country_flag("de"), "\u{1F1E9}\u{1F1EA}");
    assert_eq!(country_flag("Germany"), "\u{1F1E9}\u{1F1EA}");
    assert_eq!(country_flag(" netherlands "), "\u{1F1F3}\u{1F1F1}");
    assert_eq!(country_flag("Atlantis"), "");
    assert_eq!(country_flag(""), "");
    let direct = flag_from_code(&str_to_chars("be")).unwrap();
    let text: String = direct.into_iter().collect();
    assert_eq!(text, "\u{1F1E7}\u{1F1EA}");
    assert!(flag_from_code(&str_to_chars("b3")).is_none());
    assert!(flag_from_code(&str_to_chars("bel")).is_none());
}

#[test]
fn overview_groups_and_separates() {
    let mut t = Team::default();
    upsert_member(&mut t, member("zoe", Rank::Member));
    upsert_member(&mut t, member("Bob", Rank::Owner));
    let sorted = sort_members(std::mem::take(&mut t.members));
    t.members = sorted;
    let e = team_overview_embed(&t, None, None);
    assert_eq!(e.title.as_deref(), Some("👥 My Team"));
    let names: Vec<&str> = e.fields.iter().map(|f| f.name.as_str()).collect();
    assert_eq!(
        names,
        vec!["👑 Owner (1)", "Bob", "\u{200B}", "👤 Member (1)", "zoe"]
    );
    assert!(e.fields[1].value.contains("Skill: building"));
}

#[test]
fn overview_empty_roster_notice() {
    let t = Team::default();
    let e = team_overview_embed(&t, None, None);
    assert_eq!(
        e.description.as_deref(),
        Some("No members yet. Use /team-add to add someone.")
    );
    assert!(e.fields.is_empty());
}

#[test]
fn overview_with_presence_markers() {
    let mut t = Team::default();
    upsert_member(&mut t, member("Ann", Rank::Owner));
    upsert_member(&mut t, member("Bob", Rank::Owner));
    let presence = vec![
        PresenceEntry {
            ign: String::from("Ann"),
            online: true,
            location: Some(String::from("spawn")),
        },
        PresenceEntry { ign: String::from("Bob"), online: false, location: None },
    ];
    let e = team_overview_embed(&t, Some(&presence), Some("Last updated: now (UTC)"));
    let names: Vec<&str> = e.fields.iter().map(|f| f.name.as_str()).collect();
    assert_eq!(
        names,
        vec!["👑 Owner (2)", "Ann    [ 🟢 - spawn]", "Bob    [ 🔴 ]"]
    );
    assert_eq!(e.footer.as_deref(), Some("Last updated: now (UTC)"));
}

#[test]
fn online_listing_lines() {
    let rows = vec![
        PresenceEntry { ign: String::from("Ann"), online: true, location: None },
        PresenceEntry { ign: String::from("Bob"), online: false, location: None },
    ];
    let e = online_status_embed("My Team", &rows);
    assert_eq!(e.title.as_deref(), Some("👥 My Team — Online Status"));
    assert_eq!(e.description.as_deref(), Some("🟢 Ann\n🔴 Bob"));
}

#[test]
fn name_embeds() {
    let e = team_name_embed("Crew", true);
    assert_eq!(e.title.as_deref(), Some("👥 Team Name Updated"));
    assert_eq!(e.description.as_deref(), Some("Team name set to: **Crew**"));
    let e = team_name_embed("Crew", false);
    assert_eq!(e.description.as_deref(), Some("Current team name: **Crew**"));
}

#[test]
fn member_saved_wording() {
    let e = donutbot::teamview::member_saved_embed("Ann", "Germany", Some("admin"), "Crew", false);
    assert_eq!(
        e.description.as_deref(),
        Some("\u{1F1E9}\u{1F1EA} Ann has been added to **Crew** as Admin.")
    );
    let e = donutbot::teamview::member_saved_embed("Ann", "", None, "Crew", true);
    assert_eq!(
        e.description.as_deref(),
        Some("Ann has been updated to **Crew** as Member.")
    );
}
