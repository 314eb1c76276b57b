//! Rendering the roster: the grouped member overview (also used by the
//! recurring online-status post), the online listing, and the small
//! confirmation embeds of the team commands.

use vstd::prelude::*;
use vstd::string::*;

use crate::numfmt::dec_digits;
use crate::render::{
    spec_empty_rendered, Rendered, SpecField, SpecRendered, COLOR_ACCENT,
};
use crate::team::{spec_country_flag, country_flag, Rank, SpecMember, SpecTeam, Team};
use crate::text::{append_str, chars_to_string, str_to_chars};

verus! {

/// What the bot knows of one member's presence when it renders.
pub struct PresenceEntry {
    pub ign: String,
    pub online: bool,
    pub location: Option<String>,
}

/// The mathematical image of a [`PresenceEntry`].
pub ghost struct SpecPresence {
    pub ign: Seq<char>,
    pub online: bool,
    pub location: Option<Seq<char>>,
}

impl View for PresenceEntry {
    type V = SpecPresence;

    open spec fn view(&self) -> SpecPresence {
        SpecPresence { ign: self.ign@, online: self.online, location: self.location.deep_view() }
    }
}

impl DeepView for PresenceEntry {
    type V = SpecPresence;

    open spec fn deep_view(&self) -> SpecPresence {
        self.view()
    }
}

/// The first presence entry for `ign`, by exact name.
pub open spec fn spec_presence_of(ps: Seq<SpecPresence>, ign: Seq<char>) -> Option<SpecPresence>
    decreases ps.len(),
{
    if ps.len() == 0 {
        None
    } else if ps[0].ign == ign {
        Some(ps[0])
    } else {
        spec_presence_of(ps.drop_first(), ign)
    }
}

/// A member's body text: country (with its flag when known), skill,
/// contact handle, and the free-text note when there is one.
pub open spec fn spec_member_value(m: SpecMember) -> Seq<char> {
    let flag = spec_country_flag(m.country);
    let country_display = if flag.len() == 0 {
        m.country
    } else {
        m.country + " ("@ + flag + ")"@
    };
    let discord = if m.discord_tag.len() == 0 {
        "-"@
    } else {
        m.discord_tag
    };
    let base = "Country: "@ + country_display + "\nSkill: "@ + m.skill + "\nDiscord: "@ + discord;
    if m.about.len() > 0 {
        base + "\nAbout: "@ + m.about
    } else {
        base
    }
}

/// A member's field name: the bare name for the roster listing, or the
/// name with an online/offline marker (and location when known) for the
/// status post.
pub open spec fn spec_member_name(m: SpecMember, ps: Option<Seq<SpecPresence>>) -> Seq<char> {
    match ps {
        None => m.ign,
        Some(list) => match spec_presence_of(list, m.ign) {
            Some(p) => if p.online {
                match p.location {
                    Some(l) => m.ign + "    [ 🟢 - "@ + l + "]"@,
                    None => m.ign + "    [ 🟢 ]"@,
                }
            } else {
                m.ign + "    [ 🔴 ]"@
            },
            None => m.ign + "    [ 🔴 ]"@,
        },
    }
}

/// How many of the first `k` members hold `rank`.
pub open spec fn spec_rank_count(members: Seq<SpecMember>, rank: Rank, k: int) -> int
    decreases k,
{
    if k <= 0 {
        0
    } else {
        spec_rank_count(members, rank, k - 1) + (if members[k - 1].rank == rank {
            1int
        } else {
            0int
        })
    }
}

/// The member fields of one rank group, in roster order, from the first
/// `k` members.
pub open spec fn spec_rank_fields(
    members: Seq<SpecMember>,
    ps: Option<Seq<SpecPresence>>,
    rank: Rank,
    k: int,
) -> Seq<SpecField>
    decreases k,
{
    if k <= 0 {
        Seq::empty()
    } else {
        let prev = spec_rank_fields(members, ps, rank, k - 1);
        if members[k - 1].rank == rank {
            prev.push(
                SpecField {
                    name: spec_member_name(members[k - 1], ps),
                    value: spec_member_value(members[k - 1]),
                    inline: false,
                },
            )
        } else {
            prev
        }
    }
}

/// A group header: the rank's marker, display name and head count, over a
/// zero-width value.
pub open spec fn spec_group_header(rank: Rank, count: int) -> SpecField {
    SpecField {
        name: crate::team::spec_rank_emoji(rank) + " "@ + crate::team::spec_rank_text(rank) + " ("@
            + dec_digits(count as nat) + ")"@,
        value: "\u{200B}"@,
        inline: false,
    }
}

/// The zero-width separator row between rank groups.
pub open spec fn spec_group_sep() -> SpecField {
    SpecField { name: "\u{200B}"@, value: "\u{200B}"@, inline: false }
}

/// The field list of the whole roster: each non-empty rank group under its
/// header, groups separated by a zero-width row.
pub open spec fn spec_team_fields(
    members: Seq<SpecMember>,
    ps: Option<Seq<SpecPresence>>,
) -> Seq<SpecField> {
    let n = members.len() as int;
    let oc = spec_rank_count(members, Rank::Owner, n);
    let ac = spec_rank_count(members, Rank::Admin, n);
    let mc = spec_rank_count(members, Rank::Member, n);
    let owners = if oc > 0 {
        seq![spec_group_header(Rank::Owner, oc)] + spec_rank_fields(members, ps, Rank::Owner, n)
    } else {
        Seq::empty()
    };
    let sep1 = if oc > 0 && (ac > 0 || mc > 0) {
        seq![spec_group_sep()]
    } else {
        Seq::empty()
    };
    let admins = if ac > 0 {
        seq![spec_group_header(Rank::Admin, ac)] + spec_rank_fields(members, ps, Rank::Admin, n)
    } else {
        Seq::empty()
    };
    let sep2 = if ac > 0 && mc > 0 {
        seq![spec_group_sep()]
    } else {
        Seq::empty()
    };
    let mems = if mc > 0 {
        seq![spec_group_header(Rank::Member, mc)] + spec_rank_fields(members, ps, Rank::Member, n)
    } else {
        Seq::empty()
    };
    owners + sep1 + admins + sep2 + mems
}

/// The roster overview: title with the team name; the no-members notice
/// when the roster is empty, else the grouped member fields; an optional
/// footer.
pub open spec fn spec_team_overview(
    team: SpecTeam,
    ps: Option<Seq<SpecPresence>>,
    footer: Option<Seq<char>>,
) -> SpecRendered {
    SpecRendered {
        title: Some("👥 "@ + team.name),
        description: if team.members.len() == 0 {
            Some("No members yet. Use /team-add to add someone."@)
        } else {
            None
        },
        fields: if team.members.len() == 0 {
            Seq::empty()
        } else {
            spec_team_fields(team.members, ps)
        },
        footer,
        color: COLOR_ACCENT,
    }
}

fn presence_of<'a>(ps: &'a Vec<PresenceEntry>, ign: &str) -> (r: Option<&'a PresenceEntry>)
    ensures
        match r {
            Some(p) => spec_presence_of(ps.deep_view(), ign@) == Some(p@),
            None => spec_presence_of(ps.deep_view(), ign@) is None,
        },
{
    let mut i: usize = 0;
    assert(ps.deep_view().skip(0) =~= ps.deep_view());
    while i < ps.len()
        invariant
            i <= ps@.len(),
            spec_presence_of(ps.deep_view(), ign@) == spec_presence_of(
                ps.deep_view().skip(i as int),
                ign@,
            ),
        decreases ps@.len() - i,
    {
        proof {
            assert(ps.deep_view().skip(i as int)[0] == ps.deep_view()[i as int]);
            assert(ps.deep_view().skip(i as int).drop_first() =~= ps.deep_view().skip(i + 1));
        }
        if crate::json::str_eq(ps[i].ign.as_str(), ign) {
            return Some(&ps[i]);
        }
        i = i + 1;
    }
    assert(ps.deep_view().skip(i as int).len() == 0);
    None
}

fn member_name_chars(m: &crate::team::TeamMember, ps: Option<&Vec<PresenceEntry>>) -> (r: Vec<
    char,
>)
    ensures
        r@ == spec_member_name(m@, ps.deep_view()),
{
    match ps {
        None => str_to_chars(m.ign.as_str()),
        Some(list) => {
            let mut r = str_to_chars(m.ign.as_str());
            match presence_of(list, m.ign.as_str()) {
                Some(p) => {
                    if p.online {
                        match &p.location {
                            Some(l) => {
                                append_str(&mut r, "    [ 🟢 - ");
                                append_str(&mut r, l.as_str());
                                r.push(']');
                                assert(r@ =~= m@.ign + "    [ 🟢 - "@ + l@ + "]"@) by {
                                    reveal_strlit("]");
                                }
                            },
                            None => {
                                append_str(&mut r, "    [ 🟢 ]");
                            },
                        }
                    } else {
                        append_str(&mut r, "    [ 🔴 ]");
                    }
                },
                None => {
                    append_str(&mut r, "    [ 🔴 ]");
                },
            }
            r
        },
    }
}

fn member_value_chars(m: &crate::team::TeamMember) -> (r: Vec<char>)
    ensures
        r@ == spec_member_value(m@),
{
    let mut r = str_to_chars("Country: ");
    let flag = country_flag(m.country.as_str());
    append_str(&mut r, m.country.as_str());
    if flag.as_str().unicode_len() > 0 {
        append_str(&mut r, " (");
        append_str(&mut r, flag.as_str());
        r.push(')');
    }
    append_str(&mut r, "\nSkill: ");
    append_str(&mut r, m.skill.as_str());
    append_str(&mut r, "\nDiscord: ");
    if m.discord_tag.as_str().unicode_len() == 0 {
        r.push('-');
    } else {
        append_str(&mut r, m.discord_tag.as_str());
    }
    if m.about.as_str().unicode_len() > 0 {
        append_str(&mut r, "\nAbout: ");
        append_str(&mut r, m.about.as_str());
    }
    assert(r@ =~= spec_member_value(m@)) by {
        reveal_strlit(")");
        reveal_strlit("-");
    }
    r
}

fn push_rank_group(
    embed: &mut Rendered,
    team: &Team,
    ps: Option<&Vec<PresenceEntry>>,
    rank: Rank,
)
    ensures
        (final(embed)@ == SpecRendered {
            fields: old(embed)@.fields + (if spec_rank_count(
                team@.members,
                rank,
                team@.members.len() as int,
            ) > 0 {
                seq![
                    spec_group_header(
                        rank,
                        spec_rank_count(team@.members, rank, team@.members.len() as int),
                    ),
                ] + spec_rank_fields(
                    team@.members,
                    ps.deep_view(),
                    rank,
                    team@.members.len() as int,
                )
            } else {
                Seq::empty()
            }),
            ..old(embed)@
        }),
{
    let n = team.members.len();
    let mut count: usize = 0;
    let mut i: usize = 0;
    while i < n
        invariant
            i <= n,
            n == team@.members.len(),
            count == spec_rank_count(team@.members, rank, i as int),
            count <= i,
        decreases n - i,
    {
        if team.members[i].rank == rank {
            count = count + 1;
        }
        i = i + 1;
    }
    if count == 0 {
        assert(embed@.fields =~= embed@.fields + Seq::<SpecField>::empty());
        return ;
    }
    let mut header = str_to_chars(rank.emoji());
    header.push(' ');
    append_str(&mut header, rank.as_str());
    append_str(&mut header, " (");
    let mut c = crate::numfmt::u64_to_chars(count as u64);
    header.append(&mut c);
    header.push(')');
    assert(header@ =~= spec_group_header(rank, count as int).name) by {
        reveal_strlit(" ");
        reveal_strlit(")");
    }
    embed.push_field(chars_to_string(&header), String::from_str("\u{200B}"), false);
    let ghost base = embed@.fields;
    let mut k: usize = 0;
    while k < n
        invariant
            k <= n,
            n == team@.members.len(),
            (embed@ == SpecRendered {
                fields: base + spec_rank_fields(team@.members, ps.deep_view(), rank, k as int),
                ..old(embed)@
            }),
        decreases n - k,
    {
        if team.members[k].rank == rank {
            let name = member_name_chars(&team.members[k], ps);
            let value = member_value_chars(&team.members[k]);
            embed.push_field(chars_to_string(&name), chars_to_string(&value), false);
            assert(embed@.fields =~= base + spec_rank_fields(
                team@.members,
                ps.deep_view(),
                rank,
                k + 1,
            ));
        } else {
            assert(embed@.fields =~= base + spec_rank_fields(
                team@.members,
                ps.deep_view(),
                rank,
                k + 1,
            ));
        }
        k = k + 1;
    }
    assert(embed@.fields =~= old(embed)@.fields + (seq![
        spec_group_header(rank, spec_rank_count(team@.members, rank, n as int)),
    ] + spec_rank_fields(team@.members, ps.deep_view(), rank, n as int)));
}

/// Renders the roster overview: the team's title, its members grouped by
/// rank (with presence markers when `presence` is given), and the footer.
pub fn team_overview_embed(
    team: &Team,
    presence: Option<&Vec<PresenceEntry>>,
    footer: Option<&str>,
) -> (r: Rendered)
    ensures
        r@ == spec_team_overview(team@, presence.deep_view(), footer.deep_view()),
{
    let mut e = Rendered::new();
    let mut title = str_to_chars("👥 ");
    append_str(&mut title, team.name.as_str());
    e.title = Some(chars_to_string(&title));
    e.color = COLOR_ACCENT;
    if team.members.len() == 0 {
        e.description = Some(
            chars_to_string(&str_to_chars("No members yet. Use /team-add to add someone.")),
        );
    } else {
        push_rank_group(&mut e, team, presence, Rank::Owner);
        let sep_needed_1 = {
            let n = team.members.len();
            let mut has_owner = false;
            let mut has_rest = false;
            let mut i: usize = 0;
            while i < n
                invariant
                    i <= n,
                    n == team@.members.len(),
                    spec_rank_count(team@.members, Rank::Owner, i as int) >= 0,
                    spec_rank_count(team@.members, Rank::Admin, i as int) >= 0,
                    spec_rank_count(team@.members, Rank::Member, i as int) >= 0,
                    has_owner == (spec_rank_count(team@.members, Rank::Owner, i as int) > 0),
                    has_rest == (spec_rank_count(team@.members, Rank::Admin, i as int) > 0
                        || spec_rank_count(team@.members, Rank::Member, i as int) > 0),
                decreases n - i,
            {
                if team.members[i].rank == Rank::Owner {
                    has_owner = true;
                } else {
                    has_rest = true;
                    assert(team@.members[i as int].rank == Rank::Admin
                        || team@.members[i as int].rank == Rank::Member);
                }
                i = i + 1;
            }
            has_owner && has_rest
        };
        if sep_needed_1 {
            e.push_field(String::from_str("\u{200B}"), String::from_str("\u{200B}"), false);
        }
        push_rank_group(&mut e, team, presence, Rank::Admin);
        let sep_needed_2 = {
            let n = team.members.len();
            let mut has_admin = false;
            let mut has_member = false;
            let mut i: usize = 0;
            while i < n
                invariant
                    i <= n,
                    n == team@.members.len(),
                    spec_rank_count(team@.members, Rank::Admin, i as int) >= 0,
                    spec_rank_count(team@.members, Rank::Member, i as int) >= 0,
                    has_admin == (spec_rank_count(team@.members, Rank::Admin, i as int) > 0),
                    has_member == (spec_rank_count(team@.members, Rank::Member, i as int) > 0),
                decreases n - i,
            {
                if team.members[i].rank == Rank::Admin {
                    has_admin = true;
                }
                if team.members[i].rank == Rank::Member {
                    has_member = true;
                }
                i = i + 1;
            }
            has_admin && has_member
        };
        if sep_needed_2 {
            e.push_field(String::from_str("\u{200B}"), String::from_str("\u{200B}"), false);
        }
        push_rank_group(&mut e, team, presence, Rank::Member);
        assert(e@.fields =~= spec_team_fields(team@.members, presence.deep_view()));
    }
    match footer {
        Some(f) => {
            e.footer = Some(chars_to_string(&str_to_chars(f)));
        },
        None => {},
    }
    e
}

/// One line of the quick online listing.
pub open spec fn spec_online_line(p: SpecPresence) -> Seq<char> {
    (if p.online {
        "🟢 "@
    } else {
        "🔴 "@
    }) + p.ign
}

/// The first `k` online lines, newline-separated.
pub open spec fn spec_online_lines(ps: Seq<SpecPresence>, k: int) -> Seq<char>
    decreases k,
{
    if k <= 0 {
        Seq::empty()
    } else if k == 1 {
        spec_online_line(ps[0])
    } else {
        spec_online_lines(ps, k - 1) + "\n"@ + spec_online_line(ps[k - 1])
    }
}

/// The quick online listing: one marked line per member, or a fixed word
/// when there is nobody to list.
pub open spec fn spec_online_status(team_name: Seq<char>, ps: Seq<SpecPresence>) -> SpecRendered {
    SpecRendered {
        title: Some("👥 "@ + team_name + " — Online Status"@),
        description: Some(
            if ps.len() == 0 {
                "None"@
            } else {
                spec_online_lines(ps, ps.len() as int)
            },
        ),
        color: COLOR_ACCENT,
        ..spec_empty_rendered()
    }
}

/// Renders the quick online listing for the `/online` command.
pub fn online_status_embed(team_name: &str, rows: &Vec<PresenceEntry>) -> (r: Rendered)
    ensures
        r@ == spec_online_status(team_name@, rows.deep_view()),
{
    let mut e = Rendered::new();
    let mut title = str_to_chars("👥 ");
    append_str(&mut title, team_name);
    append_str(&mut title, " — Online Status");
    e.title = Some(chars_to_string(&title));
    e.color = COLOR_ACCENT;
    if rows.len() == 0 {
        e.description = Some(chars_to_string(&str_to_chars("None")));
        return e;
    }
    let mut d: Vec<char> = Vec::new();
    let mut i: usize = 0;
    while i < rows.len()
        invariant
            i <= rows@.len(),
            d@ == spec_online_lines(rows.deep_view(), i as int),
        decreases rows@.len() - i,
    {
        if i > 0 {
            d.push('\n');
        }
        if rows[i].online {
            append_str(&mut d, "🟢 ");
        } else {
            append_str(&mut d, "🔴 ");
        }
        append_str(&mut d, rows[i].ign.as_str());
        i = i + 1;
        assert(d@ =~= spec_online_lines(rows.deep_view(), i as int)) by {
            reveal_strlit("\n");
        }
    }
    e.description = Some(chars_to_string(&d));
    e
}

/// The notice when the `/online` command finds an empty roster.
pub fn empty_roster_embed() -> (r: Rendered)
    ensures
        (r@ == SpecRendered {
            title: Some("👥 Team Online Status"@),
            description: Some("No members yet. Use /team-add to add someone."@),
            color: COLOR_ACCENT,
            ..spec_empty_rendered()
        }),
{
    let mut e = Rendered::new();
    e.title = Some(chars_to_string(&str_to_chars("👥 Team Online Status")));
    e.description = Some(
        chars_to_string(&str_to_chars("No members yet. Use /team-add to add someone.")),
    );
    e.color = COLOR_ACCENT;
    e
}

/// The reply to `/team-name`: the confirmation after a change, or the
/// current name when none was given.
pub fn team_name_embed(name: &str, updated: bool) -> (r: Rendered)
    ensures
        updated ==> (r@ == SpecRendered {
            title: Some("👥 Team Name Updated"@),
            description: Some("Team name set to: **"@ + name@ + "**"@),
            color: COLOR_ACCENT,
            ..spec_empty_rendered()
        }),
        !updated ==> (r@ == SpecRendered {
            title: Some("👥 Team Name"@),
            description: Some("Current team name: **"@ + name@ + "**"@),
            color: COLOR_ACCENT,
            ..spec_empty_rendered()
        }),
{
    let mut e = Rendered::new();
    e.color = COLOR_ACCENT;
    if updated {
        e.title = Some(chars_to_string(&str_to_chars("👥 Team Name Updated")));
        let mut d = str_to_chars("Team name set to: **");
        append_str(&mut d, name);
        append_str(&mut d, "**");
        e.description = Some(chars_to_string(&d));
    } else {
        e.title = Some(chars_to_string(&str_to_chars("👥 Team Name")));
        let mut d = str_to_chars("Current team name: **");
        append_str(&mut d, name);
        append_str(&mut d, "**");
        e.description = Some(chars_to_string(&d));
    }
    e
}

/// What the save confirmation says: the member's flag (when their country
/// has one), name, whether they were added or updated, the team, and the
/// rank the argument named.
pub open spec fn spec_member_saved_desc(
    ign: Seq<char>,
    country: Seq<char>,
    rank_arg: Option<Seq<char>>,
    team_name: Seq<char>,
    updated: bool,
) -> Seq<char> {
    let flag = spec_country_flag(country);
    let flag_space = if flag.len() == 0 {
        Seq::<char>::empty()
    } else {
        flag + " "@
    };
    let action = if updated {
        "updated"@
    } else {
        "added"@
    };
    let rank_text = crate::team::spec_rank_text(
        crate::team::spec_rank_from(
            match rank_arg {
                Some(s) => s,
                None => "member"@,
            },
        ),
    );
    flag_space + ign + " has been "@ + action + " to **"@ + team_name + "** as "@ + rank_text
        + "."@
}

/// The confirmation after `/team-add`.
pub fn member_saved_embed(
    ign: &str,
    country: &str,
    rank_arg: Option<&str>,
    team_name: &str,
    updated: bool,
) -> (r: Rendered)
    ensures
        (r@ == SpecRendered {
            title: Some("✅ Team Member Saved"@),
            description: Some(
                spec_member_saved_desc(
                    ign@,
                    country@,
                    rank_arg.deep_view(),
                    team_name@,
                    updated,
                ),
            ),
            color: COLOR_ACCENT,
            ..spec_empty_rendered()
        }),
{
    let mut e = Rendered::new();
    e.title = Some(chars_to_string(&str_to_chars("✅ Team Member Saved")));
    e.color = COLOR_ACCENT;
    let flag = country_flag(country);
    let mut d: Vec<char> = Vec::new();
    if flag.as_str().unicode_len() > 0 {
        append_str(&mut d, flag.as_str());
        d.push(' ');
    }
    append_str(&mut d, ign);
    append_str(&mut d, " has been ");
    if updated {
        append_str(&mut d, "updated");
    } else {
        append_str(&mut d, "added");
    }
    append_str(&mut d, " to **");
    append_str(&mut d, team_name);
    append_str(&mut d, "** as ");
    let rank = match rank_arg {
        Some(s) => Rank::from_str(s),
        None => Rank::from_str("member"),
    };
    append_str(&mut d, rank.as_str());
    d.push('.');
    assert(d@ =~= spec_member_saved_desc(
        ign@,
        country@,
        rank_arg.deep_view(),
        team_name@,
        updated,
    )) by {
        reveal_strlit(" ");
        reveal_strlit(".");
        reveal_strlit("member");
    }
    e.description = Some(chars_to_string(&d));
    e
}

/// The confirmation after `/team-remove`: whether the name was found.
pub fn member_removed_embed(ign: &str, team_name: &str, removed: bool) -> (r: Rendered)
    ensures
        removed ==> (r@ == SpecRendered {
            title: Some("🗑️ Team Member Removal"@),
            description: Some("Removed "@ + ign@ + " from "@ + team_name@),
            color: COLOR_ACCENT,
            ..spec_empty_rendered()
        }),
        !removed ==> (r@ == SpecRendered {
            title: Some("🗑️ Team Member Removal"@),
            description: Some(ign@ + " not found in "@ + team_name@),
            color: COLOR_ACCENT,
            ..spec_empty_rendered()
        }),
{
    let mut e = Rendered::new();
    e.title = Some(chars_to_string(&str_to_chars("🗑️ Team Member Removal")));
    e.color = COLOR_ACCENT;
    let mut d: Vec<char> = Vec::new();
    if removed {
        append_str(&mut d, "Removed ");
        append_str(&mut d, ign);
        append_str(&mut d, " from ");
        append_str(&mut d, team_name);
    } else {
        append_str(&mut d, ign);
        append_str(&mut d, " not found in ");
        append_str(&mut d, team_name);
    }
    e.description = Some(chars_to_string(&d));
    e
}

/// The footer line of the recurring status post.
pub fn status_footer(timestamp: &str) -> (r: String)
    ensures
        r@ == "Last updated: "@ + timestamp@ + " (UTC)"@,
{
    let mut f = str_to_chars("Last updated: ");
    append_str(&mut f, timestamp);
    append_str(&mut f, " (UTC)");
    chars_to_string(&f)
}

} // verus!
