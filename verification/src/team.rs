//! The team roster: ranks, members keyed case-insensitively by in-game
//! name, the wholesale edits the team commands make, country flags, and
//! the roster orderings and embeds the bot renders.

use vstd::prelude::*;
use vstd::multiset::Multiset;
use vstd::string::*;

use crate::text::{
    char_from_u32, chars_eq_str, lower, lower_str_chars, str_to_chars, trim_chars, trim_ws,
    upper_char,
};

verus! {

/// A member's standing in the team.
#[derive(PartialEq, Eq, Structural, Clone, Copy, Debug)]
pub enum Rank {
    Owner,
    Admin,
    Member,
}

impl Default for Rank {
    /// A member unless said otherwise.
    fn default() -> (r: Self)
        ensures
            r == Rank::Member,
    {
        Rank::Member
    }
}

/// The rank a free-text argument names, case-insensitively; anything
/// unrecognised is a plain member.
pub open spec fn spec_rank_from(s: Seq<char>) -> Rank {
    if lower(s) == "owner"@ {
        Rank::Owner
    } else if lower(s) == "admin"@ {
        Rank::Admin
    } else {
        Rank::Member
    }
}

pub open spec fn spec_rank_text(r: Rank) -> Seq<char> {
    match r {
        Rank::Owner => "Owner"@,
        Rank::Admin => "Admin"@,
        Rank::Member => "Member"@,
    }
}

/// Lower keys sort first: owners, then admins, then members.
pub open spec fn spec_sort_key(r: Rank) -> u8 {
    match r {
        Rank::Owner => 0,
        Rank::Admin => 1,
        Rank::Member => 2,
    }
}

pub open spec fn spec_rank_emoji(r: Rank) -> Seq<char> {
    match r {
        Rank::Owner => "👑"@,
        Rank::Admin => "🛡️"@,
        Rank::Member => "👤"@,
    }
}

impl Rank {
    /// Reads a rank argument, case-insensitively.
    pub fn from_str(s: &str) -> (r: Rank)
        ensures
            r == spec_rank_from(s@),
    {
        let low = lower_str_chars(s);
        if chars_eq_str(&low, "owner") {
            Rank::Owner
        } else if chars_eq_str(&low, "admin") {
            Rank::Admin
        } else {
            Rank::Member
        }
    }

    /// The display name of this rank.
    pub fn as_str(&self) -> (r: &'static str)
        ensures
            r@ == spec_rank_text(*self),
    {
        match self {
            Rank::Owner => "Owner",
            Rank::Admin => "Admin",
            Rank::Member => "Member",
        }
    }

    /// The ordering key of this rank: owners first, members last.
    pub fn sort_key(&self) -> (r: u8)
        ensures
            r == spec_sort_key(*self),
    {
        match self {
            Rank::Owner => 0,
            Rank::Admin => 1,
            Rank::Member => 2,
        }
    }

    /// The marker shown beside this rank's group.
    pub fn emoji(&self) -> (r: &'static str)
        ensures
            r@ == spec_rank_emoji(*self),
    {
        match self {
            Rank::Owner => "👑",
            Rank::Admin => "🛡️",
            Rank::Member => "👤",
        }
    }
}

/// One tracked player.
pub struct TeamMember {
    pub ign: String,
    pub country: String,
    pub skill: String,
    pub about: String,
    pub discord_tag: String,
    pub rank: Rank,
}

/// The mathematical image of a [`TeamMember`].
pub ghost struct SpecMember {
    pub ign: Seq<char>,
    pub country: Seq<char>,
    pub skill: Seq<char>,
    pub about: Seq<char>,
    pub discord_tag: Seq<char>,
    pub rank: Rank,
}

impl View for TeamMember {
    type V = SpecMember;

    open spec fn view(&self) -> SpecMember {
        SpecMember {
            ign: self.ign@,
            country: self.country@,
            skill: self.skill@,
            about: self.about@,
            discord_tag: self.discord_tag@,
            rank: self.rank,
        }
    }
}

impl DeepView for TeamMember {
    type V = SpecMember;

    open spec fn deep_view(&self) -> SpecMember {
        self.view()
    }
}

/// The whole roster.
pub struct Team {
    pub name: String,
    pub members: Vec<TeamMember>,
}

/// The mathematical image of a [`Team`].
pub ghost struct SpecTeam {
    pub name: Seq<char>,
    pub members: Seq<SpecMember>,
}

impl View for Team {
    type V = SpecTeam;

    open spec fn view(&self) -> SpecTeam {
        SpecTeam { name: self.name@, members: self.members.deep_view() }
    }
}

impl Default for Team {
    /// A fresh roster with the default name and nobody in it.
    fn default() -> (r: Self)
        ensures
            r@.name == "My Team"@,
            r@.members == Seq::<SpecMember>::empty(),
    {
        let r = Team { name: String::from_str("My Team"), members: Vec::new() };
        assert(r@.members =~= Seq::<SpecMember>::empty());
        r
    }
}

/// Renames the team; the platform argument is stored trimmed.
pub fn set_name(team: &mut Team, new_name: &str)
    ensures
        final(team)@.name == trim_ws(new_name@),
        final(team)@.members == old(team)@.members,
{
    let chars = trim_chars(str_to_chars(new_name));
    team.name = crate::text::chars_to_string(&chars);
}

/// The first position whose member's name matches `ign` up to ASCII case,
/// or `-1`.
pub open spec fn spec_find_member(members: Seq<SpecMember>, ign: Seq<char>) -> int
    decreases members.len(),
{
    if members.len() == 0 {
        -1
    } else if lower(members[0].ign) == lower(ign) {
        0
    } else {
        let r = spec_find_member(members.drop_first(), ign);
        if r < 0 {
            -1
        } else {
            r + 1
        }
    }
}

pub proof fn lemma_find_member_bounds(members: Seq<SpecMember>, ign: Seq<char>)
    ensures
        -1 <= spec_find_member(members, ign) < members.len(),
        spec_find_member(members, ign) >= 0 ==> lower(
            members[spec_find_member(members, ign)].ign,
        ) == lower(ign),
    decreases members.len(),
{
    if members.len() > 0 {
        lemma_find_member_bounds(members.drop_first(), ign);
    }
}

/// Where the match stands in the whole list, given that the first `i`
/// members do not match.
proof fn lemma_find_from_skip(members: Seq<SpecMember>, ign: Seq<char>, i: int)
    requires
        0 <= i <= members.len(),
        forall|j: int| 0 <= j < i ==> lower(#[trigger] members[j].ign) != lower(ign),
    ensures
        spec_find_member(members, ign) == (if spec_find_member(members.skip(i), ign) >= 0 {
            spec_find_member(members.skip(i), ign) + i
        } else {
            -1
        }),
    decreases i,
{
    lemma_find_member_bounds(members.skip(i), ign);
    if i == 0 {
        assert(members.skip(0) =~= members);
    } else {
        assert(members.len() > 0);
        assert(lower(members[0].ign) != lower(ign));
        assert(members.drop_first().skip(i - 1) =~= members.skip(i));
        assert(forall|j: int|
            0 <= j < i - 1 ==> lower(#[trigger] members.drop_first()[j].ign) != lower(ign));
        lemma_find_from_skip(members.drop_first(), ign, i - 1);
    }
}

/// Replaces the member of the same in-game name (ASCII-case-insensitively)
/// or appends a new one; `true` exactly when an existing entry was
/// replaced.
pub fn upsert_member(team: &mut Team, member: TeamMember) -> (updated: bool)
    ensures
        updated == (spec_find_member(old(team)@.members, member@.ign) >= 0),
        final(team)@.name == old(team)@.name,
        updated ==> final(team)@.members == old(team)@.members.update(
            spec_find_member(old(team)@.members, member@.ign),
            member@,
        ),
        !updated ==> final(team)@.members == old(team)@.members.push(member@),
{
    let key = lower_str_chars(member.ign.as_str());
    let n = team.members.len();
    let mut i: usize = 0;
    while i < n
        invariant
            i <= n,
            n == team.members@.len(),
            team@ == old(team)@,
            key@ == lower(member@.ign),
            forall|j: int| 0 <= j < i ==> lower(#[trigger] team@.members[j].ign) != lower(
                member@.ign,
            ),
        decreases n - i,
    {
        let cand = lower_str_chars(team.members[i].ign.as_str());
        let hit = crate::text::chars_eq_chars(&cand, &key);
        if hit {
            proof {
                assert(team@.members.skip(i as int)[0] == team@.members[i as int]);
                assert(spec_find_member(team@.members.skip(i as int), member@.ign) == 0);
                lemma_find_from_skip(team@.members, member@.ign, i as int);
                assert(spec_find_member(team@.members, member@.ign) == i);
            }
            let ghost before = team@.members;
            team.members.set(i, member);
            assert(team@.members =~= before.update(i as int, member@));
            return true;
        }
        i = i + 1;
    }
    proof {
        assert(team@.members.skip(n as int).len() == 0);
        lemma_find_from_skip(team@.members, member@.ign, n as int);
        assert(spec_find_member(team@.members, member@.ign) == -1);
    }
    let ghost before = team@.members;
    team.members.push(member);
    assert(team@.members =~= before.push(team.members@.last()@));
    false
}

/// The members whose names do not match `ign` up to ASCII case, among the
/// first `k`.
pub open spec fn spec_without(members: Seq<SpecMember>, ign: Seq<char>, k: int) -> Seq<SpecMember>
    decreases k,
{
    if k <= 0 {
        Seq::empty()
    } else {
        spec_without(members, ign, k - 1) + (if lower(members[k - 1].ign) == lower(ign) {
            Seq::<SpecMember>::empty()
        } else {
            seq![members[k - 1]]
        })
    }
}

/// Drops every member whose in-game name matches `ign` up to ASCII case;
/// `true` exactly when any was dropped.
pub fn remove_member(team: &mut Team, ign: &str) -> (removed: bool)
    ensures
        final(team)@.name == old(team)@.name,
        final(team)@.members == spec_without(
            old(team)@.members,
            ign@,
            old(team)@.members.len() as int,
        ),
        removed == (final(team)@.members.len() != old(team)@.members.len()),
{
    let key = lower_str_chars(ign);
    let n = team.members.len();
    let mut kept: Vec<TeamMember> = Vec::new();
    let mut i: usize = 0;
    let ghost orig = team@.members;
    while i < n
        invariant
            i <= n,
            n == team.members@.len(),
            team@.members == orig,
            key@ == lower(ign@),
            kept.deep_view() == spec_without(orig, ign@, i as int),
        decreases n - i,
    {
        let cand = lower_str_chars(team.members[i].ign.as_str());
        let ghost kept0 = kept.deep_view();
        if !crate::text::chars_eq_chars(&cand, &key) {
            let m = clone_member(&team.members[i]);
            kept.push(m);
            assert(kept.deep_view() =~= kept0 + seq![orig[i as int]]);
        } else {
            assert(kept.deep_view() =~= kept0 + Seq::<SpecMember>::empty());
        }
        i = i + 1;
    }
    let removed = kept.len() != team.members.len();
    team.members = kept;
    removed
}

/// Lexicographic order on char sequences, by code point, shorter prefix
/// first.
pub open spec fn lex_le(a: Seq<char>, b: Seq<char>) -> bool
    decreases a.len(),
{
    if a.len() == 0 {
        true
    } else if b.len() == 0 {
        false
    } else if (a[0] as u32) < (b[0] as u32) {
        true
    } else if (a[0] as u32) > (b[0] as u32) {
        false
    } else {
        lex_le(a.drop_first(), b.drop_first())
    }
}

pub proof fn lemma_lex_le_total(a: Seq<char>, b: Seq<char>)
    ensures
        lex_le(a, b) || lex_le(b, a),
    decreases a.len(),
{
    if a.len() > 0 && b.len() > 0 && (a[0] as u32) == (b[0] as u32) {
        lemma_lex_le_total(a.drop_first(), b.drop_first());
    }
}

pub proof fn lemma_lex_le_trans(a: Seq<char>, b: Seq<char>, c: Seq<char>)
    requires
        lex_le(a, b),
        lex_le(b, c),
    ensures
        lex_le(a, c),
    decreases a.len(),
{
    if a.len() > 0 && b.len() > 0 && c.len() > 0 && (a[0] as u32) == (b[0] as u32) && (
    b[0] as u32) == (c[0] as u32) {
        lemma_lex_le_trans(a.drop_first(), b.drop_first(), c.drop_first());
    }
}

/// Whether the chars of `a` come no later than those of `b`.
pub fn lex_le_chars(a: &Vec<char>, b: &Vec<char>) -> (r: bool)
    ensures
        r == lex_le(a@, b@),
{
    let mut i: usize = 0;
    assert(a@.skip(0) =~= a@);
    assert(b@.skip(0) =~= b@);
    while i < a.len() && i < b.len()
        invariant
            i <= a@.len(),
            i <= b@.len(),
            lex_le(a@, b@) == lex_le(a@.skip(i as int), b@.skip(i as int)),
        decreases a@.len() - i,
    {
        let x = a[i];
        let y = b[i];
        proof {
            assert(a@.skip(i as int)[0] == a@[i as int]);
            assert(b@.skip(i as int)[0] == b@[i as int]);
            assert(a@.skip(i as int).drop_first() =~= a@.skip(i + 1));
            assert(b@.skip(i as int).drop_first() =~= b@.skip(i + 1));
        }
        if (x as u32) < (y as u32) {
            return true;
        }
        if (x as u32) > (y as u32) {
            return false;
        }
        i = i + 1;
    }
    if i == a.len() {
        assert(a@.skip(i as int).len() == 0);
        true
    } else {
        assert(b@.skip(i as int).len() == 0);
        assert(a@.skip(i as int).len() > 0);
        false
    }
}

/// The roster display order: rank key first, then in-game name folded to
/// lower case.
pub open spec fn member_le(a: SpecMember, b: SpecMember) -> bool {
    if spec_sort_key(a.rank) != spec_sort_key(b.rank) {
        spec_sort_key(a.rank) < spec_sort_key(b.rank)
    } else {
        lex_le(lower(a.ign), lower(b.ign))
    }
}

pub proof fn lemma_member_le_total(a: SpecMember, b: SpecMember)
    ensures
        member_le(a, b) || member_le(b, a),
{
    lemma_lex_le_total(lower(a.ign), lower(b.ign));
}

pub proof fn lemma_member_le_trans(a: SpecMember, b: SpecMember, c: SpecMember)
    requires
        member_le(a, b),
        member_le(b, c),
    ensures
        member_le(a, c),
{
    if spec_sort_key(a.rank) == spec_sort_key(b.rank) && spec_sort_key(b.rank) == spec_sort_key(
        c.rank,
    ) {
        lemma_lex_le_trans(lower(a.ign), lower(b.ign), lower(c.ign));
    }
}

fn member_le_exec(a: &TeamMember, b: &TeamMember) -> (r: bool)
    ensures
        r == member_le(a@, b@),
{
    let ka = a.rank.sort_key();
    let kb = b.rank.sort_key();
    if ka != kb {
        ka < kb
    } else {
        let la = lower_str_chars(a.ign.as_str());
        let lb = lower_str_chars(b.ign.as_str());
        lex_le_chars(&la, &lb)
    }
}

proof fn lemma_insert_multiset(s: Seq<SpecMember>, i: int, x: SpecMember)
    requires
        0 <= i <= s.len(),
    ensures
        s.insert(i, x).to_multiset() == s.to_multiset().insert(x),
{
    broadcast use vstd::seq_lib::group_to_multiset_ensures;

    assert(s.insert(i, x) =~= s.take(i) + (seq![x] + s.skip(i)));
    vstd::seq_lib::lemma_multiset_commutative(s.take(i), seq![x] + s.skip(i));
    vstd::seq_lib::lemma_multiset_commutative(seq![x], s.skip(i));
    assert(seq![x] =~= Seq::<SpecMember>::empty().push(x));
    assert(Seq::<SpecMember>::empty().push(x).to_multiset() =~= Multiset::<
        SpecMember,
    >::empty().insert(x));
    assert(s =~= s.take(i) + s.skip(i));
    vstd::seq_lib::lemma_multiset_commutative(s.take(i), s.skip(i));
    assert(s.insert(i, x).to_multiset() =~= s.to_multiset().insert(x));
}

/// The roster in display order: owners first, then admins, then members,
/// alphabetically by case-folded name inside each rank. The result is a
/// rearrangement of the input, nothing added and nothing lost.
pub fn sort_members(members: Vec<TeamMember>) -> (r: Vec<TeamMember>)
    ensures
        vstd::relations::sorted_by(r.deep_view(), |a: SpecMember, b: SpecMember| member_le(a, b)),
        r.deep_view().to_multiset() == members.deep_view().to_multiset(),
{
    broadcast use vstd::seq_lib::group_to_multiset_ensures;

    let ghost whole = members.deep_view();
    let ghost le = |a: SpecMember, b: SpecMember| member_le(a, b);
    let mut src = members;
    let mut out: Vec<TeamMember> = Vec::new();
    assert(out.deep_view().to_multiset() =~= Multiset::<SpecMember>::empty());
    assert(src.deep_view() =~= whole);
    while src.len() > 0
        invariant
            vstd::relations::sorted_by(out.deep_view(), le),
            out.deep_view().to_multiset().add(src.deep_view().to_multiset())
                == whole.to_multiset(),
            (le == |a: SpecMember, b: SpecMember| member_le(a, b)),
        decreases src.len(),
    {
        let ghost src0 = src.deep_view();
        let m = match src.pop() {
            Some(m) => m,
            None => {
                proof {
                    assert(false);
                }
                continue ;
            },
        };
        proof {
            src.deep_view().to_multiset_ensures();
            assert(src.deep_view() =~= src0.drop_last());
            assert(src.deep_view().push(m@) =~= src0);
            assert(src.deep_view().push(m@).to_multiset() =~= src.deep_view().to_multiset().insert(
                m@,
            ));
            assert(src0.to_multiset() =~= src.deep_view().to_multiset().insert(m@));
        }
        let mut pos: usize = 0;
        while pos < out.len() && member_le_exec(&out[pos], &m)
            invariant
                pos <= out@.len(),
                forall|j: int| 0 <= j < pos ==> member_le(#[trigger] out.deep_view()[j], m@),
            decreases out@.len() - pos,
        {
            pos = pos + 1;
        }
        let ghost out0 = out.deep_view();
        let ghost inserted = out0.insert(pos as int, m@);
        proof {
            lemma_insert_multiset(out0, pos as int, m@);
        }
        out.insert(pos, m);
        proof {
            assert(out.deep_view() =~= inserted);
            if pos < out0.len() {
                assert(!member_le(out0[pos as int], m@));
                lemma_member_le_total(out0[pos as int], m@);
                assert(member_le(m@, out0[pos as int]));
            }
            assert forall|x: int, y: int| 0 <= x < y < inserted.len() implies le(
                inserted[x],
                inserted[y],
            ) by {
                if y < pos {
                    assert(inserted[x] == out0[x] && inserted[y] == out0[y]);
                } else if x < pos && y == pos {
                    assert(inserted[y] == m@);
                    assert(member_le(out0[x], m@));
                } else if x < pos && y > pos {
                    assert(inserted[x] == out0[x] && inserted[y] == out0[y - 1]);
                } else if x == pos {
                    assert(inserted[x] == m@ && inserted[y] == out0[y - 1]);
                    assert(member_le(m@, out0[pos as int]));
                    assert(vstd::relations::sorted_by(out0, le));
                    if y - 1 > pos {
                        assert(le(out0[pos as int], out0[y - 1]));
                        lemma_member_le_trans(m@, out0[pos as int], out0[y - 1]);
                    }
                } else {
                    assert(inserted[x] == out0[x - 1] && inserted[y] == out0[y - 1]);
                }
            }
        }
    }
    assert(src.deep_view().to_multiset() =~= Multiset::<SpecMember>::empty());
    assert(out.deep_view().to_multiset() =~= whole.to_multiset());
    out
}

/// The regional-indicator char that stands for an ASCII capital letter.
pub open spec fn spec_regional(u: char) -> char {
    (0x1F1E6 + (u as int - 65)) as char
}

/// The flag emoji of a two-letter country code: the two regional
/// indicators, or nothing when the text is not two ASCII letters.
pub open spec fn spec_flag_from_code(code: Seq<char>) -> Option<Seq<char>> {
    if code.len() != 2 {
        None
    } else {
        let u0 = upper_char(code[0]);
        let u1 = upper_char(code[1]);
        if 'A' <= u0 <= 'Z' && 'A' <= u1 <= 'Z' {
            Some(seq![spec_regional(u0), spec_regional(u1)])
        } else {
            None
        }
    }
}

fn regional_exec(u: char) -> (r: char)
    requires
        'A' <= u <= 'Z',
    ensures
        r == spec_regional(u),
{
    proof {
        vstd::utf8::char_is_scalar(u);
    }
    let code: u32 = 0x1F1E6 + ((u as u32) - 65);
    match char_from_u32(code) {
        Some(c) => {
            proof {
                vstd::utf8::char_u32_cast(u, u as u32);
            }
            c
        },
        None => {
            proof {
                assert(false);
            }
            u
        },
    }
}

fn upper_exec(c: char) -> (r: char)
    ensures
        r == upper_char(c),
{
    let u = c as u32;
    if 97 <= u && u <= 122 {
        match char_from_u32(u - 32) {
            Some(x) => {
                proof {
                    vstd::utf8::char_is_scalar(c);
                }
                x
            },
            None => {
                proof {
                    vstd::utf8::char_is_scalar(c);
                    assert(false);
                }
                c
            },
        }
    } else {
        proof {
            vstd::utf8::char_is_scalar(c);
            vstd::utf8::char_u32_cast(c, u);
        }
        c
    }
}

/// The flag emoji of a two-letter code, when the text is one.
pub fn flag_from_code(code: &Vec<char>) -> (r: Option<Vec<char>>)
    ensures
        match r {
            Some(f) => spec_flag_from_code(code@) == Some(f@),
            None => spec_flag_from_code(code@) is None,
        },
{
    if code.len() != 2 {
        return None;
    }
    let u0 = upper_exec(code[0]);
    let u1 = upper_exec(code[1]);
    let a0 = u0 as u32;
    let a1 = u1 as u32;
    if 65 <= a0 && a0 <= 90 && 65 <= a1 && a1 <= 90 {
        proof {
            vstd::utf8::char_is_scalar(u0);
            vstd::utf8::char_is_scalar(u1);
            vstd::utf8::char_u32_cast(u0, a0);
            vstd::utf8::char_u32_cast(u1, a1);
            assert('A' <= u0 <= 'Z' && 'A' <= u1 <= 'Z');
        }
        let mut f: Vec<char> = Vec::new();
        f.push(regional_exec(u0));
        f.push(regional_exec(u1));
        assert(f@ =~= seq![spec_regional(u0), spec_regional(u1)]);
        Some(f)
    } else {
        proof {
            vstd::utf8::char_is_scalar(u0);
            vstd::utf8::char_is_scalar(u1);
            vstd::utf8::char_u32_cast(u0, a0);
            vstd::utf8::char_u32_cast(u1, a1);
        }
        None
    }
}

/// The two-letter code a country name denotes, for the names the bot
/// knows; empty for the rest.
pub open spec fn spec_country_code(name: Seq<char>) -> Seq<char> {
    if name == "belgium"@ || name == "belgie"@ || name == "belgië"@ {
        "BE"@
    } else if name == "netherlands"@ || name == "the netherlands"@ || name == "holland"@ || name
        == "nederland"@ {
        "NL"@
    } else if name == "united kingdom"@ || name == "uk"@ || name == "great britain"@ || name
        == "england"@ || name == "scotland"@ || name == "wales"@ || name == "northern ireland"@ {
        "GB"@
    } else if name == "united states"@ || name == "usa"@ || name == "us"@ || name == "america"@ {
        "US"@
    } else if name == "germany"@ || name == "deutschland"@ {
        "DE"@
    } else if name == "france"@ {
        "FR"@
    } else if name == "spain"@ || name == "españa"@ {
        "ES"@
    } else if name == "italy"@ || name == "italia"@ {
        "IT"@
    } else if name == "canada"@ {
        "CA"@
    } else if name == "australia"@ {
        "AU"@
    } else if name == "ireland"@ {
        "IE"@
    } else if name == "poland"@ {
        "PL"@
    } else if name == "portugal"@ {
        "PT"@
    } else if name == "sweden"@ {
        "SE"@
    } else if name == "norway"@ {
        "NO"@
    } else if name == "denmark"@ {
        "DK"@
    } else if name == "finland"@ {
        "FI"@
    } else if name == "luxembourg"@ {
        "LU"@
    } else if name == "switzerland"@ {
        "CH"@
    } else if name == "austria"@ {
        "AT"@
    } else {
        Seq::empty()
    }
}

fn country_code_exec(name: &Vec<char>) -> (r: &'static str)
    ensures
        r@ == spec_country_code(name@),
{
    if chars_eq_str(name, "belgium") || chars_eq_str(name, "belgie") || chars_eq_str(
        name,
        "belgië",
    ) {
        "BE"
    } else if chars_eq_str(name, "netherlands") || chars_eq_str(name, "the netherlands")
        || chars_eq_str(name, "holland") || chars_eq_str(name, "nederland") {
        "NL"
    } else if chars_eq_str(name, "united kingdom") || chars_eq_str(name, "uk") || chars_eq_str(
        name,
        "great britain",
    ) || chars_eq_str(name, "england") || chars_eq_str(name, "scotland") || chars_eq_str(
        name,
        "wales",
    ) || chars_eq_str(name, "northern ireland") {
        "GB"
    } else if chars_eq_str(name, "united states") || chars_eq_str(name, "usa") || chars_eq_str(
        name,
        "us",
    ) || chars_eq_str(name, "america") {
        "US"
    } else if chars_eq_str(name, "germany") || chars_eq_str(name, "deutschland") {
        "DE"
    } else if chars_eq_str(name, "france") {
        "FR"
    } else if chars_eq_str(name, "spain") || chars_eq_str(name, "españa") {
        "ES"
    } else if chars_eq_str(name, "italy") || chars_eq_str(name, "italia") {
        "IT"
    } else if chars_eq_str(name, "canada") {
        "CA"
    } else if chars_eq_str(name, "australia") {
        "AU"
    } else if chars_eq_str(name, "ireland") {
        "IE"
    } else if chars_eq_str(name, "poland") {
        "PL"
    } else if chars_eq_str(name, "portugal") {
        "PT"
    } else if chars_eq_str(name, "sweden") {
        "SE"
    } else if chars_eq_str(name, "norway") {
        "NO"
    } else if chars_eq_str(name, "denmark") {
        "DK"
    } else if chars_eq_str(name, "finland") {
        "FI"
    } else if chars_eq_str(name, "luxembourg") {
        "LU"
    } else if chars_eq_str(name, "switzerland") {
        "CH"
    } else if chars_eq_str(name, "austria") {
        "AT"
    } else {
        proof {
            reveal_strlit("");
            assert(""@ =~= Seq::<char>::empty());
        }
        ""
    }
}

/// The flag for a free-text country field: a two-letter code as given,
/// else a known country name (trimmed, case-insensitively), else nothing.
pub open spec fn spec_country_flag(input: Seq<char>) -> Seq<char> {
    if input.len() == 0 {
        Seq::empty()
    } else {
        let t = trim_ws(input);
        match spec_flag_from_code(t) {
            Some(f) => f,
            None => {
                match spec_flag_from_code(spec_country_code(lower(t))) {
                    Some(f) => f,
                    None => Seq::empty(),
                }
            },
        }
    }
}

/// Renders the flag for a free-text country field, or an empty string.
pub fn country_flag(input: &str) -> (r: String)
    ensures
        r@ == spec_country_flag(input@),
{
    let chars = str_to_chars(input);
    if chars.len() == 0 {
        return crate::text::chars_to_string(&Vec::new());
    }
    let t = trim_chars(chars);
    match flag_from_code(&t) {
        Some(f) => crate::text::chars_to_string(&f),
        None => {
            let low = crate::text::lower_chars(&t);
            let code = str_to_chars(country_code_exec(&low));
            match flag_from_code(&code) {
                Some(f) => crate::text::chars_to_string(&f),
                None => crate::text::chars_to_string(&Vec::new()),
            }
        },
    }
}

/// A field-for-field copy of a member.
pub fn clone_member(m: &TeamMember) -> (r: TeamMember)
    ensures
        r@ == m@,
{
    TeamMember {
        ign: clone_string(&m.ign),
        country: clone_string(&m.country),
        skill: clone_string(&m.skill),
        about: clone_string(&m.about),
        discord_tag: clone_string(&m.discord_tag),
        rank: m.rank,
    }
}

/// A copy of a string with the same chars.
pub fn clone_string(s: &String) -> (r: String)
    ensures
        r@ == s@,
{
    crate::text::chars_to_string(&str_to_chars(s.as_str()))
}

} // verus!
