//! The pagination controls under a paged reply: a back button, a disabled
//! current-page marker, and a forward button, each carrying its state in
//! its identifier through the token codec.

use vstd::prelude::*;
use vstd::string::*;

use crate::codec::{spec_encode_rest, encode_token_rest, PageAction};
use crate::numfmt::{dec_digits, u64_to_chars};
use crate::text::{append_str, chars_to_string, str_to_chars};

verus! {

/// The visual kind of a control.
#[derive(PartialEq, Eq, Structural, Clone, Copy, Debug)]
pub enum ButtonStyle {
    Primary,
    Secondary,
}

/// One control on an outbound message.
pub struct Button {
    pub style: ButtonStyle,
    pub label: String,
    pub custom_id: String,
    pub disabled: bool,
}

/// The mathematical image of a [`Button`].
pub ghost struct SpecButton {
    pub style: ButtonStyle,
    pub label: Seq<char>,
    pub custom_id: Seq<char>,
    pub disabled: bool,
}

impl View for Button {
    type V = SpecButton;

    open spec fn view(&self) -> SpecButton {
        SpecButton {
            style: self.style,
            label: self.label@,
            custom_id: self.custom_id@,
            disabled: self.disabled,
        }
    }
}

impl DeepView for Button {
    type V = SpecButton;

    open spec fn deep_view(&self) -> SpecButton {
        self.view()
    }
}

/// The identifier of one control: the family, a separator, and the
/// encoded token. The platform caps identifiers at 100 chars, so a filter
/// set that would not fit is shed — the search first, then the sort —
/// leaving the load-bearing action and page intact.
pub open spec fn spec_control_id(
    family: Seq<char>,
    action: PageAction,
    page: u32,
    seg3: Option<Seq<char>>,
    seg4: Option<Seq<char>>,
) -> Seq<char> {
    let full = family + "_"@ + spec_encode_rest(action, page, seg3, seg4);
    if full.len() <= 100 {
        full
    } else {
        let shed_search = family + "_"@ + spec_encode_rest(action, page, None, seg4);
        if shed_search.len() <= 100 {
            shed_search
        } else {
            family + "_"@ + spec_encode_rest(action, page, None, None)
        }
    }
}

fn control_id(
    family: &str,
    action: PageAction,
    page: u32,
    seg3: Option<&str>,
    seg4: Option<&str>,
) -> (r: Vec<char>)
    ensures
        r@ == spec_control_id(family@, action, page, seg3.deep_view(), seg4.deep_view()),
{
    proof {
        reveal_strlit("_");
    }
    let mut full = str_to_chars(family);
    full.push('_');
    let mut rest = encode_token_rest(action, page, seg3, seg4);
    full.append(&mut rest);
    assert(full@ =~= family@ + "_"@ + spec_encode_rest(
        action,
        page,
        seg3.deep_view(),
        seg4.deep_view(),
    ));
    if full.len() <= 100 {
        return full;
    }
    let mut shed = str_to_chars(family);
    shed.push('_');
    let mut rest2 = encode_token_rest(action, page, None, seg4);
    shed.append(&mut rest2);
    assert(shed@ =~= family@ + "_"@ + spec_encode_rest(
        action,
        page,
        None::<Seq<char>>,
        seg4.deep_view(),
    ));
    if shed.len() <= 100 {
        return shed;
    }
    let mut bare = str_to_chars(family);
    bare.push('_');
    let mut rest3 = encode_token_rest(action, page, None, None);
    bare.append(&mut rest3);
    assert(bare@ =~= family@ + "_"@ + spec_encode_rest(
        action,
        page,
        None::<Seq<char>>,
        None::<Seq<char>>,
    ));
    bare
}

/// A control identifier always fits the platform's 100-char limit, for
/// the family names this bot uses.
pub proof fn lemma_control_id_bounded(
    family: Seq<char>,
    action: PageAction,
    page: u32,
    seg3: Option<Seq<char>>,
    seg4: Option<Seq<char>>,
)
    requires
        family.len() <= 11,
    ensures
        spec_control_id(family, action, page, seg3, seg4).len() <= 100,
{
    reveal_strlit("_");
    reveal_strlit("prev");
    reveal_strlit("next");
    assert("_"@.len() == 1);
    assert("prev"@.len() == 4);
    assert("next"@.len() == 4);
    assert(crate::codec::spec_action_text(action).len() == 4);
    reveal_with_fuel(crate::numfmt::pow10, 11);
    assert(crate::numfmt::pow10(10) == 10000000000);
    crate::numfmt::lemma_dec_digits_len(page as nat, 10);
    assert(crate::codec::esc_filter(crate::codec::opt_text(None::<Seq<char>>))
        =~= Seq::<char>::empty());
    assert(crate::codec::spec_encode_rest(action, page, None, None).len() <= 17);
}

/// The three controls of a paged reply for one control family: back
/// (disabled on the first page), the current page marker (always
/// disabled), and forward.
pub open spec fn spec_nav_buttons(
    family: Seq<char>,
    page: u32,
    seg3: Option<Seq<char>>,
    seg4: Option<Seq<char>>,
) -> Seq<SpecButton> {
    seq![
        (SpecButton {
            style: ButtonStyle::Secondary,
            label: "⬅"@,
            custom_id: spec_control_id(family, PageAction::Prev, page, seg3, seg4),
            disabled: page <= 1,
        }),
        (SpecButton {
            style: ButtonStyle::Primary,
            label: "Page "@ + dec_digits(page as nat),
            custom_id: family + "_current"@,
            disabled: true,
        }),
        (SpecButton {
            style: ButtonStyle::Secondary,
            label: "➡"@,
            custom_id: spec_control_id(family, PageAction::Next, page, seg3, seg4),
            disabled: false,
        }),
    ]
}

fn nav_buttons(
    family: &str,
    current_page: u32,
    seg3: Option<&str>,
    seg4: Option<&str>,
) -> (r: Vec<Button>)
    ensures
        r.deep_view() == spec_nav_buttons(
            family@,
            current_page,
            seg3.deep_view(),
            seg4.deep_view(),
        ),
{
    let prev_id = control_id(family, PageAction::Prev, current_page, seg3, seg4);
    let next_id = control_id(family, PageAction::Next, current_page, seg3, seg4);
    let mut cur_id = str_to_chars(family);
    append_str(&mut cur_id, "_current");
    let mut label = str_to_chars("Page ");
    let mut digits = u64_to_chars(current_page as u64);
    label.append(&mut digits);
    let mut r: Vec<Button> = Vec::new();
    r.push(
        Button {
            style: ButtonStyle::Secondary,
            label: chars_to_string(&str_to_chars("⬅")),
            custom_id: chars_to_string(&prev_id),
            disabled: current_page <= 1,
        },
    );
    r.push(
        Button {
            style: ButtonStyle::Primary,
            label: chars_to_string(&label),
            custom_id: chars_to_string(&cur_id),
            disabled: true,
        },
    );
    r.push(
        Button {
            style: ButtonStyle::Secondary,
            label: chars_to_string(&str_to_chars("➡")),
            custom_id: chars_to_string(&next_id),
            disabled: false,
        },
    );
    assert(r.deep_view() =~= spec_nav_buttons(
        family@,
        current_page,
        seg3.deep_view(),
        seg4.deep_view(),
    ));
    r
}

/// The controls under an auction page.
pub fn auction_buttons(current_page: u32, search: Option<&str>, sort: Option<&str>) -> (r: Vec<
    Button,
>)
    ensures
        r.deep_view() == spec_nav_buttons(
            "auction"@,
            current_page,
            search.deep_view(),
            sort.deep_view(),
        ),
{
    nav_buttons("auction", current_page, search, sort)
}

/// The controls under a transaction-history page.
pub fn txn_buttons(current_page: u32, search: Option<&str>, sort: Option<&str>) -> (r: Vec<Button>)
    ensures
        r.deep_view() == spec_nav_buttons(
            "transaction"@,
            current_page,
            search.deep_view(),
            sort.deep_view(),
        ),
{
    nav_buttons("transaction", current_page, search, sort)
}

/// The controls under a leaderboard page; the board kind rides in the
/// first filter segment.
pub fn lb_buttons(current_page: u32, lb_type: &str) -> (r: Vec<Button>)
    ensures
        r.deep_view() == spec_nav_buttons(
            "leaderboard"@,
            current_page,
            Some(lb_type@),
            None::<Seq<char>>,
        ),
{
    nav_buttons("leaderboard", current_page, Some(lb_type), None)
}

} // verus!
