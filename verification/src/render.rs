//! The outbound message model: a title, an optional text body, labelled
//! fields, a footer and a color — what the platform renders as a rich
//! message — together with the hard cap on body length.

use vstd::prelude::*;

use crate::text::{append_str, chars_to_string};

verus! {

/// The accent color used for ordinary replies.
pub const COLOR_ACCENT: u32 = 0xF5A623;

/// The color used for error replies.
pub const COLOR_ERROR: u32 = 0xE74C3C;

/// The softer error color used for a missing-stats reply.
pub const COLOR_ERROR_ALT: u32 = 0xFF6B6B;

/// A labelled field of the outbound message.
pub struct Field {
    pub name: String,
    pub value: String,
    pub inline: bool,
}

/// The mathematical image of a [`Field`]: its texts as char sequences.
pub ghost struct SpecField {
    pub name: Seq<char>,
    pub value: Seq<char>,
    pub inline: bool,
}

impl View for Field {
    type V = SpecField;

    open spec fn view(&self) -> SpecField {
        SpecField { name: self.name@, value: self.value@, inline: self.inline }
    }
}

impl DeepView for Field {
    type V = SpecField;

    open spec fn deep_view(&self) -> SpecField {
        self.view()
    }
}

/// An outbound rich message before it is handed to the platform.
pub struct Rendered {
    pub title: Option<String>,
    pub description: Option<String>,
    pub fields: Vec<Field>,
    pub footer: Option<String>,
    pub color: u32,
}

/// The mathematical image of a [`Rendered`] message.
pub ghost struct SpecRendered {
    pub title: Option<Seq<char>>,
    pub description: Option<Seq<char>>,
    pub fields: Seq<SpecField>,
    pub footer: Option<Seq<char>>,
    pub color: u32,
}

impl View for Rendered {
    type V = SpecRendered;

    open spec fn view(&self) -> SpecRendered {
        SpecRendered {
            title: self.title.deep_view(),
            description: self.description.deep_view(),
            fields: self.fields.deep_view(),
            footer: self.footer.deep_view(),
            color: self.color,
        }
    }
}

/// The empty message every reply starts from.
pub open spec fn spec_empty_rendered() -> SpecRendered {
    SpecRendered {
        title: None,
        description: None,
        fields: Seq::empty(),
        footer: None,
        color: 0,
    }
}

impl Rendered {
    /// A message with nothing set yet.
    pub fn new() -> (r: Rendered)
        ensures
            r@ == spec_empty_rendered(),
    {
        let r = Rendered {
            title: None,
            description: None,
            fields: Vec::new(),
            footer: None,
            color: 0,
        };
        assert(r@.fields =~= spec_empty_rendered().fields);
        assert(r@ == spec_empty_rendered());
        r
    }

    /// Appends one labelled field.
    pub fn push_field(&mut self, name: String, value: String, inline: bool)
        ensures
            (final(self)@ == SpecRendered {
                fields: old(self)@.fields.push(
                    (SpecField { name: name@, value: value@, inline }),
                ),
                ..old(self)@
            }),
    {
        let ghost before = self@;
        self.fields.push(Field { name, value, inline });
        assert(self@.fields =~= before.fields.push(self.fields@.last()@));
    }
}

/// The length past which a body is cut back.
pub const BODY_CAP: usize = 4000;

/// The length a too-long body is cut back to, before the marker.
pub const BODY_KEEP: usize = 3950;

/// A body capped to the platform limit: text longer than 4000 chars is cut
/// to its first 3950 chars and the marker is appended; shorter text is kept
/// whole.
pub open spec fn spec_capped(s: Seq<char>, marker: Seq<char>) -> Seq<char> {
    if s.len() > 4000 {
        s.take(3950) + marker
    } else {
        s
    }
}

/// Never longer than the cap: whatever the body held, with any marker of
/// at most 50 chars the capped body fits in 4000 chars, an over-long body
/// is cut to exactly its first 3950 chars plus the marker, and a body
/// within the cap is kept whole.
pub proof fn lemma_capped_bounded(s: Seq<char>, marker: Seq<char>)
    requires
        marker.len() <= 50,
    ensures
        spec_capped(s, marker).len() <= 4000,
        s.len() > 4000 ==> spec_capped(s, marker) == s.take(3950) + marker,
        s.len() <= 4000 ==> spec_capped(s, marker) == s,
{
}

/// Cuts an assembled body back to the platform limit, appending `marker`
/// when anything was dropped.
pub fn cap_chars(body: Vec<char>, marker: &str) -> (r: Vec<char>)
    ensures
        r@ == spec_capped(body@, marker@),
{
    let mut body = body;
    if body.len() > BODY_CAP {
        body.truncate(BODY_KEEP);
        append_str(&mut body, marker);
    }
    body
}

/// The capped body as a `String`.
pub fn cap_to_string(body: Vec<char>, marker: &str) -> (r: String)
    ensures
        r@ == spec_capped(body@, marker@),
{
    let capped = cap_chars(body, marker);
    chars_to_string(&capped)
}

} // verus!
